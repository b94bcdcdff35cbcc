//! Host tool availability, probed once at startup by the application and
//! injected as an immutable value.

use vstd::prelude::*;

verus! {

/// Which command-line tools the host offers.  Probed once (`command -v` per
/// tool) and then treated as configuration; the decision logic never
/// re-queries the host.
#[derive(Debug, Clone)]
pub struct Capabilities {
    pub has_systemctl: bool,
    pub has_service_cmd: bool,
    pub has_rc_service: bool,
    pub has_sv: bool,
    pub has_ip: bool,
    pub has_ss: bool,
    pub has_netstat: bool,
    pub has_lsof: bool,
    pub has_ping: bool,
    pub has_traceroute: bool,
    pub has_dig: bool,
    pub has_nslookup: bool,
    pub has_nft: bool,
    pub has_iptables: bool,
    pub has_ufw: bool,
    pub has_firewalld: bool,
    pub has_apt: bool,
    pub has_dnf: bool,
    pub has_yum: bool,
    pub has_pacman: bool,
    pub has_zypper: bool,
    pub has_rpm: bool,
    pub has_dpkg: bool,
    pub has_sudo: bool,
    pub has_rmdbd: bool,
    pub has_go: bool,
}

impl Default for Capabilities {
    /// A host with no tool detected.
    fn default() -> (c: Capabilities)
        ensures
            !c.has_systemctl,
            !c.has_service_cmd,
            !c.has_rc_service,
            !c.has_sv,
            !c.has_ip,
            !c.has_ss,
            !c.has_netstat,
            !c.has_lsof,
            !c.has_ping,
            !c.has_traceroute,
            !c.has_dig,
            !c.has_nslookup,
            !c.has_nft,
            !c.has_iptables,
            !c.has_ufw,
            !c.has_firewalld,
            !c.has_apt,
            !c.has_dnf,
            !c.has_yum,
            !c.has_pacman,
            !c.has_zypper,
            !c.has_rpm,
            !c.has_dpkg,
            !c.has_sudo,
            !c.has_rmdbd,
            !c.has_go,
    {
        Capabilities {
            has_systemctl: false,
            has_service_cmd: false,
            has_rc_service: false,
            has_sv: false,
            has_ip: false,
            has_ss: false,
            has_netstat: false,
            has_lsof: false,
            has_ping: false,
            has_traceroute: false,
            has_dig: false,
            has_nslookup: false,
            has_nft: false,
            has_iptables: false,
            has_ufw: false,
            has_firewalld: false,
            has_apt: false,
            has_dnf: false,
            has_yum: false,
            has_pacman: false,
            has_zypper: false,
            has_rpm: false,
            has_dpkg: false,
            has_sudo: false,
            has_rmdbd: false,
            has_go: false,
        }
    }
}

} // verus!
