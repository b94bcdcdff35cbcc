//! Installation planning: where the server component goes (host, container
//! or VM), which toolchains it needs, and the version checks and command
//! sequences for getting them there.

use vstd::prelude::*;
use crate::policy::ExecError;
use crate::text::{
    all_digits, contains_seq, contains_str, digits_val, has_prefix, split_char, split_spec,
    split_ws_tokens, starts_with_str, views_of, ws_tokens,
};

verus! {

/// How the installed server is meant to be used.
#[derive(Debug, Clone, Copy, PartialEq, Eq, Structural)]
pub enum InstallationMode {
    /// Desktop client (normal mode).
    DesktopGUI,
    /// Through the web browser (server mode).
    WebServer,
    /// In a terminal (advanced mode).
    TerminalTUI,
}

impl InstallationMode {
    /// Display name of the mode.
    pub fn display_name(&self) -> (r: &'static str)
        ensures
            r@ == match self {
                InstallationMode::DesktopGUI => "Client graphique desktop (Mode normal)"@,
                InstallationMode::WebServer => "Via le navigateur web (Mode serveur)"@,
                InstallationMode::TerminalTUI => "En terminal TUI (Mode avancé)"@,
            },
    {
        match self {
            InstallationMode::DesktopGUI => "Client graphique desktop (Mode normal)",
            InstallationMode::WebServer => "Via le navigateur web (Mode serveur)",
            InstallationMode::TerminalTUI => "En terminal TUI (Mode avancé)",
        }
    }

    /// Short name of the mode.
    pub fn short_name(&self) -> (r: &'static str)
        ensures
            r@ == match self {
                InstallationMode::DesktopGUI => "desktop"@,
                InstallationMode::WebServer => "web"@,
                InstallationMode::TerminalTUI => "tui"@,
            },
    {
        match self {
            InstallationMode::DesktopGUI => "desktop",
            InstallationMode::WebServer => "web",
            InstallationMode::TerminalTUI => "tui",
        }
    }
}

/// Where the server component is installed.
#[derive(Debug, Clone, Copy, PartialEq, Eq, Structural)]
pub enum InstallationType {
    /// On the host system itself.
    Host,
    /// In an Alpine Linux container.
    ContainerAlpine,
    /// In a Rocky Linux virtual machine.
    VMRocky,
}

/// Everything an installation run needs to know.
#[derive(Debug, Clone)]
pub struct InstallationConfig {
    pub installation_type: InstallationType,
    pub rmdb_source_path: String,
    pub container_name: Option<String>,
    pub vm_name: Option<String>,
    pub alpine_version: Option<String>,
    pub rocky_version: Option<String>,
    pub install_rust: bool,
    pub install_go: bool,
    pub installation_mode: Option<InstallationMode>,
}

impl InstallationConfig {
    pub fn new(installation_type: InstallationType, rmdb_source_path: String) -> (c:
        InstallationConfig)
        ensures
            c.installation_type == installation_type,
            c.rmdb_source_path == rmdb_source_path,
            c.container_name is None,
            c.vm_name is None,
            c.alpine_version matches Some(v) && v@ == "3.19"@,
            c.rocky_version matches Some(v) && v@ == "9"@,
            c.install_rust,
            c.install_go,
            c.installation_mode is None,
    {
        InstallationConfig {
            installation_type,
            rmdb_source_path,
            container_name: None,
            vm_name: None,
            alpine_version: Some(String::from_str("3.19")),
            rocky_version: Some(String::from_str("9")),
            install_rust: true,
            install_go: true,
            installation_mode: None,
        }
    }

    pub fn with_container_name(self, name: String) -> (c: InstallationConfig)
        ensures
            c == (InstallationConfig { container_name: Some(name), ..self }),
    {
        InstallationConfig { container_name: Some(name), ..self }
    }

    pub fn with_vm_name(self, name: String) -> (c: InstallationConfig)
        ensures
            c == (InstallationConfig { vm_name: Some(name), ..self }),
    {
        InstallationConfig { vm_name: Some(name), ..self }
    }

    pub fn with_alpine_version(self, version: String) -> (c: InstallationConfig)
        ensures
            c == (InstallationConfig { alpine_version: Some(version), ..self }),
    {
        InstallationConfig { alpine_version: Some(version), ..self }
    }

    pub fn with_rocky_version(self, version: String) -> (c: InstallationConfig)
        ensures
            c == (InstallationConfig { rocky_version: Some(version), ..self }),
    {
        InstallationConfig { rocky_version: Some(version), ..self }
    }

    pub fn with_rust_install(self, install: bool) -> (c: InstallationConfig)
        ensures
            c == (InstallationConfig { install_rust: install, ..self }),
    {
        InstallationConfig { install_rust: install, ..self }
    }

    pub fn with_go_install(self, install: bool) -> (c: InstallationConfig)
        ensures
            c == (InstallationConfig { install_go: install, ..self }),
    {
        InstallationConfig { install_go: install, ..self }
    }

    pub fn with_installation_mode(self, mode: InstallationMode) -> (c: InstallationConfig)
        ensures
            c == (InstallationConfig { installation_mode: Some(mode), ..self }),
    {
        InstallationConfig { installation_mode: Some(mode), ..self }
    }
}

/// The value of the `i`-th dot-separated version component: its decimal
/// value when it is a plain number that fits, else 0 (missing components
/// compare as 0).
pub open spec fn part_num(parts: Seq<Seq<char>>, i: int) -> int {
    if 0 <= i < parts.len() && parts[i].len() > 0 && all_digits(parts[i]) && digits_val(parts[i])
        <= u32::MAX {
        digits_val(parts[i])
    } else {
        0
    }
}

/// Component-wise version comparison from component `i` on: the installed
/// version is at least the required one.
pub open spec fn version_ge_from(a: Seq<Seq<char>>, b: Seq<Seq<char>>, i: int) -> bool
    decreases a.len() + b.len() - i,
{
    if i >= a.len() && i >= b.len() {
        true
    } else if part_num(a, i) > part_num(b, i) {
        true
    } else if part_num(a, i) < part_num(b, i) {
        false
    } else {
        version_ge_from(a, b, i + 1)
    }
}

/// The installed dotted version is at least the required one.
pub open spec fn version_at_least(installed: Seq<char>, required: Seq<char>) -> bool {
    version_ge_from(split_spec(installed, '.'), split_spec(required, '.'), 0)
}

/// The value of one version component, as executed.
fn version_part(parts: &Vec<String>, i: usize) -> (v: u32)
    ensures
        v == part_num(views_of(parts@), i as int),
{
    if i < parts.len() {
        match crate::text::parse_u32_dec(parts[i].as_str()) {
            Some(v) => v,
            None => 0,
        }
    } else {
        0
    }
}

/// Compares two dotted decimal versions, component by component; missing or
/// malformed components count as 0.  Returns whether `installed` satisfies
/// `required`.
pub fn compare_versions(installed: &str, required: &str) -> (b: bool)
    ensures
        b == version_at_least(installed@, required@),
{
    let pa = split_char(installed, '.');
    let pb = split_char(required, '.');
    let ghost va = views_of(pa@);
    let ghost vb = views_of(pb@);
    let la = pa.len();
    let lb = pb.len();
    let bound = if la > lb {
        la
    } else {
        lb
    };
    let mut i: usize = 0;
    while i < bound
        invariant
            0 <= i <= bound,
            va == views_of(pa@),
            vb == views_of(pb@),
            va == split_spec(installed@, '.'),
            vb == split_spec(required@, '.'),
            la == va.len(),
            lb == vb.len(),
            bound == if la > lb {
                la
            } else {
                lb
            },
            version_ge_from(va, vb, 0) == version_ge_from(va, vb, i as int),
        decreases bound - i,
    {
        let na = version_part(&pa, i);
        let nb = version_part(&pb, i);
        if na > nb {
            return true;
        }
        if na < nb {
            return false;
        }
        i = i + 1;
    }
    true
}

pub const REQUIRED_RUST_VERSION: &'static str = "1.70.0";

pub const REQUIRED_GO_VERSION: &'static str = "1.21.0";

/// Plans the Rust toolchain installation.
pub struct RustInstaller {
    pub distribution: crate::distribution::DistributionInfo,
}

impl RustInstaller {
    pub fn new(distribution: crate::distribution::DistributionInfo) -> (r: RustInstaller)
        ensures
            r.distribution == distribution,
    {
        RustInstaller { distribution }
    }

    /// Decides from the version probe's output whether a sufficient Rust
    /// toolchain is installed.  The probe prints `not_installed` or a line
    /// like `rustc 1.74.0 (...)`; the second whitespace token is the
    /// version.
    pub fn check_rust_installed(&self, probe_stdout: &str) -> (b: bool)
        ensures
            b == ({
                let toks = ws_tokens(probe_stdout@);
                &&& !contains_seq(probe_stdout@, "not_installed"@)
                &&& toks.len() >= 2
                &&& version_ge_from(split_spec(toks[1], '.'), split_spec("1.70.0"@, '.'), 0)
            }),
    {
        if contains_str(probe_stdout, "not_installed") {
            return false;
        }
        let toks = split_ws_tokens(probe_stdout);
        if toks.len() < 2 {
            return false;
        }
        compare_versions(toks[1].as_str(), REQUIRED_RUST_VERSION)
    }

    /// The command sequence that brings the Rust toolchain up to the
    /// required version: nothing when it is already sufficient; otherwise
    /// the toolchain installer is bootstrapped first when absent, and the
    /// stable toolchain installed and updated.  None of these commands needs
    /// escalation.
    pub fn install(&self, already_sufficient: bool, has_rustup: bool) -> (v: Vec<String>)
        ensures
            already_sufficient ==> v@.len() == 0,
            (!already_sufficient && has_rustup) ==> (v@.len() == 1 && v@[0]@
                == "rustup install stable && rustup default stable && rustup update stable"@),
            (!already_sufficient && !has_rustup) ==> {
                &&& v@.len() == 3
                &&& v@[0]@
                    == "curl --proto '=https' --tlsv1.2 -sSf https://sh.rustup.rs | sh -s -- -y --default-toolchain stable"@
                &&& v@[1]@ == "source $HOME/.cargo/env"@
                &&& v@[2]@
                    == "rustup install stable && rustup default stable && rustup update stable"@
            },
    {
        let mut v: Vec<String> = Vec::new();
        if already_sufficient {
            return v;
        }
        if !has_rustup {
            v.push(
                String::from_str(
                    "curl --proto '=https' --tlsv1.2 -sSf https://sh.rustup.rs | sh -s -- -y --default-toolchain stable",
                ),
            );
            v.push(String::from_str("source $HOME/.cargo/env"));
        }
        v.push(
            String::from_str(
                "rustup install stable && rustup default stable && rustup update stable",
            ),
        );
        v
    }
}

/// The Go release architecture for a machine token, if the machine is
/// supported.
pub open spec fn go_arch_spec(m: Seq<char>) -> Option<Seq<char>> {
    if m == "x86_64"@ || m == "amd64"@ {
        Some("amd64"@)
    } else if m == "aarch64"@ || m == "arm64"@ {
        Some("arm64"@)
    } else if m == "armv7l"@ || m == "armv6l"@ {
        Some("armv6l"@)
    } else if m == "ppc64le"@ {
        Some("ppc64le"@)
    } else if m == "s390x"@ {
        Some("s390x"@)
    } else {
        None
    }
}

/// Plans the Go toolchain installation.
pub struct GoInstaller {
    pub distribution: crate::distribution::DistributionInfo,
}

impl GoInstaller {
    pub fn new(distribution: crate::distribution::DistributionInfo) -> (r: GoInstaller)
        ensures
            r.distribution == distribution,
    {
        GoInstaller { distribution }
    }

    /// Decides from the version probe's output whether a sufficient Go
    /// toolchain is installed.  The probe prints `not_installed` or a line
    /// like `go version go1.22.1 linux/amd64`; the third whitespace token is
    /// the version, with a `go` prefix.
    pub fn check_go_installed(&self, probe_stdout: &str) -> (b: bool)
        ensures
            b == ({
                let toks = ws_tokens(probe_stdout@);
                &&& !contains_seq(probe_stdout@, "not_installed"@)
                &&& toks.len() >= 3
                &&& has_prefix(toks[2], "go"@)
                &&& version_ge_from(
                    split_spec(toks[2].skip(2), '.'),
                    split_spec("1.21.0"@, '.'),
                    0,
                )
            }),
    {
        if contains_str(probe_stdout, "not_installed") {
            return false;
        }
        let toks = split_ws_tokens(probe_stdout);
        if toks.len() < 3 {
            return false;
        }
        let tok = toks[2].as_str();
        if !starts_with_str(tok, "go") {
            return false;
        }
        proof {
            reveal_strlit("go");
            assert("go"@.len() == 2);
        }
        let version = tok.substring_char(2, tok.unicode_len());
        proof {
            assert(version@ =~= toks@[2]@.skip(2));
        }
        compare_versions(version, REQUIRED_GO_VERSION)
    }

    /// Maps the machine token reported by `uname -m` to the Go release
    /// architecture name.
    pub fn go_arch_for(machine: &str) -> (r: Option<&'static str>)
        ensures
            r is Some <==> go_arch_spec(machine@) is Some,
            r matches Some(a) ==> go_arch_spec(machine@) == Some(a@),
    {
        if crate::text::str_eq(machine, "x86_64") || crate::text::str_eq(machine, "amd64") {
            Some("amd64")
        } else if crate::text::str_eq(machine, "aarch64") || crate::text::str_eq(
            machine,
            "arm64",
        ) {
            Some("arm64")
        } else if crate::text::str_eq(machine, "armv7l") || crate::text::str_eq(
            machine,
            "armv6l",
        ) {
            Some("armv6l")
        } else if crate::text::str_eq(machine, "ppc64le") {
            Some("ppc64le")
        } else if crate::text::str_eq(machine, "s390x") {
            Some("s390x")
        } else {
            None
        }
    }

    /// The command sequence that installs the required Go release for the
    /// given OS and architecture, each with whether it needs escalation:
    /// download, removal of the old tree, extraction, profile setup,
    /// cleanup.  Empty when the toolchain is already sufficient.
    pub fn install(&self, already_sufficient: bool, go_os: &str, go_arch: &str) -> (v: Vec<
        (String, bool),
    >)
        ensures
            already_sufficient ==> v@.len() == 0,
            !already_sufficient ==> ({
                let tarball = "go1.21.0."@ + go_os@ + "-"@ + go_arch@ + ".tar.gz"@;
                &&& v@.len() == 5
                &&& v@[0].0@ == "cd /tmp && curl -L -o "@ + tarball + " https://go.dev/dl/"@
                    + tarball
                &&& v@[0].1 == false
                &&& v@[1].0@ == "sudo rm -rf /usr/local/go"@
                &&& v@[1].1 == true
                &&& v@[2].0@ == "sudo tar -C /usr/local -xzf /tmp/"@ + tarball
                &&& v@[2].1 == true
                &&& v@[3].0@
                    == "sudo bash -c 'cat > /etc/profile.d/go.sh << \"EOF\"\n#!/bin/bash\nexport PATH=$PATH:/usr/local/go/bin\nEOF' && sudo chmod +x /etc/profile.d/go.sh"@
                &&& v@[3].1 == true
                &&& v@[4].0@ == "rm -f /tmp/"@ + tarball
                &&& v@[4].1 == false
            }),
    {
        let mut v: Vec<(String, bool)> = Vec::new();
        if already_sufficient {
            return v;
        }
        let tarball = String::from_str("go1.21.0.").concat(go_os).concat("-").concat(
            go_arch,
        ).concat(".tar.gz");
        v.push(
            (
                String::from_str("cd /tmp && curl -L -o ").concat(tarball.as_str()).concat(
                    " https://go.dev/dl/",
                ).concat(tarball.as_str()),
                false,
            ),
        );
        v.push((String::from_str("sudo rm -rf /usr/local/go"), true));
        v.push(
            (String::from_str("sudo tar -C /usr/local -xzf /tmp/").concat(tarball.as_str()), true),
        );
        v.push(
            (
                String::from_str(
                    "sudo bash -c 'cat > /etc/profile.d/go.sh << \"EOF\"\n#!/bin/bash\nexport PATH=$PATH:/usr/local/go/bin\nEOF' && sudo chmod +x /etc/profile.d/go.sh",
                ),
                true,
            ),
        );
        v.push((String::from_str("rm -f /tmp/").concat(tarball.as_str()), false));
        v
    }
}


/// Orchestrates one installation run: the configuration, and the checks that
/// the chosen target is fully named.  The command sequences come from the
/// host, container and virtual-machine planners; the application runs them.
pub struct RMDBInstaller {
    pub config: InstallationConfig,
    pub distribution: crate::distribution::DistributionInfo,
}

impl RMDBInstaller {
    pub fn new(config: InstallationConfig, distribution: crate::distribution::DistributionInfo) -> (r:
        RMDBInstaller)
        ensures
            r.config == config,
            r.distribution == distribution,
    {
        RMDBInstaller { config, distribution }
    }

    /// The container name and image version a container installation
    /// targets; both must be configured.
    pub fn container_target(&self) -> (r: Result<(String, String), ExecError>)
        ensures
            r is Ok <==> (self.config.container_name is Some && self.config.alpine_version
                is Some),
            r matches Ok(t) ==> (self.config.container_name == Some(t.0)
                && self.config.alpine_version == Some(t.1)),
            self.config.container_name is None ==> (r matches Err(e)
                && e matches ExecError::Failed(m) && m@ == "Nom du container requis"@),
            (self.config.container_name is Some && self.config.alpine_version is None) ==> (
            r matches Err(e) && e matches ExecError::Failed(m) && m@ == "Version Alpine requise"@),
    {
        let name = match &self.config.container_name {
            Some(n) => n.clone(),
            None => {
                return Err(ExecError::Failed(String::from_str("Nom du container requis")));
            },
        };
        let version = match &self.config.alpine_version {
            Some(v) => v.clone(),
            None => {
                return Err(ExecError::Failed(String::from_str("Version Alpine requise")));
            },
        };
        Ok((name, version))
    }

    /// The machine name and release a virtual-machine installation targets;
    /// both must be configured.
    pub fn vm_target(&self) -> (r: Result<(String, String), ExecError>)
        ensures
            r is Ok <==> (self.config.vm_name is Some && self.config.rocky_version is Some),
            r matches Ok(t) ==> (self.config.vm_name == Some(t.0) && self.config.rocky_version
                == Some(t.1)),
            self.config.vm_name is None ==> (r matches Err(e) && e matches ExecError::Failed(m)
                && m@ == "Nom de la VM requise"@),
            (self.config.vm_name is Some && self.config.rocky_version is None) ==> (r matches Err(
                e,
            ) && e matches ExecError::Failed(m) && m@ == "Version Rocky requise"@),
    {
        let name = match &self.config.vm_name {
            Some(n) => n.clone(),
            None => {
                return Err(ExecError::Failed(String::from_str("Nom de la VM requise")));
            },
        };
        let version = match &self.config.rocky_version {
            Some(v) => v.clone(),
            None => {
                return Err(ExecError::Failed(String::from_str("Version Rocky requise")));
            },
        };
        Ok((name, version))
    }
}

} // verus!
