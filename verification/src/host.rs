//! Managing the server component on the host system: the service commands
//! for either init system, the probes that tell whether the toolchain and
//! the daemon are present, and the full install and uninstall sequences.
//!
//! Every probe of the form `... && echo 'installed' || echo 'not_installed'`
//! is decided on the exact trimmed token, so the negative answer can never
//! be mistaken for the positive one.

use vstd::prelude::*;
use crate::distribution::{DistributionInfo, PackageManager};
use crate::policy::ExecError;
use crate::text::{str_eq, trim, trim_spec};

verus! {

/// Deployment of the server component on the host system.
pub struct HostDeployment {
    pub distribution: DistributionInfo,
}

impl HostDeployment {
    pub fn new(distribution: DistributionInfo) -> (h: HostDeployment)
        ensures
            h.distribution == distribution,
    {
        HostDeployment { distribution }
    }

    /// Probe: is the Go toolchain on the PATH?
    pub fn go_check_command() -> (c: String)
        ensures
            c@ == "command -v go >/dev/null 2>&1 && echo 'installed' || echo 'not_installed'"@,
    {
        String::from_str(
            "command -v go >/dev/null 2>&1 && echo 'installed' || echo 'not_installed'",
        )
    }

    /// Decides the Go probe's answer from its output token.
    pub fn check_go_installed(&self, probe_stdout: &str) -> (b: bool)
        ensures
            b == (trim_spec(probe_stdout@) == "installed"@),
    {
        str_eq(trim(probe_stdout), "installed")
    }

    /// The escalated command that installs the Go toolchain package, or
    /// nothing when it is already installed.
    pub fn install_go(&self, already_installed: bool) -> (r: Option<String>)
        ensures
            already_installed ==> r is None,
            !already_installed ==> (r matches Some(c) && c@ == crate::distribution::install_prefix(
                self.distribution.package_manager,
            ) + match self.distribution.package_manager {
                PackageManager::Apt => "golang-go"@,
                PackageManager::Dnf | PackageManager::Yum => "golang"@,
                PackageManager::Pacman | PackageManager::Zypper | PackageManager::Apk => "go"@,
            }),
    {
        if already_installed {
            return None;
        }
        let package = match self.distribution.package_manager {
            PackageManager::Apt => "golang-go",
            PackageManager::Dnf | PackageManager::Yum => "golang",
            PackageManager::Pacman | PackageManager::Zypper | PackageManager::Apk => "go",
        };
        let mut packages: Vec<String> = Vec::new();
        packages.push(String::from_str(package));
        Some(self.distribution.install_command(&packages))
    }

    /// Probe: is the server daemon's binary installed?
    pub fn rmdb_check_command() -> (c: String)
        ensures
            c@ == "test -f /usr/local/bin/rmdbd && echo 'installed' || echo 'not_installed'"@,
    {
        String::from_str(
            "test -f /usr/local/bin/rmdbd && echo 'installed' || echo 'not_installed'",
        )
    }

    /// Decides the daemon probe's answer from its output token.
    pub fn check_rmdb_installed(&self, probe_stdout: &str) -> (b: bool)
        ensures
            b == (trim_spec(probe_stdout@) == "installed"@),
    {
        str_eq(trim(probe_stdout), "installed")
    }

    /// Probe: does the host run systemd?
    pub fn systemd_check_command() -> (c: String)
        ensures
            c@ == "command -v systemctl >/dev/null 2>&1 && echo 'yes' || echo 'no'"@,
    {
        String::from_str("command -v systemctl >/dev/null 2>&1 && echo 'yes' || echo 'no'")
    }

    /// Starts the daemon under the host's init system.
    pub fn start_rmdb(&self, has_systemd: bool) -> (c: String)
        ensures
            has_systemd ==> c@ == "systemctl start rmdbd"@,
            !has_systemd ==> c@ == "rc-service rmdbd start"@,
    {
        if has_systemd {
            String::from_str("systemctl start rmdbd")
        } else {
            String::from_str("rc-service rmdbd start")
        }
    }

    /// Stops the daemon.
    pub fn stop_rmdb(&self, has_systemd: bool) -> (c: String)
        ensures
            has_systemd ==> c@ == "systemctl stop rmdbd"@,
            !has_systemd ==> c@ == "rc-service rmdbd stop"@,
    {
        if has_systemd {
            String::from_str("systemctl stop rmdbd")
        } else {
            String::from_str("rc-service rmdbd stop")
        }
    }

    /// Restarts the daemon.
    pub fn restart_rmdb(&self, has_systemd: bool) -> (c: String)
        ensures
            has_systemd ==> c@ == "systemctl restart rmdbd"@,
            !has_systemd ==> c@ == "rc-service rmdbd restart"@,
    {
        if has_systemd {
            String::from_str("systemctl restart rmdbd")
        } else {
            String::from_str("rc-service rmdbd restart")
        }
    }

    /// The status query for the daemon; prints `active` or `inactive`.
    pub fn rmdb_status_command(has_systemd: bool) -> (c: String)
        ensures
            has_systemd ==> c@ == "systemctl is-active rmdbd 2>/dev/null || echo 'inactive'"@,
            !has_systemd ==> c@
                == "rc-service rmdbd status 2>/dev/null | grep -q 'started' && echo 'active' || echo 'inactive'"@,
    {
        if has_systemd {
            String::from_str("systemctl is-active rmdbd 2>/dev/null || echo 'inactive'")
        } else {
            String::from_str(
                "rc-service rmdbd status 2>/dev/null | grep -q 'started' && echo 'active' || echo 'inactive'",
            )
        }
    }

    /// The daemon's status: the status query's trimmed output.
    pub fn get_rmdb_status(&self, probe_stdout: &str) -> (r: String)
        ensures
            r@ == trim_spec(probe_stdout@),
    {
        String::from_str(trim(probe_stdout))
    }

    /// Enables the daemon at boot.
    pub fn enable_rmdb(&self, has_systemd: bool) -> (c: String)
        ensures
            has_systemd ==> c@ == "systemctl enable rmdbd"@,
            !has_systemd ==> c@ == "rc-update add rmdbd default"@,
    {
        if has_systemd {
            String::from_str("systemctl enable rmdbd")
        } else {
            String::from_str("rc-update add rmdbd default")
        }
    }

    /// Disables the daemon at boot.
    pub fn disable_rmdb(&self, has_systemd: bool) -> (c: String)
        ensures
            has_systemd ==> c@ == "systemctl disable rmdbd"@,
            !has_systemd ==> c@ == "rc-update del rmdbd default"@,
    {
        if has_systemd {
            String::from_str("systemctl disable rmdbd")
        } else {
            String::from_str("rc-update del rmdbd default")
        }
    }

    /// The commands that write the service definition for the host's init
    /// system and load it, each with whether it needs escalation.
    pub fn create_service(&self, has_systemd: bool) -> (v: Vec<(String, bool)>)
        ensures
            has_systemd ==> {
                &&& v@.len() == 2
                &&& v@[0].0@
                    == "cat > /etc/systemd/system/rmdbd.service << 'SERVICEEOF'\n[Unit]\nDescription=RMDB Server\nAfter=network.target\n\n[Service]\nType=simple\nUser=root\nExecStart=/usr/local/bin/rmdbd -config /etc/rmdbd/config.json\nRestart=always\nRestartSec=5\nStandardOutput=journal\nStandardError=journal\n\n[Install]\nWantedBy=multi-user.target\nSERVICEEOF"@
                &&& v@[0].1 == true
                &&& v@[1].0@ == "systemctl daemon-reload"@
                &&& v@[1].1 == true
            },
            !has_systemd ==> {
                &&& v@.len() == 1
                &&& v@[0].0@
                    == "cat > /etc/init.d/rmdbd << 'SERVICEEOF'\n#!/sbin/openrc-run\ncommand=\"/usr/local/bin/rmdbd\"\ncommand_args=\"-config /etc/rmdbd/config.json\"\npidfile=\"/var/run/rmdbd.pid\"\ncommand_background=true\n\ndepend() {\n    need net\n    after firewall\n}\nSERVICEEOF && chmod +x /etc/init.d/rmdbd"@
                &&& v@[0].1 == true
            },
    {
        let mut v: Vec<(String, bool)> = Vec::new();
        if has_systemd {
            v.push(
                (
                    String::from_str(
                        "cat > /etc/systemd/system/rmdbd.service << 'SERVICEEOF'\n[Unit]\nDescription=RMDB Server\nAfter=network.target\n\n[Service]\nType=simple\nUser=root\nExecStart=/usr/local/bin/rmdbd -config /etc/rmdbd/config.json\nRestart=always\nRestartSec=5\nStandardOutput=journal\nStandardError=journal\n\n[Install]\nWantedBy=multi-user.target\nSERVICEEOF",
                    ),
                    true,
                ),
            );
            v.push((String::from_str("systemctl daemon-reload"), true));
        } else {
            v.push(
                (
                    String::from_str(
                        "cat > /etc/init.d/rmdbd << 'SERVICEEOF'\n#!/sbin/openrc-run\ncommand=\"/usr/local/bin/rmdbd\"\ncommand_args=\"-config /etc/rmdbd/config.json\"\npidfile=\"/var/run/rmdbd.pid\"\ncommand_background=true\n\ndepend() {\n    need net\n    after firewall\n}\nSERVICEEOF && chmod +x /etc/init.d/rmdbd",
                    ),
                    true,
                ),
            );
        }
        v
    }

    /// Whether the host installation may begin: the source tree must be on
    /// disk.  This guard precedes every command of the install sequence.
    pub fn install_rmdb_precheck(&self, rmdb_source_path: &str, source_exists: bool) -> (r: Result<
        (),
        ExecError,
    >)
        ensures
            r is Ok <==> source_exists,
            !source_exists ==> (r matches Err(e) && e matches ExecError::Failed(m) && m@
                == "Le répertoire source RMDB n'existe pas: "@ + rmdb_source_path@),
    {
        if !source_exists {
            return Err(
                ExecError::Failed(
                    String::from_str("Le répertoire source RMDB n'existe pas: ").concat(
                        rmdb_source_path,
                    ),
                ),
            );
        }
        Ok(())
    }

    /// The build-and-install sequence for the server component, from a
    /// source tree to an installed binary with configuration and data
    /// directories, each command with whether it needs escalation.  The
    /// service definition follows via [`Self::create_service`].
    pub fn install_rmdb(&self, rmdb_source_path: &str) -> (v: Vec<(String, bool)>)
        ensures
            v@.len() == 6,
            v@[0].0@ == "mkdir -p /tmp/rmdb_build"@ && v@[0].1 == true,
            v@[1].0@ == "cd "@ + rmdb_source_path@
                + " && tar -czf - --exclude='.git' --exclude='*.log' --exclude='*.db' --exclude='target' . | tar -xzf - -C /tmp/rmdb_build"@
                && v@[1].1 == true,
            v@[2].0@ == "cd /tmp/rmdb_build && go mod download"@ && v@[2].1 == false,
            v@[3].0@
                == "cd /tmp/rmdb_build/cmd/rmdbd && CGO_ENABLED=0 go build -trimpath -ldflags \"-s -w\" -o /usr/local/bin/rmdbd . && chmod +x /usr/local/bin/rmdbd"@
                && v@[3].1 == true,
            v@[4].0@
                == "mkdir -p /etc/rmdbd && cp /tmp/rmdb_build/configs/rmdbd.example.json /etc/rmdbd/config.json 2>/dev/null || true"@
                && v@[4].1 == true,
            v@[5].0@
                == "mkdir -p /var/lib/rmdb/www /var/lib/rmdb/tftpboot /var/lib/rmdb/images /var/lib/rmdb/vms /var/lib/rmdb/overlays /var/lib/rmdb/backups /var/lib/rmdb/audits /var/lib/rmdb/checksums /var/lib/rmdb/metrics"@
                && v@[5].1 == true,
    {
        let mut v: Vec<(String, bool)> = Vec::new();
        v.push((String::from_str("mkdir -p /tmp/rmdb_build"), true));
        v.push(
            (
                String::from_str("cd ").concat(rmdb_source_path).concat(
                    " && tar -czf - --exclude='.git' --exclude='*.log' --exclude='*.db' --exclude='target' . | tar -xzf - -C /tmp/rmdb_build",
                ),
                true,
            ),
        );
        v.push((String::from_str("cd /tmp/rmdb_build && go mod download"), false));
        v.push(
            (
                String::from_str(
                    "cd /tmp/rmdb_build/cmd/rmdbd && CGO_ENABLED=0 go build -trimpath -ldflags \"-s -w\" -o /usr/local/bin/rmdbd . && chmod +x /usr/local/bin/rmdbd",
                ),
                true,
            ),
        );
        v.push(
            (
                String::from_str(
                    "mkdir -p /etc/rmdbd && cp /tmp/rmdb_build/configs/rmdbd.example.json /etc/rmdbd/config.json 2>/dev/null || true",
                ),
                true,
            ),
        );
        v.push(
            (
                String::from_str(
                    "mkdir -p /var/lib/rmdb/www /var/lib/rmdb/tftpboot /var/lib/rmdb/images /var/lib/rmdb/vms /var/lib/rmdb/overlays /var/lib/rmdb/backups /var/lib/rmdb/audits /var/lib/rmdb/checksums /var/lib/rmdb/metrics",
                ),
                true,
            ),
        );
        v
    }

    /// The cleanup of the temporary build tree, run best-effort after an
    /// installation.
    pub fn cleanup_build_command() -> (c: String)
        ensures
            c@ == "rm -rf /tmp/rmdb_build"@,
    {
        String::from_str("rm -rf /tmp/rmdb_build")
    }

    /// The uninstall sequence: stop, disable, remove the binary, remove the
    /// service definition.  Stop and disable failures are ignored by the
    /// caller — the daemon may not be running.
    pub fn uninstall_rmdb(&self, has_systemd: bool) -> (v: Vec<(String, bool)>)
        ensures
            v@.len() == 4,
            v@[0].0@ == (if has_systemd {
                "systemctl stop rmdbd"@
            } else {
                "rc-service rmdbd stop"@
            }) && v@[0].1 == true,
            v@[1].0@ == (if has_systemd {
                "systemctl disable rmdbd"@
            } else {
                "rc-update del rmdbd default"@
            }) && v@[1].1 == true,
            v@[2].0@ == "rm -f /usr/local/bin/rmdbd"@ && v@[2].1 == true,
            v@[3].0@ == (if has_systemd {
                "rm -f /etc/systemd/system/rmdbd.service && systemctl daemon-reload"@
            } else {
                "rm -f /etc/init.d/rmdbd"@
            }) && v@[3].1 == true,
    {
        let mut v: Vec<(String, bool)> = Vec::new();
        v.push((self.stop_rmdb(has_systemd), true));
        v.push((self.disable_rmdb(has_systemd), true));
        v.push((String::from_str("rm -f /usr/local/bin/rmdbd"), true));
        if has_systemd {
            v.push(
                (
                    String::from_str(
                        "rm -f /etc/systemd/system/rmdbd.service && systemctl daemon-reload",
                    ),
                    true,
                ),
            );
        } else {
            v.push((String::from_str("rm -f /etc/init.d/rmdbd"), true));
        }
        v
    }
}

} // verus!
