//! Virtual-machine lifecycle decisions: the libvirt probes, the creation
//! and control commands for a Rocky Linux guest, and the classification of
//! their outcomes.  As everywhere, the application runs the commands and
//! hands the outputs back as plain values.

use vstd::prelude::*;
use crate::distribution::{DistributionInfo, PackageManager};
use crate::policy::ExecError;
use crate::text::{contains_seq, contains_str_ci, lower_seq, str_eq, trim, trim_spec};

verus! {

/// Driver for one named virtual machine.
pub struct VMDeployment {
    pub vm_name: String,
    pub rocky_version: String,
    pub distribution: DistributionInfo,
}

impl VMDeployment {
    pub fn new(vm_name: String, rocky_version: String, distribution: DistributionInfo) -> (d:
        VMDeployment)
        ensures
            d.vm_name == vm_name,
            d.rocky_version == rocky_version,
            d.distribution == distribution,
    {
        VMDeployment { vm_name, rocky_version, distribution }
    }

    /// Probe: are the virtualization tools on the PATH?
    pub fn virt_check_command() -> (c: String)
        ensures
            c@ == "command -v virsh >/dev/null 2>&1 && command -v virt-install >/dev/null 2>&1 && echo 'installed' || echo 'not_installed'"@,
    {
        String::from_str(
            "command -v virsh >/dev/null 2>&1 && command -v virt-install >/dev/null 2>&1 && echo 'installed' || echo 'not_installed'",
        )
    }

    /// Decides the virtualization probe's answer from its output token.
    pub fn check_virt_installed(&self, probe_stdout: &str) -> (b: bool)
        ensures
            b == (trim_spec(probe_stdout@) == "installed"@),
    {
        str_eq(trim(probe_stdout), "installed")
    }

    /// The escalated command that installs the virtualization stack, or
    /// nothing when it is already installed; a package manager without a
    /// known package set is a missing tool.
    pub fn install_virt(&self, already_installed: bool) -> (r: Result<Option<String>, ExecError>)
        ensures
            already_installed ==> (r matches Ok(o) && o is None),
            (!already_installed && self.distribution.package_manager is Apk) ==> (r matches Err(e)
                && e matches ExecError::MissingTool(m) && m@
                == "Gestionnaire de paquets non supporté pour l'installation de libvirt"@),
            (!already_installed && !(self.distribution.package_manager is Apk)) ==> (r matches Ok(
                o,
            ) && o matches Some(c) && c@ == crate::distribution::install_prefix(
                self.distribution.package_manager,
            ) + crate::distribution::join_spaces(
                match self.distribution.package_manager {
                    PackageManager::Apt => seq![
                        "qemu-kvm"@,
                        "libvirt-daemon-system"@,
                        "libvirt-clients"@,
                        "virtinst"@,
                        "virt-manager"@,
                    ],
                    PackageManager::Dnf | PackageManager::Yum => seq![
                        "qemu-kvm"@,
                        "libvirt"@,
                        "libvirt-daemon"@,
                        "virt-install"@,
                        "virt-manager"@,
                    ],
                    PackageManager::Pacman => seq![
                        "qemu"@,
                        "libvirt"@,
                        "virt-install"@,
                        "virt-manager"@,
                    ],
                    PackageManager::Zypper => seq![
                        "qemu-kvm"@,
                        "libvirt"@,
                        "virt-install"@,
                        "virt-manager"@,
                    ],
                    PackageManager::Apk => Seq::empty(),
                },
            )),
    {
        if already_installed {
            return Ok(None);
        }
        let mut packages: Vec<String> = Vec::new();
        match self.distribution.package_manager {
            PackageManager::Apt => {
                packages.push(String::from_str("qemu-kvm"));
                packages.push(String::from_str("libvirt-daemon-system"));
                packages.push(String::from_str("libvirt-clients"));
                packages.push(String::from_str("virtinst"));
                packages.push(String::from_str("virt-manager"));
            },
            PackageManager::Dnf | PackageManager::Yum => {
                packages.push(String::from_str("qemu-kvm"));
                packages.push(String::from_str("libvirt"));
                packages.push(String::from_str("libvirt-daemon"));
                packages.push(String::from_str("virt-install"));
                packages.push(String::from_str("virt-manager"));
            },
            PackageManager::Pacman => {
                packages.push(String::from_str("qemu"));
                packages.push(String::from_str("libvirt"));
                packages.push(String::from_str("virt-install"));
                packages.push(String::from_str("virt-manager"));
            },
            PackageManager::Zypper => {
                packages.push(String::from_str("qemu-kvm"));
                packages.push(String::from_str("libvirt"));
                packages.push(String::from_str("virt-install"));
                packages.push(String::from_str("virt-manager"));
            },
            PackageManager::Apk => {
                return Err(
                    ExecError::MissingTool(
                        String::from_str(
                            "Gestionnaire de paquets non supporté pour l'installation de libvirt",
                        ),
                    ),
                );
            },
        }
        proof {
            assert(crate::text::views_of(packages@) =~= match self.distribution.package_manager {
                PackageManager::Apt => seq![
                    "qemu-kvm"@,
                    "libvirt-daemon-system"@,
                    "libvirt-clients"@,
                    "virtinst"@,
                    "virt-manager"@,
                ],
                PackageManager::Dnf | PackageManager::Yum => seq![
                    "qemu-kvm"@,
                    "libvirt"@,
                    "libvirt-daemon"@,
                    "virt-install"@,
                    "virt-manager"@,
                ],
                PackageManager::Pacman => seq!["qemu"@, "libvirt"@, "virt-install"@, "virt-manager"@],
                PackageManager::Zypper => seq![
                    "qemu-kvm"@,
                    "libvirt"@,
                    "virt-install"@,
                    "virt-manager"@,
                ],
                PackageManager::Apk => Seq::empty(),
            });
        }
        Ok(Some(self.distribution.install_command(&packages)))
    }

    /// Probe: does the hypervisor know a domain of this name?
    pub fn vm_exists_check_command(&self) -> (c: String)
        ensures
            c@ == "virsh dominfo "@ + self.vm_name@
                + " 2>/dev/null | grep -q 'Id:' && echo 'exists' || echo 'not_exists'"@,
    {
        String::from_str("virsh dominfo ").concat(self.vm_name.as_str()).concat(
            " 2>/dev/null | grep -q 'Id:' && echo 'exists' || echo 'not_exists'",
        )
    }

    /// Decides the existence probe's answer from its output token.
    pub fn check_vm_exists(&self, probe_stdout: &str) -> (b: bool)
        ensures
            b == (trim_spec(probe_stdout@) == "exists"@),
    {
        str_eq(trim(probe_stdout), "exists")
    }

    /// Whether creation may begin: a duplicate is rejected, not merged.
    pub fn create_precheck(&self, already_exists: bool) -> (r: Result<(), ExecError>)
        ensures
            r is Ok <==> !already_exists,
            already_exists ==> (r matches Err(e) && e matches ExecError::Failed(m) && m@
                == "La VM "@ + self.vm_name@ + " existe déjà"@),
    {
        if already_exists {
            return Err(
                ExecError::Failed(
                    String::from_str("La VM ").concat(self.vm_name.as_str()).concat(
                        " existe déjà",
                    ),
                ),
            );
        }
        Ok(())
    }

    /// The directory holding this machine's disks and installation media.
    pub fn vm_dir(&self) -> (d: String)
        ensures
            d@ == "/var/lib/libvirt/images/"@ + self.vm_name@,
    {
        String::from_str("/var/lib/libvirt/images/").concat(self.vm_name.as_str())
    }

    /// The path of the installation image.
    pub fn iso_path(&self) -> (p: String)
        ensures
            p@ == "/var/lib/libvirt/images/"@ + self.vm_name@ + "/Rocky-"@ + self.rocky_version@
                + "-x86_64-minimal.iso"@,
    {
        self.vm_dir().concat("/Rocky-").concat(self.rocky_version.as_str()).concat(
            "-x86_64-minimal.iso",
        )
    }

    /// Probe: is the installation image already on disk?
    pub fn iso_check_command(&self) -> (c: String)
        ensures
            c@ == "test -f "@ + "/var/lib/libvirt/images/"@ + self.vm_name@ + "/Rocky-"@
                + self.rocky_version@ + "-x86_64-minimal.iso"@
                + " && echo 'exists' || echo 'not_exists'"@,
    {
        String::from_str("test -f ").concat(self.iso_path().as_str()).concat(
            " && echo 'exists' || echo 'not_exists'",
        )
    }

    /// The command sequence that creates the machine, each with whether it
    /// needs escalation: the image directory, the installation image when it
    /// is not yet on disk, the copy-on-write disk, and the guest definition.
    pub fn create_vm_commands(&self, iso_present: bool) -> (v: Vec<(String, bool)>)
        ensures
            ({
                let dir = "/var/lib/libvirt/images/"@ + self.vm_name@;
                let iso = dir + "/Rocky-"@ + self.rocky_version@ + "-x86_64-minimal.iso"@;
                let disk = dir + "/"@ + self.vm_name@ + ".qcow2"@;
                let n: int = if iso_present {
                    3
                } else {
                    4
                };
                let d: int = if iso_present {
                    0
                } else {
                    1
                };
                &&& v@.len() == n
                &&& v@[0].0@ == "sudo mkdir -p "@ + dir
                &&& v@[0].1 == true
                &&& (!iso_present ==> v@[1].0@ == "cd "@ + dir
                    + " && sudo wget -q --show-progress -O "@ + iso
                    + " https://download.rockylinux.org/pub/rocky/"@ + self.rocky_version@
                    + "/isos/x86_64/Rocky-"@ + self.rocky_version@ + "-x86_64-minimal.iso"@)
                &&& (!iso_present ==> v@[1].1 == true)
                &&& v@[1 + d].0@ == "sudo qemu-img create -f qcow2 "@ + disk + " 20G"@
                &&& v@[1 + d].1 == true
                &&& v@[2 + d].0@ == "sudo virt-install --name "@ + self.vm_name@
                    + " --ram 2048 --vcpus 2 --disk path="@ + disk
                    + ",size=20,format=qcow2 --cdrom "@ + iso
                    + " --network network=default --graphics vnc,listen=0.0.0.0 --noautoconsole --os-type linux --os-variant rocky"@
                    + self.rocky_version@ + " --wait -1"@
                &&& v@[2 + d].1 == true
            }),
    {
        let dir = self.vm_dir();
        let iso = self.iso_path();
        let disk = self.vm_dir().concat("/").concat(self.vm_name.as_str()).concat(".qcow2");
        let mut v: Vec<(String, bool)> = Vec::new();
        v.push((String::from_str("sudo mkdir -p ").concat(dir.as_str()), true));
        if !iso_present {
            v.push(
                (
                    String::from_str("cd ").concat(dir.as_str()).concat(
                        " && sudo wget -q --show-progress -O ",
                    ).concat(iso.as_str()).concat(
                        " https://download.rockylinux.org/pub/rocky/",
                    ).concat(self.rocky_version.as_str()).concat("/isos/x86_64/Rocky-").concat(
                        self.rocky_version.as_str(),
                    ).concat("-x86_64-minimal.iso"),
                    true,
                ),
            );
        }
        v.push(
            (
                String::from_str("sudo qemu-img create -f qcow2 ").concat(disk.as_str()).concat(
                    " 20G",
                ),
                true,
            ),
        );
        v.push(
            (
                String::from_str("sudo virt-install --name ").concat(self.vm_name.as_str()).concat(
                    " --ram 2048 --vcpus 2 --disk path=",
                ).concat(disk.as_str()).concat(",size=20,format=qcow2 --cdrom ").concat(
                    iso.as_str(),
                ).concat(
                    " --network network=default --graphics vnc,listen=0.0.0.0 --noautoconsole --os-type linux --os-variant rocky",
                ).concat(self.rocky_version.as_str()).concat(" --wait -1"),
                true,
            ),
        );
        v
    }

    /// The guest's state query: prints the `State:` value.
    pub fn status_query_command(&self) -> (c: String)
        ensures
            c@ == "virsh dominfo "@ + self.vm_name@ + " | grep 'State:' | awk '{print $2}'"@,
    {
        String::from_str("virsh dominfo ").concat(self.vm_name.as_str()).concat(
            " | grep 'State:' | awk '{print $2}'",
        )
    }

    /// Whether the state query reports a running guest.
    pub fn vm_is_running(&self, status_stdout: &str) -> (b: bool)
        ensures
            b == contains_seq(lower_seq(status_stdout@), lower_seq("running"@)),
    {
        contains_str_ci(status_stdout, "running")
    }

    /// The guest's address queries, tried in order.
    pub fn ip_query_commands(&self) -> (v: Vec<String>)
        ensures
            v@.len() == 2,
            v@[0]@ == "virsh domifaddr "@ + self.vm_name@
                + " 2>/dev/null | grep -oP '\\d+\\.\\d+\\.\\d+\\.\\d+' | head -1"@,
            v@[1]@ == "virsh domiflist "@ + self.vm_name@
                + " 2>/dev/null | tail -n +2 | head -1 | awk '{print $1}' | xargs -I IFACE ip neigh show 2>/dev/null | grep IFACE | awk '{print $1}' | head -1"@,
    {
        let mut v: Vec<String> = Vec::new();
        v.push(
            String::from_str("virsh domifaddr ").concat(self.vm_name.as_str()).concat(
                " 2>/dev/null | grep -oP '\\d+\\.\\d+\\.\\d+\\.\\d+' | head -1",
            ),
        );
        v.push(
            String::from_str("virsh domiflist ").concat(self.vm_name.as_str()).concat(
                " 2>/dev/null | tail -n +2 | head -1 | awk '{print $1}' | xargs -I IFACE ip neigh show 2>/dev/null | grep IFACE | awk '{print $1}' | head -1",
            ),
        );
        v
    }

    /// The usable address token of an address query, if any.
    pub fn parse_ip_token(stdout: &str) -> (r: Option<String>)
        ensures
            trim_spec(stdout@).len() > 0 ==> (r matches Some(v) && v@ == trim_spec(stdout@)),
            trim_spec(stdout@).len() == 0 ==> r is None,
    {
        let t = trim(stdout);
        if t.is_empty() {
            None
        } else {
            Some(String::from_str(t))
        }
    }

    /// Whether installing into the guest may begin: it must exist.
    pub fn install_rmdb_precheck(&self, vm_exists: bool) -> (r: Result<(), ExecError>)
        ensures
            r is Ok <==> vm_exists,
            !vm_exists ==> (r matches Err(e) && e matches ExecError::Failed(m) && m@ == "La VM "@
                + self.vm_name@ + " n'existe pas"@),
    {
        if !vm_exists {
            return Err(
                ExecError::Failed(
                    String::from_str("La VM ").concat(self.vm_name.as_str()).concat(
                        " n'existe pas",
                    ),
                ),
            );
        }
        Ok(())
    }

    /// Where the generated first-boot provisioning script is written.
    pub fn cloud_init_script_path(&self) -> (p: String)
        ensures
            p@ == "/tmp/rmdb-cloud-init-"@ + self.vm_name@ + ".yaml"@,
    {
        String::from_str("/tmp/rmdb-cloud-init-").concat(self.vm_name.as_str()).concat(".yaml")
    }

    /// The first-boot provisioning script: it installs the Go toolchain,
    /// then builds and registers the server component from a source tree
    /// placed in the guest.  The application writes it to
    /// [`Self::cloud_init_script_path`].
    pub fn cloud_init_script(&self) -> (c: String)
        ensures
            c@ == "#cloud-config\n# Script d'installation RMDB pour Rocky Linux\n\npackage_update: true\npackage_upgrade: true\n\npackages:\n  - wget\n  - tar\n  - git\n  - gcc\n  - make\n\nwrite_files:\n  - path: /root/install_rmdb.sh\n    permissions: '0755'\n    content: |\n      #!/bin/bash\n      set -e\n      GO_VERSION=\"1.21.0\"\n      cd /tmp\n      wget -q https://go.dev/dl/go${GO_VERSION}.linux-amd64.tar.gz\n      tar -C /usr/local -xzf go${GO_VERSION}.linux-amd64.tar.gz\n      echo 'export PATH=$PATH:/usr/local/go/bin' >> /etc/profile\n      source /etc/profile\n      if [ -d /root/rmdb_source ]; then\n          cd /root/rmdb_source\n          go mod download\n          CGO_ENABLED=0 go build -trimpath -ldflags \"-s -w\" -o /usr/local/bin/rmdbd ./cmd/rmdbd\n          chmod +x /usr/local/bin/rmdbd\n          mkdir -p /etc/rmdbd\n          cp configs/rmdbd.example.json /etc/rmdbd/config.json 2>/dev/null || true\n          mkdir -p /var/lib/rmdb/www /var/lib/rmdb/images /var/lib/rmdb/vms /var/lib/rmdb/overlays /var/lib/rmdb/backups /var/lib/rmdb/audits\n          cat > /etc/systemd/system/rmdbd.service << 'EOF'\n      [Unit]\n      Description=RMDB Server\n      After=network.target\n\n      [Service]\n      Type=simple\n      ExecStart=/usr/local/bin/rmdbd -config /etc/rmdbd/config.json\n      Restart=always\n      RestartSec=5\n\n      [Install]\n      WantedBy=multi-user.target\n      EOF\n          systemctl daemon-reload\n          systemctl enable rmdbd\n      fi\n\nruncmd:\n  - /root/install_rmdb.sh\n"@,
    {
        String::from_str(
            "#cloud-config\n# Script d'installation RMDB pour Rocky Linux\n\npackage_update: true\npackage_upgrade: true\n\npackages:\n  - wget\n  - tar\n  - git\n  - gcc\n  - make\n\nwrite_files:\n  - path: /root/install_rmdb.sh\n    permissions: '0755'\n    content: |\n      #!/bin/bash\n      set -e\n      GO_VERSION=\"1.21.0\"\n      cd /tmp\n      wget -q https://go.dev/dl/go${GO_VERSION}.linux-amd64.tar.gz\n      tar -C /usr/local -xzf go${GO_VERSION}.linux-amd64.tar.gz\n      echo 'export PATH=$PATH:/usr/local/go/bin' >> /etc/profile\n      source /etc/profile\n      if [ -d /root/rmdb_source ]; then\n          cd /root/rmdb_source\n          go mod download\n          CGO_ENABLED=0 go build -trimpath -ldflags \"-s -w\" -o /usr/local/bin/rmdbd ./cmd/rmdbd\n          chmod +x /usr/local/bin/rmdbd\n          mkdir -p /etc/rmdbd\n          cp configs/rmdbd.example.json /etc/rmdbd/config.json 2>/dev/null || true\n          mkdir -p /var/lib/rmdb/www /var/lib/rmdb/images /var/lib/rmdb/vms /var/lib/rmdb/overlays /var/lib/rmdb/backups /var/lib/rmdb/audits\n          cat > /etc/systemd/system/rmdbd.service << 'EOF'\n      [Unit]\n      Description=RMDB Server\n      After=network.target\n\n      [Service]\n      Type=simple\n      ExecStart=/usr/local/bin/rmdbd -config /etc/rmdbd/config.json\n      Restart=always\n      RestartSec=5\n\n      [Install]\n      WantedBy=multi-user.target\n      EOF\n          systemctl daemon-reload\n          systemctl enable rmdbd\n      fi\n\nruncmd:\n  - /root/install_rmdb.sh\n",
        )
    }

    /// Starts the guest.
    pub fn start_vm_command(&self) -> (c: String)
        ensures
            c@ == "virsh start "@ + self.vm_name@,
    {
        String::from_str("virsh start ").concat(self.vm_name.as_str())
    }

    /// Asks the guest to shut down.
    pub fn stop_vm_command(&self) -> (c: String)
        ensures
            c@ == "virsh shutdown "@ + self.vm_name@,
    {
        String::from_str("virsh shutdown ").concat(self.vm_name.as_str())
    }

    /// Removes the guest's definition and storage; a best-effort shutdown
    /// precedes it.
    pub fn destroy_vm_command(&self) -> (c: String)
        ensures
            c@ == "virsh undefine "@ + self.vm_name@ + " --remove-all-storage"@,
    {
        String::from_str("virsh undefine ").concat(self.vm_name.as_str()).concat(
            " --remove-all-storage",
        )
    }
}

} // verus!
