use rmdb::distribution::{
    package_manager_for, DistributionInfo, LinuxDistribution, PackageManager,
};
use rmdb::host::HostDeployment;
use rmdb::installer::{
    compare_versions, GoInstaller, InstallationConfig, InstallationMode, InstallationType,
    RustInstaller, REQUIRED_GO_VERSION, REQUIRED_RUST_VERSION,
};

fn info(distro: LinuxDistribution, pm: PackageManager) -> DistributionInfo {
    DistributionInfo { distro, version: None, package_manager: pm }
}

#[test]
fn install_commands_per_package_manager() {
    let pkgs = vec!["lxc".to_string(), "lxc-templates".to_string()];
    let cases = [
        (PackageManager::Apt, "apt-get install -y lxc lxc-templates"),
        (PackageManager::Yum, "yum install -y lxc lxc-templates"),
        (PackageManager::Dnf, "dnf install -y lxc lxc-templates"),
        (PackageManager::Pacman, "pacman -S --noconfirm lxc lxc-templates"),
        (PackageManager::Zypper, "zypper install -y lxc lxc-templates"),
        (PackageManager::Apk, "apk add lxc lxc-templates"),
    ];
    for (pm, expected) in cases {
        let d = info(LinuxDistribution::Unknown, pm);
        assert_eq!(d.install_command(&pkgs), expected);
    }
}

#[test]
fn update_commands_per_package_manager() {
    assert_eq!(info(LinuxDistribution::Debian, PackageManager::Apt).update_command(), "apt-get update");
    assert_eq!(info(LinuxDistribution::CentOS, PackageManager::Yum).update_command(), "yum check-update || true");
    assert_eq!(info(LinuxDistribution::Alpine, PackageManager::Apk).update_command(), "apk update");
}

#[test]
fn package_manager_selection() {
    assert_eq!(
        package_manager_for(LinuxDistribution::Ubuntu, false, false, false, false, false, false),
        PackageManager::Apt
    );
    assert_eq!(
        package_manager_for(LinuxDistribution::RHEL, false, true, true, false, false, false),
        PackageManager::Dnf
    );
    assert_eq!(
        package_manager_for(LinuxDistribution::RHEL, false, false, true, false, false, false),
        PackageManager::Yum
    );
    assert_eq!(
        package_manager_for(LinuxDistribution::Unknown, false, false, false, true, false, false),
        PackageManager::Pacman
    );
    assert_eq!(
        package_manager_for(LinuxDistribution::Unknown, false, false, false, false, false, false),
        PackageManager::Apt
    );
}

#[test]
fn lxc_paths_and_root_requirement() {
    let rh = info(LinuxDistribution::RHEL, PackageManager::Dnf);
    assert_eq!(rh.lxc_config_path(true, "/home/op"), "/etc/lxc/default.conf");
    assert_eq!(
        rh.lxc_config_path(false, "/home/op"),
        "/home/op/.config/lxc/default.conf"
    );
    let deb = info(LinuxDistribution::Debian, PackageManager::Apt);
    assert_eq!(
        deb.lxc_config_path(true, "/home/op"),
        "/home/op/.config/lxc/default.conf"
    );
    assert_eq!(deb.lxc_container_path(true, "/home/op"), "/var/lib/lxc");
    assert_eq!(
        deb.lxc_container_path(false, "/home/op"),
        "/home/op/.local/share/lxc"
    );
    assert!(rh.needs_root_for_lxc());
    assert!(!deb.needs_root_for_lxc());
    assert_eq!(deb.package_name("lxc-templates"), "lxc-templates");
    assert_eq!(LinuxDistribution::OpenSUSE.name(), "opensuse");
}

#[test]
fn host_probe_tokens_are_exact() {
    let h = HostDeployment::new(info(LinuxDistribution::Debian, PackageManager::Apt));
    assert!(h.check_go_installed("installed\n"));
    assert!(!h.check_go_installed("not_installed\n"));
    assert!(h.check_rmdb_installed(" installed "));
    assert!(!h.check_rmdb_installed("not_installed"));
}

#[test]
fn host_service_commands() {
    let h = HostDeployment::new(info(LinuxDistribution::Debian, PackageManager::Apt));
    assert_eq!(h.start_rmdb(true), "systemctl start rmdbd");
    assert_eq!(h.start_rmdb(false), "rc-service rmdbd start");
    assert_eq!(h.stop_rmdb(true), "systemctl stop rmdbd");
    assert_eq!(h.restart_rmdb(false), "rc-service rmdbd restart");
    assert_eq!(h.enable_rmdb(true), "systemctl enable rmdbd");
    assert_eq!(h.enable_rmdb(false), "rc-update add rmdbd default");
    assert_eq!(h.disable_rmdb(true), "systemctl disable rmdbd");
    assert_eq!(h.disable_rmdb(false), "rc-update del rmdbd default");
    assert_eq!(h.get_rmdb_status(" active \n"), "active");
    assert_eq!(
        HostDeployment::rmdb_status_command(true),
        "systemctl is-active rmdbd 2>/dev/null || echo 'inactive'"
    );
}

#[test]
fn host_install_and_uninstall_plans() {
    let h = HostDeployment::new(info(LinuxDistribution::Debian, PackageManager::Apt));
    assert_eq!(h.install_go(true), None);
    assert_eq!(h.install_go(false), Some("apt-get install -y golang-go".to_string()));
    let dnf = HostDeployment::new(info(LinuxDistribution::Fedora, PackageManager::Dnf));
    assert_eq!(dnf.install_go(false), Some("dnf install -y golang".to_string()));

    let steps = h.install_rmdb("/opt/src");
    assert_eq!(steps.len(), 6);
    assert_eq!(steps[0].0, "mkdir -p /tmp/rmdb_build");
    assert!(!steps[2].1);
    assert!(steps[3].0.contains("go build"));

    let svc = h.create_service(true);
    assert_eq!(svc.len(), 2);
    assert!(svc[0].0.contains("WantedBy=multi-user.target"));
    assert_eq!(svc[1].0, "systemctl daemon-reload");
    let openrc = h.create_service(false);
    assert_eq!(openrc.len(), 1);
    assert!(openrc[0].0.contains("openrc-run"));

    let un = h.uninstall_rmdb(true);
    assert_eq!(un.len(), 4);
    assert_eq!(un[2].0, "rm -f /usr/local/bin/rmdbd");
    assert!(un[3].0.contains("daemon-reload"));
    assert_eq!(HostDeployment::cleanup_build_command(), "rm -rf /tmp/rmdb_build");
}

#[test]
fn version_comparison() {
    assert!(compare_versions("1.74.0", "1.70.0"));
    assert!(compare_versions("1.70.0", "1.70.0"));
    assert!(!compare_versions("1.69.9", "1.70.0"));
    assert!(compare_versions("2", "1.99.99"));
    assert!(compare_versions("1.70", "1.70.0"));
    assert!(!compare_versions("1.70", "1.70.1"));
    // Malformed components count as zero.
    assert!(!compare_versions("abc", "0.0.1"));
    assert!(compare_versions("1.x.5", "1.0.0"));
}

#[test]
fn toolchain_probes() {
    let deb = info(LinuxDistribution::Debian, PackageManager::Apt);
    let rust = RustInstaller::new(deb.clone());
    assert!(rust.check_rust_installed("rustc 1.74.0 (79e9716c9 2023-11-13)"));
    assert!(!rust.check_rust_installed("rustc 1.69.0 (84c898d65 2023-04-16)"));
    assert!(!rust.check_rust_installed("not_installed"));
    assert!(!rust.check_rust_installed("rustc"));

    let go = GoInstaller::new(deb);
    assert!(go.check_go_installed("go version go1.22.1 linux/amd64"));
    assert!(!go.check_go_installed("go version go1.20.5 linux/amd64"));
    assert!(!go.check_go_installed("not_installed"));
    assert!(!go.check_go_installed("go version"));
    assert_eq!(REQUIRED_RUST_VERSION, "1.70.0");
    assert_eq!(REQUIRED_GO_VERSION, "1.21.0");
}

#[test]
fn toolchain_install_plans() {
    let deb = info(LinuxDistribution::Debian, PackageManager::Apt);
    let rust = RustInstaller::new(deb.clone());
    assert!(rust.install(true, false).is_empty());
    let with_rustup = rust.install(false, true);
    assert_eq!(with_rustup.len(), 1);
    let bootstrap = rust.install(false, false);
    assert_eq!(bootstrap.len(), 3);
    assert!(bootstrap[0].contains("sh.rustup.rs"));

    let go = GoInstaller::new(deb);
    assert!(go.install(true, "linux", "amd64").is_empty());
    let plan = go.install(false, "linux", "amd64");
    assert_eq!(plan.len(), 5);
    assert!(plan[0].0.contains("go1.21.0.linux-amd64.tar.gz"));
    assert!(!plan[0].1);
    assert!(plan[2].1);

    assert_eq!(GoInstaller::go_arch_for("x86_64"), Some("amd64"));
    assert_eq!(GoInstaller::go_arch_for("aarch64"), Some("arm64"));
    assert_eq!(GoInstaller::go_arch_for("armv7l"), Some("armv6l"));
    assert_eq!(GoInstaller::go_arch_for("s390x"), Some("s390x"));
    assert_eq!(GoInstaller::go_arch_for("mips"), None);
}

#[test]
fn installation_config_builders() {
    let c = InstallationConfig::new(InstallationType::ContainerAlpine, "/opt/src".to_string())
        .with_container_name("web01".to_string())
        .with_alpine_version("3.20".to_string())
        .with_rust_install(false)
        .with_installation_mode(InstallationMode::TerminalTUI);
    assert_eq!(c.installation_type, InstallationType::ContainerAlpine);
    assert_eq!(c.rmdb_source_path, "/opt/src");
    assert_eq!(c.container_name, Some("web01".to_string()));
    assert_eq!(c.vm_name, None);
    assert_eq!(c.alpine_version, Some("3.20".to_string()));
    assert_eq!(c.rocky_version, Some("9".to_string()));
    assert!(!c.install_rust);
    assert!(c.install_go);
    assert_eq!(c.installation_mode, Some(InstallationMode::TerminalTUI));
    assert_eq!(InstallationMode::TerminalTUI.short_name(), "tui");
    assert_eq!(
        InstallationMode::DesktopGUI.display_name(),
        "Client graphique desktop (Mode normal)"
    );
    assert_eq!(
        InstallationMode::WebServer.display_name(),
        "Via le navigateur web (Mode serveur)"
    );
    assert_eq!(
        InstallationMode::TerminalTUI.display_name(),
        "En terminal TUI (Mode avancé)"
    );
}
