use rmdb::host::HostDeployment;
use rmdb::distribution::{
    classify_os_release, classify_redhat_release, parse_version_id, DistributionInfo,
    LinuxDistribution, PackageManager,
};
use rmdb::installer::{InstallationConfig, InstallationType, RMDBInstaller};
use rmdb::policy::ExecError;
use rmdb::reconcile::{names_sorted_check, sort_names, str_lt};
use rmdb::vm::VMDeployment;

fn info(distro: LinuxDistribution, pm: PackageManager) -> DistributionInfo {
    DistributionInfo { distro, version: None, package_manager: pm }
}

fn rocky_vm() -> VMDeployment {
    VMDeployment::new("rocky1".to_string(), "9".to_string(), info(LinuxDistribution::Debian, PackageManager::Apt))
}

#[test]
fn os_release_id_decides_first() {
    let content = "NAME=\"Rocky Linux\"\nID=\"rocky\"\nID_LIKE=\"rhel centos fedora\"\n";
    // Unknown ID falls through to the family line.
    assert_eq!(classify_os_release(content), Some(LinuxDistribution::CentOS));
    assert_eq!(
        classify_os_release("ID=debian\nID_LIKE=\"something\"\n"),
        Some(LinuxDistribution::Debian)
    );
    assert_eq!(classify_os_release("ID=Ubuntu\n"), Some(LinuxDistribution::Ubuntu));
    assert_eq!(classify_os_release("ID=\"opensuse-leap\"\n"), Some(LinuxDistribution::OpenSUSE));
    assert_eq!(classify_os_release("ID_LIKE=\"ubuntu debian\"\n"), Some(LinuxDistribution::Ubuntu));
    assert_eq!(classify_os_release("ID_LIKE=debian\n"), Some(LinuxDistribution::Debian));
    assert_eq!(classify_os_release("ID=sles\n"), None);
    assert_eq!(classify_os_release(""), None);
}

#[test]
fn redhat_release_classification() {
    assert_eq!(
        classify_redhat_release("CentOS Linux release 7.9.2009 (Core)"),
        LinuxDistribution::CentOS
    );
    assert_eq!(
        classify_redhat_release("Fedora release 39 (Thirty Nine)"),
        LinuxDistribution::Fedora
    );
    assert_eq!(
        classify_redhat_release("Red Hat Enterprise Linux release 9.3"),
        LinuxDistribution::RHEL
    );
}

#[test]
fn version_id_extraction() {
    assert_eq!(
        parse_version_id("ID=debian\nVERSION_ID=\"12\"\n"),
        Some("12".to_string())
    );
    assert_eq!(parse_version_id("VERSION_ID=9.3\n"), Some("9.3".to_string()));
    assert_eq!(parse_version_id("ID=arch\n"), None);
}

#[test]
fn names_are_sorted_for_display() {
    assert!(str_lt("alpha", "beta"));
    assert!(!str_lt("beta", "alpha"));
    assert!(str_lt("db", "db-2"));
    assert!(!str_lt("web01", "web01"));

    let names = vec!["web01".to_string(), "db-2".to_string(), "alpha".to_string()];
    let sorted = sort_names(&names);
    assert_eq!(
        sorted,
        vec!["alpha".to_string(), "db-2".to_string(), "web01".to_string()]
    );
    assert!(names_sorted_check(&sorted));
    assert!(!names_sorted_check(&names));
    assert!(names_sorted_check(&Vec::new()));
}

#[test]
fn virt_probes_and_prechecks() {
    let vm = rocky_vm();
    assert!(vm.check_virt_installed("installed\n"));
    assert!(!vm.check_virt_installed("not_installed\n"));
    assert!(vm.check_vm_exists(" exists "));
    assert!(!vm.check_vm_exists("not_exists"));
    assert!(vm.create_precheck(false).is_ok());
    match vm.create_precheck(true) {
        Err(ExecError::Failed(m)) => assert_eq!(m, "La VM rocky1 existe déjà"),
        other => panic!("expected Failed, got {:?}", other),
    }
    match vm.install_rmdb_precheck(false) {
        Err(ExecError::Failed(m)) => assert_eq!(m, "La VM rocky1 n'existe pas"),
        other => panic!("expected Failed, got {:?}", other),
    }
    assert!(vm.install_rmdb_precheck(true).is_ok());
}

#[test]
fn virt_install_plans() {
    let vm = rocky_vm();
    assert_eq!(vm.install_virt(true).unwrap(), None);
    assert_eq!(
        vm.install_virt(false).unwrap(),
        Some(
            "apt-get install -y qemu-kvm libvirt-daemon-system libvirt-clients virtinst virt-manager"
                .to_string()
        )
    );
    let dnf = VMDeployment::new(
        "rocky1".to_string(),
        "9".to_string(),
        info(LinuxDistribution::Fedora, PackageManager::Dnf),
    );
    assert_eq!(
        dnf.install_virt(false).unwrap(),
        Some("dnf install -y qemu-kvm libvirt libvirt-daemon virt-install virt-manager".to_string())
    );
    let apk = VMDeployment::new(
        "rocky1".to_string(),
        "9".to_string(),
        info(LinuxDistribution::Alpine, PackageManager::Apk),
    );
    assert!(matches!(apk.install_virt(false), Err(ExecError::MissingTool(_))));
}

#[test]
fn vm_command_strings() {
    let vm = rocky_vm();
    assert_eq!(vm.vm_dir(), "/var/lib/libvirt/images/rocky1");
    assert_eq!(
        vm.iso_path(),
        "/var/lib/libvirt/images/rocky1/Rocky-9-x86_64-minimal.iso"
    );
    assert_eq!(
        vm.vm_exists_check_command(),
        "virsh dominfo rocky1 2>/dev/null | grep -q 'Id:' && echo 'exists' || echo 'not_exists'"
    );
    assert_eq!(
        vm.status_query_command(),
        "virsh dominfo rocky1 | grep 'State:' | awk '{print $2}'"
    );
    assert_eq!(vm.start_vm_command(), "virsh start rocky1");
    assert_eq!(vm.stop_vm_command(), "virsh shutdown rocky1");
    assert_eq!(
        vm.destroy_vm_command(),
        "virsh undefine rocky1 --remove-all-storage"
    );
    assert_eq!(vm.cloud_init_script_path(), "/tmp/rmdb-cloud-init-rocky1.yaml");
    assert!(vm.cloud_init_script().starts_with("#cloud-config\n"));
    assert!(vm.cloud_init_script().contains("go build"));

    let with_iso = vm.create_vm_commands(true);
    assert_eq!(with_iso.len(), 3);
    assert_eq!(with_iso[0].0, "sudo mkdir -p /var/lib/libvirt/images/rocky1");
    assert_eq!(
        with_iso[1].0,
        "sudo qemu-img create -f qcow2 /var/lib/libvirt/images/rocky1/rocky1.qcow2 20G"
    );
    assert!(with_iso[2].0.starts_with("sudo virt-install --name rocky1 --ram 2048"));
    assert!(with_iso[2].0.ends_with("--os-variant rocky9 --wait -1"));

    let without_iso = vm.create_vm_commands(false);
    assert_eq!(without_iso.len(), 4);
    assert!(without_iso[1].0.contains("wget -q --show-progress"));
    assert!(without_iso[1]
        .0
        .contains("https://download.rockylinux.org/pub/rocky/9/isos/x86_64/Rocky-9-x86_64-minimal.iso"));
}

#[test]
fn vm_status_and_ip_parsing() {
    let vm = rocky_vm();
    assert!(vm.vm_is_running("running\n"));
    assert!(vm.vm_is_running("Running"));
    assert!(!vm.vm_is_running("shut off"));
    assert_eq!(vm.ip_query_commands().len(), 2);
    assert_eq!(
        VMDeployment::parse_ip_token(" 192.168.122.14 \n"),
        Some("192.168.122.14".to_string())
    );
    assert_eq!(VMDeployment::parse_ip_token("  \n"), None);
}

#[test]
fn installer_targets_must_be_named() {
    let deb = info(LinuxDistribution::Debian, PackageManager::Apt);
    let base = InstallationConfig::new(InstallationType::ContainerAlpine, "/opt/src".to_string());

    let unnamed = RMDBInstaller::new(base.clone(), deb.clone());
    match unnamed.container_target() {
        Err(ExecError::Failed(m)) => assert_eq!(m, "Nom du container requis"),
        other => panic!("expected Failed, got {:?}", other),
    }

    let named = RMDBInstaller::new(
        base.clone().with_container_name("web01".to_string()),
        deb.clone(),
    );
    assert_eq!(
        named.container_target().unwrap(),
        ("web01".to_string(), "3.19".to_string())
    );

    match unnamed.vm_target() {
        Err(ExecError::Failed(m)) => assert_eq!(m, "Nom de la VM requise"),
        other => panic!("expected Failed, got {:?}", other),
    }
    let vm_named = RMDBInstaller::new(base.with_vm_name("rocky1".to_string()), deb);
    assert_eq!(vm_named.vm_target().unwrap(), ("rocky1".to_string(), "9".to_string()));
}

#[test]
fn host_install_needs_its_source_tree() {
    let h = HostDeployment::new(info(LinuxDistribution::Debian, PackageManager::Apt));
    assert!(h.install_rmdb_precheck("/opt/src", true).is_ok());
    match h.install_rmdb_precheck("/nowhere", false) {
        Err(ExecError::Failed(m)) => {
            assert_eq!(m, "Le répertoire source RMDB n'existe pas: /nowhere");
        }
        other => panic!("expected Failed, got {:?}", other),
    }
}
