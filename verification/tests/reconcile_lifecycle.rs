use rmdb::distribution::{DistributionInfo, LinuxDistribution, PackageManager};
use rmdb::executor::CommandOutput;
use rmdb::lxc::{lifecycle_step, ContainerVerification, CreateOutcome, LifecycleEvent, LifecycleState, LXCDeployment, VerificationSignals};
use rmdb::policy::ExecError;
use rmdb::lxc::{probe_exists, probe_found, probe_yes};
use rmdb::reconcile::{
    classify_status, is_valid_container_name, merge_accepted_lines, parse_csv_listing_line,
    parse_status_token, ContainerStatus,
};

fn alpine_distribution() -> DistributionInfo {
    DistributionInfo {
        distro: LinuxDistribution::Debian,
        version: Some("12".to_string()),
        package_manager: PackageManager::Apt,
    }
}

fn deployment(name: &str) -> LXCDeployment {
    LXCDeployment::new(name.to_string(), "3.19".to_string(), alpine_distribution())
}

fn signals(
    fs_dir: bool,
    cfg: bool,
    rootfs: bool,
    ls: bool,
    list: bool,
    status: Option<&str>,
    attach: Option<i32>,
) -> VerificationSignals {
    VerificationSignals {
        fs_dir_present: fs_dir,
        fs_has_config: cfg,
        fs_has_rootfs: rootfs,
        listed_by_ls: ls,
        listed_by_list: list,
        status_token: status.map(|s| s.to_string()),
        attach_exit: attach,
    }
}

#[test]
fn name_validator_excludes_error_prose() {
    // The documented filtering example: only the two real names survive.
    let raw = vec![
        "web01".to_string(),
        "bash: lxc-ls: command not found".to_string(),
        "  ".to_string(),
        "db-2".to_string(),
    ];
    let mut accepted: Vec<String> = Vec::new();
    merge_accepted_lines(&mut accepted, &raw);
    assert_eq!(accepted, vec!["web01".to_string(), "db-2".to_string()]);
}

#[test]
fn name_validator_rules() {
    assert!(is_valid_container_name("web01"));
    assert!(is_valid_container_name("db-2"));
    assert!(is_valid_container_name("under_score"));
    // Whitespace, colon, emptiness.
    assert!(!is_valid_container_name("two words"));
    assert!(!is_valid_container_name("sudo: a password is required"));
    assert!(!is_valid_container_name(""));
    // Length: 49 characters pass, 50 do not.
    assert!(is_valid_container_name(&"a".repeat(49)));
    assert!(!is_valid_container_name(&"a".repeat(50)));
    // Hyphen placement and hidden entries.
    assert!(!is_valid_container_name("-leading"));
    assert!(!is_valid_container_name("trailing-"));
    // Error-looking fragments, case-insensitively.
    assert!(!is_valid_container_name("Error42"));
    assert!(!is_valid_container_name("commandeinconnue"));
}

#[test]
fn merge_deduplicates_across_strategies() {
    let mut accepted: Vec<String> = Vec::new();
    merge_accepted_lines(
        &mut accepted,
        &vec!["alpha".to_string(), " beta ".to_string()],
    );
    merge_accepted_lines(
        &mut accepted,
        &vec!["beta".to_string(), "gamma".to_string(), "alpha".to_string()],
    );
    assert_eq!(
        accepted,
        vec!["alpha".to_string(), "beta".to_string(), "gamma".to_string()]
    );
}

#[test]
fn ground_truth_beats_every_listing() {
    // Reported by every listing strategy, nothing valid on disk: it does
    // not exist; it is a ghost.
    let d = deployment("ghosty");
    let v = d.verify_container(&signals(false, false, false, true, true, None, None));
    assert!(!v.exists);
    assert!(v.detectable_by_ls);
    assert!(v.detectable_by_list);
    assert!(v.is_ghost());
    assert!(!v.operational());
}

#[test]
fn bare_directory_is_not_a_container() {
    // Directory present but neither configuration file nor storage subtree:
    // not existing; managed is decided by the listings alone.
    let d = deployment("bare");
    let unlisted = d.verify_container(&signals(true, false, false, false, false, None, None));
    assert!(!unlisted.exists);
    assert!(unlisted.detectable_by_filesystem);
    assert!(!unlisted.is_ghost());

    let listed = d.verify_container(&signals(true, false, false, true, false, None, None));
    assert!(!listed.exists);
    assert!(listed.is_ghost());
}

#[test]
fn healthy_container_has_no_notes() {
    let d = deployment("healthy");
    let v = d.verify_container(&signals(true, true, true, true, true, Some("RUNNING"), Some(0)));
    assert!(v.exists);
    assert!(v.can_get_status);
    assert!(v.is_running);
    assert!(v.can_attach);
    assert!(v.operational());
    assert!(v.errors.is_empty());

    let stopped = d.verify_container(&signals(true, true, false, true, true, Some("STOPPED"), Some(1)));
    assert!(stopped.exists);
    assert!(!stopped.is_running);
    assert!(!stopped.errors.is_empty());
}

#[test]
fn privileged_existence_follows_the_filesystem() {
    let d = deployment("x");
    assert!(d.check_container_exists_with_executor(true, true, false));
    assert!(d.check_container_exists_with_executor(true, false, true));
    assert!(!d.check_container_exists_with_executor(true, false, false));
    assert!(!d.check_container_exists_with_executor(false, true, true));
}

#[test]
fn create_duplicate_is_rejected_before_any_command() {
    // verify says the name exists: the precheck fails and no creation
    // command is ever built or issued.
    let d = deployment("x");
    let mut creation_commands_issued = 0;
    match d.create_precheck(true, true) {
        Err(ExecError::Failed(m)) => {
            assert_eq!(m, "Le container x existe déjà");
        }
        other => panic!("expected Failed, got {:?}", other),
    }
    assert_eq!(creation_commands_issued, 0);
    // With the runtime installed and no duplicate, creation may begin.
    assert!(d.create_precheck(true, false).is_ok());
    creation_commands_issued += 1;
    assert_eq!(creation_commands_issued, 1);
    // Without the runtime, the missing tool is named.
    match d.create_precheck(false, false) {
        Err(ExecError::MissingTool(m)) => {
            assert!(m.contains("apt-get install -y lxc lxc-templates"));
        }
        other => panic!("expected MissingTool, got {:?}", other),
    }
}

#[test]
fn unconfirmed_create_is_unverified_not_error() {
    // The tool exited 0 but no verification attempt within the bound saw
    // the container: the outcome is Unverified — not an error, not plain
    // success.
    let attempts = vec![false, false, false, false, false];
    let confirmed = LXCDeployment::confirm_attempts(&attempts);
    assert!(!confirmed);
    let outcome = LXCDeployment::classify_create_outcome(true, confirmed);
    assert_eq!(outcome, CreateOutcome::Unverified);
    assert_ne!(outcome, CreateOutcome::Created);
    assert_ne!(outcome, CreateOutcome::Failed);

    // One late confirmation within the bound is enough.
    assert!(LXCDeployment::confirm_attempts(&vec![false, false, true]));
    assert_eq!(
        LXCDeployment::classify_create_outcome(true, true),
        CreateOutcome::Created
    );
    assert_eq!(
        LXCDeployment::classify_create_outcome(false, false),
        CreateOutcome::Failed
    );
}

#[test]
fn destroy_nonexistent_succeeds() {
    // The tool reports "target not found" (non-zero exit), but nothing of
    // the name remains on disk: destroy is idempotent and succeeds.
    assert!(LXCDeployment::classify_destroy(Some(1), true));
    assert!(LXCDeployment::classify_destroy(Some(0), false));
    assert!(!LXCDeployment::classify_destroy(Some(1), false));
    assert!(!LXCDeployment::classify_destroy(None, false));
}

#[test]
fn create_commands_cover_both_generations() {
    let d = deployment("web01");
    assert_eq!(
        d.primary_create_command(),
        "lxc-create -n web01 -t alpine -- --release v3.19"
    );
    assert_eq!(
        d.fallback_create_command(),
        "lxc-create -n web01 -t download -- --dist alpine --release 3.19 --arch amd64"
    );
}

#[test]
fn fallback_follows_primary_failure() {
    let ok = CommandOutput { exit_code: Some(0), stdout: String::new(), stderr: String::new() };
    let bad = CommandOutput { exit_code: Some(1), stdout: String::new(), stderr: String::new() };
    assert!(!LXCDeployment::needs_fallback_create(&Ok(ok)));
    assert!(LXCDeployment::needs_fallback_create(&Ok(bad)));
    assert!(LXCDeployment::needs_fallback_create(&Err(ExecError::Failed("spawn".to_string()))));
}

#[test]
fn start_and_stop_resolve_the_configuration_path() {
    let d = deployment("db-2");
    assert_eq!(
        d.start_container_command(&Some("/var/lib/lxc/db-2/config".to_string())),
        "lxc-start -f /var/lib/lxc/db-2/config -n db-2"
    );
    assert_eq!(
        d.start_container_command(&None),
        "lxc-start -P /var/lib/lxc -n db-2"
    );
    assert_eq!(
        d.stop_container_command(&None),
        "lxc-stop -P /var/lib/lxc -n db-2"
    );
    assert_eq!(
        d.retry_with_config_command("lxc-start", true, false, true),
        Some("lxc-start -f /var/lib/lxc/db-2/config -n db-2".to_string())
    );
    assert_eq!(d.retry_with_config_command("lxc-start", false, false, true), None);
    assert_eq!(d.retry_with_config_command("lxc-stop", true, true, true), None);
}

#[test]
fn destroy_and_cleanup_commands() {
    assert_eq!(
        LXCDeployment::destroy_command("old"),
        "lxc-destroy -f -n old 2>&1"
    );
    let cleanup = LXCDeployment::cleanup_ghost_commands("old");
    assert_eq!(
        cleanup,
        vec![
            "sudo -n rm -f /var/lib/lxc/.lxc-lock-old 2>/dev/null || true".to_string(),
            "sudo -n rm -f /var/lib/lxc/old/.lxc-lock 2>/dev/null || true".to_string(),
        ]
    );
}

#[test]
fn storage_roots_and_config_candidates() {
    let d = deployment("web01");
    assert_eq!(
        d.container_paths("/home/op"),
        vec![
            "/var/lib/lxc/web01".to_string(),
            "/home/op/.local/share/lxc/web01".to_string(),
            "/var/lib/lxd/containers/web01".to_string(),
        ]
    );
    assert_eq!(
        d.config_path_candidates("/home/op"),
        vec![
            "/var/lib/lxc/web01/config".to_string(),
            "/var/lib/lxd/containers/web01/config".to_string(),
            "/home/op/.local/share/lxc/web01/config".to_string(),
        ]
    );
}

#[test]
fn probe_tokens_are_matched_exactly() {
    assert!(probe_found("found\n"));
    assert!(!probe_found("not found\n"));
    assert!(probe_yes(" yes "));
    assert!(!probe_yes("no"));
    assert!(probe_exists("exists"));
    assert!(!probe_exists("not exists"));
}

#[test]
fn unprivileged_existence_merges_strategies() {
    let d = deployment("web01");
    // Plain enumerator needs the exact trimmed name.
    assert!(d.check_container_exists(&Some("other\n web01 \n".to_string()), &None, &None, false));
    // The verbose enumerator only needs the name somewhere in a line.
    assert!(d.check_container_exists(&None, &Some("NAME STATE\nweb01 RUNNING\n".to_string()), &None, false));
    // The structured enumerator needs the exact name again.
    assert!(!d.check_container_exists(&None, &None, &Some("web012\n".to_string()), false));
    // The filesystem alone is enough.
    assert!(d.check_container_exists(&None, &None, &None, true));
    assert!(!d.check_container_exists(&None, &None, &None, false));
}

#[test]
fn status_chain_prefers_the_state_field() {
    let d = deployment("x");
    assert_eq!(d.get_container_status("RUNNING\n", "", None), "RUNNING");
    assert_eq!(d.get_container_status("STARTING\n", "", None), "STARTING");
    // Error prose in the field query is no status: the chain falls through.
    assert_eq!(d.get_container_status("some error text\n", "stopped", None), "STOPPED");
    // Placeholder or empty field: fall back to the structured listing.
    assert_eq!(d.get_container_status("UNKNOWN\n", "running\n", None), "RUNNING");
    assert_eq!(d.get_container_status("", "Stopped", None), "STOPPED");
    assert_eq!(d.get_container_status("", "frozen", None), "FROZEN");
    // Last resort: the attach probe.
    assert_eq!(d.get_container_status("", "", Some(0)), "RUNNING");
    assert_eq!(d.get_container_status("", "", Some(1)), "UNKNOWN");
    assert_eq!(d.get_container_status("", "", None), "UNKNOWN");
}

#[test]
fn status_tokens_and_classification() {
    assert_eq!(parse_status_token(" RUNNING \n"), Some("RUNNING".to_string()));
    assert_eq!(parse_status_token("UNKNOWN"), None);
    assert_eq!(parse_status_token("   "), None);
    assert_eq!(parse_status_token("some error text"), None);

    assert_eq!(classify_status("RUNNING"), ContainerStatus::Running);
    assert_eq!(classify_status("stopped,0"), ContainerStatus::Stopped);
    assert_eq!(classify_status("Frozen"), ContainerStatus::Frozen);
    assert_eq!(classify_status("???"), ContainerStatus::Unknown);
    assert_eq!(ContainerStatus::Running.as_str(), "RUNNING");
    assert_eq!(ContainerStatus::Unknown.as_str(), "UNKNOWN");
}

#[test]
fn attach_status_output_classification() {
    assert_eq!(
        LXCDeployment::status_from_attach_output("running\nRUNNING\n"),
        Some(ContainerStatus::Running)
    );
    assert_eq!(
        LXCDeployment::status_from_attach_output("STOPPED\n"),
        Some(ContainerStatus::Stopped)
    );
    assert_eq!(LXCDeployment::status_from_attach_output("junk"), None);
}

#[test]
fn csv_listing_lines_are_validated() {
    assert_eq!(
        parse_csv_listing_line("web01,RUNNING"),
        Some(("web01".to_string(), Some("RUNNING".to_string())))
    );
    assert_eq!(parse_csv_listing_line("db-2"), Some(("db-2".to_string(), None)));
    assert_eq!(parse_csv_listing_line("NAME,STATE"), None);
    assert_eq!(parse_csv_listing_line("bash: lxc: command not found"), None);
    assert_eq!(parse_csv_listing_line(""), None);
}

#[test]
fn container_info_assembly() {
    let d = LXCDeployment::get_container_info("web01", "RUNNING".to_string(), " 10.0.3.5 \n", " x86_64 \n");
    assert_eq!(d.name, "web01");
    assert_eq!(d.ip, "10.0.3.5");
    assert_eq!(d.arch, "x86_64");
    let s = LXCDeployment::get_container_info("db-2", "STOPPED".to_string(), "10.0.3.6", "  ");
    assert_eq!(s.ip, "");
    assert_eq!(s.arch, "unknown");
}

#[test]
fn verification_struct_fields_track_signals() {
    let d = deployment("n");
    let v: ContainerVerification =
        d.verify_container(&signals(true, true, false, false, true, Some("STOPPED"), Some(1)));
    assert!(v.exists);
    assert!(!v.detectable_by_ls);
    assert!(v.detectable_by_list);
    assert!(v.detectable_by_filesystem);
    assert!(v.can_get_status);
    assert!(!v.is_running);
    assert!(!v.can_attach);
}

#[test]
fn probe_command_strings() {
    assert_eq!(
        LXCDeployment::dir_check_command("/var/lib/lxc/x"),
        "test -d /var/lib/lxc/x && echo 'found' || echo 'not found'"
    );
    assert_eq!(
        LXCDeployment::config_check_command("/var/lib/lxc/x"),
        "test -f /var/lib/lxc/x/config && echo 'yes' || echo 'no'"
    );
    assert_eq!(
        LXCDeployment::rootfs_check_command("/var/lib/lxc/x"),
        "test -d /var/lib/lxc/x/rootfs && echo 'yes' || echo 'no'"
    );
    assert_eq!(
        LXCDeployment::ls_grep_command("x", true),
        "sudo -n lxc-ls -1 2>/dev/null | grep -q '^x$' && echo 'found' || echo 'not found'"
    );
    assert_eq!(
        LXCDeployment::csv_grep_command("x"),
        "lxc list --format csv -c n 2>/dev/null | grep -q '^x$' && echo 'found' || echo 'not found'"
    );
    assert_eq!(LXCDeployment::raw_ls_command(false), "lxc-ls -1 2>&1");
    assert_eq!(
        LXCDeployment::attach_probe_command("x"),
        "lxc-attach -n x -- echo 'test' 2>&1"
    );
    assert_eq!(
        LXCDeployment::status_query_command("x", true),
        "sudo -n lxc-info -n x -s 2>/dev/null | grep 'State:' | awk '{print $2}' || echo 'UNKNOWN'"
    );
    assert_eq!(
        LXCDeployment::csv_status_command("x"),
        "lxc list x --format csv -c s 2>/dev/null | head -1 || echo 'UNKNOWN'"
    );
    assert_eq!(LXCDeployment::template_paths().len(), 4);
    assert_eq!(
        LXCDeployment::lxc_installed_check_command(),
        "command -v lxc-create >/dev/null 2>&1"
    );
}

#[test]
fn removal_and_template_checks() {
    assert!(LXCDeployment::check_container_fully_removed(false));
    assert!(!LXCDeployment::check_container_fully_removed(true));
    assert!(LXCDeployment::check_lxc_templates(true, false));
    assert!(LXCDeployment::check_lxc_templates(false, true));
    assert!(!LXCDeployment::check_lxc_templates(false, false));
}

#[test]
fn container_install_plan() {
    let d = deployment("web01");
    assert!(d.install_rmdb_precheck(true, true).is_ok());
    assert!(matches!(
        d.install_rmdb_precheck(false, true),
        Err(ExecError::Failed(_))
    ));
    assert!(matches!(
        d.install_rmdb_precheck(true, false),
        Err(ExecError::Failed(_))
    ));

    let steps = d.install_rmdb_in_container_steps("/opt/src");
    assert_eq!(steps.len(), 9);
    assert_eq!(steps[0].0, "lxc-attach -n web01 -- mkdir -p /root/rmdb");
    assert!(steps[1].0.starts_with("cd /opt/src && tar -czf -"));
    assert!(steps.iter().all(|(_, admin)| *admin));

    let cfg = d.default_lxc_config("/var/lib/lxc");
    assert!(cfg.contains("lxc.rootfs.path = dir:/var/lib/lxc"));
    assert!(!cfg.contains("userns.conf"));
    let rh = LXCDeployment::new(
        "web01".to_string(),
        "3.19".to_string(),
        DistributionInfo {
            distro: LinuxDistribution::RHEL,
            version: None,
            package_manager: PackageManager::Dnf,
        },
    );
    assert!(rh.default_lxc_config("/var/lib/lxc").contains("userns.conf"));
}

#[test]
fn lifecycle_states_track_observations() {
    let s = LifecycleState::Unknown;
    let s = lifecycle_step(s, LifecycleEvent::CreateIssued);
    assert_eq!(s, LifecycleState::Creating);
    let s = lifecycle_step(s, LifecycleEvent::ToolReportedSuccess);
    assert_eq!(s, LifecycleState::CreatedUnconfirmed);
    // The confirmation budget runs out: the state stays unconfirmed, which
    // is neither a confirmed state nor back to Unknown.
    let s = lifecycle_step(s, LifecycleEvent::ConfirmationTimedOut);
    assert_eq!(s, LifecycleState::CreatedUnconfirmed);
    let s = lifecycle_step(s, LifecycleEvent::Confirmed(ContainerStatus::Running));
    assert_eq!(s, LifecycleState::ConfirmedRunning);
    let s = lifecycle_step(s, LifecycleEvent::DestroySucceeded);
    assert_eq!(s, LifecycleState::Destroyed);

    // A failed creation returns the name to Unknown.
    let f = lifecycle_step(LifecycleState::Creating, LifecycleEvent::ToolReportedFailure);
    assert_eq!(f, LifecycleState::Unknown);
}
