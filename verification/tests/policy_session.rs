use rmdb::capabilities::Capabilities;
use rmdb::executor::{CommandExecutor, CommandOutput};
use rmdb::policy::{authorize, ActionMode, ExecError};
use rmdb::session::{AuthError, CredentialSession};

fn caps_with_sudo(has_sudo: bool) -> Capabilities {
    let mut caps = Capabilities::default();
    caps.has_sudo = has_sudo;
    caps
}

#[test]
fn policy_gate_refuses_every_non_admin_trust() {
    // Privileged requests below Admin are NotAllowed whatever the state of
    // the escalation mechanism.
    for trust in [ActionMode::ReadOnly, ActionMode::Safe] {
        for escalation in [false, true] {
            match authorize(true, trust, escalation) {
                Err(ExecError::NotAllowed(_)) => {}
                other => panic!("expected NotAllowed, got {:?}", other),
            }
        }
    }
}

#[test]
fn policy_requires_escalation_mechanism_in_admin() {
    match authorize(true, ActionMode::Admin, false) {
        Err(ExecError::MissingTool(_)) => {}
        other => panic!("expected MissingTool, got {:?}", other),
    }
    assert!(authorize(true, ActionMode::Admin, true).is_ok());
}

#[test]
fn policy_allows_unprivileged_everywhere() {
    for trust in [ActionMode::ReadOnly, ActionMode::Safe, ActionMode::Admin] {
        assert!(authorize(false, trust, false).is_ok());
    }
}

#[test]
fn executor_denial_spawns_nothing() {
    // On denial no plan exists: the spawn count of any fake stays zero
    // because there is nothing to hand it.
    let exec = CommandExecutor::new(ActionMode::Safe, caps_with_sudo(true));
    let mut spawn_count = 0;
    match exec.plan_shell("ls /", true) {
        Ok(plan) => {
            spawn_count += 1;
            let _ = plan;
        }
        Err(ExecError::NotAllowed(_)) => {}
        Err(other) => panic!("expected NotAllowed, got {:?}", other),
    }
    assert_eq!(spawn_count, 0);
}

#[test]
fn executor_wraps_privileged_commands_non_interactively() {
    let exec = CommandExecutor::new(ActionMode::Admin, caps_with_sudo(true));
    let plan = exec.plan_shell("lxc-ls -1", true).unwrap();
    assert!(plan.elevated);
    assert_eq!(plan.program, "sudo");
    assert_eq!(plan.args, vec!["-n", "sh", "-c", "lxc-ls -1"]);
}

#[test]
fn executor_runs_unprivileged_commands_as_user() {
    let exec = CommandExecutor::new(ActionMode::ReadOnly, caps_with_sudo(false));
    let plan = exec.plan_shell("echo hi", false).unwrap();
    assert!(!plan.elevated);
    assert_eq!(plan.program, "sh");
    assert_eq!(plan.args, vec!["-lc", "echo hi"]);
}

#[test]
fn executor_mode_can_be_changed() {
    let mut exec = CommandExecutor::new(ActionMode::Safe, caps_with_sudo(true));
    assert_eq!(exec.mode(), ActionMode::Safe);
    exec.set_mode(ActionMode::Admin);
    assert_eq!(exec.mode(), ActionMode::Admin);
    assert!(exec.plan_shell("id", true).is_ok());
}

#[test]
fn command_output_success_is_exit_zero() {
    let ok = CommandOutput { exit_code: Some(0), stdout: String::new(), stderr: String::new() };
    let fail = CommandOutput { exit_code: Some(1), stdout: String::new(), stderr: String::new() };
    let none = CommandOutput { exit_code: None, stdout: String::new(), stderr: String::new() };
    assert!(ok.succeeded());
    assert!(!fail.succeeded());
    assert!(!none.succeeded());
}

#[test]
fn dual_confirmation_needs_both_exit_codes() {
    // Submission succeeds but the validation probe fails: AuthError, not
    // Authenticated.
    let mut s = CredentialSession::new();
    match s.authenticate(Some(0), Some(1)) {
        Err(AuthError::ValidationUnconfirmed) => {}
        other => panic!("expected ValidationUnconfirmed, got {:?}", other),
    }
    assert!(!s.authenticated);

    // Submission fails: the secret is wrong, whatever the probe says.
    match s.authenticate(Some(1), Some(0)) {
        Err(AuthError::IncorrectSecret) => {}
        other => panic!("expected IncorrectSecret, got {:?}", other),
    }
    assert!(!s.authenticated);

    // Both succeed: authenticated.
    assert!(s.authenticate(Some(0), Some(0)).is_ok());
    assert!(s.authenticated);
}

#[test]
fn reauth_flag_discipline() {
    let mut s = CredentialSession::new();
    assert!(!s.needs_reauth());

    // The background probe fails: the flag goes up and stays up.
    s.record_probe_tick(false);
    assert!(s.needs_reauth());
    s.record_probe_tick(true);
    assert!(s.needs_reauth());

    // The foreground re-authenticates and clears: the flag is down and
    // stays down across successful ticks, until the next failed tick.
    assert!(s.authenticate(Some(0), Some(0)).is_ok());
    s.clear_reauth_flag();
    assert!(!s.needs_reauth());
    s.record_probe_tick(true);
    assert!(!s.needs_reauth());
    s.record_probe_tick(false);
    assert!(s.needs_reauth());
}

#[test]
fn privileged_execution_needs_admin_and_authentication() {
    let mut s = CredentialSession::new();
    assert!(!s.may_run_privileged(ActionMode::Admin));
    assert!(s.authenticate(Some(0), Some(0)).is_ok());
    assert!(s.may_run_privileged(ActionMode::Admin));
    assert!(!s.may_run_privileged(ActionMode::Safe));
    assert!(!s.may_run_privileged(ActionMode::ReadOnly));
}

#[test]
fn exec_error_messages_carry_their_detail() {
    assert_eq!(
        ExecError::NotAllowed("x".to_string()).message(),
        "Action non autorisée: x"
    );
    assert_eq!(ExecError::MissingTool("y".to_string()).message(), "Outil manquant: y");
    assert_eq!(ExecError::Failed("z".to_string()).message(), "Échec: z");
}
