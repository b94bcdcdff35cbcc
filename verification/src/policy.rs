//! Privilege policy: decides whether an operation may run, and how.
//!
//! The session runs at one of three trust levels.  An operation that needs
//! elevated privilege is allowed only at the `Admin` level, and only when the
//! host actually has an escalation mechanism (`sudo`); both checks are
//! mandatory and independent.  The policy is a pure function: it spawns
//! nothing and reads nothing.

use vstd::prelude::*;

verus! {

/// Operating posture of the session, chosen once at start.
#[derive(Debug, Clone, Copy, PartialEq, Eq, Structural)]
pub enum ActionMode {
    ReadOnly,
    Safe,
    Admin,
}

/// Classified failure of a command invocation.
#[derive(Debug, Clone)]
pub enum ExecError {
    /// The policy refused the operation: the session lacks the required
    /// trust level.
    NotAllowed(String),
    /// A tool the operation needs (notably the escalation mechanism itself)
    /// is absent from the host.
    MissingTool(String),
    /// The process could not be launched, or a classified failure occurred.
    Failed(String),
}

impl ExecError {
    /// Human-readable description of the error.
    pub fn message(&self) -> (m: String)
        ensures
            m@ == match self {
                ExecError::NotAllowed(s) => "Action non autorisée: "@ + s@,
                ExecError::MissingTool(s) => "Outil manquant: "@ + s@,
                ExecError::Failed(s) => "Échec: "@ + s@,
            },
    {
        match self {
            ExecError::NotAllowed(s) => String::from_str("Action non autorisée: ").concat(s.as_str()),
            ExecError::MissingTool(s) => String::from_str("Outil manquant: ").concat(s.as_str()),
            ExecError::Failed(s) => String::from_str("Échec: ").concat(s.as_str()),
        }
    }
}

/// The policy in one line: an operation may proceed when it needs no
/// privilege, or when the session is at `Admin` level and the host has an
/// escalation mechanism.
pub open spec fn policy_allows(
    requires_privilege: bool,
    trust: ActionMode,
    escalation_available: bool,
) -> bool {
    !requires_privilege || (trust is Admin && escalation_available)
}

/// Decides whether an operation may proceed.
///
/// Returns `NotAllowed` when privilege is required but the session is not at
/// the `Admin` level; `MissingTool` when privilege is required, the level is
/// `Admin`, but the host has no escalation mechanism; `Ok` otherwise.
pub fn authorize(requires_privilege: bool, trust: ActionMode, escalation_available: bool) -> (r:
    Result<(), ExecError>)
    ensures
        r is Ok <==> policy_allows(requires_privilege, trust, escalation_available),
        (requires_privilege && !(trust is Admin)) ==> (r matches Err(e) && e is NotAllowed),
        (requires_privilege && trust is Admin && !escalation_available) ==> (r matches Err(e)
            && e is MissingTool),
{
    if requires_privilege {
        if !(trust == ActionMode::Admin) {
            return Err(
                ExecError::NotAllowed(
                    String::from_str("Action admin refusée: passez en mode Admin"),
                ),
            );
        }
        if !escalation_available {
            return Err(
                ExecError::MissingTool(
                    String::from_str("sudo est requis en mode Admin mais introuvable"),
                ),
            );
        }
    }
    Ok(())
}

/// Law: the policy gate.  For every trust level other than `Admin`, a
/// privileged request is never allowed, whatever the state of the escalation
/// mechanism; `authorize` therefore returns `NotAllowed` and no command plan
/// exists for the executor to spawn.
pub proof fn lemma_policy_gate(trust: ActionMode, escalation_available: bool)
    requires
        !(trust is Admin),
    ensures
        !policy_allows(true, trust, escalation_available),
{
}

} // verus!
