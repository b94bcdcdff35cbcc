//! Credential session: escalation credential lifecycle.
//!
//! Interactive authentication submits the secret to the escalation mechanism
//! over the child's standard input (never on a command line) and requires two
//! independent confirmations before the session counts as authenticated: the
//! submission's own exit code, and a separate non-interactive validation
//! probe proving that a durable credential timestamp now exists.
//!
//! A background keep-alive task repeats that same probe on a fixed interval;
//! on failure it sets the reauthentication flag and does nothing else.  The
//! foreground reads and clears the flag before the next privileged operation.
//! This module holds the state machine; the thread, the process and the
//! atomics live with the application, which feeds exit codes in as plain
//! values.

use vstd::prelude::*;
use crate::policy::ActionMode;

verus! {

/// Failure of an interactive authentication attempt.  Not fatal: the caller
/// is expected to prompt again.
#[derive(Debug, Clone, Copy, PartialEq, Eq, Structural)]
pub enum AuthError {
    /// The submission itself failed: the secret is incorrect.
    IncorrectSecret,
    /// The submission succeeded but the independent validation probe could
    /// not confirm a durable credential timestamp.
    ValidationUnconfirmed,
}

/// Escalated-privilege session state.
///
/// `reauth_needed` follows a single-writer / single-reader-then-clear
/// discipline: only a failed background probe sets it, only the foreground
/// clears it.
#[derive(Debug, Clone, Copy, PartialEq, Eq, Structural)]
pub struct CredentialSession {
    pub authenticated: bool,
    pub reauth_needed: bool,
}

/// Both confirmations hold: the submission exited 0 and the separate
/// validation probe exited 0.  Either alone is insufficient.
pub open spec fn dually_confirmed(submission_exit: Option<i32>, probe_exit: Option<i32>) -> bool {
    submission_exit == Some(0i32) && probe_exit == Some(0i32)
}

/// Session state after one interactive authentication attempt.
pub open spec fn after_authenticate(
    s: CredentialSession,
    submission_exit: Option<i32>,
    probe_exit: Option<i32>,
) -> CredentialSession {
    if dually_confirmed(submission_exit, probe_exit) {
        CredentialSession { authenticated: true, reauth_needed: s.reauth_needed }
    } else {
        CredentialSession { authenticated: false, reauth_needed: s.reauth_needed }
    }
}

/// Session state after one background keep-alive tick whose validation probe
/// succeeded (`probe_ok == true`) or failed.  A failed tick raises the flag;
/// a successful tick never lowers it.
pub open spec fn after_probe_tick(s: CredentialSession, probe_ok: bool) -> CredentialSession {
    CredentialSession {
        authenticated: s.authenticated,
        reauth_needed: s.reauth_needed || !probe_ok,
    }
}

/// Session state after the foreground clears the reauthentication flag.
pub open spec fn after_clear_reauth(s: CredentialSession) -> CredentialSession {
    CredentialSession { authenticated: s.authenticated, reauth_needed: false }
}

impl CredentialSession {
    /// A fresh session: unauthenticated, no reauthentication pending.
    pub fn new() -> (s: CredentialSession)
        ensures
            !s.authenticated,
            !s.reauth_needed,
    {
        CredentialSession { authenticated: false, reauth_needed: false }
    }

    /// Records the outcome of one interactive authentication attempt.
    ///
    /// `submission_exit` is the exit code of the secret submission (the
    /// secret travelled over the child's standard input); `probe_exit` is the
    /// exit code of the separate, fully non-interactive validation probe that
    /// involved no secret.  The session becomes authenticated if and only if
    /// both are exactly 0.
    pub fn authenticate(&mut self, submission_exit: Option<i32>, probe_exit: Option<i32>) -> (r:
        Result<(), AuthError>)
        ensures
            *final(self) == after_authenticate(*old(self), submission_exit, probe_exit),
            r is Ok <==> dually_confirmed(submission_exit, probe_exit),
            r is Ok <==> final(self).authenticated,
            submission_exit != Some(0i32) ==> r == Err::<(), AuthError>(AuthError::IncorrectSecret),
            (submission_exit == Some(0i32) && probe_exit != Some(0i32)) ==> r == Err::<
                (),
                AuthError,
            >(AuthError::ValidationUnconfirmed),
    {
        let submitted = match submission_exit {
            Some(c) => c == 0,
            None => false,
        };
        if !submitted {
            self.authenticated = false;
            return Err(AuthError::IncorrectSecret);
        }
        let validated = match probe_exit {
            Some(c) => c == 0,
            None => false,
        };
        if !validated {
            self.authenticated = false;
            return Err(AuthError::ValidationUnconfirmed);
        }
        self.authenticated = true;
        Ok(())
    }

    /// Records one background keep-alive tick.  A failed probe sets the
    /// reauthentication flag; nothing else changes, and in particular the
    /// tick never re-submits a secret and never clears the flag.
    pub fn record_probe_tick(&mut self, probe_ok: bool)
        ensures
            *final(self) == after_probe_tick(*old(self), probe_ok),
    {
        if !probe_ok {
            self.reauth_needed = true;
        }
    }

    /// Whether a fresh interactive authentication is needed before the next
    /// privileged operation.
    pub fn needs_reauth(&self) -> (b: bool)
        ensures
            b == self.reauth_needed,
    {
        self.reauth_needed
    }

    /// Clears the reauthentication flag.  Called by the foreground after it
    /// has re-authenticated interactively.
    pub fn clear_reauth_flag(&mut self)
        ensures
            *final(self) == after_clear_reauth(*old(self)),
    {
        self.reauth_needed = false;
    }

    /// Whether a privileged command may be executed now: the trust level must
    /// be `Admin` and the session must be authenticated.  The two checks are
    /// independent and both mandatory.
    pub fn may_run_privileged(&self, trust: ActionMode) -> (b: bool)
        ensures
            b == (trust is Admin && self.authenticated),
    {
        trust == ActionMode::Admin && self.authenticated
    }
}

/// Law: dual-confirmation authentication.  A session is authenticated only
/// when both the submission exit code and the independent validation probe
/// exit code are 0; either alone is insufficient.
pub proof fn lemma_dual_confirmation(
    s: CredentialSession,
    submission_exit: Option<i32>,
    probe_exit: Option<i32>,
)
    ensures
        after_authenticate(s, submission_exit, probe_exit).authenticated <==> (submission_exit
            == Some(0i32) && probe_exit == Some(0i32)),
{
}

/// Law: reauthentication-flag discipline.  Once a failed background probe has
/// set the flag, a successful foreground authentication followed by a clear
/// leaves the flag `false`, and it stays `false` across successful probe
/// ticks until the next failed tick sets it again.
pub proof fn lemma_reauth_flag_discipline(
    s0: CredentialSession,
    submission_exit: Option<i32>,
    probe_exit: Option<i32>,
)
    requires
        dually_confirmed(submission_exit, probe_exit),
    ensures
        ({
            let raised = after_probe_tick(s0, false);
            let reauthed = after_authenticate(raised, submission_exit, probe_exit);
            let cleared = after_clear_reauth(reauthed);
            &&& raised.reauth_needed
            &&& !cleared.reauth_needed
            &&& !after_probe_tick(cleared, true).reauth_needed
            &&& after_probe_tick(cleared, false).reauth_needed
        }),
{
}

} // verus!
