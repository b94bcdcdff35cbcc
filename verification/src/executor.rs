//! Command executor: plans one shell invocation under the privilege policy.
//!
//! The executor consults the policy first; on denial no plan is produced, so
//! the underlying process is never spawned.  When privilege is required and
//! granted, the command is wrapped to run through the escalation mechanism
//! non-interactively (relying on the previously established credential
//! timestamp, never prompting inline); otherwise it runs as the current user.
//! The application spawns the planned process, captures its streams and exit
//! code as a [`CommandOutput`], and maps a spawn failure (binary missing,
//! fork failure) to `ExecError::Failed` — a non-zero exit code is not an
//! error here, it is the caller's to interpret.

use vstd::prelude::*;
use crate::capabilities::Capabilities;
use crate::policy::{authorize, policy_allows, ActionMode, ExecError};

verus! {

/// Outcome of one shell invocation, as captured by the application.
#[derive(Debug, Clone)]
pub struct CommandOutput {
    pub exit_code: Option<i32>,
    pub stdout: String,
    pub stderr: String,
}

impl CommandOutput {
    /// Whether the tool reported success.  The exit-code contract of every
    /// driven tool is: 0 means success, anything else means failure.
    pub fn succeeded(&self) -> (b: bool)
        ensures
            b == (self.exit_code == Some(0i32)),
    {
        match self.exit_code {
            Some(c) => c == 0,
            None => false,
        }
    }
}

/// A planned process invocation: a program and its arguments, ready to be
/// spawned by the application.
#[derive(Debug, Clone)]
pub struct ShellPlan {
    pub program: String,
    pub args: Vec<String>,
    /// Whether the plan runs through the escalation mechanism.
    pub elevated: bool,
}

pub struct CommandExecutor {
    mode: ActionMode,
    caps: Capabilities,
}

impl CommandExecutor {
    pub closed spec fn spec_mode(&self) -> ActionMode {
        self.mode
    }

    pub closed spec fn spec_caps(&self) -> Capabilities {
        self.caps
    }

    pub fn new(mode: ActionMode, caps: Capabilities) -> (e: CommandExecutor)
        ensures
            e.spec_mode() == mode,
            e.spec_caps() == caps,
    {
        CommandExecutor { mode, caps }
    }

    pub fn set_mode(&mut self, mode: ActionMode)
        ensures
            final(self).spec_mode() == mode,
            final(self).spec_caps() == old(self).spec_caps(),
    {
        self.mode = mode;
    }

    pub fn mode(&self) -> (m: ActionMode)
        ensures
            m == self.spec_mode(),
    {
        self.mode
    }

    /// Plans one shell command.
    ///
    /// The policy is consulted first: on denial an error comes back and no
    /// plan exists, so nothing can be spawned.  An allowed privileged
    /// command is wrapped as `sudo -n sh -c CMD` (non-interactive, using the
    /// established credential timestamp); an unprivileged one runs as
    /// `sh -lc CMD`.
    pub fn plan_shell(&self, cmd: &str, requires_admin: bool) -> (r: Result<ShellPlan, ExecError>)
        ensures
            r is Ok <==> policy_allows(requires_admin, self.spec_mode(), self.spec_caps().has_sudo),
            (requires_admin && !(self.spec_mode() is Admin)) ==> (r matches Err(e)
                && e is NotAllowed),
            (requires_admin && self.spec_mode() is Admin && !self.spec_caps().has_sudo) ==> (
            r matches Err(e) && e is MissingTool),
            r matches Ok(p) ==> p.elevated == requires_admin,
            requires_admin ==> (r matches Ok(p) ==> {
                &&& p.program@ == "sudo"@
                &&& p.args@.len() == 4
                &&& p.args@[0]@ == "-n"@
                &&& p.args@[1]@ == "sh"@
                &&& p.args@[2]@ == "-c"@
                &&& p.args@[3]@ == cmd@
            }),
            !requires_admin ==> (r matches Ok(p) ==> {
                &&& p.program@ == "sh"@
                &&& p.args@.len() == 2
                &&& p.args@[0]@ == "-lc"@
                &&& p.args@[1]@ == cmd@
            }),
    {
        match authorize(requires_admin, self.mode, self.caps.has_sudo) {
            Err(e) => Err(e),
            Ok(()) => {
                if requires_admin {
                    let mut args: Vec<String> = Vec::new();
                    args.push(String::from_str("-n"));
                    args.push(String::from_str("sh"));
                    args.push(String::from_str("-c"));
                    args.push(String::from_str(cmd));
                    Ok(ShellPlan { program: String::from_str("sudo"), args, elevated: true })
                } else {
                    let mut args: Vec<String> = Vec::new();
                    args.push(String::from_str("-lc"));
                    args.push(String::from_str(cmd));
                    Ok(ShellPlan { program: String::from_str("sh"), args, elevated: false })
                }
            },
        }
    }
}

} // verus!
