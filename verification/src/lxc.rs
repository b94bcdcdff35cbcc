//! Container existence reconciliation and lifecycle rules.
//!
//! The container runtime has had three CLI generations with incompatible
//! enumeration syntax, and its listing commands are unreliable under partial
//! privilege and partial installation.  The one unambiguous signal is the
//! filesystem: a container exists when a directory of its name under a known
//! storage root holds a configuration file or a managed-storage subtree.
//! Everything a listing command says is merely advisory; a name that is
//! listed but has no valid on-disk structure is a ghost, eligible for
//! cleanup but never treated as existing.
//!
//! The application runs the probe commands built here and feeds their
//! outcomes back in as plain values; the verdicts, the duplicate-create
//! rejection, the bounded post-create confirmation and the idempotent
//! destroy are decided and proved here.

use vstd::prelude::*;
use crate::distribution::DistributionInfo;
use crate::executor::CommandOutput;
use crate::policy::ExecError;
use crate::reconcile::{classify_status, ContainerStatus};
use crate::text::{contains_seq, contains_str, lines_spec, lower_seq, split_lines, str_eq, trim, trim_spec};

verus! {

/// One named container as seen by one listing strategy.
#[derive(Debug, Clone)]
pub struct ContainerInfo {
    pub name: String,
    pub status: String,
}

/// Detailed facts about one container, assembled from several probes.
#[derive(Debug, Clone)]
pub struct ContainerDetails {
    pub name: String,
    pub status: String,
    pub ip: String,
    pub arch: String,
}

/// The reconciled truth about one container name, computed on demand and
/// never cached: runtime state can change at any time.
#[derive(Debug, Clone)]
pub struct ContainerVerification {
    /// Ground truth: a structurally valid container directory is on disk.
    pub exists: bool,
    /// A plain one-name-per-line enumerator reported the name.
    pub detectable_by_ls: bool,
    /// The structured (delimited) enumerator reported the name.
    pub detectable_by_list: bool,
    /// A directory of the name is present under some storage root.
    pub detectable_by_filesystem: bool,
    /// A status query returned a usable `State:` token.
    pub can_get_status: bool,
    /// The attach probe ran a trivial command inside the container.
    pub can_attach: bool,
    pub is_running: bool,
    /// Diagnostic notes, one per failed signal.
    pub errors: Vec<String>,
}

/// The raw signals one reconciliation pass gathered, as plain values.
pub struct VerificationSignals {
    /// A directory of the container's name is present under a storage root.
    pub fs_dir_present: bool,
    /// That directory holds a configuration file.
    pub fs_has_config: bool,
    /// That directory holds a managed-storage (rootfs) subtree.
    pub fs_has_rootfs: bool,
    /// Some one-name-per-line enumerator reported the name.
    pub listed_by_ls: bool,
    /// The structured enumerator reported the name.
    pub listed_by_list: bool,
    /// The usable status token, if a status query returned one.
    pub status_token: Option<String>,
    /// Exit code of the attach probe.
    pub attach_exit: Option<i32>,
}

/// Ground-truth existence: a directory is present and holds a configuration
/// file or a managed-storage subtree.  A bare directory with neither is not
/// a valid container.
pub open spec fn filesystem_valid(
    dir_present: bool,
    has_config: bool,
    has_rootfs: bool,
) -> bool {
    dir_present && (has_config || has_rootfs)
}

/// What `exists` is for a set of signals: the filesystem signal alone.
/// Listing results never enter into it.
pub open spec fn verdict_exists(sig: VerificationSignals) -> bool {
    filesystem_valid(sig.fs_dir_present, sig.fs_has_config, sig.fs_has_rootfs)
}

/// A name the runtime's enumeration commands know of.
pub open spec fn verdict_managed(sig: VerificationSignals) -> bool {
    sig.listed_by_ls || sig.listed_by_list
}

/// Every signal of a fully healthy container.
pub open spec fn all_signals_good(sig: VerificationSignals) -> bool {
    &&& verdict_exists(sig)
    &&& sig.listed_by_ls
    &&& sig.listed_by_list
    &&& sig.fs_dir_present
    &&& sig.status_token matches Some(t) && t@ == "RUNNING"@
    &&& sig.attach_exit == Some(0i32)
}

/// Law: ground-truth precedence.  A name reported by every listing strategy
/// but with no matching valid filesystem directory does not exist.
pub proof fn lemma_ground_truth_precedence(sig: VerificationSignals)
    requires
        !sig.fs_dir_present || (!sig.fs_has_config && !sig.fs_has_rootfs),
    ensures
        !verdict_exists(sig),
{
}

/// Law: ghost classification.  A directory that holds neither a
/// configuration file nor a managed-storage subtree does not make the
/// container exist, and whether the name counts as managed is determined by
/// the listing results alone, independently of the filesystem.
pub proof fn lemma_ghost_classification(sig: VerificationSignals)
    requires
        sig.fs_dir_present,
        !sig.fs_has_config,
        !sig.fs_has_rootfs,
    ensures
        !verdict_exists(sig),
        verdict_managed(sig) == (sig.listed_by_ls || sig.listed_by_list),
{
}

impl ContainerVerification {
    /// A ghost: recognized by some enumeration command but with no valid
    /// on-disk structure.  Eligible for cleanup, never treated as existing.
    pub fn is_ghost(&self) -> (b: bool)
        ensures
            b == ((self.detectable_by_ls || self.detectable_by_list) && !self.exists),
    {
        (self.detectable_by_ls || self.detectable_by_list) && !self.exists
    }

    /// Operational: it exists and the attach probe succeeds inside it.
    pub fn operational(&self) -> (b: bool)
        ensures
            b == (self.exists && self.can_attach),
    {
        self.exists && self.can_attach
    }
}

/// Outcome of a lifecycle operation whose tool-reported success is
/// corroborated (or not) by reconciliation.
#[derive(Debug, Clone, Copy, PartialEq, Eq, Structural)]
pub enum CreateOutcome {
    /// The tool reported success and reconciliation confirmed the container.
    Created,
    /// The tool reported success but reconciliation could not confirm it
    /// within the retry budget.  Not an error; callers must present it
    /// distinctly from both success and failure.
    Unverified,
    /// The tool reported failure.
    Failed,
}

/// Driver for one named container.
pub struct LXCDeployment {
    pub container_name: String,
    pub alpine_version: String,
    pub distribution: DistributionInfo,
}

impl LXCDeployment {
    pub fn new(container_name: String, alpine_version: String, distribution: DistributionInfo) -> (d:
        LXCDeployment)
        ensures
            d.container_name == container_name,
            d.alpine_version == alpine_version,
            d.distribution == distribution,
    {
        LXCDeployment { container_name, alpine_version, distribution }
    }

    /// The storage roots under which this container's directory may live.
    /// `home` is the user's home directory, read by the application.
    pub fn container_paths(&self, home: &str) -> (v: Vec<String>)
        ensures
            v@.len() == 3,
            v@[0]@ == "/var/lib/lxc/"@ + self.container_name@,
            v@[1]@ == home@ + "/.local/share/lxc/"@ + self.container_name@,
            v@[2]@ == "/var/lib/lxd/containers/"@ + self.container_name@,
    {
        let n = self.container_name.as_str();
        let mut v: Vec<String> = Vec::new();
        v.push(String::from_str("/var/lib/lxc/").concat(n));
        v.push(String::from_str(home).concat("/.local/share/lxc/").concat(n));
        v.push(String::from_str("/var/lib/lxd/containers/").concat(n));
        v
    }

    /// The candidate paths of this container's configuration file.
    pub fn config_path_candidates(&self, home: &str) -> (v: Vec<String>)
        ensures
            v@.len() == 3,
            v@[0]@ == "/var/lib/lxc/"@ + self.container_name@ + "/config"@,
            v@[1]@ == "/var/lib/lxd/containers/"@ + self.container_name@ + "/config"@,
            v@[2]@ == home@ + "/.local/share/lxc/"@ + self.container_name@ + "/config"@,
    {
        let n = self.container_name.as_str();
        let mut v: Vec<String> = Vec::new();
        v.push(String::from_str("/var/lib/lxc/").concat(n).concat("/config"));
        v.push(String::from_str("/var/lib/lxd/containers/").concat(n).concat("/config"));
        v.push(String::from_str(home).concat("/.local/share/lxc/").concat(n).concat("/config"));
        v
    }

    /// Composes the reconciled verdict from one pass of probe signals.
    ///
    /// Existence follows the filesystem signal alone (the documented
    /// precedence rule): listing commands can neither create nor destroy
    /// existence, they only make a name managed.
    pub fn verify_container(&self, sig: &VerificationSignals) -> (v: ContainerVerification)
        ensures
            v.exists == verdict_exists(*sig),
            v.detectable_by_ls == sig.listed_by_ls,
            v.detectable_by_list == sig.listed_by_list,
            v.detectable_by_filesystem == sig.fs_dir_present,
            v.can_get_status == (sig.status_token is Some),
            v.is_running == (sig.status_token matches Some(t) && t@ == "RUNNING"@),
            v.can_attach == (sig.attach_exit == Some(0i32)),
            v.errors@.len() == 0 <==> all_signals_good(*sig),
    {
        let mut errors: Vec<String> = Vec::new();
        let exists = sig.fs_dir_present && (sig.fs_has_config || sig.fs_has_rootfs);
        if !exists {
            errors.push(
                String::from_str("Aucune structure valide de container sur le disque"),
            );
        }
        if !sig.listed_by_ls {
            errors.push(String::from_str("Container non détecté par lxc-ls"));
        }
        if !sig.listed_by_list {
            errors.push(String::from_str("Container non détecté par lxc list"));
        }
        if !sig.fs_dir_present {
            errors.push(
                String::from_str("Container non trouvé dans le système de fichiers"),
            );
        }
        let (can_get_status, is_running) = match &sig.status_token {
            Some(t) => (true, str_eq(t.as_str(), "RUNNING")),
            None => (false, false),
        };
        if !can_get_status {
            errors.push(String::from_str("Impossible d'obtenir le statut"));
        } else if !is_running {
            errors.push(
                String::from_str("Container existe mais n'est pas en cours d'exécution"),
            );
        }
        let can_attach = match sig.attach_exit {
            Some(c) => c == 0,
            None => false,
        };
        if !can_attach {
            errors.push(String::from_str("L'accès via lxc-attach échoue"));
        }
        ContainerVerification {
            exists,
            detectable_by_ls: sig.listed_by_ls,
            detectable_by_list: sig.listed_by_list,
            detectable_by_filesystem: sig.fs_dir_present,
            can_get_status,
            can_attach,
            is_running,
            errors,
        }
    }

    /// The privileged existence check, reduced to its decision: the
    /// filesystem is the ground truth, so the verdict is exactly the
    /// structural validity of the on-disk directory.  Listing commands are
    /// consulted for diagnostics only; they cannot override this verdict in
    /// either direction.
    pub fn check_container_exists_with_executor(
        &self,
        fs_dir_present: bool,
        fs_has_config: bool,
        fs_has_rootfs: bool,
    ) -> (b: bool)
        ensures
            b == filesystem_valid(fs_dir_present, fs_has_config, fs_has_rootfs),
    {
        fs_dir_present && (fs_has_config || fs_has_rootfs)
    }

    /// Strict removal check: the container is fully removed only when no
    /// storage root still holds a directory of its name.
    pub fn check_container_fully_removed(any_dir_still_present: bool) -> (b: bool)
        ensures
            b == !any_dir_still_present,
    {
        !any_dir_still_present
    }

    /// Template availability is advisory: present when some candidate
    /// template file exists or the command-introspection fallback succeeds.
    /// A negative answer warrants a warning, never a hard failure: the
    /// heuristics have false negatives on some distributions.
    pub fn check_lxc_templates(template_file_present: bool, probe_succeeded: bool) -> (b: bool)
        ensures
            b == (template_file_present || probe_succeeded),
    {
        template_file_present || probe_succeeded
    }

    /// Whether a pre-create check allows creation to begin.  Duplicate
    /// creation is rejected, not silently merged: when the container already
    /// exists no creation command may be attempted.
    pub fn create_precheck(&self, lxc_installed: bool, already_exists: bool) -> (r: Result<
        (),
        ExecError,
    >)
        ensures
            r is Ok <==> (lxc_installed && !already_exists),
            !lxc_installed ==> (r matches Err(e) && e is MissingTool),
            (lxc_installed && already_exists) ==> (r matches Err(e) && e is Failed
                && (e matches ExecError::Failed(m) ==> m@ == "Le container "@
                + self.container_name@ + " existe déjà"@)),
    {
        if !lxc_installed {
            let mut packages: Vec<String> = Vec::new();
            packages.push(String::from_str("lxc"));
            packages.push(String::from_str("lxc-templates"));
            let install_cmd = self.distribution.install_command(&packages);
            return Err(
                ExecError::MissingTool(
                    String::from_str("LXC n'est pas installé. Installez-le avec: ").concat(
                        install_cmd.as_str(),
                    ),
                ),
            );
        }
        if already_exists {
            return Err(
                ExecError::Failed(
                    String::from_str("Le container ").concat(self.container_name.as_str()).concat(
                        " existe déjà",
                    ),
                ),
            );
        }
        Ok(())
    }

    /// The primary creation syntax (first CLI generation).
    pub fn primary_create_command(&self) -> (c: String)
        ensures
            c@ == "lxc-create -n "@ + self.container_name@ + " -t alpine -- --release v"@
                + self.alpine_version@,
    {
        String::from_str("lxc-create -n ").concat(self.container_name.as_str()).concat(
            " -t alpine -- --release v",
        ).concat(self.alpine_version.as_str())
    }

    /// The fallback creation syntax (download template, later generations).
    pub fn fallback_create_command(&self) -> (c: String)
        ensures
            c@ == "lxc-create -n "@ + self.container_name@
                + " -t download -- --dist alpine --release "@ + self.alpine_version@
                + " --arch amd64"@,
    {
        String::from_str("lxc-create -n ").concat(self.container_name.as_str()).concat(
            " -t download -- --dist alpine --release ",
        ).concat(self.alpine_version.as_str()).concat(" --arch amd64")
    }

    /// Whether the fallback creation syntax must be tried: the primary
    /// attempt failed to launch or exited non-zero.
    pub fn needs_fallback_create(first: &Result<CommandOutput, ExecError>) -> (b: bool)
        ensures
            b == !(first matches Ok(o) && o.exit_code == Some(0i32)),
    {
        match first {
            Ok(o) => match o.exit_code {
                Some(c) => c != 0,
                None => true,
            },
            Err(_) => true,
        }
    }

    /// Merges the bounded post-create confirmation attempts: the container
    /// is confirmed when any attempt within the budget saw it.
    pub fn confirm_attempts(attempts: &Vec<bool>) -> (b: bool)
        ensures
            b == exists|i: int| 0 <= i < attempts@.len() && attempts@[i],
    {
        let mut i: usize = 0;
        while i < attempts.len()
            invariant
                0 <= i <= attempts@.len(),
                forall|j: int| 0 <= j < i ==> !attempts@[j],
            decreases attempts@.len() - i,
        {
            if attempts[i] {
                return true;
            }
            i = i + 1;
        }
        false
    }

    /// Classifies a create operation after the tool returned and the bounded
    /// re-polling finished.  Tool-reported success that reconciliation could
    /// not confirm is a distinct outcome, not an error and not plain
    /// success.
    pub fn classify_create_outcome(tool_reported_success: bool, confirmed: bool) -> (o:
        CreateOutcome)
        ensures
            o is Created <==> (tool_reported_success && confirmed),
            o is Unverified <==> (tool_reported_success && !confirmed),
            o is Failed <==> !tool_reported_success,
    {
        if !tool_reported_success {
            CreateOutcome::Failed
        } else if confirmed {
            CreateOutcome::Created
        } else {
            CreateOutcome::Unverified
        }
    }

    /// The start command: an explicit configuration-file path when one was
    /// found, else the storage-root form that lets the runtime resolve the
    /// path itself.
    pub fn start_container_command(&self, config_path: &Option<String>) -> (c: String)
        ensures
            config_path matches Some(p) ==> c@ == "lxc-start -f "@ + p@ + " -n "@
                + self.container_name@,
            config_path is None ==> c@ == "lxc-start -P /var/lib/lxc -n "@ + self.container_name@,
    {
        match config_path {
            Some(p) => String::from_str("lxc-start -f ").concat(p.as_str()).concat(" -n ").concat(
                self.container_name.as_str(),
            ),
            None => String::from_str("lxc-start -P /var/lib/lxc -n ").concat(
                self.container_name.as_str(),
            ),
        }
    }

    /// The stop command, with the same path resolution as starting.
    pub fn stop_container_command(&self, config_path: &Option<String>) -> (c: String)
        ensures
            config_path matches Some(p) ==> c@ == "lxc-stop -f "@ + p@ + " -n "@
                + self.container_name@,
            config_path is None ==> c@ == "lxc-stop -P /var/lib/lxc -n "@ + self.container_name@,
    {
        match config_path {
            Some(p) => String::from_str("lxc-stop -f ").concat(p.as_str()).concat(" -n ").concat(
                self.container_name.as_str(),
            ),
            None => String::from_str("lxc-stop -P /var/lib/lxc -n ").concat(
                self.container_name.as_str(),
            ),
        }
    }

    /// After a storage-root start or stop failed, the retry with the default
    /// configuration file path — only worth issuing when that file turned
    /// out to exist.
    pub fn retry_with_config_command(&self, tool: &str, tool_failed: bool, had_config_path: bool, default_config_present: bool) -> (
        r: Option<String>)
        ensures
            (tool_failed && !had_config_path && default_config_present) ==> (r matches Some(c)
                && c@ == tool@ + " -f /var/lib/lxc/"@ + self.container_name@ + "/config -n "@
                + self.container_name@),
            !(tool_failed && !had_config_path && default_config_present) ==> r is None,
    {
        if tool_failed && !had_config_path && default_config_present {
            Some(
                String::from_str(tool).concat(" -f /var/lib/lxc/").concat(
                    self.container_name.as_str(),
                ).concat("/config -n ").concat(self.container_name.as_str()),
            )
        } else {
            None
        }
    }

    /// The forced destroy command for a name.
    pub fn destroy_command(name: &str) -> (c: String)
        ensures
            c@ == "lxc-destroy -f -n "@ + name@ + " 2>&1"@,
    {
        String::from_str("lxc-destroy -f -n ").concat(name).concat(" 2>&1")
    }

    /// Classifies a destroy operation.  Destroy is idempotent: a target that
    /// is not there afterwards counts as success, whatever the tool's exit
    /// code said — destroying a nonexistent container succeeds.
    pub fn classify_destroy(destroy_exit: Option<i32>, fully_removed_after: bool) -> (b: bool)
        ensures
            b == (destroy_exit == Some(0i32) || fully_removed_after),
    {
        let exit_ok = match destroy_exit {
            Some(c) => c == 0,
            None => false,
        };
        exit_ok || fully_removed_after
    }

    /// The best-effort commands that clean the stale lock and registry
    /// artifacts of a ghost name.  Every sub-command's failure is ignored by
    /// the caller: this is advisory hygiene, not a guarantee that later
    /// verification passes will change their answer.
    pub fn cleanup_ghost_commands(name: &str) -> (v: Vec<String>)
        ensures
            v@.len() == 2,
            v@[0]@ == "sudo -n rm -f /var/lib/lxc/.lxc-lock-"@ + name@ + " 2>/dev/null || true"@,
            v@[1]@ == "sudo -n rm -f /var/lib/lxc/"@ + name@ + "/.lxc-lock 2>/dev/null || true"@,
    {
        let mut v: Vec<String> = Vec::new();
        v.push(
            String::from_str("sudo -n rm -f /var/lib/lxc/.lxc-lock-").concat(name).concat(
                " 2>/dev/null || true",
            ),
        );
        v.push(
            String::from_str("sudo -n rm -f /var/lib/lxc/").concat(name).concat(
                "/.lxc-lock 2>/dev/null || true",
            ),
        );
        v
    }
}

} // verus!

verus! {

/// Some line of `s`, trimmed, equals `name` exactly.
pub open spec fn any_line_trim_equals(s: Seq<char>, name: Seq<char>) -> bool {
    exists|i: int|
        0 <= i < lines_spec(s).len() && trim_spec(#[trigger] lines_spec(s)[i]) == name
}

/// Some line of `s` holds `name` somewhere.
pub open spec fn any_line_contains(s: Seq<char>, name: Seq<char>) -> bool {
    exists|i: int| 0 <= i < lines_spec(s).len() && contains_seq(#[trigger] lines_spec(s)[i], name)
}

/// Scans listing output for a line that, trimmed, is exactly `name`.
pub fn scan_lines_trim_equals(stdout: &str, name: &str) -> (b: bool)
    ensures
        b == any_line_trim_equals(stdout@, name@),
{
    let ls = split_lines(stdout);
    let ghost lsv = lines_spec(stdout@);
    let mut i: usize = 0;
    while i < ls.len()
        invariant
            0 <= i <= ls@.len(),
            ls@.len() == lsv.len(),
            forall|j: int| 0 <= j < ls@.len() ==> #[trigger] ls@[j]@ == lsv[j],
            lsv == lines_spec(stdout@),
            forall|j: int| 0 <= j < i ==> trim_spec(#[trigger] lsv[j]) != name@,
        decreases ls@.len() - i,
    {
        let t = trim(ls[i].as_str());
        if str_eq(t, name) {
            return true;
        }
        i = i + 1;
    }
    false
}

/// Scans listing output for a line that holds `name` somewhere (the verbose
/// enumerator mixes names with status columns).
pub fn scan_lines_contains(stdout: &str, name: &str) -> (b: bool)
    ensures
        b == any_line_contains(stdout@, name@),
{
    let ls = split_lines(stdout);
    let ghost lsv = lines_spec(stdout@);
    let mut i: usize = 0;
    while i < ls.len()
        invariant
            0 <= i <= ls@.len(),
            ls@.len() == lsv.len(),
            forall|j: int| 0 <= j < ls@.len() ==> #[trigger] ls@[j]@ == lsv[j],
            lsv == lines_spec(stdout@),
            forall|j: int| 0 <= j < i ==> !contains_seq(#[trigger] lsv[j], name@),
        decreases ls@.len() - i,
    {
        if contains_str(ls[i].as_str(), name) {
            return true;
        }
        i = i + 1;
    }
    false
}

/// Classifies the output of a probe of the form
/// `test ... && echo 'found' || echo 'not found'`: found means the trimmed
/// output is exactly the token `found`.
pub fn probe_found(stdout: &str) -> (b: bool)
    ensures
        b == (trim_spec(stdout@) == "found"@),
{
    str_eq(trim(stdout), "found")
}

/// Classifies the output of a probe of the form
/// `test ... && echo 'yes' || echo 'no'`.
pub fn probe_yes(stdout: &str) -> (b: bool)
    ensures
        b == (trim_spec(stdout@) == "yes"@),
{
    str_eq(trim(stdout), "yes")
}

/// Classifies the output of a probe of the form
/// `test ... && echo 'exists' || echo 'missing'`.
pub fn probe_exists(stdout: &str) -> (b: bool)
    ensures
        b == (trim_spec(stdout@) == "exists"@),
{
    str_eq(trim(stdout), "exists")
}

impl LXCDeployment {
    /// The unprivileged multi-strategy existence check: the name appears in
    /// the plain enumerator's lines, or somewhere in the verbose
    /// enumerator's lines, or in the structured enumerator's lines, or a
    /// directory of the name is present.  An enumerator that could not be
    /// run contributes nothing.
    pub fn check_container_exists(
        &self,
        ls_stdout: &Option<String>,
        fancy_stdout: &Option<String>,
        csv_stdout: &Option<String>,
        any_dir_present: bool,
    ) -> (b: bool)
        ensures
            b == ({
                ||| (ls_stdout matches Some(s) && any_line_trim_equals(s@, self.container_name@))
                ||| (fancy_stdout matches Some(s) && any_line_contains(s@, self.container_name@))
                ||| (csv_stdout matches Some(s) && any_line_trim_equals(s@, self.container_name@))
                ||| any_dir_present
            }),
    {
        let name = self.container_name.as_str();
        let by_ls = match ls_stdout {
            Some(s) => scan_lines_trim_equals(s.as_str(), name),
            None => false,
        };
        if by_ls {
            return true;
        }
        let by_fancy = match fancy_stdout {
            Some(s) => scan_lines_contains(s.as_str(), name),
            None => false,
        };
        if by_fancy {
            return true;
        }
        let by_csv = match csv_stdout {
            Some(s) => scan_lines_trim_equals(s.as_str(), name),
            None => false,
        };
        by_csv || any_dir_present
    }

    /// The status of this container, decided from the three probes in
    /// order: the `State:` token when the field query returned a usable one
    /// (nonempty, not the placeholder, not error prose); else the structured
    /// listing's status column, classified; else `RUNNING` when the attach
    /// probe succeeded; else `UNKNOWN`.
    pub fn get_container_status(
        &self,
        info_stdout: &str,
        csv_stdout: &str,
        attach_exit: Option<i32>,
    ) -> (r: String)
        ensures
            ({
                let t = trim_spec(info_stdout@);
                let c = trim_spec(csv_stdout@);
                if t.len() > 0 && t != "UNKNOWN"@ && !contains_seq(
                    lower_seq(t),
                    lower_seq("error"@),
                ) {
                    r@ == t
                } else if contains_seq(lower_seq(c), lower_seq("RUNNING"@)) {
                    r@ == "RUNNING"@
                } else if contains_seq(lower_seq(c), lower_seq("STOPPED"@)) {
                    r@ == "STOPPED"@
                } else if contains_seq(lower_seq(c), lower_seq("FROZEN"@)) {
                    r@ == "FROZEN"@
                } else if attach_exit == Some(0i32) {
                    r@ == "RUNNING"@
                } else {
                    r@ == "UNKNOWN"@
                }
            }),
    {
        match crate::reconcile::parse_status_token(info_stdout) {
            Some(t) => {
                return t;
            },
            None => {},
        }
        let c = trim(csv_stdout);
        let classified = classify_status(c);
        match classified {
            ContainerStatus::Running => String::from_str("RUNNING"),
            ContainerStatus::Stopped => String::from_str("STOPPED"),
            ContainerStatus::Frozen => String::from_str("FROZEN"),
            ContainerStatus::Unknown => {
                let attach_ok = match attach_exit {
                    Some(code) => code == 0,
                    None => false,
                };
                if attach_ok {
                    String::from_str("RUNNING")
                } else {
                    String::from_str("UNKNOWN")
                }
            },
        }
    }

    /// Assembles container details: the IP is taken only from a running
    /// container, and an empty architecture token becomes `unknown`.
    pub fn get_container_info(
        name: &str,
        status: String,
        ip_stdout: &str,
        arch_stdout: &str,
    ) -> (d: ContainerDetails)
        ensures
            d.name@ == name@,
            d.status == status,
            status@ == "RUNNING"@ ==> d.ip@ == trim_spec(ip_stdout@),
            status@ != "RUNNING"@ ==> d.ip@.len() == 0,
            trim_spec(arch_stdout@).len() > 0 ==> d.arch@ == trim_spec(arch_stdout@),
            trim_spec(arch_stdout@).len() == 0 ==> d.arch@ == "unknown"@,
    {
        let ip = if str_eq(status.as_str(), "RUNNING") {
            String::from_str(trim(ip_stdout))
        } else {
            String::new()
        };
        let arch_t = trim(arch_stdout);
        let arch = if arch_t.is_empty() {
            String::from_str("unknown")
        } else {
            String::from_str(arch_t)
        };
        ContainerDetails { name: String::from_str(name), status, ip, arch }
    }
}

impl LXCDeployment {
    /// Probe: is a directory present at `path`?
    pub fn dir_check_command(path: &str) -> (c: String)
        ensures
            c@ == "test -d "@ + path@ + " && echo 'found' || echo 'not found'"@,
    {
        String::from_str("test -d ").concat(path).concat(" && echo 'found' || echo 'not found'")
    }

    /// Probe: does the container directory at `path` hold a configuration
    /// file?
    pub fn config_check_command(path: &str) -> (c: String)
        ensures
            c@ == "test -f "@ + path@ + "/config && echo 'yes' || echo 'no'"@,
    {
        String::from_str("test -f ").concat(path).concat("/config && echo 'yes' || echo 'no'")
    }

    /// Probe: does the container directory at `path` hold a managed-storage
    /// subtree?
    pub fn rootfs_check_command(path: &str) -> (c: String)
        ensures
            c@ == "test -d "@ + path@ + "/rootfs && echo 'yes' || echo 'no'"@,
    {
        String::from_str("test -d ").concat(path).concat("/rootfs && echo 'yes' || echo 'no'")
    }

    /// Probe: is a configuration-file candidate present?
    pub fn config_file_check_command(path: &str) -> (c: String)
        ensures
            c@ == "test -f "@ + path@ + " && echo 'found' || echo 'not found'"@,
    {
        String::from_str("test -f ").concat(path).concat(" && echo 'found' || echo 'not found'")
    }

    /// Probe: does the default configuration file of `name` exist?
    pub fn default_config_check_command(name: &str) -> (c: String)
        ensures
            c@ == "test -f /var/lib/lxc/"@ + name@ + "/config && echo 'exists' || echo 'missing'"@,
    {
        String::from_str("test -f /var/lib/lxc/").concat(name).concat(
            "/config && echo 'exists' || echo 'missing'",
        )
    }

    /// Probe: does the plain enumerator list `name`, run with or without
    /// escalation?
    pub fn ls_grep_command(name: &str, with_sudo: bool) -> (c: String)
        ensures
            with_sudo ==> c@ == "sudo -n lxc-ls -1 2>/dev/null | grep -q '^"@ + name@
                + "$' && echo 'found' || echo 'not found'"@,
            !with_sudo ==> c@ == "lxc-ls -1 2>/dev/null | grep -q '^"@ + name@
                + "$' && echo 'found' || echo 'not found'"@,
    {
        let prefix = if with_sudo {
            "sudo -n lxc-ls -1 2>/dev/null | grep -q '^"
        } else {
            "lxc-ls -1 2>/dev/null | grep -q '^"
        };
        String::from_str(prefix).concat(name).concat("$' && echo 'found' || echo 'not found'")
    }

    /// Probe: does the structured enumerator list `name`?
    pub fn csv_grep_command(name: &str) -> (c: String)
        ensures
            c@ == "lxc list --format csv -c n 2>/dev/null | grep -q '^"@ + name@
                + "$' && echo 'found' || echo 'not found'"@,
    {
        String::from_str("lxc list --format csv -c n 2>/dev/null | grep -q '^").concat(
            name,
        ).concat("$' && echo 'found' || echo 'not found'")
    }

    /// The raw one-name-per-line enumeration, with or without escalation.
    pub fn raw_ls_command(with_sudo: bool) -> (c: String)
        ensures
            with_sudo ==> c@ == "sudo -n lxc-ls -1 2>&1"@,
            !with_sudo ==> c@ == "lxc-ls -1 2>&1"@,
    {
        if with_sudo {
            String::from_str("sudo -n lxc-ls -1 2>&1")
        } else {
            String::from_str("lxc-ls -1 2>&1")
        }
    }

    /// The raw structured enumeration with name and status columns.
    pub fn raw_csv_listing_command() -> (c: String)
        ensures
            c@ == "lxc list --format csv -c n,s 2>/dev/null"@,
    {
        String::from_str("lxc list --format csv -c n,s 2>/dev/null")
    }

    /// Lists the entries of a storage root with escalation.
    pub fn root_listing_command(base_path: &str) -> (c: String)
        ensures
            c@ == "sudo -n ls -1 "@ + base_path@ + " 2>&1"@,
    {
        String::from_str("sudo -n ls -1 ").concat(base_path).concat(" 2>&1")
    }

    /// The status-field query: prints the `State:` value or `UNKNOWN`.
    pub fn status_query_command(name: &str, with_sudo: bool) -> (c: String)
        ensures
            with_sudo ==> c@ == "sudo -n lxc-info -n "@ + name@
                + " -s 2>/dev/null | grep 'State:' | awk '{print $2}' || echo 'UNKNOWN'"@,
            !with_sudo ==> c@ == "lxc-info -n "@ + name@
                + " -s 2>/dev/null | grep 'State:' | awk '{print $2}' || echo 'UNKNOWN'"@,
    {
        let prefix = if with_sudo {
            "sudo -n lxc-info -n "
        } else {
            "lxc-info -n "
        };
        String::from_str(prefix).concat(name).concat(
            " -s 2>/dev/null | grep 'State:' | awk '{print $2}' || echo 'UNKNOWN'",
        )
    }

    /// The structured single-container status query.
    pub fn csv_status_command(name: &str) -> (c: String)
        ensures
            c@ == "lxc list "@ + name@ + " --format csv -c s 2>/dev/null | head -1 || echo 'UNKNOWN'"@,
    {
        String::from_str("lxc list ").concat(name).concat(
            " --format csv -c s 2>/dev/null | head -1 || echo 'UNKNOWN'",
        )
    }

    /// The attach probe: runs a trivial command inside the container; its
    /// exit code is the signal.
    pub fn attach_probe_command(name: &str) -> (c: String)
        ensures
            c@ == "lxc-attach -n "@ + name@ + " -- echo 'test' 2>&1"@,
    {
        String::from_str("lxc-attach -n ").concat(name).concat(" -- echo 'test' 2>&1")
    }

    /// The attach-based status probe: prints `RUNNING` or `STOPPED`.
    pub fn attach_status_command(name: &str, with_sudo: bool) -> (c: String)
        ensures
            with_sudo ==> c@ == "sudo -n lxc-attach -n "@ + name@
                + " -- echo 'running' 2>/dev/null && echo 'RUNNING' || echo 'STOPPED'"@,
            !with_sudo ==> c@ == "lxc-attach -n "@ + name@
                + " -- echo 'running' 2>/dev/null && echo 'RUNNING' || echo 'STOPPED'"@,
    {
        let prefix = if with_sudo {
            "sudo -n lxc-attach -n "
        } else {
            "lxc-attach -n "
        };
        String::from_str(prefix).concat(name).concat(
            " -- echo 'running' 2>/dev/null && echo 'RUNNING' || echo 'STOPPED'",
        )
    }

    /// Classifies the attach-based status probe's output.
    pub fn status_from_attach_output(stdout: &str) -> (r: Option<ContainerStatus>)
        ensures
            contains_seq(stdout@, "RUNNING"@) ==> (r == Some(ContainerStatus::Running)),
            (!contains_seq(stdout@, "RUNNING"@) && contains_seq(stdout@, "STOPPED"@)) ==> (r
                == Some(ContainerStatus::Stopped)),
            (!contains_seq(stdout@, "RUNNING"@) && !contains_seq(stdout@, "STOPPED"@)) ==> r is None,
    {
        if contains_str(stdout, "RUNNING") {
            Some(ContainerStatus::Running)
        } else if contains_str(stdout, "STOPPED") {
            Some(ContainerStatus::Stopped)
        } else {
            None
        }
    }

    /// The IP query for a running container.
    pub fn ip_query_command(name: &str) -> (c: String)
        ensures
            c@ == "lxc-info -n "@ + name@ + " -i 2>/dev/null | grep 'IP:' | awk '{print $2}' || echo ''"@,
    {
        String::from_str("lxc-info -n ").concat(name).concat(
            " -i 2>/dev/null | grep 'IP:' | awk '{print $2}' || echo ''",
        )
    }

    /// The architecture query.
    pub fn arch_query_command(name: &str) -> (c: String)
        ensures
            c@ == "lxc-info -n "@ + name@
                + " -c lxc.arch 2>/dev/null | grep 'lxc.arch' | awk '{print $2}' || echo ''"@,
    {
        String::from_str("lxc-info -n ").concat(name).concat(
            " -c lxc.arch 2>/dev/null | grep 'lxc.arch' | awk '{print $2}' || echo ''",
        )
    }

    /// Probe: is the container runtime installed at all?  The exit code is
    /// the signal.
    pub fn lxc_installed_check_command() -> (c: String)
        ensures
            c@ == "command -v lxc-create >/dev/null 2>&1"@,
    {
        String::from_str("command -v lxc-create >/dev/null 2>&1")
    }

    /// The candidate locations of the creation template across
    /// distributions.
    pub fn template_paths() -> (v: Vec<String>)
        ensures
            v@.len() == 4,
            v@[0]@ == "/usr/share/lxc/templates/lxc-alpine"@,
            v@[1]@ == "/usr/lib/lxc/templates/lxc-alpine"@,
            v@[2]@ == "/usr/lib64/lxc/templates/lxc-alpine"@,
            v@[3]@ == "/usr/libexec/lxc/templates/lxc-alpine"@,
    {
        let mut v: Vec<String> = Vec::new();
        v.push(String::from_str("/usr/share/lxc/templates/lxc-alpine"));
        v.push(String::from_str("/usr/lib/lxc/templates/lxc-alpine"));
        v.push(String::from_str("/usr/lib64/lxc/templates/lxc-alpine"));
        v.push(String::from_str("/usr/libexec/lxc/templates/lxc-alpine"));
        v
    }

    /// The command-introspection fallback for template detection; works even
    /// when the template files are at non-standard locations.
    pub fn template_check_command() -> (c: String)
        ensures
            c@ == "lxc-create -t alpine --help 2>&1 | head -1 | grep -q -i alpine || lxc-create --help 2>&1 | grep -q alpine || find /usr -name 'lxc-alpine' 2>/dev/null | head -1 | grep -q alpine || test -f /usr/share/lxc/templates/lxc-alpine || test -f /usr/lib/lxc/templates/lxc-alpine || test -f /usr/lib64/lxc/templates/lxc-alpine || test -f /usr/libexec/lxc/templates/lxc-alpine"@,
    {
        String::from_str(
            "lxc-create -t alpine --help 2>&1 | head -1 | grep -q -i alpine || lxc-create --help 2>&1 | grep -q alpine || find /usr -name 'lxc-alpine' 2>/dev/null | head -1 | grep -q alpine || test -f /usr/share/lxc/templates/lxc-alpine || test -f /usr/lib/lxc/templates/lxc-alpine || test -f /usr/lib64/lxc/templates/lxc-alpine || test -f /usr/libexec/lxc/templates/lxc-alpine",
        )
    }
}

} // verus!

verus! {

impl LXCDeployment {
    /// The default runtime configuration written on Red-Hat-family hosts,
    /// pointing the storage root at `container_path`; with user-namespace
    /// includes where the host needs root for the runtime.
    pub fn default_lxc_config(&self, container_path: &str) -> (c: String)
        ensures
            self.distribution.distro is RHEL || self.distribution.distro is CentOS ==> c@
                == "# Configuration LXC par défaut pour RMDB\nlxc.include = /usr/share/lxc/config/common.conf\nlxc.include = /usr/share/lxc/config/userns.conf\nlxc.arch = x86_64\nlxc.net.0.type = veth\nlxc.net.0.link = lxcbr0\nlxc.net.0.flags = up\nlxc.net.0.ipv4.address = auto\nlxc.net.0.ipv4.gateway = auto\nlxc.rootfs.path = dir:"@
                + container_path@ + "\nlxc.utsname = ${container_name}\n"@,
            !(self.distribution.distro is RHEL || self.distribution.distro is CentOS) ==> c@
                == "# Configuration LXC par défaut pour RMDB\nlxc.include = /usr/share/lxc/config/common.conf\nlxc.arch = x86_64\nlxc.net.0.type = veth\nlxc.net.0.link = lxcbr0\nlxc.net.0.flags = up\nlxc.net.0.ipv4.address = auto\nlxc.net.0.ipv4.gateway = auto\nlxc.rootfs.path = dir:"@
                + container_path@ + "\nlxc.utsname = ${container_name}\n"@,
    {
        if self.distribution.needs_root_for_lxc() {
            String::from_str(
                "# Configuration LXC par défaut pour RMDB\nlxc.include = /usr/share/lxc/config/common.conf\nlxc.include = /usr/share/lxc/config/userns.conf\nlxc.arch = x86_64\nlxc.net.0.type = veth\nlxc.net.0.link = lxcbr0\nlxc.net.0.flags = up\nlxc.net.0.ipv4.address = auto\nlxc.net.0.ipv4.gateway = auto\nlxc.rootfs.path = dir:",
            ).concat(container_path).concat("\nlxc.utsname = ${container_name}\n")
        } else {
            String::from_str(
                "# Configuration LXC par défaut pour RMDB\nlxc.include = /usr/share/lxc/config/common.conf\nlxc.arch = x86_64\nlxc.net.0.type = veth\nlxc.net.0.link = lxcbr0\nlxc.net.0.flags = up\nlxc.net.0.ipv4.address = auto\nlxc.net.0.ipv4.gateway = auto\nlxc.rootfs.path = dir:",
            ).concat(container_path).concat("\nlxc.utsname = ${container_name}\n")
        }
    }

    /// Whether installing into the container may begin: it must exist and
    /// the attach probe must reach it.
    pub fn install_rmdb_precheck(&self, container_exists: bool, attach_ok: bool) -> (r: Result<
        (),
        ExecError,
    >)
        ensures
            r is Ok <==> (container_exists && attach_ok),
            !container_exists ==> (r matches Err(e) && e matches ExecError::Failed(m) && m@
                == "Le container "@ + self.container_name@ + " n'existe pas"@),
            (container_exists && !attach_ok) ==> (r matches Err(e) && e matches ExecError::Failed(
                m,
            ) && m@ == "Le container "@ + self.container_name@
                + " n'est pas accessible via lxc-attach"@),
    {
        if !container_exists {
            return Err(
                ExecError::Failed(
                    String::from_str("Le container ").concat(self.container_name.as_str()).concat(
                        " n'existe pas",
                    ),
                ),
            );
        }
        if !attach_ok {
            return Err(
                ExecError::Failed(
                    String::from_str("Le container ").concat(self.container_name.as_str()).concat(
                        " n'est pas accessible via lxc-attach",
                    ),
                ),
            );
        }
        Ok(())
    }

    /// The in-container build-and-install sequence for the server
    /// component, in order, each command with whether it needs escalation:
    /// target directory, source copy, system packages, module download,
    /// build, configuration, service definition, data directories, boot
    /// payloads (the last is best-effort).
    pub fn install_rmdb_in_container_steps(&self, rmdb_source_path: &str) -> (v: Vec<
        (String, bool),
    >)
        ensures
            v@.len() == 9,
            forall|i: int| 0 <= i < v@.len() ==> #[trigger] v@[i].1 == true,
            v@[0].0@ == "lxc-attach -n "@ + self.container_name@ + " -- mkdir -p /root/rmdb"@,
            v@[1].0@ == "cd "@ + rmdb_source_path@
                + " && tar -czf - --exclude='.git' --exclude='*.log' --exclude='*.db' --exclude='target' . | lxc-attach -n "@
                + self.container_name@ + " -- tar -xzf - -C /root/rmdb"@,
            v@[2].0@ == "lxc-attach -n "@ + self.container_name@
                + " -- sh -c 'apk update && apk add -q go git make gcc musl-dev nbd-server'"@,
            v@[3].0@ == "lxc-attach -n "@ + self.container_name@
                + " -- sh -c 'cd /root/rmdb && go mod download'"@,
            v@[4].0@ == "lxc-attach -n "@ + self.container_name@
                + " -- sh -c 'cd /root/rmdb && CGO_ENABLED=0 go build -trimpath -ldflags \"-s -w\" -o /usr/local/bin/rmdbd ./cmd/rmdbd && chmod +x /usr/local/bin/rmdbd'"@,
            v@[5].0@ == "lxc-attach -n "@ + self.container_name@
                + " -- sh -c 'mkdir -p /etc/rmdbd && cp /root/rmdb/configs/rmdbd.example.json /etc/rmdbd/config.json 2>/dev/null || true'"@,
            v@[6].0@ == "lxc-attach -n "@ + self.container_name@
                + " -- sh -c 'cat > /etc/init.d/rmdbd << \"SERVICEEOF\"\n#!/sbin/openrc-run\ncommand=\"/usr/local/bin/rmdbd\"\ncommand_args=\"-config /etc/rmdbd/config.json\"\npidfile=\"/var/run/rmdbd.pid\"\ncommand_background=true\n\ndepend() {\n    need net\n    after firewall\n}\nSERVICEEOF\nchmod +x /etc/init.d/rmdbd && rc-update add rmdbd default 2>/dev/null || true'"@,
            v@[7].0@ == "lxc-attach -n "@ + self.container_name@
                + " -- sh -c 'mkdir -p /var/lib/rmdb/www /var/lib/rmdb/images /var/lib/rmdb/vms /var/lib/rmdb/overlays /var/lib/rmdb/backups /var/lib/rmdb/audits /var/lib/rmdb/checksums /var/lib/rmdb/metrics /var/lib/rmdb/tftpboot /var/log && chown -R root:root /var/lib/rmdb'"@,
            v@[8].0@ == "lxc-attach -n "@ + self.container_name@
                + " -- sh -c 'cd /var/lib/rmdb/www && (command -v wget >/dev/null 2>&1 || apk add -q wget) && wget -q -O /var/lib/rmdb/www/undionly.kpxe https://boot.ipxe.org/undionly.kpxe 2>/dev/null || true && wget -q -O /var/lib/rmdb/www/ipxe.efi https://boot.ipxe.org/ipxe.efi 2>/dev/null || true && cp /var/lib/rmdb/www/undionly.kpxe /var/lib/rmdb/tftpboot/ 2>/dev/null || true && cp /var/lib/rmdb/www/ipxe.efi /var/lib/rmdb/tftpboot/ 2>/dev/null || true'"@,
    {
        let n = self.container_name.as_str();
        let mut v: Vec<(String, bool)> = Vec::new();
        v.push((String::from_str("lxc-attach -n ").concat(n).concat(" -- mkdir -p /root/rmdb"), true));
        v.push(
            (
                String::from_str("cd ").concat(rmdb_source_path).concat(
                    " && tar -czf - --exclude='.git' --exclude='*.log' --exclude='*.db' --exclude='target' . | lxc-attach -n ",
                ).concat(n).concat(" -- tar -xzf - -C /root/rmdb"),
                true,
            ),
        );
        v.push(
            (
                String::from_str("lxc-attach -n ").concat(n).concat(
                    " -- sh -c 'apk update && apk add -q go git make gcc musl-dev nbd-server'",
                ),
                true,
            ),
        );
        v.push(
            (
                String::from_str("lxc-attach -n ").concat(n).concat(
                    " -- sh -c 'cd /root/rmdb && go mod download'",
                ),
                true,
            ),
        );
        v.push(
            (
                String::from_str("lxc-attach -n ").concat(n).concat(
                    " -- sh -c 'cd /root/rmdb && CGO_ENABLED=0 go build -trimpath -ldflags \"-s -w\" -o /usr/local/bin/rmdbd ./cmd/rmdbd && chmod +x /usr/local/bin/rmdbd'",
                ),
                true,
            ),
        );
        v.push(
            (
                String::from_str("lxc-attach -n ").concat(n).concat(
                    " -- sh -c 'mkdir -p /etc/rmdbd && cp /root/rmdb/configs/rmdbd.example.json /etc/rmdbd/config.json 2>/dev/null || true'",
                ),
                true,
            ),
        );
        v.push(
            (
                String::from_str("lxc-attach -n ").concat(n).concat(
                    " -- sh -c 'cat > /etc/init.d/rmdbd << \"SERVICEEOF\"\n#!/sbin/openrc-run\ncommand=\"/usr/local/bin/rmdbd\"\ncommand_args=\"-config /etc/rmdbd/config.json\"\npidfile=\"/var/run/rmdbd.pid\"\ncommand_background=true\n\ndepend() {\n    need net\n    after firewall\n}\nSERVICEEOF\nchmod +x /etc/init.d/rmdbd && rc-update add rmdbd default 2>/dev/null || true'",
                ),
                true,
            ),
        );
        v.push(
            (
                String::from_str("lxc-attach -n ").concat(n).concat(
                    " -- sh -c 'mkdir -p /var/lib/rmdb/www /var/lib/rmdb/images /var/lib/rmdb/vms /var/lib/rmdb/overlays /var/lib/rmdb/backups /var/lib/rmdb/audits /var/lib/rmdb/checksums /var/lib/rmdb/metrics /var/lib/rmdb/tftpboot /var/log && chown -R root:root /var/lib/rmdb'",
                ),
                true,
            ),
        );
        v.push(
            (
                String::from_str("lxc-attach -n ").concat(n).concat(
                    " -- sh -c 'cd /var/lib/rmdb/www && (command -v wget >/dev/null 2>&1 || apk add -q wget) && wget -q -O /var/lib/rmdb/www/undionly.kpxe https://boot.ipxe.org/undionly.kpxe 2>/dev/null || true && wget -q -O /var/lib/rmdb/www/ipxe.efi https://boot.ipxe.org/ipxe.efi 2>/dev/null || true && cp /var/lib/rmdb/www/undionly.kpxe /var/lib/rmdb/tftpboot/ 2>/dev/null || true && cp /var/lib/rmdb/www/ipxe.efi /var/lib/rmdb/tftpboot/ 2>/dev/null || true'",
                ),
                true,
            ),
        );
        v
    }
}

} // verus!

verus! {

/// The lifecycle of one container name, as the manager tracks it:
/// creation, unconfirmed tool-reported success, confirmation by
/// reconciliation into a concrete status, and destruction.
#[derive(Debug, Clone, Copy, PartialEq, Eq, Structural)]
pub enum LifecycleState {
    Unknown,
    Creating,
    CreatedUnconfirmed,
    ConfirmedStopped,
    ConfirmedRunning,
    ConfirmedFrozen,
    Destroyed,
}

/// What the manager observed about a name.
#[derive(Debug, Clone, Copy, PartialEq, Eq, Structural)]
pub enum LifecycleEvent {
    /// A creation command was issued.
    CreateIssued,
    /// The creation tool reported success (exit 0).
    ToolReportedSuccess,
    /// The creation tool reported failure.
    ToolReportedFailure,
    /// Reconciliation confirmed the container with this status.
    Confirmed(ContainerStatus),
    /// The bounded confirmation budget ran out without a sighting.
    ConfirmationTimedOut,
    /// The destroy operation succeeded (idempotently).
    DestroySucceeded,
}

/// The manager's state after one observation.
pub open spec fn lifecycle_next(s: LifecycleState, e: LifecycleEvent) -> LifecycleState {
    match e {
        LifecycleEvent::CreateIssued => LifecycleState::Creating,
        LifecycleEvent::ToolReportedSuccess => if s is Creating {
            LifecycleState::CreatedUnconfirmed
        } else {
            s
        },
        LifecycleEvent::ToolReportedFailure => if s is Creating {
            LifecycleState::Unknown
        } else {
            s
        },
        LifecycleEvent::Confirmed(status) => match status {
            ContainerStatus::Running => LifecycleState::ConfirmedRunning,
            ContainerStatus::Stopped => LifecycleState::ConfirmedStopped,
            ContainerStatus::Frozen => LifecycleState::ConfirmedFrozen,
            ContainerStatus::Unknown => s,
        },
        // Tool-reported success without confirmation stays distinct from
        // both success and failure.
        LifecycleEvent::ConfirmationTimedOut => s,
        LifecycleEvent::DestroySucceeded => LifecycleState::Destroyed,
    }
}

/// Advances the lifecycle of one name by one observation.
pub fn lifecycle_step(s: LifecycleState, e: LifecycleEvent) -> (r: LifecycleState)
    ensures
        r == lifecycle_next(s, e),
{
    match e {
        LifecycleEvent::CreateIssued => LifecycleState::Creating,
        LifecycleEvent::ToolReportedSuccess => {
            if s == LifecycleState::Creating {
                LifecycleState::CreatedUnconfirmed
            } else {
                s
            }
        },
        LifecycleEvent::ToolReportedFailure => {
            if s == LifecycleState::Creating {
                LifecycleState::Unknown
            } else {
                s
            }
        },
        LifecycleEvent::Confirmed(status) => match status {
            ContainerStatus::Running => LifecycleState::ConfirmedRunning,
            ContainerStatus::Stopped => LifecycleState::ConfirmedStopped,
            ContainerStatus::Frozen => LifecycleState::ConfirmedFrozen,
            ContainerStatus::Unknown => s,
        },
        LifecycleEvent::ConfirmationTimedOut => s,
        LifecycleEvent::DestroySucceeded => LifecycleState::Destroyed,
    }
}

} // verus!
