use vstd::prelude::*;
use crate::bwrap::{
    BuildError, BwrapOptions, CONFINEMENT_BINARY, base_args, build_accepts, create_bwrap_command_args, is_build_error,
    proc_args, view_args, wrapped_argv,
};
use crate::policy::{SandboxPolicy, argv_view, clone_strings};
use crate::restriction::{RestrictionPlan, restriction_plan};

verus! {

/// The launcher's invocation: the policy, the directory it is relative to,
/// whether to skip mounting `/proc`, and the command to run.
#[derive(Clone, Debug)]
pub struct LandlockCommand {
    pub sandbox_policy_cwd: String,
    pub sandbox_policy: SandboxPolicy,
    pub no_proc: bool,
    pub command: Vec<String>,
}

/// Why a launch was aborted.
#[derive(Clone, Debug)]
pub enum LaunchError {
    /// The command to run was empty.
    EmptyCommand,
    /// The confinement binary is not on PATH.
    MissingDependency { binary: String, install_hints: Vec<String> },
    /// The kernel refused the in-process restrictions; the OS error text.
    RestrictionApplicationFailed(String),
    /// The confined view could not be built.
    ViewBuildFailed(BuildError),
    /// Replacing the process image failed; the OS error text.
    ExecReplacementFailed(String),
}

/// Install commands for the confinement binary, one per major package family.
pub open spec fn install_hints() -> Seq<Seq<char>> {
    seq![
        "Debian/Ubuntu: apt-get install bubblewrap"@,
        "Fedora/RHEL: dnf install bubblewrap"@,
        "Arch: pacman -S bubblewrap"@,
    ]
}

/// Whether `e` is the missing-dependency diagnostic for `name`: it names the
/// binary and carries the install commands.
pub open spec fn is_missing_dependency(e: LaunchError, name: Seq<char>) -> bool {
    match e {
        LaunchError::MissingDependency { binary, install_hints: hints } => binary@ == name && argv_view(
            hints@,
        ) == install_hints(),
        _ => false,
    }
}

/// The diagnostic for a confinement binary `binary` that is not on PATH.
pub fn missing_dependency_error(binary: &str) -> (e: LaunchError)
    ensures
        is_missing_dependency(e, binary@),
{
    let mut hints: Vec<String> = Vec::new();
    hints.push("Debian/Ubuntu: apt-get install bubblewrap".to_owned());
    hints.push("Fedora/RHEL: dnf install bubblewrap".to_owned());
    hints.push("Arch: pacman -S bubblewrap".to_owned());
    assert(argv_view(hints@) =~= install_hints());
    LaunchError::MissingDependency { binary: binary.to_owned(), install_hints: hints }
}

/// Relies on which::which: whether an executable named `name` is found in one
/// of the directories of PATH. The answer depends on the machine, so nothing is
/// promised of it.
#[verifier::external_body]
fn executable_on_path(name: &str) -> (found: bool) {
    which::which(name).is_ok()
}

/// Checks that the confinement binary `binary` is on PATH; on failure the error
/// is the missing-dependency diagnostic for that binary.
pub fn ensure_bwrap_available(binary: &str) -> (r: Result<(), LaunchError>)
    ensures
        match r {
            Ok(()) => true,
            Err(e) => is_missing_dependency(e, binary@),
        },
{
    if executable_on_path(binary) {
        Ok(())
    } else {
        Err(missing_dependency_error(binary))
    }
}

/// The ASCII lower-case form of a character.
pub open spec fn ascii_lower(c: char) -> char {
    if 'A' <= c && c <= 'Z' {
        (((c as u32) + 32) as u8) as char
    } else {
        c
    }
}

pub open spec fn eq_ignore_ascii_case(a: Seq<char>, b: Seq<char>) -> bool {
    a.len() == b.len() && forall|i: int| 0 <= i < a.len() ==> ascii_lower(#[trigger] a[i]) == ascii_lower(b[i])
}

fn ascii_lower_exec(c: char) -> (r: char)
    ensures
        r == ascii_lower(c),
{
    if 'A' <= c && c <= 'Z' {
        (((c as u32) + 32) as u8) as char
    } else {
        c
    }
}

fn eq_ignore_ascii_case_exec(a: &str, b: &str) -> (r: bool)
    ensures
        r == eq_ignore_ascii_case(a@, b@),
{
    let n = a.unicode_len();
    if n != b.unicode_len() {
        return false;
    }
    let mut i: usize = 0;
    while i < n
        invariant
            n == a@.len(),
            n == b@.len(),
            i <= n,
            forall|j: int| 0 <= j < i ==> ascii_lower(#[trigger] a@[j]) == ascii_lower(b@[j]),
        decreases n - i,
    {
        if ascii_lower_exec(a.get_char(i)) != ascii_lower_exec(b.get_char(i)) {
            return false;
        }
        i += 1;
    }
    true
}

/// Whether the debug switch's value turns on the dump of the final argv:
/// `1`, or `true` in any letter case.
pub open spec fn debug_value_enabled(value: Option<Seq<char>>) -> bool {
    match value {
        Some(v) => v == "1"@ || eq_ignore_ascii_case(v, "true"@),
        None => false,
    }
}

/// Decides the debug switch from the value of its environment variable, if set.
pub fn is_debug_bwrap_enabled(value: Option<&str>) -> (r: bool)
    ensures
        r == debug_value_enabled(
            match value {
                Some(v) => Some(v@),
                None => None,
            },
        ),
{
    match value {
        Some(v) => {
            let is_one = v.unicode_len() == 1 && v.get_char(0) == '1';
            proof {
                reveal_strlit("1");
                if v@ == "1"@ {
                    assert(v@[0] == '1');
                } else if v@.len() == 1 && v@[0] == '1' {
                    assert(v@ =~= "1"@);
                }
            }
            is_one || eq_ignore_ascii_case_exec(v, "true")
        },
        None => false,
    }
}

/// The argv that finally replaces the process: the command itself when the
/// policy confines nothing, else the command wrapped in the confined view.
pub open spec fn final_argv(
    command: Seq<Seq<char>>,
    policy: SandboxPolicy,
    cwd: Seq<char>,
    mount_proc: bool,
) -> Seq<Seq<char>> {
    if policy.confines() {
        wrapped_argv(command, policy, cwd, mount_proc)
    } else {
        command
    }
}

/// Whether a launch of this command asks for the confinement-binary probe.
pub open spec fn probes_dependency(command: Seq<Seq<char>>, policy: SandboxPolicy) -> bool {
    command.len() > 0 && policy.confines()
}

/// The stages of a launch; each moves strictly forward.
#[derive(Clone, Copy, Debug, PartialEq, Eq, Structural)]
pub enum LaunchStage {
    Start,
    /// The confinement-binary probe has been requested.
    AwaitingDependency,
    /// The dependency is settled and the restrictions have been requested.
    DependencyChecked,
    /// The final command is built and handed out for execution.
    ViewBuilt,
    Failed,
}

/// What the caller must do next.
#[derive(Clone, Debug)]
pub enum LaunchAction {
    /// Look for this confinement binary on PATH and report with
    /// `on_dependency_probed`.
    ProbeConfinementTool(String),
    /// Apply these restrictions to the calling thread and report with
    /// `on_restrictions_applied`.
    ApplyRestrictions(RestrictionPlan),
    /// Replace the process image with this argv.
    Exec(Vec<String>),
    /// Abort the process with this diagnostic.
    Abort(LaunchError),
}

/// The decisions of one launch, driven by the outcomes of the outside steps.
///
/// The fields are private so that the stages can only be taken in order.
pub struct Launcher {
    stage: LaunchStage,
    invocation: LandlockCommand,
}

impl Launcher {
    pub closed spec fn stage_view(&self) -> LaunchStage {
        self.stage
    }

    pub closed spec fn invocation_view(&self) -> LandlockCommand {
        self.invocation
    }

    pub open spec fn command_view(&self) -> Seq<Seq<char>> {
        argv_view(self.invocation_view().command@)
    }

    pub open spec fn policy(&self) -> SandboxPolicy {
        self.invocation_view().sandbox_policy
    }

    pub open spec fn cwd_view(&self) -> Seq<char> {
        self.invocation_view().sandbox_policy_cwd@
    }

    pub open spec fn mount_proc(&self) -> bool {
        !self.invocation_view().no_proc
    }

    /// The stage the launch has reached.
    pub fn stage(&self) -> (r: LaunchStage)
        ensures
            r == self.stage_view(),
    {
        self.stage
    }

    /// Every stage past `Start` other than `Failed` was reached with a non-empty
    /// command, and the probe is pending only when the policy confines.
    pub open spec fn wf(&self) -> bool {
        &&& (self.stage_view() != LaunchStage::Start && self.stage_view() != LaunchStage::Failed)
            ==> self.command_view().len() > 0
        &&& self.stage_view() == LaunchStage::AwaitingDependency ==> self.policy().confines()
    }

    pub fn new(invocation: LandlockCommand) -> (r: Launcher)
        ensures
            r.stage_view() == LaunchStage::Start,
            r.invocation_view() == invocation,
            r.wf(),
    {
        Launcher { stage: LaunchStage::Start, invocation }
    }

    /// The first step: reject an empty command, else ask for the dependency probe
    /// when the policy confines, else go straight to the restrictions.
    pub fn start(&mut self) -> (action: LaunchAction)
        requires
            old(self).stage_view() == LaunchStage::Start,
        ensures
            final(self).invocation_view() == old(self).invocation_view(),
            final(self).wf(),
            old(self).command_view().len() == 0 ==> {
                &&& action matches LaunchAction::Abort(LaunchError::EmptyCommand)
                &&& final(self).stage_view() == LaunchStage::Failed
            },
            probes_dependency(old(self).command_view(), old(self).policy()) ==> {
                &&& action matches LaunchAction::ProbeConfinementTool(b) && b@ == base_args()[0]
                &&& final(self).stage_view() == LaunchStage::AwaitingDependency
            },
            old(self).command_view().len() > 0 && !old(self).policy().confines() ==> {
                &&& action matches LaunchAction::ApplyRestrictions(plan) && plan.matches_policy(
                    old(self).policy(),
                    old(self).cwd_view(),
                )
                &&& final(self).stage_view() == LaunchStage::DependencyChecked
            },
    {
        if self.invocation.command.len() == 0 {
            self.stage = LaunchStage::Failed;
            return LaunchAction::Abort(LaunchError::EmptyCommand);
        }
        if self.invocation.sandbox_policy.requires_filesystem_confinement() {
            self.stage = LaunchStage::AwaitingDependency;
            LaunchAction::ProbeConfinementTool(CONFINEMENT_BINARY.to_owned())
        } else {
            self.stage = LaunchStage::DependencyChecked;
            LaunchAction::ApplyRestrictions(
                restriction_plan(&self.invocation.sandbox_policy, &self.invocation.sandbox_policy_cwd),
            )
        }
    }

    /// After the probe: abort with the install diagnostic when the binary is
    /// missing, before any restriction is applied; else ask for the restrictions.
    pub fn on_dependency_probed(&mut self, found: bool) -> (action: LaunchAction)
        requires
            old(self).stage_view() == LaunchStage::AwaitingDependency,
            old(self).wf(),
        ensures
            final(self).invocation_view() == old(self).invocation_view(),
            final(self).wf(),
            !found ==> {
                &&& action matches LaunchAction::Abort(e) && is_missing_dependency(e, base_args()[0])
                &&& final(self).stage_view() == LaunchStage::Failed
            },
            found ==> {
                &&& action matches LaunchAction::ApplyRestrictions(plan) && plan.matches_policy(
                    old(self).policy(),
                    old(self).cwd_view(),
                )
                &&& final(self).stage_view() == LaunchStage::DependencyChecked
            },
    {
        if !found {
            self.stage = LaunchStage::Failed;
            return LaunchAction::Abort(missing_dependency_error(CONFINEMENT_BINARY));
        }
        self.stage = LaunchStage::DependencyChecked;
        LaunchAction::ApplyRestrictions(
            restriction_plan(&self.invocation.sandbox_policy, &self.invocation.sandbox_policy_cwd),
        )
    }

    /// After the restrictions: abort if they failed, else build the final command.
    pub fn on_restrictions_applied(&mut self, outcome: Result<(), String>) -> (action: LaunchAction)
        requires
            old(self).stage_view() == LaunchStage::DependencyChecked,
            old(self).wf(),
        ensures
            final(self).invocation_view() == old(self).invocation_view(),
            final(self).wf(),
            match outcome {
                Err(msg) => {
                    &&& action matches LaunchAction::Abort(LaunchError::RestrictionApplicationFailed(m)) && m == msg
                    &&& final(self).stage_view() == LaunchStage::Failed
                },
                Ok(()) => if !old(self).policy().confines() || build_accepts(
                    old(self).command_view(),
                    old(self).policy(),
                    old(self).cwd_view(),
                ) {
                    &&& action matches LaunchAction::Exec(argv) && argv_view(argv@) == final_argv(
                        old(self).command_view(),
                        old(self).policy(),
                        old(self).cwd_view(),
                        old(self).mount_proc(),
                    )
                    &&& final(self).stage_view() == LaunchStage::ViewBuilt
                } else {
                    &&& action matches LaunchAction::Abort(LaunchError::ViewBuildFailed(e)) && is_build_error(
                        e,
                        old(self).command_view(),
                        old(self).policy(),
                        old(self).cwd_view(),
                    )
                    &&& final(self).stage_view() == LaunchStage::Failed
                },
            },
    {
        match outcome {
            Err(msg) => {
                self.stage = LaunchStage::Failed;
                LaunchAction::Abort(LaunchError::RestrictionApplicationFailed(msg))
            },
            Ok(()) => {
                let command = clone_strings(&self.invocation.command);
                if !self.invocation.sandbox_policy.requires_filesystem_confinement() {
                    self.stage = LaunchStage::ViewBuilt;
                    return LaunchAction::Exec(command);
                }
                let options = BwrapOptions { mount_proc: !self.invocation.no_proc };
                match create_bwrap_command_args(
                    command,
                    &self.invocation.sandbox_policy,
                    &self.invocation.sandbox_policy_cwd,
                    options,
                ) {
                    Ok(argv) => {
                        self.stage = LaunchStage::ViewBuilt;
                        LaunchAction::Exec(argv)
                    },
                    Err(e) => {
                        self.stage = LaunchStage::Failed;
                        LaunchAction::Abort(LaunchError::ViewBuildFailed(e))
                    },
                }
            },
        }
    }
}

/// Under `FullAccess` the final argv is the command itself and no dependency
/// probe is asked for.
pub proof fn lemma_full_access_identity(command: Seq<Seq<char>>, cwd: Seq<char>, mount_proc: bool)
    ensures
        final_argv(command, SandboxPolicy::FullAccess, cwd, mount_proc) == command,
        !probes_dependency(command, SandboxPolicy::FullAccess),
{
}

/// An empty command never leads to a dependency probe, whatever the policy.
pub proof fn lemma_empty_command_never_probes(policy: SandboxPolicy)
    ensures
        !probes_dependency(Seq::empty(), policy),
{
}

/// The missing-dependency diagnostic names the binary and offers an install
/// command for each major package family.
pub proof fn lemma_missing_dependency_has_install_hints(e: LaunchError)
    requires
        is_missing_dependency(e, base_args()[0]),
    ensures
        e matches LaunchError::MissingDependency { binary, install_hints: hints } && binary@ == "bwrap"@
            && hints@.len() == 3 && hints@[0]@ == "Debian/Ubuntu: apt-get install bubblewrap"@,
{
    if let LaunchError::MissingDependency { binary, install_hints: hints } = e {
        assert(argv_view(hints@).len() == 3);
        assert(argv_view(hints@)[0] == hints@[0]@);
    }
}

/// A workspace-write policy with writable roots yields a final argv that is
/// longer than the command and starts with the confinement binary.
pub proof fn lemma_workspace_write_wraps(
    command: Seq<Seq<char>>,
    policy: SandboxPolicy,
    cwd: Seq<char>,
    mount_proc: bool,
)
    requires
        policy is WorkspaceWrite,
        policy.roots_view().len() > 0,
    ensures
        final_argv(command, policy, cwd, mount_proc).len() > command.len(),
        final_argv(command, policy, cwd, mount_proc)[0] == "bwrap"@,
{
    let w = wrapped_argv(command, policy, cwd, mount_proc);
    let head = view_args(policy, cwd) + proc_args(mount_proc) + seq!["--"@];
    assert(w == head + command);
    assert(head[0] == base_args()[0]);
}

} // verus!
