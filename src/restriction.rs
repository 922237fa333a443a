use vstd::prelude::*;
use crate::policy::{SandboxPolicy, argv_view};

verus! {

/// What the in-process restriction layer has to install on the calling thread.
#[derive(Clone, Debug)]
pub struct RestrictionPlan {
    /// Set the "no new privileges" bit before anything else.
    pub no_new_privs: bool,
    /// Install a syscall filter that denies privilege-granting calls.
    pub seccomp_filter: bool,
    /// Filesystem write rules: `None` when no such rules are installed, else the
    /// only roots under which writes are granted.
    pub write_rules: Option<Vec<String>>,
    /// The working directory the rules are scoped to.
    pub cwd: String,
}

impl RestrictionPlan {
    /// The plan that `policy` asks for, relative to `cwd`.
    pub open spec fn matches_policy(&self, policy: SandboxPolicy, cwd: Seq<char>) -> bool {
        &&& self.no_new_privs == policy.confines()
        &&& self.seccomp_filter == policy.confines()
        &&& match self.write_rules {
            None => !policy.confines(),
            Some(roots) => policy.confines() && argv_view(roots@) == policy.roots_view(),
        }
        &&& self.cwd@ == cwd
    }

    /// Whether applying this plan leaves the thread untouched.
    pub open spec fn is_noop(&self) -> bool {
        !self.no_new_privs && !self.seccomp_filter && self.write_rules is None
    }
}

/// The restrictions that `policy` requires: none at all for `FullAccess`;
/// otherwise no-new-privileges, the syscall filter, and write rules granting
/// writes only under the policy's writable roots.
pub fn restriction_plan(policy: &SandboxPolicy, cwd: &String) -> (r: RestrictionPlan)
    ensures
        r.matches_policy(*policy, cwd@),
        r.is_noop() <==> policy is FullAccess,
{
    let confines = policy.requires_filesystem_confinement();
    let write_rules = if confines {
        Some(policy.writable_roots())
    } else {
        None
    };
    RestrictionPlan {
        no_new_privs: confines,
        seccomp_filter: confines,
        write_rules,
        cwd: cwd.clone(),
    }
}

} // verus!
