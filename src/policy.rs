use vstd::prelude::*;

verus! {

/// The character views of a sequence of strings, element by element.
pub open spec fn argv_view(v: Seq<String>) -> Seq<Seq<char>> {
    v.map_values(|s: String| s@)
}

/// The permission envelope for one command execution.
#[derive(Clone, Debug)]
pub enum SandboxPolicy {
    /// No filesystem writes permitted anywhere.
    ReadOnly,
    /// Writes permitted only under the listed roots; everything else is read-only.
    WorkspaceWrite { writable_roots: Vec<String>, network_access: bool },
    /// No filesystem or network restriction is applied by the launcher.
    FullAccess,
}

impl SandboxPolicy {
    /// The roots under which writes are allowed, as character sequences.
    pub open spec fn roots_view(&self) -> Seq<Seq<char>> {
        match self {
            SandboxPolicy::WorkspaceWrite { writable_roots, .. } => argv_view(writable_roots@),
            _ => Seq::empty(),
        }
    }

    pub open spec fn confines(&self) -> bool {
        !(self is FullAccess)
    }

    pub fn has_full_disk_write_access(&self) -> (r: bool)
        ensures
            r == (self is FullAccess),
    {
        match self {
            SandboxPolicy::FullAccess => true,
            _ => false,
        }
    }

    pub fn requires_filesystem_confinement(&self) -> (r: bool)
        ensures
            r == self.confines(),
    {
        !self.has_full_disk_write_access()
    }

    /// The declared writable roots: empty unless the policy is `WorkspaceWrite`.
    pub fn writable_roots(&self) -> (r: Vec<String>)
        ensures
            argv_view(r@) == self.roots_view(),
    {
        match self {
            SandboxPolicy::WorkspaceWrite { writable_roots, .. } => clone_strings(writable_roots),
            _ => Vec::new(),
        }
    }
}

/// A copy of a list of strings.
pub fn clone_strings(v: &Vec<String>) -> (r: Vec<String>)
    ensures
        r@ == v@,
{
    let mut r: Vec<String> = Vec::new();
    let mut i: usize = 0;
    while i < v.len()
        invariant
            i <= v@.len(),
            r@ == v@.subrange(0, i as int),
        decreases v@.len() - i,
    {
        r.push(v[i].clone());
        i += 1;
        assert(r@ =~= v@.subrange(0, i as int));
    }
    assert(r@ =~= v@);
    r
}

} // verus!
