use vstd::prelude::*;
use crate::policy::{SandboxPolicy, argv_view};

verus! {

/// The name of the namespace-confinement binary, looked up on PATH.
pub const CONFINEMENT_BINARY: &'static str = "bwrap";

/// Options of the confined view that do not change the security envelope.
#[derive(Clone, Copy, Debug)]
pub struct BwrapOptions {
    /// Mount a fresh `/proc` inside the view.
    pub mount_proc: bool,
}

/// Malformed input to the view builder.
#[derive(Clone, Copy, Debug, PartialEq, Eq, Structural)]
pub enum BuildError {
    EmptyCommand,
    InvalidCwd,
    /// The writable root at this index is not an absolute, NUL-free path.
    InvalidWritableRoot(usize),
}

/// An absolute path without NUL characters.
pub open spec fn is_valid_path(p: Seq<char>) -> bool {
    &&& p.len() > 0
    &&& p[0] == '/'
    &&& forall|i: int| 0 <= i < p.len() ==> p[i] != '\0'
}

/// `root` is `p` or one of its ancestor directories.
pub open spec fn path_covers(root: Seq<char>, p: Seq<char>) -> bool {
    &&& root.len() <= p.len()
    &&& p.subrange(0, root.len() as int) == root
    &&& (root.len() == p.len() || (root.len() > 0 && root[root.len() - 1] == '/') || p[root.len() as int] == '/')
}

pub open spec fn covered_by_any(roots: Seq<Seq<char>>, p: Seq<char>) -> bool {
    exists|i: int| 0 <= i < roots.len() && path_covers(#[trigger] roots[i], p)
}

/// The read-only-by-default view of the whole filesystem.
pub open spec fn base_args() -> Seq<Seq<char>> {
    seq![
        CONFINEMENT_BINARY@,
        "--new-session"@,
        "--die-with-parent"@,
        "--ro-bind"@,
        "/"@,
        "/"@,
        "--dev"@,
        "/dev"@,
    ]
}

pub open spec fn bind_args(roots: Seq<Seq<char>>) -> Seq<Seq<char>>
    decreases roots.len(),
{
    if roots.len() == 0 {
        Seq::empty()
    } else {
        bind_args(roots.drop_last()) + seq!["--bind"@, roots.last(), roots.last()]
    }
}

/// A writable bind of the working directory, when the policy writes to the
/// workspace and no writable root already covers it.
pub open spec fn cwd_args(policy: SandboxPolicy, cwd: Seq<char>) -> Seq<Seq<char>> {
    if policy is WorkspaceWrite && !covered_by_any(policy.roots_view(), cwd) {
        seq!["--bind"@, cwd, cwd]
    } else {
        Seq::empty()
    }
}

pub open spec fn proc_args(mount_proc: bool) -> Seq<Seq<char>> {
    if mount_proc {
        seq!["--proc"@, "/proc"@]
    } else {
        Seq::empty()
    }
}

/// Every argument of the wrapped command that comes before the `/proc` decision.
pub open spec fn view_args(policy: SandboxPolicy, cwd: Seq<char>) -> Seq<Seq<char>> {
    base_args() + bind_args(policy.roots_view()) + cwd_args(policy, cwd) + seq!["--unshare-pid"@]
}

/// The wrapped command: the view, the `/proc` decision, then the command itself.
pub open spec fn wrapped_argv(
    command: Seq<Seq<char>>,
    policy: SandboxPolicy,
    cwd: Seq<char>,
    mount_proc: bool,
) -> Seq<Seq<char>> {
    view_args(policy, cwd) + proc_args(mount_proc) + seq!["--"@] + command
}

pub open spec fn all_valid(roots: Seq<Seq<char>>) -> bool {
    forall|i: int| 0 <= i < roots.len() ==> is_valid_path(#[trigger] roots[i])
}

/// Whether the builder accepts these inputs.
pub open spec fn build_accepts(command: Seq<Seq<char>>, policy: SandboxPolicy, cwd: Seq<char>) -> bool {
    command.len() > 0 && is_valid_path(cwd) && all_valid(policy.roots_view())
}

/// The error the builder reports: an empty command first, then a malformed
/// working directory, then the first malformed writable root.
pub open spec fn is_build_error(
    e: BuildError,
    command: Seq<Seq<char>>,
    policy: SandboxPolicy,
    cwd: Seq<char>,
) -> bool {
    match e {
        BuildError::EmptyCommand => command.len() == 0,
        BuildError::InvalidCwd => command.len() > 0 && !is_valid_path(cwd),
        BuildError::InvalidWritableRoot(i) => {
            &&& command.len() > 0
            &&& is_valid_path(cwd)
            &&& i < policy.roots_view().len()
            &&& !is_valid_path(policy.roots_view()[i as int])
            &&& forall|j: int| 0 <= j < i ==> is_valid_path(#[trigger] policy.roots_view()[j])
        },
    }
}

fn is_valid_path_exec(p: &String) -> (r: bool)
    ensures
        r == is_valid_path(p@),
{
    let s = p.as_str();
    let n = s.unicode_len();
    if n == 0 || s.get_char(0) != '/' {
        return false;
    }
    let mut i: usize = 0;
    while i < n
        invariant
            n == p@.len(),
            s@ == p@,
            i <= n,
            forall|j: int| 0 <= j < i ==> p@[j] != '\0',
        decreases n - i,
    {
        if s.get_char(i) == '\0' {
            return false;
        }
        i += 1;
    }
    true
}

fn path_covers_exec(root: &String, p: &String) -> (r: bool)
    ensures
        r == path_covers(root@, p@),
{
    let rs = root.as_str();
    let ps = p.as_str();
    let rn = rs.unicode_len();
    let pn = ps.unicode_len();
    if rn > pn {
        return false;
    }
    let mut i: usize = 0;
    while i < rn
        invariant
            rs@ == root@,
            ps@ == p@,
            rn == root@.len(),
            pn == p@.len(),
            rn <= pn,
            i <= rn,
            p@.subrange(0, i as int) == root@.subrange(0, i as int),
        decreases rn - i,
    {
        if rs.get_char(i) != ps.get_char(i) {
            assert(p@.subrange(0, rn as int)[i as int] != root@[i as int]);
            return false;
        }
        assert(p@.subrange(0, i + 1) =~= p@.subrange(0, i as int).push(p@[i as int]));
        assert(root@.subrange(0, i + 1) =~= root@.subrange(0, i as int).push(root@[i as int]));
        i += 1;
    }
    assert(root@.subrange(0, rn as int) =~= root@);
    rn == pn || (rn > 0 && rs.get_char(rn - 1) == '/') || ps.get_char(rn) == '/'
}

fn covered_by_any_exec(roots: &Vec<String>, p: &String) -> (r: bool)
    ensures
        r == covered_by_any(argv_view(roots@), p@),
{
    let ghost rv = argv_view(roots@);
    let mut i: usize = 0;
    while i < roots.len()
        invariant
            i <= roots@.len(),
            rv == argv_view(roots@),
            forall|j: int| 0 <= j < i ==> !path_covers(#[trigger] rv[j], p@),
        decreases roots@.len() - i,
    {
        if path_covers_exec(&roots[i], p) {
            assert(path_covers(rv[i as int], p@));
            return true;
        }
        i += 1;
    }
    false
}

fn first_invalid_root(roots: &Vec<String>) -> (r: Option<usize>)
    ensures
        match r {
            None => all_valid(argv_view(roots@)),
            Some(i) => i < roots@.len() && !is_valid_path(roots@[i as int]@) && forall|j: int|
                0 <= j < i ==> is_valid_path(#[trigger] roots@[j]@),
        },
{
    let ghost rv = argv_view(roots@);
    let mut i: usize = 0;
    while i < roots.len()
        invariant
            i <= roots@.len(),
            rv == argv_view(roots@),
            forall|j: int| 0 <= j < i ==> is_valid_path(#[trigger] roots@[j]@),
        decreases roots@.len() - i,
    {
        if !is_valid_path_exec(&roots[i]) {
            return Some(i);
        }
        i += 1;
    }
    assert forall|j: int| 0 <= j < rv.len() implies is_valid_path(#[trigger] rv[j]) by {
        assert(rv[j] == roots@[j]@);
    }
    None
}

fn push_str(v: &mut Vec<String>, s: &str)
    ensures
        argv_view(final(v)@) == argv_view(old(v)@).push(s@),
{
    let ghost before = v@;
    v.push(s.to_owned());
    assert(argv_view(v@) =~= argv_view(before).push(s@));
}

fn push_string(v: &mut Vec<String>, s: &String)
    ensures
        argv_view(final(v)@) == argv_view(old(v)@).push(s@),
{
    let ghost before = v@;
    v.push(s.clone());
    assert(argv_view(v@) =~= argv_view(before).push(s@));
}

/// Wraps `command` in an invocation of the confinement binary that builds the
/// read-only-by-default view that `policy` asks for.
pub fn create_bwrap_command_args(
    command: Vec<String>,
    policy: &SandboxPolicy,
    cwd: &String,
    options: BwrapOptions,
) -> (r: Result<Vec<String>, BuildError>)
    requires
        policy.confines(),
    ensures
        r is Ok <==> build_accepts(argv_view(command@), *policy, cwd@),
        match r {
            Ok(v) => argv_view(v@) == wrapped_argv(
                argv_view(command@),
                *policy,
                cwd@,
                options.mount_proc,
            ),
            Err(e) => is_build_error(e, argv_view(command@), *policy, cwd@),
        },
{
    if command.len() == 0 {
        return Err(BuildError::EmptyCommand);
    }
    if !is_valid_path_exec(cwd) {
        return Err(BuildError::InvalidCwd);
    }
    let roots = policy.writable_roots();
    let ghost rv = argv_view(roots@);
    match first_invalid_root(&roots) {
        Some(i) => {
            assert(rv[i as int] == roots@[i as int]@);
            assert forall|j: int| 0 <= j < i implies is_valid_path(#[trigger] rv[j]) by {
                assert(rv[j] == roots@[j]@);
            }
            return Err(BuildError::InvalidWritableRoot(i));
        },
        None => {},
    }
    let mut args: Vec<String> = Vec::new();
    push_str(&mut args, CONFINEMENT_BINARY);
    push_str(&mut args, "--new-session");
    push_str(&mut args, "--die-with-parent");
    push_str(&mut args, "--ro-bind");
    push_str(&mut args, "/");
    push_str(&mut args, "/");
    push_str(&mut args, "--dev");
    push_str(&mut args, "/dev");
    assert(argv_view(args@) =~= base_args());
    let mut i: usize = 0;
    while i < roots.len()
        invariant
            i <= roots@.len(),
            rv == argv_view(roots@),
            argv_view(args@) == base_args() + bind_args(rv.subrange(0, i as int)),
        decreases roots@.len() - i,
    {
        let ghost before = argv_view(args@);
        push_str(&mut args, "--bind");
        push_string(&mut args, &roots[i]);
        push_string(&mut args, &roots[i]);
        assert(rv.subrange(0, i + 1).drop_last() =~= rv.subrange(0, i as int));
        assert(rv.subrange(0, i + 1).last() == roots@[i as int]@);
        assert(argv_view(args@) =~= base_args() + bind_args(rv.subrange(0, i + 1)));
        i += 1;
    }
    assert(rv.subrange(0, rv.len() as int) =~= rv);
    let ghost with_roots = argv_view(args@);
    let is_workspace = match policy {
        SandboxPolicy::WorkspaceWrite { .. } => true,
        _ => false,
    };
    if is_workspace && !covered_by_any_exec(&roots, cwd) {
        push_str(&mut args, "--bind");
        push_string(&mut args, cwd);
        push_string(&mut args, cwd);
    }
    assert(argv_view(args@) =~= with_roots + cwd_args(*policy, cwd@));
    push_str(&mut args, "--unshare-pid");
    assert(argv_view(args@) =~= view_args(*policy, cwd@));
    if options.mount_proc {
        push_str(&mut args, "--proc");
        push_str(&mut args, "/proc");
    }
    assert(argv_view(args@) =~= view_args(*policy, cwd@) + proc_args(options.mount_proc));
    push_str(&mut args, "--");
    let ghost head = argv_view(args@);
    let mut k: usize = 0;
    while k < command.len()
        invariant
            k <= command@.len(),
            argv_view(args@) == head + argv_view(command@).subrange(0, k as int),
        decreases command@.len() - k,
    {
        push_string(&mut args, &command[k]);
        assert(argv_view(command@).subrange(0, k + 1) =~= argv_view(command@).subrange(0, k as int).push(command@[k as int]@));
        k += 1;
    }
    assert(argv_view(command@).subrange(0, command@.len() as int) =~= argv_view(command@));
    assert(argv_view(args@) =~= wrapped_argv(argv_view(command@), *policy, cwd@, options.mount_proc));
    Ok(args)
}

/// Building is a function of the inputs' contents alone: equal commands,
/// policies and working directories give the same wrapped argv.
pub proof fn lemma_build_deterministic(
    command1: Seq<Seq<char>>,
    command2: Seq<Seq<char>>,
    policy: SandboxPolicy,
    cwd1: Seq<char>,
    cwd2: Seq<char>,
    mount_proc: bool,
)
    requires
        command1 == command2,
        cwd1 == cwd2,
    ensures
        wrapped_argv(command1, policy, cwd1, mount_proc) == wrapped_argv(command2, policy, cwd2, mount_proc),
{
}

/// Mounting `/proc` or not differs only by the two `--proc /proc` arguments,
/// which stand between the view and the trailing command.
pub proof fn lemma_mount_proc_only_adds_proc_args(
    command: Seq<Seq<char>>,
    policy: SandboxPolicy,
    cwd: Seq<char>,
)
    ensures
        wrapped_argv(command, policy, cwd, true) == view_args(policy, cwd) + seq!["--proc"@, "/proc"@]
            + (seq!["--"@] + command),
        wrapped_argv(command, policy, cwd, false) == view_args(policy, cwd) + (seq!["--"@] + command),
        wrapped_argv(command, policy, cwd, true).len() == wrapped_argv(command, policy, cwd, false).len() + 2,
{
    assert(wrapped_argv(command, policy, cwd, true) =~= view_args(policy, cwd) + seq!["--proc"@, "/proc"@]
        + (seq!["--"@] + command));
    assert(wrapped_argv(command, policy, cwd, false) =~= view_args(policy, cwd) + (seq!["--"@] + command));
}

} // verus!
