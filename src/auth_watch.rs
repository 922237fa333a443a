use vstd::prelude::*;

verus! {

/// The kind of a filesystem change notification, without its details.
#[derive(Clone, Copy, Debug, PartialEq, Eq, Structural)]
pub enum WatchEventKind {
    Any,
    Access,
    Create,
    Modify,
    Remove,
    Other,
}

/// Creations, modifications and removals can change the credentials file.
pub open spec fn is_relevant(kind: WatchEventKind) -> bool {
    kind is Create || kind is Modify || kind is Remove
}

pub fn is_relevant_kind(kind: WatchEventKind) -> (r: bool)
    ensures
        r == is_relevant(kind),
{
    match kind {
        WatchEventKind::Create | WatchEventKind::Modify | WatchEventKind::Remove => true,
        _ => false,
    }
}

/// Whether two paths are equal component by component, as `std::path::Path`
/// compares them.
pub uninterp spec fn path_eq(a: Seq<char>, b: Seq<char>) -> bool;

/// The final component of a path, as `std::path::Path::file_name` gives it.
pub uninterp spec fn file_name_of(p: Seq<char>) -> Option<Seq<char>>;

/// Relies on `PartialEq for std::path::Path`: compares the paths' components.
#[verifier::external_body]
fn paths_equal(a: &str, b: &str) -> (r: bool)
    ensures
        r == path_eq(a@, b@),
{
    std::path::Path::new(a) == std::path::Path::new(b)
}

/// Relies on `std::path::Path::file_name`: the last normal component, if any.
#[verifier::external_body]
fn path_file_name(p: &str) -> (r: Option<String>)
    ensures
        r matches Some(n) ==> file_name_of(p@) == Some(n@),
        r is None ==> file_name_of(p@) is None,
{
    std::path::Path::new(p).file_name().map(|n| n.to_string_lossy().into_owned())
}

/// Whether `path` is the credentials file: the same path, or a path with the
/// same file name.
pub open spec fn names_auth_file(path: Seq<char>, auth_path: Seq<char>, auth_file_name: Option<Seq<char>>) -> bool {
    path_eq(path, auth_path) || (auth_file_name matches Some(n) && file_name_of(path) == Some(n))
}

pub open spec fn opt_str_view(o: Option<&str>) -> Option<Seq<char>> {
    match o {
        Some(s) => Some(s@),
        None => None,
    }
}

/// Whether one of `paths` names the credentials file.
pub open spec fn mentions_auth_file(
    paths: Seq<String>,
    auth_path: Seq<char>,
    auth_file_name: Option<Seq<char>>,
) -> bool {
    exists|i: int| 0 <= i < paths.len() && names_auth_file(#[trigger] paths[i]@, auth_path, auth_file_name)
}

/// Whether a change notification concerns the credentials file.
pub fn is_auth_json_event(
    kind: WatchEventKind,
    paths: &Vec<String>,
    auth_path: &str,
    auth_file_name: Option<&str>,
) -> (r: bool)
    ensures
        r == (is_relevant(kind) && mentions_auth_file(
            paths@,
            auth_path@,
            opt_str_view(auth_file_name),
        )),
{
    let ghost name_view = opt_str_view(auth_file_name);
    if !is_relevant_kind(kind) {
        return false;
    }
    let mut i: usize = 0;
    while i < paths.len()
        invariant
            i <= paths@.len(),
            is_relevant(kind),
            name_view == opt_str_view(auth_file_name),
            forall|j: int| 0 <= j < i ==> !names_auth_file(#[trigger] paths@[j]@, auth_path@, name_view),
        decreases paths@.len() - i,
    {
        let p = paths[i].as_str();
        if paths_equal(p, auth_path) {
            assert(names_auth_file(paths@[i as int]@, auth_path@, name_view));
            assert(mentions_auth_file(paths@, auth_path@, name_view));
            return true;
        }
        match auth_file_name {
            Some(n) => {
                match path_file_name(p) {
                    Some(f) => {
                        let wanted = n.to_owned();
                        if f == wanted {
                            assert(names_auth_file(paths@[i as int]@, auth_path@, name_view));
                            assert(mentions_auth_file(paths@, auth_path@, name_view));
                            return true;
                        }
                    },
                    None => {},
                }
            },
            None => {},
        }
        i += 1;
    }
    false
}

} // verus!
