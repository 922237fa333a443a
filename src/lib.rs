use vstd::prelude::*;

pub mod auth_watch;
pub mod bwrap;
pub mod collaboration;
pub mod git_status;
pub mod launcher;
pub mod policy;
pub mod restriction;

verus! {

} // verus!
