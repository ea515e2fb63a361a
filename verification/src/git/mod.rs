//! What the git panel reads out of a repository, and what a worktree shares
//! with the checkout it was cut from.
use vstd::prelude::*;

pub mod artifacts;
pub mod branch;
pub mod changes;
pub mod glob;
pub mod log;
pub mod number;
pub mod ops;
pub mod repo;
pub mod status;
pub mod switch;

verus! {

} // verus!
