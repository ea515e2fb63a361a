//! Asking `fast-mcp-ssh` which version is on this machine, so the plugins
//! panel can tell an install from an update.

use vstd::prelude::*;

use crate::fastpick::{version_from, version_of};
use crate::git::status::utf8_lossy;

verus! {

/// What `fast-mcp-ssh --version` says, or `None` when there is none to ask
/// (`ran` is false) or it failed.
pub fn version_blocking(ran: bool, success: bool, stdout: &[u8]) -> (r: Option<String>)
    ensures
        !ran || !success ==> r is None,
        ran && success ==> match version_of(utf8_lossy(stdout@)) {
            Some(v) => r is Some && r->Some_0@ == v,
            None => r is None,
        },
{
    if !ran {
        return None;
    }
    version_from(success, stdout)
}

} // verus!
