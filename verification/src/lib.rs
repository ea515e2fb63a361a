//! The verified core of Boite: the logic behind the command bus, the git
//! panel, the artifact sharing of worktrees, the editor, the explorer and the
//! agent endpoint.
use vstd::prelude::*;

pub mod agent;
pub mod command;
pub mod editor;
pub mod explorer;
pub mod fast_mcp_ssh;
pub mod fastpick;
pub mod git;
pub mod text;

verus! {

/// Milliseconds since the epoch as the system clock reads them, `None` for
/// a clock set before 1970.
///
/// Wraps `SystemTime::duration_since(UNIX_EPOCH)` on the current time. The
/// answer is the machine's clock, so nothing is stated of it.
#[verifier::external_body]
fn clock_millis() -> (r: Option<u128>) {
    std::time::SystemTime::now().duration_since(std::time::UNIX_EPOCH).ok().map(|d| d.as_millis())
}

/// A clock reading as a timestamp: the milliseconds as an `i64`, zero for a
/// clock before the epoch, which sorts to the start of every timeline rather
/// than failing a write.
pub fn timestamp_of(elapsed: Option<u128>) -> (r: i64)
    ensures
        r == match elapsed {
            Some(ms) => ms as i64,
            None => 0,
        },
{
    match elapsed {
        Some(ms) => ms as i64,
        None => 0,
    }
}

/// Now, in milliseconds since the epoch.
pub fn now_ms() -> i64 {
    timestamp_of(clock_millis())
}

} // verus!
