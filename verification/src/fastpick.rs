//! Asking `fastpick` what a thread could be launched on.
//!
//! fastpick owns the awkward half of running an agent against a third-party
//! endpoint. Boite asks it for the choices and passes its JSON document
//! through as it was printed; the process runs on the host, and what it
//! answered is read here.

use vstd::prelude::*;

use crate::editor::{utf8_exact, utf8_text};
use crate::git::status::{lossy_chars, utf8_lossy};
use crate::text::{push_chars, push_str, string_of, strs, trim, trim_exec, words, words_exec};

verus! {

/// The most fastpick is expected to print: its payloads are a few hundred
/// lines, and a binary that is not fastpick could print anything.
pub const MAX_OUTPUT: usize = 4 * 1024 * 1024;

/// The arguments of the listing: `--list --json`, a provider's models when
/// one is named, a fresh look when asked.
pub fn list_args(provider: &Option<String>, refresh: bool) -> (args: Vec<String>)
    ensures
        strs(args@) == seq!["--list"@, "--json"@] + match provider {
            Some(p) => seq!["--provider"@, p@],
            None => Seq::<Seq<char>>::empty(),
        } + if refresh {
            seq!["--refresh"@]
        } else {
            Seq::<Seq<char>>::empty()
        },
{
    let mut args: Vec<String> = Vec::new();
    args.push("--list".to_owned());
    args.push("--json".to_owned());
    match provider {
        Some(p) => {
            args.push("--provider".to_owned());
            args.push(p.clone());
        },
        None => {},
    }
    if refresh {
        args.push("--refresh".to_owned());
    }
    proof {
        assert(strs(args@) =~= seq!["--list"@, "--json"@] + match provider {
            Some(p) => seq!["--provider"@, p@],
            None => Seq::<Seq<char>>::empty(),
        } + if refresh {
            seq!["--refresh"@]
        } else {
            Seq::<Seq<char>>::empty()
        });
    }
    args
}

/// What a failed fastpick said: its exit status, and what it wrote on
/// stderr when it wrote anything, so every failure names fastpick.
pub open spec fn list_failure(status: Seq<char>, stderr: Seq<char>) -> Seq<char> {
    if stderr.len() == 0 {
        "fastpick exited with "@ + status
    } else {
        "fastpick exited with "@ + status + ": "@ + stderr
    }
}

/// What a finished `fastpick --list --json` amounts to: on success, the one
/// JSON document it printed, refused when it is larger than fastpick ever
/// prints, empty, or not UTF-8; on failure, its exit status with what it said
/// on stderr. Every success is a non-empty document, and every error names
/// fastpick.
pub fn list_blocking(success: bool, stdout: Vec<u8>, stderr: &[u8], status: &str) -> (r: Result<String, String>)
    ensures
        !success ==> r is Err && r->Err_0@ == list_failure(status@, trim(utf8_lossy(stderr@))),
        success && stdout@.len() > MAX_OUTPUT ==> r is Err && r->Err_0@
            == "fastpick printed more than this can be expected to parse"@,
        success && stdout@.len() == 0 ==> r is Err && r->Err_0@ == "fastpick printed nothing"@,
        success && 0 < stdout@.len() <= MAX_OUTPUT ==> match utf8_text(stdout@) {
            Some(t) => r is Ok && r->Ok_0@ == t,
            None => r is Err && r->Err_0@ == "fastpick printed invalid UTF-8"@,
        },
        r matches Ok(s) ==> s@.len() > 0,
        r matches Err(e) ==> e@.len() >= 8 && e@.subrange(0, 8) == "fastpick"@,
{
    proof {
        reveal_strlit("fastpick");
        reveal_strlit("fastpick exited with ");
        reveal_strlit("fastpick printed more than this can be expected to parse");
        reveal_strlit("fastpick printed nothing");
        reveal_strlit("fastpick printed invalid UTF-8");
    }
    if !success {
        let text = lossy_chars(stderr);
        let msg = trim_exec(&text);
        let mut m: Vec<char> = Vec::new();
        push_str(&mut m, "fastpick exited with ");
        push_str(&mut m, status);
        if msg.len() > 0 {
            push_str(&mut m, ": ");
            push_chars(&mut m, &msg);
        }
        return Err(string_of(&m));
    }
    if stdout.len() > MAX_OUTPUT {
        return Err("fastpick printed more than this can be expected to parse".to_owned());
    }
    if stdout.len() == 0 {
        return Err("fastpick printed nothing".to_owned());
    }
    match utf8_exact(stdout) {
        Some(s) => Ok(s),
        None => Err("fastpick printed invalid UTF-8".to_owned()),
    }
}

/// The version a `--version` line carries: its last word, as in
/// `fastpick 0.2.1`; none when the line has no word.
pub open spec fn version_of(text: Seq<char>) -> Option<Seq<char>> {
    let ws = words(text);
    if ws.len() == 0 || trim(ws.last()).len() == 0 {
        None
    } else {
        Some(trim(ws.last()))
    }
}

/// The version a tool's `--version` printed, when it ran and succeeded.
pub fn version_from(success: bool, stdout: &[u8]) -> (r: Option<String>)
    ensures
        !success ==> r is None,
        success ==> match version_of(utf8_lossy(stdout@)) {
            Some(v) => r is Some && r->Some_0@ == v,
            None => r is None,
        },
{
    if !success {
        return None;
    }
    let text = lossy_chars(stdout);
    let ws = words_exec(&text);
    if ws.len() == 0 {
        return None;
    }
    let v = trim_exec(&ws[ws.len() - 1]);
    if v.len() == 0 {
        None
    } else {
        Some(string_of(&v))
    }
}

/// What `fastpick --version` says, or `None` when there is no fastpick to
/// ask (`ran` is false) or it failed: absence is one of the answers the
/// settings panel wants, not an error.
pub fn version_blocking(ran: bool, success: bool, stdout: &[u8]) -> (r: Option<String>)
    ensures
        !ran || !success ==> r is None,
        ran && success ==> match version_of(utf8_lossy(stdout@)) {
            Some(v) => r is Some && r->Some_0@ == v,
            None => r is None,
        },
{
    if !ran {
        return None;
    }
    version_from(success, stdout)
}

} // verus!
