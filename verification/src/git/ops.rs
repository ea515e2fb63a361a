//! The small git operations: what each one runs, and what its answer means.

use vstd::prelude::*;

use crate::text::strs;
use crate::git::status::{lossy_chars, utf8_lossy};
use crate::text::{
    chars_of, has_prefix, push_str, split_by, split_by_exec, starts_with, string_of, text_is, trim,
    trim_exec,
};

verus! {

/// What a finished git process amounts to: its output when it succeeded;
/// when it failed, what it printed on stderr, trimmed, or a sentence naming
/// its exit status when it printed nothing.
pub fn run_outcome(success: bool, stdout: Vec<u8>, stderr: &[u8], status: &str) -> (r: Result<Vec<u8>, String>)
    ensures
        success ==> r is Ok && r->Ok_0@ == stdout@,
        !success ==> r is Err && r->Err_0@ == if trim(utf8_lossy(stderr@)).len() == 0 {
            "git exited with status "@ + status@
        } else {
            trim(utf8_lossy(stderr@))
        },
{
    if success {
        return Ok(stdout);
    }
    let text = lossy_chars(stderr);
    let err = trim_exec(&text);
    if err.len() == 0 {
        let mut msg: Vec<char> = Vec::new();
        push_str(&mut msg, "git exited with status ");
        push_str(&mut msg, status);
        Err(string_of(&msg))
    } else {
        Err(string_of(&err))
    }
}

/// The characters that separate the components of a path: `/`, and on
/// Windows `\` too.
pub open spec fn path_seps(windows: bool) -> Seq<char> {
    if windows {
        seq!['/', '\\']
    } else {
        seq!['/']
    }
}

/// A Windows drive prefix: an ASCII letter and a colon.
pub open spec fn has_drive(rel: Seq<char>) -> bool {
    rel.len() >= 2 && (('a' <= rel[0] && rel[0] <= 'z') || ('A' <= rel[0] && rel[0] <= 'Z')) && rel[1] == ':'
}

/// Whether a file named by a client stays inside the repository it is read
/// in, on the platform this runs on: not rooted (nor, on Windows, rooted at a
/// backslash or a drive), and no `..` among its components.
pub open spec fn is_repo_relative(rel: Seq<char>, windows: bool) -> bool {
    &&& !has_prefix(rel, "/"@)
    &&& !(windows && (has_prefix(rel, "\\"@) || has_drive(rel)))
    &&& !split_by(rel, path_seps(windows)).contains(".."@)
}

/// Refuses a file that is absolute or climbs out with `..`: joined onto the
/// repository, either would read anywhere on the disk. `windows` says whether
/// paths are read as Windows reads them.
pub fn repo_relative(rel: &str, windows: bool) -> (r: Result<(), String>)
    ensures
        r is Ok <==> is_repo_relative(rel@, windows),
        r matches Err(e) ==> e@ == "file must be repo-relative"@,
{
    let s = chars_of(rel);
    let seps: Vec<char> = if windows {
        let v = vec!['/', '\\'];
        assert(v@ =~= seq!['/', '\\']);
        v
    } else {
        let v = vec!['/'];
        assert(v@ =~= seq!['/']);
        v
    };
    let root = chars_of("/");
    if starts_with(&s, &root) {
        return Err("file must be repo-relative".to_owned());
    }
    if windows {
        let back = chars_of("\\");
        if starts_with(&s, &back) {
            return Err("file must be repo-relative".to_owned());
        }
        if s.len() >= 2 && (('a' <= s[0] && s[0] <= 'z') || ('A' <= s[0] && s[0] <= 'Z')) && s[1] == ':' {
            return Err("file must be repo-relative".to_owned());
        }
    }
    let parts = split_by_exec(&s, &seps);
    let ghost pv = split_by(s@, path_seps(windows));
    let mut i: usize = 0;
    while i < parts.len()
        invariant
            i <= parts@.len(),
            parts@.len() == pv.len(),
            forall|k: int| 0 <= k < parts@.len() ==> #[trigger] parts@[k]@ == pv[k],
            forall|k: int| 0 <= k < i ==> pv[k] != ".."@,
            pv == split_by(rel@, path_seps(windows)),
        decreases parts.len() - i,
    {
        if text_is(&parts[i], "..") {
            assert(pv.contains(".."@)) by {
                assert(pv[i as int] == ".."@);
            }
            return Err("file must be repo-relative".to_owned());
        }
        i = i + 1;
    }
    Ok(())
}

/// Whether git's bytes hold a NUL in their first 8 KiB: git's own test for a
/// binary file.
pub open spec fn looks_binary_bytes(b: Seq<u8>) -> bool {
    exists|i: int| 0 <= i < b.len() && i < 8192 && b[i] == 0
}

pub fn bytes_binary(bytes: &[u8]) -> (r: bool)
    ensures
        r == looks_binary_bytes(bytes@),
{
    let end = if bytes.len() < 8192 { bytes.len() } else { 8192 };
    let mut i: usize = 0;
    while i < end
        invariant
            i <= end,
            end <= bytes@.len(),
            end == bytes@.len() || end == 8192,
            end <= 8192,
            forall|k: int| 0 <= k < i ==> bytes@[k] != 0,
        decreases end - i,
    {
        if bytes[i] == 0 {
            assert(bytes@[i as int] == 0 && i < 8192);
            return true;
        }
        i = i + 1;
    }
    false
}

/// `prefix` followed by `files`.
fn with_files(prefix: Vec<String>, files: &Vec<String>) -> (args: Vec<String>)
    ensures
        strs(args@) == strs(prefix@) + strs(files@),
{
    let mut args = prefix;
    let ghost start = strs(args@);
    let mut i: usize = 0;
    while i < files.len()
        invariant
            i <= files@.len(),
            strs(args@) == start + strs(files@).take(i as int),
        decreases files.len() - i,
    {
        let ghost before = args@;
        args.push(files[i].clone());
        proof {
            assert(strs(args@) =~= strs(before).push(files@[i as int]@));
            assert(strs(files@).take(i + 1) =~= strs(files@).take(i as int).push(files@[i as int]@));
        }
        i = i + 1;
    }
    proof {
        assert(strs(files@).take(files@.len() as int) =~= strs(files@));
    }
    args
}

/// What `git <sub>` runs with for some files: the subcommand, `--` when
/// asked for, then the files.
pub fn run_files(sub: &str, files: &Vec<String>, with_dashes: bool) -> (args: Vec<String>)
    ensures
        strs(args@) == seq![sub@] + (if with_dashes {
            seq!["--"@]
        } else {
            Seq::<Seq<char>>::empty()
        }) + strs(files@),
{
    let mut prefix: Vec<String> = Vec::new();
    prefix.push(sub.to_owned());
    if with_dashes {
        prefix.push("--".to_owned());
    }
    proof {
        assert(strs(prefix@) =~= seq![sub@] + (if with_dashes {
            seq!["--"@]
        } else {
            Seq::<Seq<char>>::empty()
        }));
    }
    with_files(prefix, files)
}

/// What unstaging some files runs: `git reset HEAD -- <files>`.
pub fn unstage_blocking(files: &Vec<String>) -> (args: Vec<String>)
    ensures
        strs(args@) == seq!["reset"@, "HEAD"@, "--"@] + strs(files@),
{
    let mut prefix: Vec<String> = Vec::new();
    prefix.push("reset".to_owned());
    prefix.push("HEAD".to_owned());
    prefix.push("--".to_owned());
    proof {
        assert(strs(prefix@) =~= seq!["reset"@, "HEAD"@, "--"@]);
    }
    with_files(prefix, files)
}

/// What discarding runs, in order: tracked files restored from the index
/// (never from HEAD, so staged work survives), then untracked ones removed.
/// A list that is empty runs nothing.
pub fn discard_blocking(files: &Vec<String>, untracked: &Vec<String>) -> (runs: Vec<Vec<String>>)
    ensures
        runs@.len() == (if files@.len() > 0 { 1int } else { 0 }) + (if untracked@.len() > 0 {
            1int
        } else {
            0
        }),
        files@.len() > 0 ==> strs(runs@[0]@) == seq!["checkout"@, "--"@] + strs(files@),
        untracked@.len() > 0 ==> strs(runs@[runs@.len() - 1]@) == seq!["clean"@, "-fd"@, "--"@]
            + strs(untracked@),
{
    let mut runs: Vec<Vec<String>> = Vec::new();
    if files.len() > 0 {
        let mut prefix: Vec<String> = Vec::new();
        prefix.push("checkout".to_owned());
        prefix.push("--".to_owned());
        proof {
            assert(strs(prefix@) =~= seq!["checkout"@, "--"@]);
        }
        runs.push(with_files(prefix, files));
    }
    if untracked.len() > 0 {
        let mut prefix: Vec<String> = Vec::new();
        prefix.push("clean".to_owned());
        prefix.push("-fd".to_owned());
        prefix.push("--".to_owned());
        proof {
            assert(strs(prefix@) =~= seq!["clean"@, "-fd"@, "--"@]);
        }
        runs.push(with_files(prefix, untracked));
    }
    runs
}

/// Where a discard stands between its runs: the next planned run to make,
/// or the answer.
#[derive(Debug, PartialEq, Eq)]
pub enum DiscardNext {
    Run(usize),
    Finish(Result<(), String>),
}

/// The next step of a discard whose plan has `planned` runs, `done` of which
/// were made, the last with `last` as its outcome (`Ok` before the first).
/// The runs go in order and the first failure ends the discard with its
/// error: a checkout that failed is never followed by the clean, so the
/// untracked files stay where they are.
pub fn discard_next(planned: usize, done: usize, last: Result<(), String>) -> (r: DiscardNext)
    requires
        done <= planned,
    ensures
        match last {
            Err(e) => r == DiscardNext::Finish(Err(e)),
            Ok(()) => if done < planned {
                r == DiscardNext::Run(done)
            } else {
                r == DiscardNext::Finish(Ok(()))
            },
        },
{
    match last {
        Err(e) => DiscardNext::Finish(Err(e)),
        Ok(()) => if done < planned {
            DiscardNext::Run(done)
        } else {
            DiscardNext::Finish(Ok(()))
        },
    }
}

/// Whether `git remote` listed any remote.
pub fn has_remote(out: Result<Vec<u8>, String>) -> (r: bool)
    ensures
        r == match out {
            Ok(b) => trim(utf8_lossy(b@)).len() > 0,
            Err(_) => false,
        },
{
    match out {
        Ok(b) => {
            let text = lossy_chars(b.as_slice());
            trim_exec(&text).len() > 0
        },
        Err(_) => false,
    }
}

/// Whether a folder is a repository with a remote, from whether it exists
/// and what `git remote` printed there.
pub fn has_remote_blocking(is_dir: bool, out: Result<Vec<u8>, String>) -> (r: bool)
    ensures
        r == (is_dir && match out {
            Ok(b) => trim(utf8_lossy(b@)).len() > 0,
            Err(_) => false,
        }),
{
    is_dir && has_remote(out)
}

/// What `git init` in a folder comes to.
pub fn init_blocking(is_dir: bool, out: Result<Vec<u8>, String>) -> (r: Result<(), String>)
    ensures
        !is_dir ==> r is Err && r->Err_0@ == "not a directory"@,
        is_dir ==> match out {
            Ok(_) => r is Ok,
            Err(e) => r is Err && r->Err_0@ == e@,
        },
{
    if !is_dir {
        return Err("not a directory".to_owned());
    }
    match out {
        Ok(_) => Ok(()),
        Err(e) => Err(e),
    }
}

/// The message a commit is made with: trimmed, and refused when nothing is
/// left.
pub fn commit_message(message: &str) -> (r: Result<String, String>)
    ensures
        trim(message@).len() == 0 ==> r is Err && r->Err_0@ == "Commit message is empty"@,
        trim(message@).len() > 0 ==> r is Ok && r->Ok_0@ == trim(message@),
{
    let m = chars_of(message);
    let t = trim_exec(&m);
    if t.len() == 0 {
        Err("Commit message is empty".to_owned())
    } else {
        Ok(string_of(&t))
    }
}

/// What committing comes to: the message refused when it is empty, or what
/// `git commit -m <trimmed message>` printed, trimmed.
pub fn commit_blocking(message: &str, out: Result<Vec<u8>, String>) -> (r: Result<String, String>)
    ensures
        trim(message@).len() == 0 ==> r is Err && r->Err_0@ == "Commit message is empty"@,
        trim(message@).len() > 0 ==> match out {
            Ok(b) => r is Ok && r->Ok_0@ == trim(utf8_lossy(b@)),
            Err(e) => r is Err && r->Err_0@ == e@,
        },
{
    match commit_message(message) {
        Err(e) => Err(e),
        Ok(_) => match out {
            Ok(b) => {
                let text = lossy_chars(b.as_slice());
                Ok(string_of(&trim_exec(&text)))
            },
            Err(e) => Err(e),
        },
    }
}


/// A file at HEAD, in the index and in the working tree, for the diff view.
#[derive(Debug, Clone)]
pub struct FileVersions {
    pub head: Option<String>,
    pub index: Option<String>,
    pub work: Option<String>,
    pub binary: bool,
}

/// A path with backslashes written as slashes.
pub open spec fn slashed(s: Seq<char>) -> Seq<char> {
    s.map_values(|c: char| if c == '\\' { '/' } else { c })
}

fn slashed_exec(s: &str) -> (out: String)
    ensures
        out@ == slashed(s@),
{
    let c = chars_of(s);
    let mut v: Vec<char> = Vec::new();
    let mut i: usize = 0;
    while i < c.len()
        invariant
            i <= c@.len(),
            v@ == c@.take(i as int).map_values(|c: char| if c == '\\' { '/' } else { c }),
        decreases c.len() - i,
    {
        let x = c[i];
        v.push(if x == '\\' { '/' } else { x });
        proof {
            assert(c@.take(i + 1).map_values(|c: char| if c == '\\' { '/' } else { c }) =~= c@.take(
                i as int,
            ).map_values(|c: char| if c == '\\' { '/' } else { c }).push(if x == '\\' { '/' } else { x }));
        }
        i = i + 1;
    }
    proof {
        assert(c@.take(c@.len() as int) =~= c@);
    }
    string_of(&v)
}

/// The working-tree path and the HEAD path a diff reads: the file as named,
/// and the name it had at HEAD when it was renamed. Both must stay inside the
/// repository.
pub fn file_paths(file: &str, head_file: Option<&str>, windows: bool) -> (r: Result<(String, String), String>)
    ensures
        match r {
            Ok((rel, head_rel)) => rel@ == slashed(file@) && head_rel@ == match head_file {
                Some(h) => slashed(h@),
                None => slashed(file@),
            } && is_repo_relative(rel@, windows) && is_repo_relative(head_rel@, windows),
            Err(e) => e@ == "file must be repo-relative"@ && !(is_repo_relative(slashed(file@), windows)
                && is_repo_relative(match head_file {
                Some(h) => slashed(h@),
                None => slashed(file@),
            }, windows)),
        },
{
    let rel = slashed_exec(file);
    let head_rel = match head_file {
        Some(h) => slashed_exec(h),
        None => rel.clone(),
    };
    match repo_relative(rel.as_str(), windows) {
        Err(e) => return Err(e),
        Ok(()) => {},
    }
    match repo_relative(head_rel.as_str(), windows) {
        Err(e) => return Err(e),
        Ok(()) => {},
    }
    Ok((rel, head_rel))
}

/// What `git show <spec>` gave: the text, or nothing and whether that is
/// because the blob is binary rather than absent at that revision.
pub fn git_show(success: bool, stdout: &[u8]) -> (r: (Option<String>, bool))
    ensures
        !success ==> r.0 is None && !r.1,
        success && looks_binary_bytes(stdout@) ==> r.0 is None && r.1,
        success && !looks_binary_bytes(stdout@) ==> r.0 is Some && r.0->Some_0@ == utf8_lossy(stdout@)
            && !r.1,
{
    if !success {
        return (None, false);
    }
    if bytes_binary(stdout) {
        (None, true)
    } else {
        let t = lossy_chars(stdout);
        (Some(string_of(&t)), false)
    }
}

/// The three versions of a file: HEAD's and the index's as `git show` gave
/// them, and the working tree's from its bytes, when it could be read. Binary
/// when any of the three is.
pub fn file_versions(head: (Option<String>, bool), index: (Option<String>, bool), work: Option<Vec<u8>>) -> (v: FileVersions)
    ensures
        v.head == head.0,
        v.index == index.0,
        match work {
            Some(b) => if looks_binary_bytes(b@) {
                v.work is None && v.binary
            } else {
                v.work is Some && v.work->Some_0@ == utf8_lossy(b@) && v.binary == (head.1 || index.1)
            },
            None => v.work is None && v.binary == (head.1 || index.1),
        },
{
    let (work_text, work_binary) = match work {
        Some(b) => {
            if bytes_binary(b.as_slice()) {
                (None, true)
            } else {
                let t = lossy_chars(b.as_slice());
                (Some(string_of(&t)), false)
            }
        },
        None => (None, false),
    };
    FileVersions { head: head.0, index: index.0, work: work_text, binary: head.1 || index.1 || work_binary }
}

} // verus!
