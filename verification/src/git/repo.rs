//! What the panel says about a repository as a whole: whether it is one, its
//! branch, how far it is from its upstream, and how many commits it has.

use vstd::prelude::*;

use crate::git::number::{parse_u32, parse_u32_exec};
use crate::git::status::{lossy_chars, opt_view, utf8_lossy};
use crate::text::{
    chars_of, copy_range, find_from, lines, lines_exec, occurs_at, occurs_in, string_of,
    strip_prefix_exec, text_is, trim, trim_exec, words, words_exec, has_prefix,
};

verus! {

/// A repository as the panel shows it.
#[derive(Debug, Clone)]
pub struct RepoInfo {
    pub is_repo: bool,
    pub branch: Option<String>,
    pub upstream: Option<String>,
    pub ahead: u32,
    pub behind: u32,
    pub refs_version: Option<String>,
    pub commit_count: u32,
}

/// What the `# branch.*` header lines of `git status -b --porcelain=v2` say.
pub struct Header {
    pub branch: Option<Seq<char>>,
    pub upstream: Option<Seq<char>>,
    pub ahead: u32,
    pub behind: u32,
}

pub open spec fn no_header() -> Header {
    Header { branch: None, upstream: None, ahead: 0, behind: 0 }
}

pub open spec fn header_of(info: RepoInfo) -> Header {
    Header {
        branch: opt_view(info.branch),
        upstream: opt_view(info.upstream),
        ahead: info.ahead,
        behind: info.behind,
    }
}

/// Whether `info` is the answer for a folder that holds no repository.
pub open spec fn is_empty_repo(info: RepoInfo) -> bool {
    &&& !info.is_repo
    &&& info.branch is None
    &&& info.upstream is None
    &&& info.ahead == 0
    &&& info.behind == 0
    &&& info.refs_version is None
    &&& info.commit_count == 0
}

/// A number after its sign, or 0 when it does not read as one.
pub open spec fn count_or_zero(s: Seq<char>) -> u32 {
    match parse_u32(s) {
        Some(n) => n,
        None => 0,
    }
}

/// One token of `# branch.ab +<ahead> -<behind>`.
pub open spec fn apply_ab_token(h: Header, tok: Seq<char>) -> Header {
    if tok.len() > 0 && tok[0] == '+' {
        Header { ahead: count_or_zero(tok.drop_first()), ..h }
    } else if tok.len() > 0 && tok[0] == '-' {
        Header { behind: count_or_zero(tok.drop_first()), ..h }
    } else {
        h
    }
}

pub open spec fn apply_ab_tokens(h: Header, toks: Seq<Seq<char>>) -> Header
    decreases toks.len(),
{
    if toks.len() == 0 {
        h
    } else {
        apply_ab_token(apply_ab_tokens(h, toks.drop_last()), toks.last())
    }
}

/// What one line of the header changes.
pub open spec fn apply_header_line(h: Header, line: Seq<char>) -> Header {
    let head = "# branch.head "@;
    let up = "# branch.upstream "@;
    let ab = "# branch.ab "@;
    if has_prefix(line, head) {
        let rest = line.skip(head.len() as int);
        if rest == "(detached)"@ {
            h
        } else {
            Header { branch: Some(rest), ..h }
        }
    } else if has_prefix(line, up) {
        Header { upstream: Some(line.skip(up.len() as int)), ..h }
    } else if has_prefix(line, ab) {
        apply_ab_tokens(h, words(line.skip(ab.len() as int)))
    } else {
        h
    }
}

/// What the header lines of the output say, later lines winning.
pub open spec fn read_header(ls: Seq<Seq<char>>) -> Header
    decreases ls.len(),
{
    if ls.len() == 0 {
        no_header()
    } else {
        apply_header_line(read_header(ls.drop_last()), ls.last())
    }
}

/// Whether git's refusal means that there is no repository at all, rather
/// than one it could not read: a dubious-ownership refusal quotes a path,
/// which can contain anything, so it is ruled out first.
pub open spec fn no_repository_here(stderr: Seq<char>) -> bool {
    !occurs_in(stderr, "dubious ownership"@) && (occurs_in(stderr, "not a git repository"@)
        || occurs_in(stderr, "must be run in a work tree"@))
}

/// Whether `lit` occurs in `hay`.
pub fn contains_text_of(hay: &[char], lit: &str) -> (r: bool)
    ensures
        r == occurs_in(hay@, lit@),
{
    let needle = chars_of(lit);
    match find_from(hay, &needle, 0) {
        Some(i) => {
            assert(occurs_at(hay@, lit@, i as int));
            true
        },
        None => {
            assert forall|j: int| !#[trigger] occurs_at(hay@, lit@, j) by {
                if j >= 0 {
                }
            }
            false
        },
    }
}

/// Whether git's refusal means there is no repository here. The sentences
/// are git's English ones: the host runs git under `LC_ALL=C`.
pub fn is_not_a_repo(stderr: &str) -> (r: bool)
    ensures
        r == no_repository_here(stderr@),
{
    let s = chars_of(stderr);
    !contains_text_of(&s, "dubious ownership") && (contains_text_of(&s, "not a git repository")
        || contains_text_of(&s, "must be run in a work tree"))
}

/// The answer for a folder with no repository in it.
pub fn empty_repo() -> (info: RepoInfo)
    ensures
        is_empty_repo(info),
{
    RepoInfo {
        is_repo: false,
        branch: None,
        upstream: None,
        ahead: 0,
        behind: 0,
        refs_version: None,
        commit_count: 0,
    }
}

fn count_or_zero_exec(s: &[char]) -> (n: u32)
    ensures
        n == count_or_zero(s@),
{
    match parse_u32_exec(s) {
        Some(n) => n,
        None => 0,
    }
}

fn opt_chars(o: &Option<Vec<char>>) -> (r: Option<String>)
    ensures
        opt_view(r) == match o {
            Some(v) => Some(v@),
            None => None::<Seq<char>>,
        },
{
    match o {
        Some(v) => Some(string_of(v)),
        None => None,
    }
}

pub open spec fn opt_chars_view(o: Option<Vec<char>>) -> Option<Seq<char>> {
    match o {
        Some(v) => Some(v@),
        None => None,
    }
}

/// Reads the `# branch.*` lines of `git status -b --porcelain=v2`.
fn read_header_exec(ls: &Vec<Vec<char>>) -> (r: (Option<Vec<char>>, Option<Vec<char>>, u32, u32))
    ensures
        read_header(crate::text::views(ls@)) == (Header {
            branch: opt_chars_view(r.0),
            upstream: opt_chars_view(r.1),
            ahead: r.2,
            behind: r.3,
        }),
{
    let ghost all = crate::text::views(ls@);
    let mut branch: Option<Vec<char>> = None;
    let mut upstream: Option<Vec<char>> = None;
    let mut ahead: u32 = 0;
    let mut behind: u32 = 0;
    let head = chars_of("# branch.head ");
    let up = chars_of("# branch.upstream ");
    let ab = chars_of("# branch.ab ");
    let mut i: usize = 0;
    while i < ls.len()
        invariant
            i <= ls@.len(),
            all == crate::text::views(ls@),
            head@ == "# branch.head "@,
            up@ == "# branch.upstream "@,
            ab@ == "# branch.ab "@,
            read_header(all.take(i as int)) == (Header {
                branch: opt_chars_view(branch),
                upstream: opt_chars_view(upstream),
                ahead,
                behind,
            }),
        decreases ls.len() - i,
    {
        let line = &ls[i];
        proof {
            assert(all.take(i + 1).drop_last() =~= all.take(i as int));
            assert(all.take(i + 1).last() == line@);
        }
        if let Some(rest) = strip_prefix_exec(line, &head) {
            if !text_is(&rest, "(detached)") {
                branch = Some(rest);
            }
        } else if let Some(rest) = strip_prefix_exec(line, &up) {
            upstream = Some(rest);
        } else if let Some(rest) = strip_prefix_exec(line, &ab) {
            let toks = words_exec(&rest);
            let ghost tv = crate::text::views(toks@);
            let ghost h0 = Header {
                branch: opt_chars_view(branch),
                upstream: opt_chars_view(upstream),
                ahead,
                behind,
            };
            let mut k: usize = 0;
            while k < toks.len()
                invariant
                    k <= toks@.len(),
                    tv == crate::text::views(toks@),
                    apply_ab_tokens(h0, tv.take(k as int)) == (Header {
                        branch: opt_chars_view(branch),
                        upstream: opt_chars_view(upstream),
                        ahead,
                        behind,
                    }),
                decreases toks.len() - k,
            {
                let tok = &toks[k];
                proof {
                    assert(tv.take(k + 1).drop_last() =~= tv.take(k as int));
                    assert(tv.take(k + 1).last() == tok@);
                }
                if tok.len() > 0 && tok[0] == '+' {
                    let n = copy_range(tok, 1, tok.len());
                    assert(n@ =~= tok@.drop_first());
                    ahead = count_or_zero_exec(&n);
                } else if tok.len() > 0 && tok[0] == '-' {
                    let n = copy_range(tok, 1, tok.len());
                    assert(n@ =~= tok@.drop_first());
                    behind = count_or_zero_exec(&n);
                }
                k = k + 1;
            }
            proof {
                assert(tv.take(tv.len() as int) =~= tv);
            }
        }
        i = i + 1;
    }
    proof {
        assert(all.take(all.len() as int) =~= all);
    }
    (branch, upstream, ahead, behind)
}

/// The repository at a folder, from what `git status -b --porcelain=v2
/// --untracked-files=no` answered there.
///
/// `is_dir` says whether the folder exists; `refs_version` and
/// `commit_count` are what the host measured of the repository, and count
/// only when git answered. A refusal that means there is no repository is the
/// empty answer; any other refusal is passed on, because a repository git
/// will not open (one owned by another account) is still a repository.
pub fn repo_info_blocking(
    is_dir: bool,
    status: Result<Vec<u8>, String>,
    refs_version: Option<String>,
    commit_count: u32,
) -> (r: Result<RepoInfo, String>)
    ensures
        !is_dir ==> r is Ok && is_empty_repo(r->Ok_0),
        is_dir ==> match status {
            Err(e) => if no_repository_here(e@) {
                r is Ok && is_empty_repo(r->Ok_0)
            } else {
                r is Err && r->Err_0@ == e@
            },
            Ok(b) => r is Ok && r->Ok_0.is_repo && opt_view(r->Ok_0.refs_version) == opt_view(
                refs_version,
            ) && r->Ok_0.commit_count == commit_count && header_of(r->Ok_0) == read_header(
                lines(utf8_lossy(b@)),
            ),
        },
{
    if !is_dir {
        return Ok(empty_repo());
    }
    let bytes = match status {
        Ok(b) => b,
        Err(e) => {
            if is_not_a_repo(e.as_str()) {
                return Ok(empty_repo());
            }
            return Err(e);
        },
    };
    let text = lossy_chars(bytes.as_slice());
    let ls = lines_exec(&text);
    let (branch, upstream, ahead, behind) = read_header_exec(&ls);
    let info = RepoInfo {
        is_repo: true,
        branch: opt_chars(&branch),
        upstream: opt_chars(&upstream),
        ahead,
        behind,
        refs_version,
        commit_count,
    };
    Ok(info)
}

/// The number `git rev-list --count HEAD` printed, or 0 when it failed or
/// printed something else (an unborn HEAD has no commits).
pub fn commit_count(out: Result<Vec<u8>, String>) -> (n: u32)
    ensures
        n == match out {
            Ok(b) => count_or_zero(trim(utf8_lossy(b@))),
            Err(_) => 0,
        },
{
    match out {
        Ok(b) => {
            let text = lossy_chars(b.as_slice());
            let t = trim_exec(&text);
            count_or_zero_exec(&t)
        },
        Err(_) => 0,
    }
}

} // verus!
