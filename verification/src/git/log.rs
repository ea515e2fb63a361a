//! The history panel: `git log` read into commits, each marked with whether
//! it exists only here or only upstream.

use vstd::prelude::*;

use crate::git::artifacts::contains_text;
use crate::text::strs;
use crate::git::number::{parse_i64, parse_i64_exec, parse_u32, parse_u32_exec};
use crate::git::status::{lossy_chars, utf8_lossy};
use crate::text::{
    copy_chars, copy_range, drop_empty, drop_empty_exec, lines, lines_exec, push_chars, push_str,
    split_by, split_by_exec, string_of, trim, trim_exec, trim_start_index, trim_start_of, views,
    words, words_exec, decimal, decimal_exec,
};

verus! {

/// One commit as the history panel draws it.
#[derive(Debug, Clone)]
pub struct Commit {
    pub sha: String,
    pub short_sha: String,
    pub parents: Vec<String>,
    pub author: String,
    pub email: String,
    pub time: i64,
    pub summary: String,
    pub additions: u32,
    pub deletions: u32,
    pub refs: Vec<String>,
    pub local_only: bool,
    pub remote_only: bool,
}

/// A commit as a value.
pub struct CommitSpec {
    pub sha: Seq<char>,
    pub short_sha: Seq<char>,
    pub parents: Seq<Seq<char>>,
    pub author: Seq<char>,
    pub email: Seq<char>,
    pub time: i64,
    pub summary: Seq<char>,
    pub additions: u32,
    pub deletions: u32,
    pub refs: Seq<Seq<char>>,
    pub local_only: bool,
    pub remote_only: bool,
}

pub open spec fn commit_view(c: Commit) -> CommitSpec {
    CommitSpec {
        sha: c.sha@,
        short_sha: c.short_sha@,
        parents: strs(c.parents@),
        author: c.author@,
        email: c.email@,
        time: c.time,
        summary: c.summary@,
        additions: c.additions,
        deletions: c.deletions,
        refs: strs(c.refs@),
        local_only: c.local_only,
        remote_only: c.remote_only,
    }
}

pub open spec fn commits_view(v: Seq<Commit>) -> Seq<CommitSpec> {
    v.map_values(|c: Commit| commit_view(c))
}

/// The `i`th field, or nothing when the record has fewer.
pub open spec fn field(fs: Seq<Seq<char>>, i: int) -> Seq<char> {
    if 0 <= i < fs.len() {
        fs[i]
    } else {
        Seq::<char>::empty()
    }
}

/// The decorations of `%D`: comma separated, trimmed, empty ones dropped.
pub open spec fn refs_of(d: Seq<char>) -> Seq<Seq<char>> {
    drop_empty(split_by(d, seq![',']).map_values(|p: Seq<char>| trim(p)))
}

/// The count in column `col` of a `--numstat` line, when it is a number
/// (binary files show `-`).
pub open spec fn stat_count(line: Seq<char>, col: int) -> Option<u32> {
    parse_u32(field(split_by(line, seq!['\t']), col))
}

/// The counts of column `col` over the `--numstat` lines, added up and held
/// at `u32::MAX` rather than wrapping.
pub open spec fn stat_total(ls: Seq<Seq<char>>, col: int) -> u32
    decreases ls.len(),
{
    if ls.len() == 0 {
        0
    } else {
        let prev = stat_total(ls.drop_last(), col);
        match stat_count(ls.last(), col) {
            Some(n) => if prev + n > u32::MAX {
                u32::MAX
            } else {
                (prev + n) as u32
            },
            None => prev,
        }
    }
}

/// The commit one `%x1e`-separated record of the log stands for: a header of
/// `%x1f`-separated fields, then its `--numstat` lines. A record with no sha
/// stands for none.
pub open spec fn commit_of(record: Seq<char>) -> Option<CommitSpec> {
    let t = trim_start_of(record, seq!['\n']);
    let ls = lines(t);
    if t.len() == 0 || ls.len() == 0 {
        None
    } else {
        let fs = split_by(ls[0], seq!['\u{1f}']);
        if field(fs, 0).len() == 0 {
            None
        } else {
            Some(
                CommitSpec {
                    sha: field(fs, 0),
                    short_sha: field(fs, 1),
                    parents: words(field(fs, 2)),
                    author: field(fs, 3),
                    email: field(fs, 4),
                    time: match parse_i64(field(fs, 5)) {
                        Some(v) => v,
                        None => 0,
                    },
                    summary: field(fs, 7),
                    additions: stat_total(ls.drop_first(), 0),
                    deletions: stat_total(ls.drop_first(), 1),
                    refs: refs_of(field(fs, 6)),
                    local_only: false,
                    remote_only: false,
                },
            )
        }
    }
}

pub open spec fn commits_of(records: Seq<Seq<char>>) -> Seq<CommitSpec>
    decreases records.len(),
{
    if records.len() == 0 {
        Seq::<CommitSpec>::empty()
    } else {
        let before = commits_of(records.drop_last());
        match commit_of(records.last()) {
            Some(c) => before.push(c),
            None => before,
        }
    }
}

/// The commits of the log text, in the order git printed them.
pub open spec fn parse_log(text: Seq<char>) -> Seq<CommitSpec> {
    commits_of(split_by(text, seq!['\u{1e}']))
}

/// A commit marked with whether its sha is among those only this branch
/// has, and among those only its upstream has.
pub open spec fn marked(c: CommitSpec, local: Seq<Seq<char>>, remote: Seq<Seq<char>>) -> CommitSpec {
    CommitSpec { local_only: local.contains(c.sha), remote_only: remote.contains(c.sha), ..c }
}

fn field_exec(fs: &Vec<Vec<char>>, i: usize) -> (out: Vec<char>)
    ensures
        out@ == field(views(fs@), i as int),
{
    if i < fs.len() {
        copy_chars(&fs[i])
    } else {
        Vec::new()
    }
}

/// The pieces as strings.
pub fn strings_of(v: &Vec<Vec<char>>) -> (out: Vec<String>)
    ensures
        strs(out@) == views(v@),
{
    let mut out: Vec<String> = Vec::new();
    let mut i: usize = 0;
    while i < v.len()
        invariant
            i <= v@.len(),
            strs(out@) == views(v@).take(i as int),
        decreases v.len() - i,
    {
        let ghost before = out@;
        out.push(string_of(&v[i]));
        proof {
            assert(strs(out@) =~= strs(before).push(v@[i as int]@));
            assert(views(v@).take(i + 1) =~= views(v@).take(i as int).push(v@[i as int]@));
        }
        i = i + 1;
    }
    proof {
        assert(views(v@).take(v@.len() as int) =~= views(v@));
    }
    out
}

fn refs_exec(d: &[char]) -> (out: Vec<String>)
    ensures
        strs(out@) == refs_of(d@),
{
    let comma: [char; 1] = [','];
    proof {
        assert(comma@ =~= seq![',']);
    }
    let pieces = split_by_exec(d, &comma);
    let ghost ps = split_by(d@, seq![',']);
    let mut trimmed: Vec<Vec<char>> = Vec::new();
    let mut i: usize = 0;
    while i < pieces.len()
        invariant
            i <= pieces@.len(),
            pieces@.len() == ps.len(),
            forall|k: int| 0 <= k < pieces@.len() ==> #[trigger] pieces@[k]@ == ps[k],
            views(trimmed@) == ps.take(i as int).map_values(|p: Seq<char>| trim(p)),
        decreases pieces.len() - i,
    {
        let ghost before = trimmed@;
        trimmed.push(trim_exec(&pieces[i]));
        proof {
            assert(views(trimmed@) =~= views(before).push(trim(ps[i as int])));
            assert(ps.take(i + 1).map_values(|p: Seq<char>| trim(p)) =~= ps.take(i as int).map_values(
                |p: Seq<char>| trim(p),
            ).push(trim(ps[i as int])));
        }
        i = i + 1;
    }
    proof {
        assert(ps.take(ps.len() as int) =~= ps);
    }
    let kept = drop_empty_exec(&trimmed);
    strings_of(&kept)
}

fn stat_count_exec(line: &[char], col: usize) -> (r: Option<u32>)
    ensures
        r == stat_count(line@, col as int),
{
    let tab: [char; 1] = ['\t'];
    proof {
        assert(tab@ =~= seq!['\t']);
    }
    let parts = split_by_exec(line, &tab);
    proof {
        assert(views(parts@) =~= split_by(line@, seq!['\t']));
    }
    let f = field_exec(&parts, col);
    parse_u32_exec(&f)
}

/// The `--numstat` totals of lines `from..` of `ls`.
fn stat_totals(ls: &Vec<Vec<char>>) -> (r: (u32, u32))
    requires
        ls@.len() >= 1,
    ensures
        r.0 == stat_total(views(ls@).drop_first(), 0),
        r.1 == stat_total(views(ls@).drop_first(), 1),
{
    let ghost rest = views(ls@).drop_first();
    let mut add: u32 = 0;
    let mut del: u32 = 0;
    let mut i: usize = 1;
    proof {
        assert(rest.take(0) =~= Seq::<Seq<char>>::empty());
    }
    while i < ls.len()
        invariant
            1 <= i <= ls@.len(),
            rest == views(ls@).drop_first(),
            add == stat_total(rest.take(i - 1), 0),
            del == stat_total(rest.take(i - 1), 1),
        decreases ls.len() - i,
    {
        proof {
            assert(rest.take(i as int).drop_last() =~= rest.take(i - 1));
            assert(rest.take(i as int).last() == ls@[i as int]@);
        }
        match stat_count_exec(&ls[i], 0) {
            Some(n) => {
                add = if n > u32::MAX - add { u32::MAX } else { add + n };
            },
            None => {},
        }
        match stat_count_exec(&ls[i], 1) {
            Some(n) => {
                del = if n > u32::MAX - del { u32::MAX } else { del + n };
            },
            None => {},
        }
        i = i + 1;
    }
    proof {
        assert(rest.take(ls@.len() - 1) =~= rest);
    }
    (add, del)
}

/// The commit one record of the log stands for.
fn commit_from(record: &[char]) -> (r: Option<Commit>)
    ensures
        match r {
            Some(c) => commit_of(record@) == Some(commit_view(c)),
            None => commit_of(record@) is None,
        },
{
    let nl: [char; 1] = ['\n'];
    proof {
        assert(nl@ =~= seq!['\n']);
    }
    let lo = trim_start_index(record, &nl);
    let t = copy_range(record, lo, record.len());
    proof {
        assert(t@ =~= record@.skip(lo as int));
    }
    if t.len() == 0 {
        return None;
    }
    let ls = lines_exec(&t);
    if ls.len() == 0 {
        return None;
    }
    let us: [char; 1] = ['\u{1f}'];
    proof {
        assert(us@ =~= seq!['\u{1f}']);
    }
    let fs = split_by_exec(&ls[0], &us);
    proof {
        assert(views(fs@) =~= split_by(views(ls@)[0], seq!['\u{1f}']));
    }
    let sha = field_exec(&fs, 0);
    if sha.len() == 0 {
        return None;
    }
    let short_sha = field_exec(&fs, 1);
    let parent_text = field_exec(&fs, 2);
    let parents = words_exec(&parent_text);
    let author = field_exec(&fs, 3);
    let email = field_exec(&fs, 4);
    let time_text = field_exec(&fs, 5);
    let time: i64 = match parse_i64_exec(&time_text) {
        Some(v) => v,
        None => 0,
    };
    let refs_text = field_exec(&fs, 6);
    let summary = field_exec(&fs, 7);
    let (additions, deletions) = stat_totals(&ls);
    let c = Commit {
        sha: string_of(&sha),
        short_sha: string_of(&short_sha),
        parents: strings_of(&parents),
        author: string_of(&author),
        email: string_of(&email),
        time,
        summary: string_of(&summary),
        additions,
        deletions,
        refs: refs_exec(&refs_text),
        local_only: false,
        remote_only: false,
    };
    Some(c)
}

/// The commits of the log text, in the order git printed them.
pub fn parse_log_exec(text: &[char]) -> (out: Vec<Commit>)
    ensures
        commits_view(out@) == parse_log(text@),
{
    let rs: [char; 1] = ['\u{1e}'];
    proof {
        assert(rs@ =~= seq!['\u{1e}']);
    }
    let records = split_by_exec(text, &rs);
    let ghost all = split_by(text@, seq!['\u{1e}']);
    let mut out: Vec<Commit> = Vec::new();
    let mut i: usize = 0;
    proof {
        assert(all.take(0) =~= Seq::<Seq<char>>::empty());
    }
    while i < records.len()
        invariant
            i <= records@.len(),
            records@.len() == all.len(),
            forall|k: int| 0 <= k < records@.len() ==> #[trigger] records@[k]@ == all[k],
            commits_view(out@) == commits_of(all.take(i as int)),
        decreases records.len() - i,
    {
        proof {
            assert(all.take(i + 1).drop_last() =~= all.take(i as int));
            assert(all.take(i + 1).last() == records@[i as int]@);
        }
        match commit_from(&records[i]) {
            Some(c) => {
                let ghost before = out@;
                out.push(c);
                proof {
                    assert(commits_view(out@) =~= commits_view(before).push(commit_view(c)));
                }
            },
            None => {},
        }
        i = i + 1;
    }
    proof {
        assert(all.take(all.len() as int) =~= all);
    }
    out
}

/// The shas a `git rev-list` printed, one per line, blank lines skipped; none
/// when it failed.
pub fn revision_set(out: Result<Vec<u8>, String>) -> (r: Vec<String>)
    ensures
        strs(r@) == match out {
            Ok(b) => drop_empty(lines(utf8_lossy(b@)).map_values(|l: Seq<char>| trim(l))),
            Err(_) => Seq::<Seq<char>>::empty(),
        },
{
    match out {
        Err(_) => {
            let r: Vec<String> = Vec::new();
            assert(strs(r@) =~= Seq::<Seq<char>>::empty());
            r
        },
        Ok(b) => {
            let text = lossy_chars(b.as_slice());
            let ls = lines_exec(&text);
            let ghost lv = views(ls@);
            let mut trimmed: Vec<Vec<char>> = Vec::new();
            let mut i: usize = 0;
            while i < ls.len()
                invariant
                    i <= ls@.len(),
                    lv == views(ls@),
                    views(trimmed@) == lv.take(i as int).map_values(|l: Seq<char>| trim(l)),
                decreases ls.len() - i,
            {
                let ghost before = trimmed@;
                trimmed.push(trim_exec(&ls[i]));
                proof {
                    assert(views(trimmed@) =~= views(before).push(trim(lv[i as int])));
                    assert(lv.take(i + 1).map_values(|l: Seq<char>| trim(l)) =~= lv.take(
                        i as int,
                    ).map_values(|l: Seq<char>| trim(l)).push(trim(lv[i as int])));
                }
                i = i + 1;
            }
            proof {
                assert(lv.take(lv.len() as int) =~= lv);
            }
            let kept = drop_empty_exec(&trimmed);
            strings_of(&kept)
        },
    }
}

/// The upstream of the current branch, from what `git rev-parse
/// --abbrev-ref --symbolic-full-name HEAD@{upstream}` printed; none when it
/// failed or printed nothing.
pub fn upstream_ref(out: Result<Vec<u8>, String>) -> (r: Option<String>)
    ensures
        match out {
            Ok(b) => if trim(utf8_lossy(b@)).len() == 0 {
                r is None
            } else {
                r is Some && r->Some_0@ == trim(utf8_lossy(b@))
            },
            Err(_) => r is None,
        },
{
    match out {
        Err(_) => None,
        Ok(b) => {
            let text = lossy_chars(b.as_slice());
            let t = trim_exec(&text);
            if t.len() == 0 {
                None
            } else {
                Some(string_of(&t))
            }
        },
    }
}

/// The page of history asked for, held between 1 and 500 commits.
pub open spec fn page_size(limit: u32) -> u32 {
    if limit < 1 {
        1
    } else if limit > 500 {
        500
    } else {
        limit
    }
}

/// The arguments of the `git log` that reads a page of history: HEAD and,
/// when there is one, its upstream, newest first in topological order.
pub fn log_args(limit: u32, skip: u32, upstream: &Option<String>) -> (args: Vec<String>)
    ensures
        strs(args@) == seq!["log"@, "HEAD"@] + match upstream {
            Some(u) => seq![u@],
            None => Seq::<Seq<char>>::empty(),
        } + seq![
            "--topo-order"@,
            "--numstat"@,
            "-n"@ + decimal(page_size(limit) as nat),
            "--skip="@ + decimal(skip as nat),
            "--pretty=format:%x1e%H%x1f%h%x1f%P%x1f%an%x1f%ae%x1f%at%x1f%D%x1f%s%n"@
        ],
{
    let n: u32 = if limit < 1 { 1 } else if limit > 500 { 500 } else { limit };
    let mut args: Vec<String> = Vec::new();
    args.push("log".to_owned());
    args.push("HEAD".to_owned());
    match upstream {
        Some(u) => args.push(u.clone()),
        None => {},
    }
    args.push("--topo-order".to_owned());
    args.push("--numstat".to_owned());
    let mut count: Vec<char> = Vec::new();
    push_str(&mut count, "-n");
    push_chars(&mut count, &decimal_exec(n as u64));
    args.push(string_of(&count));
    let mut sk: Vec<char> = Vec::new();
    push_str(&mut sk, "--skip=");
    push_chars(&mut sk, &decimal_exec(skip as u64));
    args.push(string_of(&sk));
    args.push("--pretty=format:%x1e%H%x1f%h%x1f%P%x1f%an%x1f%ae%x1f%at%x1f%D%x1f%s%n".to_owned());
    proof {
        assert(strs(args@) =~= seq!["log"@, "HEAD"@] + match upstream {
            Some(u) => seq![u@],
            None => Seq::<Seq<char>>::empty(),
        } + seq![
            "--topo-order"@,
            "--numstat"@,
            "-n"@ + decimal(page_size(limit) as nat),
            "--skip="@ + decimal(skip as nat),
            "--pretty=format:%x1e%H%x1f%h%x1f%P%x1f%an%x1f%ae%x1f%at%x1f%D%x1f%s%n"@
        ]);
    }
    args
}

/// The history page for a folder, from what the `git log` of [`log_args`]
/// printed there and the two `git rev-list` answers: the shas only this
/// branch has, and those only its upstream has. A folder that is not one, and
/// a log that failed, show no history.
pub fn log_blocking(is_dir: bool, out: Result<Vec<u8>, String>, local: Vec<String>, remote: Vec<String>) -> (r: Vec<Commit>)
    ensures
        !is_dir || out is Err ==> r@.len() == 0,
        is_dir ==> match out {
            Err(_) => true,
            Ok(b) => commits_view(r@) == parse_log(utf8_lossy(b@)).map_values(
                |c: CommitSpec| marked(c, strs(local@), strs(remote@)),
            ),
        },
        // A commit is local-only exactly when its sha is among those only this
        // branch has, and remote-only exactly when it is among those only the
        // upstream has.
        forall|i: int| 0 <= i < r@.len() ==> {
            &&& #[trigger] r@[i].local_only == strs(local@).contains(r@[i].sha@)
            &&& r@[i].remote_only == strs(remote@).contains(r@[i].sha@)
        },
{
    if !is_dir {
        return Vec::new();
    }
    let b = match out {
        Err(_) => return Vec::new(),
        Ok(b) => b,
    };
    let text = lossy_chars(b.as_slice());
    let mut commits = parse_log_exec(&text);
    let ghost cv = commits_view(commits@);
    let mut out: Vec<Commit> = Vec::new();
    let ghost lv = strs(local@);
    let ghost rv = strs(remote@);
    let ghost total = commits@.len();
    proof {
        assert(commits_view(commits@).skip(0) =~= cv);
    }
    while commits.len() > 0
        invariant
            out@.len() + commits@.len() == total,
            cv.len() == total,
            commits_view(commits@) == cv.skip(out@.len() as int),
            lv == strs(local@),
            rv == strs(remote@),
            commits_view(out@) == cv.take(out@.len() as int).map_values(|c: CommitSpec| marked(c, lv, rv)),
        decreases commits.len(),
    {
        let ghost i = out@.len() as int;
        let ghost prev = commits@;
        let mut c = commits.remove(0);
        proof {
            assert(commits_view(prev)[0] == cv.skip(i)[0]);
            assert(commit_view(c) == cv[i]);
            assert forall|k: int| 0 <= k < commits@.len() implies #[trigger] commits_view(commits@)[k] == cv.skip(i + 1)[k] by {
                assert(commits@[k] == prev[k + 1]);
                assert(commits_view(prev)[k + 1] == cv.skip(i)[k + 1]);
            }
            assert(commits_view(commits@) =~= cv.skip(i + 1));
        }
        let sha = crate::text::chars_of(c.sha.as_str());
        c.local_only = contains_text(local.as_slice(), &sha);
        c.remote_only = contains_text(remote.as_slice(), &sha);
        let ghost before = out@;
        out.push(c);
        proof {
            assert(commits_view(out@) =~= commits_view(before).push(marked(cv[i], lv, rv)));
            assert(cv.take(i + 1).map_values(|c: CommitSpec| marked(c, lv, rv)) =~= cv.take(
                i,
            ).map_values(|c: CommitSpec| marked(c, lv, rv)).push(marked(cv[i], lv, rv)));
        }
    }
    proof {
        assert(cv.take(cv.len() as int) =~= cv);
        assert forall|i: int| 0 <= i < out@.len() implies {
            &&& #[trigger] out@[i].local_only == lv.contains(out@[i].sha@)
            &&& out@[i].remote_only == rv.contains(out@[i].sha@)
        } by {
            assert(commits_view(out@)[i] == commit_view(out@[i]));
            lemma_marked_flags(cv[i], lv, rv);
        }
        assert(forall|i: int| 0 <= i < out@.len() ==> {
            &&& #[trigger] out@[i].local_only == strs(local@).contains(out@[i].sha@)
            &&& out@[i].remote_only == strs(remote@).contains(out@[i].sha@)
        });
    }
    out
}

/// Marking a commit sets its two flags from the two lists and nothing else:
/// local-only exactly when its sha is among those only this branch has,
/// remote-only exactly when it is among those only the upstream has, every
/// other field as parsed.
pub proof fn lemma_marked_flags(c: CommitSpec, local: Seq<Seq<char>>, remote: Seq<Seq<char>>)
    ensures
        marked(c, local, remote).local_only == local.contains(c.sha),
        marked(c, local, remote).remote_only == remote.contains(c.sha),
        marked(c, local, remote).sha == c.sha,
        marked(c, local, remote).summary == c.summary,
        marked(c, local, remote).refs == c.refs,
        marked(c, local, remote).additions == c.additions,
        marked(c, local, remote).deletions == c.deletions,
{
}


proof fn lemma_commits_of_have_shas(records: Seq<Seq<char>>)
    ensures
        forall|i: int| 0 <= i < commits_of(records).len() ==> (#[trigger] commits_of(records)[i]).sha.len() > 0,
    decreases records.len(),
{
    if records.len() > 0 {
        lemma_commits_of_have_shas(records.drop_last());
        let before = commits_of(records.drop_last());
        assert forall|i: int| 0 <= i < commits_of(records).len() implies (#[trigger] commits_of(records)[i]).sha.len() > 0 by {
            if i < before.len() {
                assert(commits_of(records)[i] == before[i]);
            }
        }
    }
}

/// Every commit the history shows has a sha: a record without one stands
/// for no commit at all.
pub proof fn lemma_every_commit_has_a_sha(text: Seq<char>)
    ensures
        forall|i: int| 0 <= i < parse_log(text).len() ==> (#[trigger] parse_log(text)[i]).sha.len() > 0,
{
    lemma_commits_of_have_shas(split_by(text, seq!['\u{1e}']));
}

} // verus!
