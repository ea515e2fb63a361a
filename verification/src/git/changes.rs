//! The changes of a working tree, as the status list and as one mark per path.

use vstd::prelude::*;

use crate::git::status::{
    entries_view, parse_porcelain_v2, porcelain_entries, porcelain_well_formed, split_nul,
    split_nul_exec, byte_views, ChangeEntry, ChangeSpec,
};
use crate::text::{chars_of, compare_text, lemma_lex_irreflexive, lemma_lex_total, lemma_lex_transitive, lex_lt, string_of};

verus! {

/// A path and the one status the file tree marks it with.
#[derive(Debug, Clone)]
pub struct PathStatus {
    pub path: String,
    pub status: String,
}

/// How much a status says: a conflict outweighs a deletion, which outweighs
/// an addition, a modification, a rename or copy, and an untracked file.
pub open spec fn rank_of(c: char) -> int {
    if c == 'U' {
        6
    } else if c == 'D' {
        5
    } else if c == 'A' {
        4
    } else if c == 'M' {
        3
    } else if c == 'R' || c == 'C' {
        2
    } else if c == '?' {
        1
    } else {
        0
    }
}

pub fn rank(c: char) -> (r: u8)
    ensures
        r == rank_of(c),
{
    match c {
        'U' => 6,
        'D' => 5,
        'A' => 4,
        'M' => 3,
        'R' => 2,
        'C' => 2,
        '?' => 1,
        _ => 0,
    }
}

/// The first character of a status, `?` for an empty one.
pub open spec fn lead_status(s: Seq<char>) -> char {
    if s.len() > 0 {
        s[0]
    } else {
        '?'
    }
}

/// The status a path is marked with after reading `es` in order: the first
/// of its entries whose status ranks highest, `None` when no entry names it.
pub open spec fn best_status(es: Seq<ChangeSpec>, path: Seq<char>) -> Option<char>
    decreases es.len(),
{
    if es.len() == 0 {
        None
    } else {
        let prev = best_status(es.drop_last(), path);
        let e = es.last();
        if e.path != path {
            prev
        } else {
            let c = lead_status(e.status);
            match prev {
                None => Some(c),
                Some(x) => if rank_of(c) > rank_of(x) {
                    Some(c)
                } else {
                    Some(x)
                },
            }
        }
    }
}

/// A conflict outweighs a deletion, which outweighs an addition, then a
/// modification, then a rename or copy (alike), then an untracked file; any
/// other letter weighs least.
pub proof fn lemma_rank_order(c: char)
    ensures
        rank_of('U') > rank_of('D'),
        rank_of('D') > rank_of('A'),
        rank_of('A') > rank_of('M'),
        rank_of('M') > rank_of('R'),
        rank_of('R') == rank_of('C'),
        rank_of('C') > rank_of('?'),
        c != 'U' && c != 'D' && c != 'A' && c != 'M' && c != 'R' && c != 'C' && c != '?' ==> rank_of(c) < rank_of('?'),
{
}

/// The mark of a path is the lead status of one of its entries: the first of
/// them whose status ranks highest. It ranks at least as high as every entry
/// for that path, strictly higher than every entry before the one it comes
/// from, and a path no entry names gets no mark.
pub proof fn lemma_best_status_is_weightiest(es: Seq<ChangeSpec>, path: Seq<char>)
    ensures
        best_status(es, path) is None <==> (forall|k: int| 0 <= k < es.len() ==> (#[trigger] es[k]).path != path),
        best_status(es, path) matches Some(c) ==> {
            &&& forall|k: int|
                0 <= k < es.len() && (#[trigger] es[k]).path == path ==> rank_of(lead_status(es[k].status)) <= rank_of(c)
            &&& exists|k: int|
                0 <= k < es.len() && (#[trigger] es[k]).path == path && lead_status(es[k].status) == c && forall|j: int|
                    0 <= j < k && (#[trigger] es[j]).path == path ==> rank_of(lead_status(es[j].status)) < rank_of(c)
        },
    decreases es.len(),
{
    if es.len() > 0 {
        let d = es.drop_last();
        let n = es.len() - 1;
        lemma_best_status_is_weightiest(d, path);
        assert forall|k: int| 0 <= k < n implies #[trigger] es[k] == d[k] by {}
        let e = es.last();
        assert(es[n] == e);
        let prev = best_status(d, path);
        if e.path != path {
            if prev is None {
                assert forall|k: int| 0 <= k < es.len() implies (#[trigger] es[k]).path != path by {
                    if k < n {
                        assert(d[k].path != path);
                    }
                }
            } else {
                let c = prev->Some_0;
                let kx = choose|k: int|
                    0 <= k < d.len() && (#[trigger] d[k]).path == path && lead_status(d[k].status) == c && forall|j: int|
                        0 <= j < k && (#[trigger] d[j]).path == path ==> rank_of(lead_status(d[j].status)) < rank_of(c);
                assert(es[kx] == d[kx]);
                assert forall|j: int| 0 <= j < kx && (#[trigger] es[j]).path == path implies rank_of(
                    lead_status(es[j].status),
                ) < rank_of(c) by {
                    assert(es[j] == d[j]);
                }
                assert forall|k: int| 0 <= k < es.len() && (#[trigger] es[k]).path == path implies rank_of(
                    lead_status(es[k].status),
                ) <= rank_of(c) by {
                    assert(es[k] == d[k]);
                }
                let kw = kx;
                assert(0 <= kw < es.len() && es[kw].path == path && lead_status(es[kw].status) == c);
                assert(!(forall|k: int| 0 <= k < es.len() ==> (#[trigger] es[k]).path != path)) by {
                    assert(es[kx].path == path);
                }
            }
        } else {
            let c = lead_status(e.status);
            assert(!(forall|k: int| 0 <= k < es.len() ==> (#[trigger] es[k]).path != path)) by {
                assert(es[n].path == path);
            }
            match prev {
                None => {
                    assert forall|j: int| 0 <= j < n && (#[trigger] es[j]).path == path implies rank_of(
                        lead_status(es[j].status),
                    ) < rank_of(c) by {
                        assert(es[j] == d[j]);
                        assert(d[j].path != path);
                    }
                    assert forall|k: int| 0 <= k < es.len() && (#[trigger] es[k]).path == path implies rank_of(
                        lead_status(es[k].status),
                    ) <= rank_of(c) by {
                        if k < n {
                            assert(es[k] == d[k]);
                            assert(d[k].path != path);
                        }
                    }
                    assert(es[n].path == path && lead_status(es[n].status) == c);
                },
                Some(x) => {
                    if rank_of(c) > rank_of(x) {
                        assert forall|j: int| 0 <= j < n && (#[trigger] es[j]).path == path implies rank_of(
                            lead_status(es[j].status),
                        ) < rank_of(c) by {
                            assert(es[j] == d[j]);
                            assert(d[j].path == path);
                        }
                        assert forall|k: int| 0 <= k < es.len() && (#[trigger] es[k]).path == path implies rank_of(
                            lead_status(es[k].status),
                        ) <= rank_of(c) by {
                            if k < n {
                                assert(es[k] == d[k]);
                                assert(d[k].path == path);
                            }
                        }
                        assert(es[n].path == path && lead_status(es[n].status) == c);
                    } else {
                        let kx = choose|k: int|
                            0 <= k < d.len() && (#[trigger] d[k]).path == path && lead_status(d[k].status) == x
                                && forall|j: int|
                                0 <= j < k && (#[trigger] d[j]).path == path ==> rank_of(lead_status(d[j].status))
                                    < rank_of(x);
                        assert(es[kx] == d[kx]);
                        assert forall|j: int| 0 <= j < kx && (#[trigger] es[j]).path == path implies rank_of(
                            lead_status(es[j].status),
                        ) < rank_of(x) by {
                            assert(es[j] == d[j]);
                        }
                        assert forall|k: int| 0 <= k < es.len() && (#[trigger] es[k]).path == path implies rank_of(
                            lead_status(es[k].status),
                        ) <= rank_of(x) by {
                            if k < n {
                                assert(es[k] == d[k]);
                                assert(d[k].path == path);
                            }
                        }
                        assert(es[kx].path == path && lead_status(es[kx].status) == x);
                    }
                },
            }
        }
    }
}

/// Whether `out` marks every path of `es` once, in order, with its best
/// status, and nothing else.
pub open spec fn marks_changes(out: Seq<PathStatus>, es: Seq<ChangeSpec>) -> bool {
    &&& forall|a: int, b: int| 0 <= a < b < out.len() ==> lex_lt(out[a].path@, out[b].path@)
    &&& forall|k: int|
        0 <= k < out.len() ==> #[trigger] best_status(es, out[k].path@) == Some(out[k].status@[0])
            && out[k].status@.len() == 1
    &&& forall|p: Seq<char>|
        #[trigger] best_status(es, p) is Some ==> exists|k: int| 0 <= k < out.len() && out[k].path@ == p
}

pub open spec fn pairs_view(acc: Seq<(Vec<char>, char)>) -> Seq<(Seq<char>, char)> {
    acc.map_values(|t: (Vec<char>, char)| (t.0@, t.1))
}

pub open spec fn acc_ok(pv: Seq<(Seq<char>, char)>, pre: Seq<ChangeSpec>) -> bool {
    &&& forall|a: int, b: int| 0 <= a < b < pv.len() ==> lex_lt(pv[a].0, pv[b].0)
    &&& forall|k: int| 0 <= k < pv.len() ==> #[trigger] best_status(pre, pv[k].0) == Some(pv[k].1)
    &&& forall|q: Seq<char>|
        #[trigger] best_status(pre, q) is Some ==> exists|k: int| 0 <= k < pv.len() && pv[k].0 == q
}

fn lead_status_exec(s: &[char]) -> (c: char)
    ensures
        c == lead_status(s@),
{
    if s.len() > 0 {
        s[0]
    } else {
        '?'
    }
}

/// Folds one more entry into the sorted marks.
fn mark_one(acc: &mut Vec<(Vec<char>, char)>, p: Vec<char>, c: char, Ghost(pre): Ghost<Seq<ChangeSpec>>, Ghost(e): Ghost<ChangeSpec>)
    requires
        acc_ok(pairs_view(old(acc)@), pre),
        e.path == p@,
        lead_status(e.status) == c,
    ensures
        acc_ok(pairs_view(final(acc)@), pre.push(e)),
{
    let ghost post = pre.push(e);
    proof {
        assert(post.drop_last() =~= pre);
        assert(post.last() == e);
    }
    let ghost old_pv = pairs_view(acc@);
    let mut j: usize = 0;
    while j < acc.len() && compare_text(&acc[j].0, &p) < 0
        invariant
            j <= acc@.len(),
            old_pv == pairs_view(acc@),
            forall|k: int| 0 <= k < j ==> lex_lt(old_pv[k].0, p@),
        decreases acc.len() - j,
    {
        j = j + 1;
    }
    let len = acc.len();
    if j < len && compare_text(&acc[j].0, &p) == 0 {
        let old_c = acc[j].1;
        proof {
            assert(old_pv[j as int].0 == p@);
            assert(best_status(pre, p@) == Some(old_c));
        }
        if rank(c) > rank(old_c) {
            acc.set(j, (p, c));
        }
        proof {
            let npv = pairs_view(acc@);
            assert forall|i: int| 0 <= i < npv.len() implies npv[i].0 == old_pv[i].0 by {
                if i == j {
                    assert(npv[i].0 == p@);
                }
            }
            assert forall|a: int, b: int| 0 <= a < b < npv.len() implies lex_lt(npv[a].0, npv[b].0) by {
                assert(npv[a].0 == old_pv[a].0);
                assert(npv[b].0 == old_pv[b].0);
            }
            assert forall|k: int| 0 <= k < npv.len() implies #[trigger] best_status(post, npv[k].0) == Some(npv[k].1) by {
                if k != j {
                    assert(npv[k] == old_pv[k]);
                    assert(old_pv[k].0 != p@) by {
                        lemma_lex_irreflexive(p@);
                        if k < j {
                        } else {
                            lemma_lex_total(old_pv[j as int].0, old_pv[k].0);
                        }
                    }
                    assert(best_status(post, npv[k].0) == best_status(pre, npv[k].0));
                } else {
                    assert(npv[k].0 == p@);
                    assert(best_status(post, p@) == (if rank_of(c) > rank_of(old_c) {
                        Some(c)
                    } else {
                        Some(old_c)
                    }));
                }
            }
            assert forall|q: Seq<char>| #[trigger] best_status(post, q) is Some implies exists|k: int|
                0 <= k < npv.len() && npv[k].0 == q by {
                if q == p@ {
                    assert(npv[j as int].0 == q);
                } else {
                    assert(best_status(pre, q) is Some);
                    let k = choose|k: int| 0 <= k < old_pv.len() && old_pv[k].0 == q;
                    assert(npv[k].0 == q);
                }
            }
        }
    } else {
        proof {
            if j < len {
                lemma_lex_total(old_pv[j as int].0, p@);
            }
            assert(best_status(pre, p@) is None) by {
                if best_status(pre, p@) is Some {
                    let k = choose|k: int| 0 <= k < old_pv.len() && old_pv[k].0 == p@;
                    lemma_lex_irreflexive(p@);
                    if k >= j {
                        if k > j {
                            lemma_lex_transitive(p@, old_pv[j as int].0, old_pv[k].0);
                        }
                    }
                }
            }
        }
        acc.insert(j, (p, c));
        proof {
            let npv = pairs_view(acc@);
            assert(npv =~= old_pv.insert(j as int, (e.path, c)));
            assert forall|a: int, b: int| 0 <= a < b < npv.len() implies lex_lt(npv[a].0, npv[b].0) by {
                if a < j && b == j {
                } else if a < j && b > j {
                    assert(npv[b] == old_pv[b - 1]);
                    if j < len {
                        if b - 1 > j {
                            lemma_lex_transitive(p@, old_pv[j as int].0, old_pv[b - 1].0);
                        }
                        lemma_lex_transitive(old_pv[a].0, p@, old_pv[b - 1].0);
                    }
                } else if a == j {
                    assert(npv[b] == old_pv[b - 1]);
                    if b - 1 > j {
                        lemma_lex_transitive(p@, old_pv[j as int].0, old_pv[b - 1].0);
                    }
                } else if a > j {
                    assert(npv[a] == old_pv[a - 1]);
                    assert(npv[b] == old_pv[b - 1]);
                }
            }
            assert forall|k: int| 0 <= k < npv.len() implies #[trigger] best_status(post, npv[k].0) == Some(npv[k].1) by {
                if k < j {
                    assert(npv[k] == old_pv[k]);
                    lemma_lex_irreflexive(p@);
                    assert(npv[k].0 != p@);
                    assert(best_status(post, npv[k].0) == best_status(pre, npv[k].0));
                } else if k > j {
                    assert(npv[k] == old_pv[k - 1]);
                    lemma_lex_irreflexive(p@);
                    lemma_lex_total(old_pv[j as int].0, p@);
                    if k - 1 > j {
                        lemma_lex_transitive(p@, old_pv[j as int].0, old_pv[k - 1].0);
                    }
                    assert(npv[k].0 != p@);
                    assert(best_status(post, npv[k].0) == best_status(pre, npv[k].0));
                } else {
                    assert(npv[k].0 == p@);
                    assert(best_status(post, p@) == Some(c));
                }
            }
            assert forall|q: Seq<char>| #[trigger] best_status(post, q) is Some implies exists|k: int|
                0 <= k < npv.len() && npv[k].0 == q by {
                if q == p@ {
                    assert(npv[j as int].0 == q);
                } else {
                    assert(best_status(pre, q) is Some);
                    let k = choose|k: int| 0 <= k < old_pv.len() && old_pv[k].0 == q;
                    if k < j {
                        assert(npv[k].0 == q);
                    } else {
                        assert(npv[k + 1].0 == q);
                    }
                }
            }
        }
    }
}

fn copy_of(v: &Vec<char>) -> (out: Vec<char>)
    ensures
        out@ == v@,
{
    crate::text::copy_chars(v.as_slice())
}

/// One mark per changed path, in path order: what the file tree shows.
pub fn changed_paths_of(entries: &Vec<ChangeEntry>) -> (out: Vec<PathStatus>)
    ensures
        marks_changes(out@, entries_view(entries@)),
{
    let ghost es = entries_view(entries@);
    let mut acc: Vec<(Vec<char>, char)> = Vec::new();
    let mut i: usize = 0;
    proof {
        assert(es.take(0) =~= Seq::<ChangeSpec>::empty());
    }
    while i < entries.len()
        invariant
            i <= entries@.len(),
            es == entries_view(entries@),
            acc_ok(pairs_view(acc@), es.take(i as int)),
        decreases entries.len() - i,
    {
        let e = &entries[i];
        let p = chars_of(e.path.as_str());
        let st = chars_of(e.status.as_str());
        let c = lead_status_exec(&st);
        proof {
            assert(es.take(i + 1) =~= es.take(i as int).push(es[i as int]));
        }
        mark_one(&mut acc, p, c, Ghost(es.take(i as int)), Ghost(es[i as int]));
        i = i + 1;
    }
    proof {
        assert(es.take(entries@.len() as int) =~= es);
    }
    let ghost pv = pairs_view(acc@);
    let mut out: Vec<PathStatus> = Vec::new();
    let mut k: usize = 0;
    while k < acc.len()
        invariant
            k <= acc@.len(),
            pv == pairs_view(acc@),
            out@.len() == k,
            forall|m: int| 0 <= m < k ==> (#[trigger] out@[m]).path@ == pv[m].0 && out@[m].status@ == seq![pv[m].1],
        decreases acc.len() - k,
    {
        let one: [char; 1] = [acc[k].1];
        proof {
            assert(one@ =~= seq![pv[k as int].1]);
        }
        out.push(PathStatus { path: string_of(&acc[k].0), status: string_of(&one) });
        k = k + 1;
    }
    proof {
        assert forall|a: int, b: int| 0 <= a < b < out@.len() implies lex_lt(out@[a].path@, out@[b].path@) by {
            assert(out@[a].path@ == pv[a].0);
            assert(out@[b].path@ == pv[b].0);
        }
        assert forall|m: int| 0 <= m < out@.len() implies #[trigger] best_status(es, out@[m].path@) == Some(out@[m].status@[0]) && out@[m].status@.len() == 1 by {
            assert(out@[m].path@ == pv[m].0);
        }
        assert forall|q: Seq<char>| #[trigger] best_status(es, q) is Some implies exists|m: int| 0 <= m < out@.len() && out@[m].path@ == q by {
            let m = choose|m: int| 0 <= m < pv.len() && pv[m].0 == q;
            assert(out@[m].path@ == q);
        }
    }
    out
}

/// Whether every rename record of `git status --porcelain=v2 -z` output
/// is followed by the original path it carries.
pub fn porcelain_complete(bytes: &[u8]) -> (r: bool)
    ensures
        r == porcelain_well_formed(split_nul(bytes@)),
{
    let pieces = split_nul_exec(bytes);
    let ghost all = split_nul(bytes@);
    proof {
        assert(byte_views(pieces@) =~= all);
        assert(all.skip(0) =~= all);
    }
    let mut j: usize = 0;
    while j < pieces.len()
        invariant
            all == byte_views(pieces@),
            all == split_nul(bytes@),
            j <= pieces@.len(),
            porcelain_well_formed(all) == porcelain_well_formed(all.skip(j as int)),
        decreases pieces.len() - j,
    {
        let ghost rest = all.skip(j as int);
        proof {
            assert(rest[0] == pieces@[j as int]@);
            assert(rest.drop_first() =~= all.skip(j + 1));
        }
        if pieces[j].len() > 0 && pieces[j][0] == 50u8 {
            if j + 1 >= pieces.len() {
                proof {
                    assert(rest.len() == 1);
                    assert(rest[0].len() > 0 && rest[0][0] == 50u8);
                    assert(!porcelain_well_formed(rest));
                }
                return false;
            }
            proof {
                assert(rest.skip(2) =~= all.skip(j + 2));
            }
            j = j + 2;
        } else {
            j = j + 1;
        }
    }
    proof {
        assert(all.skip(pieces@.len() as int) =~= Seq::<Seq<u8>>::empty());
    }
    true
}

/// What the change list shows for a folder, from what `git status
/// --porcelain=v2 -z` answered there: nothing for a folder that is not one,
/// git's refusal passed on, or the entries in git's order.
pub fn status_blocking(is_dir: bool, out: Result<Vec<u8>, String>) -> (r: Result<Vec<ChangeEntry>, String>)
    requires
        out matches Ok(b) ==> porcelain_well_formed(split_nul(b@)),
    ensures
        !is_dir ==> r is Ok && r->Ok_0@.len() == 0,
        is_dir ==> match out {
            Err(e) => r is Err && r->Err_0@ == e@,
            Ok(b) => r is Ok && entries_view(r->Ok_0@) == porcelain_entries(split_nul(b@)),
        },
{
    if !is_dir {
        return Ok(Vec::new());
    }
    match out {
        Err(e) => Err(e),
        Ok(b) => Ok(parse_porcelain_v2(b.as_slice())),
    }
}

/// The marks of the file tree for a folder, from what `git status
/// --porcelain=v2 -z` answered there. A folder that is not one, and a git
/// that refused, both mark nothing.
pub fn changed_paths_blocking(is_dir: bool, out: Result<Vec<u8>, String>) -> (r: Vec<PathStatus>)
    requires
        out matches Ok(b) ==> porcelain_well_formed(split_nul(b@)),
    ensures
        !is_dir || out is Err ==> r@.len() == 0,
        is_dir ==> match out {
            Err(_) => true,
            Ok(b) => marks_changes(r@, porcelain_entries(split_nul(b@))),
        },
{
    if !is_dir {
        return Vec::new();
    }
    match out {
        Err(_) => Vec::new(),
        Ok(b) => {
            let entries = parse_porcelain_v2(b.as_slice());
            changed_paths_of(&entries)
        },
    }
}

} // verus!
