//! The file explorer's search: what it looks for, what it skips, when it
//! stops, and the order hits are shown in.
//!
//! Walking the disk is the host's; each entry it meets is handed to
//! [`visit_entry`], which decides whether it is a hit and whether to go into
//! it.

use vstd::prelude::*;

use crate::git::branch::{lowercase, to_lower};
use crate::text::{
    chars_of, compare_text, find_from, lex_lt, lemma_lex_irreflexive, lemma_lex_total, lemma_lex_transitive,
    occurs_at, occurs_in, string_of, trim, trim_exec,
};

verus! {

/// One entry of a directory listing.
#[derive(Debug, Clone)]
pub struct DirEntry {
    pub name: String,
    pub path: String,
    pub is_dir: bool,
    pub is_hidden: bool,
}

/// One search hit.
#[derive(Debug, Clone)]
pub struct SearchHit {
    pub path: String,
    pub is_dir: bool,
}

/// An entry of a listing: hidden when its name starts with a dot.
pub fn dir_entry(name: String, path: String, is_dir: bool) -> (e: DirEntry)
    ensures
        e.name@ == name@,
        e.path@ == path@,
        e.is_dir == is_dir,
        e.is_hidden == (name@.len() > 0 && name@[0] == '.'),
{
    let n = chars_of(name.as_str());
    let is_hidden = n.len() > 0 && n[0] == '.';
    DirEntry { name, path, is_dir, is_hidden }
}

/// Directories the search never enters: version control, dependencies,
/// build output, caches, and the thread worktrees, which hold a full copy of
/// the project each.
pub open spec fn skip_dirs() -> Seq<Seq<char>> {
    seq![
        ".git"@, ".boite"@, "node_modules"@, "target"@, "dist"@, "build"@, "out"@,
        ".svelte-kit"@, ".next"@, ".turbo"@, ".cache"@, ".vite"@, ".nuxt"@, ".parcel-cache"@,
        "__pycache__"@, ".venv"@, "venv"@, ".tox"@, ".mypy_cache"@, ".pytest_cache"@
    ]
}

fn skip_dir_list() -> (v: Vec<&'static str>)
    ensures
        v@.map_values(|s: &'static str| s@) == skip_dirs(),
{
    let v = vec![
        ".git", ".boite", "node_modules", "target", "dist", "build", "out", ".svelte-kit",
        ".next", ".turbo", ".cache", ".vite", ".nuxt", ".parcel-cache", "__pycache__", ".venv",
        "venv", ".tox", ".mypy_cache", ".pytest_cache",
    ];
    assert(v@.map_values(|s: &'static str| s@) =~= skip_dirs());
    v
}

/// A letter folded to ASCII lower case; anything else as it is.
pub open spec fn ascii_lower(c: char) -> char {
    if 'A' <= c && c <= 'Z' {
        ((c as int) + 32) as char
    } else {
        c
    }
}

/// `str::eq_ignore_ascii_case`.
pub open spec fn same_ignoring_ascii_case(a: Seq<char>, b: Seq<char>) -> bool {
    a.len() == b.len() && forall|i: int| 0 <= i < a.len() ==> ascii_lower(#[trigger] a[i]) == ascii_lower(b[i])
}

/// Whether a directory of this name is one the search skips, in any case.
pub open spec fn is_skipped(name: Seq<char>) -> bool {
    exists|k: int| 0 <= k < skip_dirs().len() && same_ignoring_ascii_case(#[trigger] skip_dirs()[k], name)
}

fn lower_ascii(c: char) -> (r: char)
    ensures
        r == ascii_lower(c),
{
    if 'A' <= c && c <= 'Z' {
        ((c as u32) + 32) as u8 as char
    } else {
        c
    }
}

fn same_ignoring_case_exec(a: &[char], b: &[char]) -> (r: bool)
    ensures
        r == same_ignoring_ascii_case(a@, b@),
{
    if a.len() != b.len() {
        return false;
    }
    let mut i: usize = 0;
    while i < a.len()
        invariant
            i <= a@.len(),
            a@.len() == b@.len(),
            forall|k: int| 0 <= k < i ==> ascii_lower(#[trigger] a@[k]) == ascii_lower(b@[k]),
        decreases a.len() - i,
    {
        if lower_ascii(a[i]) != lower_ascii(b[i]) {
            return false;
        }
        i = i + 1;
    }
    true
}

/// Whether the search skips a directory of this name.
pub fn skips_dir(name: &str) -> (r: bool)
    ensures
        r == is_skipped(name@),
{
    let list = skip_dir_list();
    let n = chars_of(name);
    let mut k: usize = 0;
    while k < list.len()
        invariant
            k <= list@.len(),
            list@.map_values(|s: &'static str| s@) == skip_dirs(),
            n@ == name@,
            forall|j: int| 0 <= j < k ==> !same_ignoring_ascii_case(#[trigger] skip_dirs()[j], name@),
        decreases list.len() - k,
    {
        let entry = chars_of(list[k]);
        proof {
            assert(skip_dirs()[k as int] == list@[k as int]@);
        }
        if same_ignoring_case_exec(&entry, &n) {
            return true;
        }
        k = k + 1;
    }
    false
}

/// How many hits a search returns at most: the limit asked for, held
/// between 1 and 2000.
pub open spec fn hit_cap(limit: u32) -> nat {
    if limit < 1 {
        1
    } else if limit > 2000 {
        2000
    } else {
        limit as nat
    }
}

/// The cap on hits is the limit asked for, clamped to `[1, 2000]`: a limit in
/// range is kept as it is, and only a limit outside it is moved to the
/// nearest bound.
pub proof fn lemma_hit_cap_is_the_clamped_limit(limit: u32)
    ensures
        1 <= hit_cap(limit) <= 2000,
        1 <= limit <= 2000 ==> hit_cap(limit) == limit,
        limit == 0 ==> hit_cap(limit) == 1,
        limit > 2000 ==> hit_cap(limit) == 2000,
{
}

/// A search the host is to run.
#[derive(Debug, Clone)]
pub enum Search {
    /// The query is blank: there is nothing to look for and no hit.
    Nothing,
    /// Walk the root, matching names against `needle`, stopping at `cap`
    /// hits.
    Walk { needle: String, cap: usize },
}

/// What a search for `query` under a root comes to: nothing to look for
/// when the query is blank, a refusal when the root is not a directory, or
/// the lower-cased needle and the cap on hits.
pub fn search_blocking(root_is_dir: bool, query: &str, limit: u32) -> (r: Result<Search, String>)
    ensures
        trim(query@).len() == 0 ==> r is Ok && r->Ok_0 is Nothing,
        trim(query@).len() > 0 && !root_is_dir ==> r is Err && r->Err_0@ == "not a directory"@,
        trim(query@).len() > 0 && root_is_dir ==> r is Ok && match r->Ok_0 {
            Search::Walk { needle, cap } => needle@ == to_lower(trim(query@)) && cap == hit_cap(limit),
            Search::Nothing => false,
        },
        // The cap is the limit asked for, held between 1 and 2000.
        r matches Ok(Search::Walk { cap, .. }) ==> 1 <= cap <= 2000 && (1 <= limit <= 2000 ==> cap == limit)
            && (limit == 0 ==> cap == 1) && (limit > 2000 ==> cap == 2000),
{
    let q = chars_of(query);
    let t = trim_exec(&q);
    if t.len() == 0 {
        return Ok(Search::Nothing);
    }
    if !root_is_dir {
        return Err("not a directory".to_owned());
    }
    let ts = string_of(&t);
    let needle = lowercase(ts.as_str());
    let cap: usize = if limit < 1 { 1 } else if limit > 2000 { 2000 } else { limit as usize };
    Ok(Search::Walk { needle, cap })
}

/// What to do after one entry.
#[derive(Debug, Clone, Copy)]
pub struct Step {
    /// The cap is reached: stop listing this directory.
    pub stop: bool,
    /// Walk into this entry.
    pub descend: bool,
}

pub open spec fn hits_view(v: Seq<SearchHit>) -> Seq<(bool, Seq<char>)> {
    v.map_values(|h: SearchHit| (h.is_dir, h.path@))
}

/// Visits one entry of a directory being searched: a hit when its
/// lower-cased name contains the needle; gone into when it is a directory
/// the search does not skip; nothing at all once the cap is reached.
pub fn visit_entry(hits: &mut Vec<SearchHit>, cap: usize, needle: &str, name: &str, path: &str, is_dir: bool) -> (step: Step)
    ensures
        old(hits)@.len() >= cap ==> step.stop && !step.descend && final(hits)@ == old(hits)@,
        // The cap is never passed: at most one hit is added, and only below it.
        old(hits)@.len() <= cap ==> final(hits)@.len() <= cap,
        old(hits)@.len() < cap ==> !step.stop && {
            if is_dir && is_skipped(name@) {
                !step.descend && final(hits)@ == old(hits)@
            } else {
                &&& step.descend == is_dir
                &&& hits_view(final(hits)@) == if occurs_in(to_lower(name@), needle@) {
                    hits_view(old(hits)@).push((is_dir, path@))
                } else {
                    hits_view(old(hits)@)
                }
            }
        },
{
    if hits.len() >= cap {
        return Step { stop: true, descend: false };
    }
    if is_dir && skips_dir(name) {
        return Step { stop: false, descend: false };
    }
    let lower = chars_of(lowercase(name).as_str());
    let nd = chars_of(needle);
    let found = match find_from(&lower, &nd, 0) {
        Some(i) => {
            assert(occurs_at(lower@, nd@, i as int));
            true
        },
        None => {
            assert forall|j: int| !#[trigger] occurs_at(lower@, nd@, j) by {
                if j >= 0 {
                }
            }
            false
        },
    };
    if found {
        let ghost before = hits@;
        hits.push(SearchHit { path: path.to_owned(), is_dir });
        proof {
            assert(hits_view(hits@) =~= hits_view(before).push((is_dir, path@)));
        }
    }
    Step { stop: false, descend: is_dir }
}

/// `a` is shown after `b`: directories first, then by lower-cased path.
pub open spec fn shown_after(a: (bool, Seq<char>), b: (bool, Seq<char>)) -> bool {
    (!a.0 && b.0) || (a.0 == b.0 && lex_lt(to_lower(b.1), to_lower(a.1)))
}

pub open spec fn insert_hit(s: Seq<(bool, Seq<char>)>, x: (bool, Seq<char>)) -> Seq<(bool, Seq<char>)>
    decreases s.len(),
{
    if s.len() == 0 {
        seq![x]
    } else if shown_after(s[0], x) {
        seq![x] + s
    } else {
        seq![s[0]] + insert_hit(s.drop_first(), x)
    }
}

/// The hits in the order they are shown, hits that compare equal keeping
/// the order they were found in: what a stable sort by that order does.
pub open spec fn sort_hits(s: Seq<(bool, Seq<char>)>) -> Seq<(bool, Seq<char>)>
    decreases s.len(),
{
    if s.len() == 0 {
        s
    } else {
        insert_hit(sort_hits(s.drop_last()), s.last())
    }
}

proof fn lemma_insert_hit_at(s: Seq<(bool, Seq<char>)>, x: (bool, Seq<char>), j: int)
    requires
        0 <= j <= s.len(),
        forall|k: int| 0 <= k < j ==> !shown_after(#[trigger] s[k], x),
        j < s.len() ==> shown_after(s[j], x),
    ensures
        insert_hit(s, x) == s.insert(j, x),
    decreases s.len(),
{
    if s.len() == 0 {
        assert(s.insert(j, x) =~= seq![x]);
    } else if j == 0 {
        assert(s.insert(0, x) =~= seq![x] + s);
    } else {
        assert(!shown_after(s[0], x));
        assert forall|k: int| 0 <= k < j - 1 implies !shown_after(#[trigger] s.drop_first()[k], x) by {
            assert(s.drop_first()[k] == s[k + 1]);
        }
        lemma_insert_hit_at(s.drop_first(), x, j - 1);
        assert(seq![s[0]] + s.drop_first().insert(j - 1, x) =~= s.insert(j, x));
    }
}

/// Puts hits in the order they are shown.
pub fn order_hits(hits: Vec<SearchHit>) -> (out: Vec<SearchHit>)
    ensures
        hits_view(out@) == sort_hits(hits_view(hits@)),
{
    let ghost hv = hits_view(hits@);
    let mut out: Vec<SearchHit> = Vec::new();
    let mut keys: Vec<Vec<char>> = Vec::new();
    let mut rest = hits;
    let ghost total = rest@.len();
    proof {
        assert(hv.take(0) =~= Seq::<(bool, Seq<char>)>::empty());
        assert(hits_view(rest@) =~= hv.skip(0));
    }
    while rest.len() > 0
        invariant
            out@.len() + rest@.len() == total,
            hv.len() == total,
            hits_view(rest@) == hv.skip(out@.len() as int),
            hits_view(out@) == sort_hits(hv.take(out@.len() as int)),
            keys@.len() == out@.len(),
            forall|k: int| 0 <= k < keys@.len() ==> #[trigger] keys@[k]@ == to_lower(out@[k].path@),
        decreases rest.len(),
    {
        let ghost i = out@.len() as int;
        let ghost prev = rest@;
        let h = rest.remove(0);
        proof {
            assert(hits_view(prev)[0] == hv.skip(i)[0]);
            assert forall|k: int| 0 <= k < rest@.len() implies #[trigger] hits_view(rest@)[k] == hv.skip(i + 1)[k] by {
                assert(rest@[k] == prev[k + 1]);
                assert(hits_view(prev)[k + 1] == hv.skip(i)[k + 1]);
            }
            assert(hits_view(rest@) =~= hv.skip(i + 1));
        }
        let kx = chars_of(lowercase(h.path.as_str()).as_str());
        let ghost sv = hits_view(out@);
        let ghost x = (h.is_dir, h.path@);
        let mut j: usize = 0;
        while j < out.len() && !(
            (!out[j].is_dir && h.is_dir) || (out[j].is_dir == h.is_dir && compare_text(&kx, &keys[j]) < 0))
            invariant
                j <= out@.len(),
                keys@.len() == out@.len(),
                sv == hits_view(out@),
                kx@ == to_lower(x.1),
                x == (h.is_dir, h.path@),
                forall|k: int| 0 <= k < keys@.len() ==> #[trigger] keys@[k]@ == to_lower(out@[k].path@),
                forall|k: int| 0 <= k < j ==> !shown_after(#[trigger] sv[k], x),
            decreases out.len() - j,
        {
            proof {
                assert(keys@[j as int]@ == to_lower(sv[j as int].1));
                lemma_lex_total(kx@, keys@[j as int]@);
            }
            j = j + 1;
        }
        proof {
            if j < out@.len() {
                assert(keys@[j as int]@ == to_lower(sv[j as int].1));
                assert(shown_after(sv[j as int], x));
            }
            lemma_insert_hit_at(sv, x, j as int);
            assert(hv.take(i + 1).drop_last() =~= hv.take(i));
            assert(hv.take(i + 1).last() == x);
        }
        out.insert(j, h);
        keys.insert(j, kx);
        proof {
            assert(hits_view(out@) =~= sv.insert(j as int, x));
            assert forall|k: int| 0 <= k < keys@.len() implies #[trigger] keys@[k]@ == to_lower(out@[k].path@) by {
                if k < j {
                } else if k > j {
                }
            }
        }
    }
    proof {
        assert(hv.take(total as int) =~= hv);
    }
    out
}

/// Hits in the order they are shown: no hit shown after one that follows it.
pub open spec fn in_show_order(s: Seq<(bool, Seq<char>)>) -> bool {
    forall|i: int, j: int| 0 <= i < j < s.len() ==> !shown_after(#[trigger] s[i], #[trigger] s[j])
}

proof fn lemma_shown_after_order(a: (bool, Seq<char>), b: (bool, Seq<char>), c: (bool, Seq<char>))
    ensures
        shown_after(a, b) && shown_after(b, c) ==> shown_after(a, c),
        shown_after(a, b) ==> !shown_after(b, a),
{
    if shown_after(a, b) && shown_after(b, c) && a.0 == b.0 && b.0 == c.0 {
        lemma_lex_transitive(to_lower(c.1), to_lower(b.1), to_lower(a.1));
    }
    if shown_after(a, b) && a.0 == b.0 {
        lemma_lex_total(to_lower(a.1), to_lower(b.1));
    }
}

proof fn lemma_insert_hit_ordered(s: Seq<(bool, Seq<char>)>, x: (bool, Seq<char>))
    requires
        in_show_order(s),
    ensures
        in_show_order(insert_hit(s, x)),
        insert_hit(s, x).len() == s.len() + 1,
        forall|y: (bool, Seq<char>)| #[trigger] insert_hit(s, x).contains(y) ==> y == x || s.contains(y),
    decreases s.len(),
{
    let r = insert_hit(s, x);
    if s.len() == 0 {
        assert(r =~= seq![x]);
        assert forall|y: (bool, Seq<char>)| #[trigger] r.contains(y) implies y == x || s.contains(y) by {
            let k = choose|k: int| 0 <= k < r.len() && r[k] == y;
        }
    } else if shown_after(s[0], x) {
        assert(r =~= seq![x] + s);
        assert forall|i: int, j: int| 0 <= i < j < r.len() implies !shown_after(#[trigger] r[i], #[trigger] r[j]) by {
            if i == 0 {
                lemma_shown_after_order(s[0], x, x);
                if j - 1 > 0 {
                    lemma_shown_after_order(x, s[j - 1], s[0]);
                    lemma_shown_after_order(s[0], x, s[j - 1]);
                } else {
                    lemma_shown_after_order(s[0], x, s[0]);
                }
            } else {
                assert(r[i] == s[i - 1] && r[j] == s[j - 1]);
            }
        }
        assert forall|y: (bool, Seq<char>)| #[trigger] r.contains(y) implies y == x || s.contains(y) by {
            let k = choose|k: int| 0 <= k < r.len() && r[k] == y;
            if k > 0 {
                assert(s[k - 1] == y);
            }
        }
    } else {
        let rest = s.drop_first();
        assert(in_show_order(rest)) by {
            assert forall|i: int, j: int| 0 <= i < j < rest.len() implies !shown_after(#[trigger] rest[i], #[trigger] rest[j]) by {
                assert(rest[i] == s[i + 1] && rest[j] == s[j + 1]);
            }
        }
        lemma_insert_hit_ordered(rest, x);
        let t = insert_hit(rest, x);
        assert(r =~= seq![s[0]] + t);
        assert forall|i: int, j: int| 0 <= i < j < r.len() implies !shown_after(#[trigger] r[i], #[trigger] r[j]) by {
            if i == 0 {
                assert(r[j] == t[j - 1]);
                assert(t.contains(t[j - 1]));
                if t[j - 1] != x {
                    assert(rest.contains(t[j - 1]));
                    let k = choose|k: int| 0 <= k < rest.len() && rest[k] == t[j - 1];
                    assert(s[k + 1] == t[j - 1]);
                }
            } else {
                assert(r[i] == t[i - 1] && r[j] == t[j - 1]);
            }
        }
        assert forall|y: (bool, Seq<char>)| #[trigger] r.contains(y) implies y == x || s.contains(y) by {
            let k = choose|k: int| 0 <= k < r.len() && r[k] == y;
            if k > 0 {
                assert(t[k - 1] == y);
                assert(t.contains(y));
                if y != x {
                    let m = choose|m: int| 0 <= m < rest.len() && rest[m] == y;
                    assert(s[m + 1] == y);
                }
            }
        }
    }
}

/// Ordering the hits keeps every hit and no other, and puts them in the order
/// they are shown.
pub proof fn lemma_sort_hits_ordered(s: Seq<(bool, Seq<char>)>)
    ensures
        in_show_order(sort_hits(s)),
        sort_hits(s).len() == s.len(),
        forall|y: (bool, Seq<char>)| #[trigger] sort_hits(s).contains(y) ==> s.contains(y),
    decreases s.len(),
{
    if s.len() > 0 {
        lemma_sort_hits_ordered(s.drop_last());
        lemma_insert_hit_ordered(sort_hits(s.drop_last()), s.last());
        assert forall|y: (bool, Seq<char>)| #[trigger] sort_hits(s).contains(y) implies s.contains(y) by {
            if y != s.last() {
                assert(sort_hits(s.drop_last()).contains(y));
                let k = choose|k: int| 0 <= k < s.drop_last().len() && s.drop_last()[k] == y;
                assert(s[k] == y);
            } else {
                assert(s[s.len() - 1] == y);
            }
        }
    }
}

proof fn lemma_insert_hit_distinct(t: Seq<(bool, Seq<char>)>, x: (bool, Seq<char>))
    requires
        t.no_duplicates(),
        !t.contains(x),
    ensures
        insert_hit(t, x).no_duplicates(),
    decreases t.len(),
{
    let r = insert_hit(t, x);
    if t.len() == 0 {
        assert(r =~= seq![x]);
    } else if shown_after(t[0], x) {
        assert(r =~= seq![x] + t);
        assert forall|i: int, j: int| 0 <= i < j < r.len() implies r[i] != r[j] by {
            if i == 0 {
                assert(r[j] == t[j - 1]);
            } else {
                assert(r[i] == t[i - 1] && r[j] == t[j - 1]);
            }
        }
    } else {
        let rest = t.drop_first();
        assert(rest.no_duplicates()) by {
            assert forall|i: int, j: int| 0 <= i < j < rest.len() implies rest[i] != rest[j] by {
                assert(rest[i] == t[i + 1] && rest[j] == t[j + 1]);
            }
        }
        assert(!rest.contains(x)) by {
            if rest.contains(x) {
                let k = choose|k: int| 0 <= k < rest.len() && rest[k] == x;
                assert(t[k + 1] == x);
            }
        }
        lemma_insert_hit_distinct(rest, x);
        let u = insert_hit(rest, x);
        assert(r =~= seq![t[0]] + u);
        assert forall|i: int, j: int| 0 <= i < j < r.len() implies r[i] != r[j] by {
            if i == 0 {
                assert(r[j] == u[j - 1]);
                assert(u.contains(u[j - 1]));
                lemma_insert_hit_members(rest, x, u[j - 1]);
                if u[j - 1] != x {
                    let k = choose|k: int| 0 <= k < rest.len() && rest[k] == u[j - 1];
                    assert(t[k + 1] == u[j - 1]);
                } else {
                    assert(t.contains(t[0]));
                }
            } else {
                assert(r[i] == u[i - 1] && r[j] == u[j - 1]);
            }
        }
    }
}

proof fn lemma_insert_hit_members(t: Seq<(bool, Seq<char>)>, x: (bool, Seq<char>), y: (bool, Seq<char>))
    ensures
        insert_hit(t, x).contains(y) ==> y == x || t.contains(y),
    decreases t.len(),
{
    let r = insert_hit(t, x);
    if r.contains(y) {
        let k = choose|k: int| 0 <= k < r.len() && r[k] == y;
        if t.len() == 0 {
            assert(r =~= seq![x]);
        } else if shown_after(t[0], x) {
            assert(r =~= seq![x] + t);
            if k > 0 {
                assert(t[k - 1] == y);
            }
        } else {
            let u = insert_hit(t.drop_first(), x);
            assert(r =~= seq![t[0]] + u);
            if k > 0 {
                assert(u[k - 1] == y);
                assert(u.contains(y));
                lemma_insert_hit_members(t.drop_first(), x, y);
                if y != x {
                    let m = choose|m: int| 0 <= m < t.drop_first().len() && t.drop_first()[m] == y;
                    assert(t[m + 1] == y);
                }
            } else {
                assert(t[0] == y);
            }
        }
    }
}

proof fn lemma_sort_hits_distinct(s: Seq<(bool, Seq<char>)>)
    requires
        s.no_duplicates(),
    ensures
        sort_hits(s).no_duplicates(),
    decreases s.len(),
{
    if s.len() > 0 {
        let d = s.drop_last();
        assert(d.no_duplicates()) by {
            assert forall|i: int, j: int| 0 <= i < j < d.len() implies d[i] != d[j] by {
                assert(d[i] == s[i] && d[j] == s[j]);
            }
        }
        lemma_sort_hits_distinct(d);
        lemma_sort_hits_ordered(d);
        assert(!sort_hits(d).contains(s.last())) by {
            if sort_hits(d).contains(s.last()) {
                assert(d.contains(s.last()));
                let k = choose|k: int| 0 <= k < d.len() && d[k] == s.last();
                assert(s[k] == s[s.len() - 1]);
            }
        }
        lemma_insert_hit_distinct(sort_hits(d), s.last());
    }
}

/// A search in progress: the hits found so far and, for the proof, the name
/// each was found under and the path of every entry the walk has met.
pub struct SearchWalk {
    hits: Vec<SearchHit>,
    cap: usize,
    needle: String,
    names: Ghost<Seq<Seq<char>>>,
    met: Ghost<Seq<Seq<char>>>,
}

impl SearchWalk {
    pub closed spec fn cap_of(self) -> usize {
        self.cap
    }

    pub closed spec fn needle_of(self) -> Seq<char> {
        self.needle@
    }

    /// The hits found so far, in the order found.
    pub closed spec fn found(self) -> Seq<(bool, Seq<char>)> {
        hits_view(self.hits@)
    }

    /// The name each hit was found under.
    pub closed spec fn found_names(self) -> Seq<Seq<char>> {
        self.names@
    }

    /// The path of every entry met so far, in order.
    pub closed spec fn met_paths(self) -> Seq<Seq<char>> {
        self.met@
    }

    /// What every state of a search holds: no more hits than the cap; each hit
    /// found under a name that holds the needle, and no skipped directory among
    /// them; each hit a path the walk met; and, where the walk met no path
    /// twice, no hit twice.
    pub open spec fn wf(self) -> bool {
        &&& self.found().len() <= self.cap_of()
        &&& self.found_names().len() == self.found().len()
        &&& forall|i: int| 0 <= i < self.found().len() ==> {
            &&& occurs_in(to_lower(#[trigger] self.found_names()[i]), self.needle_of())
            &&& !(self.found()[i].0 && is_skipped(self.found_names()[i]))
            &&& self.met_paths().contains(self.found()[i].1)
        }
        &&& self.met_paths().no_duplicates() ==> forall|i: int, j: int|
            0 <= i < j < self.found().len() ==> #[trigger] self.found()[i].1 != #[trigger] self.found()[j].1
    }

    /// A search for `needle` that stops at `cap` hits, with nothing met yet.
    pub fn new(needle: String, cap: usize) -> (w: SearchWalk)
        ensures
            w.wf(),
            w.cap_of() == cap,
            w.needle_of() == needle@,
            w.found().len() == 0,
            w.met_paths().len() == 0,
    {
        let w = SearchWalk { hits: Vec::new(), cap, needle, names: Ghost(Seq::empty()), met: Ghost(Seq::empty()) };
        assert(w.found() =~= Seq::<(bool, Seq<char>)>::empty());
        w
    }

    /// Visits one entry the walk met, as [`visit_entry`] decides it.
    pub fn visit(&mut self, name: &str, path: &str, is_dir: bool) -> (step: Step)
        requires
            old(self).wf(),
        ensures
            final(self).wf(),
            final(self).cap_of() == old(self).cap_of(),
            final(self).needle_of() == old(self).needle_of(),
            final(self).met_paths() == old(self).met_paths().push(path@),
            old(self).found().len() >= old(self).cap_of() ==> step.stop && !step.descend
                && final(self).found() == old(self).found(),
            old(self).found().len() < old(self).cap_of() ==> !step.stop && {
                if is_dir && is_skipped(name@) {
                    !step.descend && final(self).found() == old(self).found()
                } else {
                    &&& step.descend == is_dir
                    &&& final(self).found() == if occurs_in(to_lower(name@), old(self).needle_of()) {
                        old(self).found().push((is_dir, path@))
                    } else {
                        old(self).found()
                    }
                }
            },
    {
        let ghost before = *self;
        let step = visit_entry(&mut self.hits, self.cap, self.needle.as_str(), name, path, is_dir);
        let ghost grew = self.hits@.len() > before.hits@.len();
        proof {
            if grew {
                self.names@ = before.names@.push(name@);
            }
            self.met@ = before.met@.push(path@);
            let f = self.found();
            assert forall|i: int| 0 <= i < f.len() implies {
                &&& occurs_in(to_lower(#[trigger] self.found_names()[i]), self.needle_of())
                &&& !(f[i].0 && is_skipped(self.found_names()[i]))
                &&& self.met_paths().contains(f[i].1)
            } by {
                if i < before.found().len() {
                    assert(f[i] == before.found()[i]);
                    assert(self.found_names()[i] == before.found_names()[i]);
                    let k = choose|k: int| 0 <= k < before.met_paths().len() && before.met_paths()[k] == f[i].1;
                    assert(self.met_paths()[k] == f[i].1);
                } else {
                    assert(self.met_paths()[self.met_paths().len() - 1] == path@);
                }
            }
            if self.met_paths().no_duplicates() {
                assert(before.met_paths().no_duplicates()) by {
                    assert forall|a: int, b: int| 0 <= a < b < before.met_paths().len() implies before.met_paths()[a] != before.met_paths()[b] by {
                        assert(self.met_paths()[a] == before.met_paths()[a]);
                        assert(self.met_paths()[b] == before.met_paths()[b]);
                    }
                }
                assert forall|i: int, j: int| 0 <= i < j < f.len() implies #[trigger] f[i].1 != #[trigger] f[j].1 by {
                    if j >= before.found().len() {
                        assert(f[j].1 == path@);
                        assert(f[i] == before.found()[i]);
                        if f[i].1 == path@ {
                            assert(self.found_names()[i] == before.found_names()[i]);
                            let k = choose|k: int| 0 <= k < before.met_paths().len() && before.met_paths()[k] == f[i].1;
                            assert(self.met_paths()[k] == path@);
                            assert(self.met_paths()[self.met_paths().len() - 1] == path@);
                        }
                    } else {
                        assert(f[i] == before.found()[i] && f[j] == before.found()[j]);
                    }
                }
            }
        }
        step
    }

    /// The hits, in the order they are shown: directories first, then by
    /// lower-cased path. No more than the cap, each under a name that holds the
    /// needle and none a skipped directory, each a path the walk met, and none
    /// twice where the walk met no path twice.
    pub fn finish(self) -> (out: Vec<SearchHit>)
        requires
            self.wf(),
        ensures
            hits_view(out@) == sort_hits(self.found()),
            in_show_order(hits_view(out@)),
            out@.len() == self.found().len(),
            out@.len() <= self.cap_of(),
            forall|i: int| 0 <= i < out@.len() ==> self.found().contains(#[trigger] hits_view(out@)[i]),
            forall|i: int| 0 <= i < self.found().len() ==> {
                &&& occurs_in(to_lower(#[trigger] self.found_names()[i]), self.needle_of())
                &&& !(self.found()[i].0 && is_skipped(self.found_names()[i]))
                &&& self.met_paths().contains(self.found()[i].1)
            },
            self.met_paths().no_duplicates() ==> forall|i: int, j: int|
                0 <= i < j < out@.len() ==> #[trigger] out@[i].path@ != #[trigger] out@[j].path@,
    {
        let ghost f = self.found();
        let out = order_hits(self.hits);
        proof {
            lemma_sort_hits_ordered(f);
            let o = hits_view(out@);
            assert forall|i: int| 0 <= i < out@.len() implies f.contains(#[trigger] hits_view(out@)[i]) by {
                assert(o.contains(o[i]));
            }
            if self.met_paths().no_duplicates() {
                assert forall|i: int, j: int| 0 <= i < j < out@.len() implies #[trigger] out@[i].path@ != #[trigger] out@[j].path@ by {
                    assert(o[i].1 == out@[i].path@ && o[j].1 == out@[j].path@);
                    assert(o.contains(o[i]) && o.contains(o[j]));
                    let a = choose|a: int| 0 <= a < f.len() && f[a] == o[i];
                    let b = choose|b: int| 0 <= b < f.len() && f[b] == o[j];
                    if out@[i].path@ == out@[j].path@ {
                        if a == b {
                            assert(f.no_duplicates()) by {
                                assert forall|p: int, q: int| 0 <= p < q < f.len() implies f[p] != f[q] by {
                                    assert(f[p].1 != f[q].1);
                                }
                            }
                            lemma_sort_hits_distinct(f);
                            assert(o[i] == o[j]);
                        } else if a < b {
                            assert(f[a].1 != f[b].1);
                        } else {
                            assert(f[b].1 != f[a].1);
                        }
                    }
                }
            }
        }
        out
    }
}

} // verus!
