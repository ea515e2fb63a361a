//! The globs a policy file writes its exclusions in: `*` stops at a
//! separator, `**` does not.

use vstd::prelude::*;

use crate::text::{
    chars_eq, chars_of, copy_range, drop_empty, drop_empty_exec, ends_with, find_from, has_prefix, has_suffix,
    is_one_of, occurs_at, split_by, split_by_exec, starts_with, views,
};

verus! {

/// The middle pieces of a starred pattern occur in `s` in order, without
/// overlapping.
pub open spec fn in_order(mids: Seq<Seq<char>>, s: Seq<char>) -> bool
    decreases mids.len(),
{
    if mids.len() == 0 {
        true
    } else {
        exists|i: int|
            #[trigger] occurs_at(s, mids[0], i) && in_order(mids.drop_first(), s.skip(i + mids[0].len()))
    }
}

/// Whether one path segment matches one pattern segment, where `*` stands for
/// any run of characters. A pattern without a star is a literal.
pub open spec fn star_match(pat: Seq<char>, name: Seq<char>) -> bool {
    let parts = split_by(pat, seq!['*']);
    if parts.len() == 1 {
        pat == name
    } else {
        let first = parts[0];
        let last = parts.last();
        &&& has_prefix(name, first)
        &&& has_suffix(name, last)
        &&& first.len() + last.len() <= name.len()
        &&& in_order(
            parts.subrange(1, parts.len() - 1),
            name.subrange(first.len() as int, name.len() - last.len()),
        )
    }
}

/// The double star, which matches any number of whole segments.
pub open spec fn double_star() -> Seq<char> {
    seq!['*', '*']
}

/// Whether a list of path segments matches a list of pattern segments.
pub open spec fn seg_match(p: Seq<Seq<char>>, s: Seq<Seq<char>>) -> bool
    decreases p.len(),
{
    if p.len() == 0 {
        s.len() == 0
    } else if p[0] == double_star() {
        exists|i: int| 0 <= i <= s.len() && seg_match(p.drop_first(), #[trigger] s.skip(i))
    } else {
        s.len() > 0 && star_match(p[0], s[0]) && seg_match(p.drop_first(), s.drop_first())
    }
}

/// The segments of a pattern: split on `/`, empty ones dropped.
pub open spec fn pattern_segments(pattern: Seq<char>) -> Seq<Seq<char>> {
    drop_empty(split_by(pattern, seq!['/']))
}

/// The segments of a path: split on `/` or `\`, empty ones dropped.
pub open spec fn path_segments(path: Seq<char>) -> Seq<Seq<char>> {
    drop_empty(split_by(path, seq!['/', '\\']))
}

/// Whether a relative path matches a glob.
pub open spec fn glob_match(pattern: Seq<char>, path: Seq<char>) -> bool {
    seg_match(pattern_segments(pattern), path_segments(path))
}

pub proof fn lemma_split_nonempty(s: Seq<char>, seps: Seq<char>)
    ensures
        split_by(s, seps).len() >= 1,
    decreases s.len(),
{
    if s.len() > 0 {
        lemma_split_nonempty(s.drop_last(), seps);
    }
}

/// A split into one piece is the text itself.
pub proof fn lemma_split_single(s: Seq<char>, seps: Seq<char>)
    ensures
        split_by(s, seps).len() == 1 ==> split_by(s, seps)[0] == s,
    decreases s.len(),
{
    if s.len() == 0 {
    } else {
        lemma_split_nonempty(s.drop_last(), seps);
        lemma_split_single(s.drop_last(), seps);
        if !is_one_of(s.last(), seps) {
            assert(s.drop_last().push(s.last()) =~= s);
        }
    }
}

/// A match in a suffix is a match in every longer suffix.
pub proof fn lemma_in_order_widen(m: Seq<Seq<char>>, t: Seq<char>, k: int, k2: int)
    requires
        0 <= k2 <= k <= t.len(),
        in_order(m, t.skip(k)),
    ensures
        in_order(m, t.skip(k2)),
{
    if m.len() > 0 {
        let w = choose|i: int|
            #[trigger] occurs_at(t.skip(k), m[0], i) && in_order(m.drop_first(), t.skip(k).skip(i + m[0].len()));
        let w2 = w + (k - k2);
        assert(t.skip(k2).subrange(w2, w2 + m[0].len()) =~= t.skip(k).subrange(w, w + m[0].len()));
        assert(t.skip(k2).skip(w2 + m[0].len()) =~= t.skip(k).skip(w + m[0].len()));
        assert(occurs_at(t.skip(k2), m[0], w2));
    }
}

/// The leftmost occurrence is as good as any: greedy matching is complete.
pub proof fn lemma_in_order_leftmost(m: Seq<Seq<char>>, t: Seq<char>, at: int, i: int)
    requires
        m.len() > 0,
        0 <= at <= t.len(),
        at <= i,
        occurs_at(t, m[0], i),
        forall|j: int| at <= j < i ==> !#[trigger] occurs_at(t, m[0], j),
    ensures
        in_order(m, t.skip(at)) == in_order(m.drop_first(), t.skip(i + m[0].len())),
{
    let len = m[0].len();
    if in_order(m.drop_first(), t.skip(i + len)) {
        let w = i - at;
        assert(t.skip(at).subrange(w, w + len) =~= t.subrange(i, i + len));
        assert(t.skip(at).skip(w + len) =~= t.skip(i + len));
        assert(occurs_at(t.skip(at), m[0], w));
    }
    if in_order(m, t.skip(at)) {
        let w = choose|w: int|
            #[trigger] occurs_at(t.skip(at), m[0], w) && in_order(m.drop_first(), t.skip(at).skip(w + len));
        assert(t.subrange(at + w, at + w + len) =~= t.skip(at).subrange(w, w + len));
        assert(occurs_at(t, m[0], at + w));
        assert(t.skip(at).skip(w + len) =~= t.skip(at + w + len));
        lemma_in_order_widen(m.drop_first(), t, at + w + len, i + len);
    }
}

/// With no occurrence left, nothing in order can be found.
pub proof fn lemma_in_order_absent(m: Seq<Seq<char>>, t: Seq<char>, at: int)
    requires
        m.len() > 0,
        0 <= at <= t.len(),
        forall|j: int| at <= j ==> !#[trigger] occurs_at(t, m[0], j),
    ensures
        !in_order(m, t.skip(at)),
{
    if in_order(m, t.skip(at)) {
        let len = m[0].len();
        let w = choose|w: int|
            #[trigger] occurs_at(t.skip(at), m[0], w) && in_order(m.drop_first(), t.skip(at).skip(w + len));
        assert(t.subrange(at + w, at + w + len) =~= t.skip(at).subrange(w, w + len));
        assert(occurs_at(t, m[0], at + w));
    }
}

/// One pattern segment against one path segment.
fn star_matches(pat: &[char], name: &[char]) -> (r: bool)
    ensures
        r == star_match(pat@, name@),
{
    let star: [char; 1] = ['*'];
    let parts = split_by_exec(pat, &star);
    proof {
        assert(star@ =~= seq!['*']);
        lemma_split_nonempty(pat@, seq!['*']);
        lemma_split_single(pat@, seq!['*']);
    }
    let ghost ps = split_by(pat@, seq!['*']);
    if parts.len() == 1 {
        return chars_eq(pat, name);
    }
    let first = &parts[0];
    let last = &parts[parts.len() - 1];
    if !starts_with(name, first) || !ends_with(name, last) {
        return false;
    }
    if first.len() > name.len() - last.len() {
        return false;
    }
    let end = name.len() - last.len();
    let rest = copy_range(name, first.len(), end);
    let ghost mids = ps.subrange(1, ps.len() - 1);
    let mut k: usize = 1;
    let mut at: usize = 0;
    proof {
        assert(mids.skip(0) =~= mids);
        assert(rest@.skip(0) =~= rest@);
    }
    while k < parts.len() - 1
        invariant
            star_match(pat@, name@) == in_order(mids, rest@),
            parts@.len() == ps.len(),
            ps.len() >= 2,
            forall|q: int| 0 <= q < parts@.len() ==> #[trigger] parts@[q]@ == ps[q],
            mids == ps.subrange(1, ps.len() - 1),
            1 <= k <= parts@.len() - 1,
            at <= rest@.len(),
            in_order(mids, rest@) == in_order(mids.skip(k - 1), rest@.skip(at as int)),
        decreases parts.len() - 1 - k,
    {
        let part = &parts[k];
        let ghost m = mids.skip(k - 1);
        proof {
            assert(m[0] == part@);
            assert(m.drop_first() =~= mids.skip(k as int));
        }
        if part.len() == 0 {
            proof {
                assert(occurs_at(rest@, part@, at as int)) by {
                    assert(rest@.subrange(at as int, at as int) =~= part@);
                }
                assert(rest@.skip(at as int) =~= rest@.skip(at + 0));
                lemma_in_order_leftmost(m, rest@, at as int, at as int);
                assert(rest@.skip(at + part@.len()) =~= rest@.skip(at as int));
            }
            k = k + 1;
            continue;
        }
        match find_from(&rest, part, at) {
            None => {
                proof {
                    lemma_in_order_absent(m, rest@, at as int);
                }
                return false;
            },
            Some(i) => {
                proof {
                    lemma_in_order_leftmost(m, rest@, at as int, i as int);
                    assert(i + part.len() <= rest.len());
                }
                at = i + part.len();
            },
        }
        k = k + 1;
    }
    proof {
        assert(mids.skip(k - 1).len() == 0);
    }
    true
}

/// Whether a list of pattern segments matches the path segments from `si`.
fn seg(p: &Vec<Vec<char>>, pi: usize, s: &Vec<Vec<char>>, si: usize) -> (r: bool)
    requires
        pi <= p@.len(),
        si <= s@.len(),
    ensures
        r == seg_match(views(p@).skip(pi as int), views(s@).skip(si as int)),
    decreases p@.len() - pi, s@.len() - si,
{
    let ghost pv = views(p@).skip(pi as int);
    let ghost sv = views(s@).skip(si as int);
    if pi == p.len() {
        return si == s.len();
    }
    proof {
        assert(pv[0] == p@[pi as int]@);
        assert(pv.drop_first() =~= views(p@).skip(pi + 1));
    }
    let pat = &p[pi];
    if pat.len() == 2 && pat[0] == '*' && pat[1] == '*' {
        proof {
            assert(pat@ =~= double_star());
        }
        let mut i = si;
        while i < s.len()
            invariant
                si <= i <= s@.len(),
                pi < p.len(),
                pv == views(p@).skip(pi as int),
                sv == views(s@).skip(si as int),
                pv[0] == double_star(),
                pv.drop_first() =~= views(p@).skip(pi + 1),
                forall|j: int|
                    0 <= j < i - si ==> !#[trigger] seg_match(pv.drop_first(), sv.skip(j)),
            decreases s@.len() - i,
        {
            let found = seg(p, pi + 1, s, i);
            proof {
                assert(sv.skip(i - si) =~= views(s@).skip(i as int));
                assert(found == seg_match(pv.drop_first(), sv.skip(i - si)));
            }
            if found {
                proof {
                    assert(0 <= i - si <= sv.len());
                    assert(pv.len() > 0);
                    assert(seg_match(pv, sv));
                }
                return true;
            }
            i = i + 1;
        }
        let found = seg(p, pi + 1, s, i);
        proof {
            assert(sv.skip(i - si) =~= views(s@).skip(i as int));
            assert(found == seg_match(pv.drop_first(), sv.skip(i - si)));
            assert(sv.len() == i - si);
        }
        if found {
            proof {
                assert(seg_match(pv, sv));
            }
            return true;
        }
        proof {
            assert forall|j: int| 0 <= j <= sv.len() implies !seg_match(
                pv.drop_first(),
                #[trigger] sv.skip(j),
            ) by {
                if j == sv.len() {
                }
            }
            assert(!seg_match(pv, sv));
        }
        return false;
    }
    proof {
        assert(pat@ != double_star()) by {
            if pat@ == double_star() {
                assert(pat@.len() == 2 && pat@[0] == '*' && pat@[1] == '*');
            }
        }
    }
    if si == s.len() {
        return false;
    }
    proof {
        assert(sv[0] == s@[si as int]@);
        assert(sv.drop_first() =~= views(s@).skip(si + 1));
    }
    if !star_matches(pat, &s[si]) {
        return false;
    }
    seg(p, pi + 1, s, si + 1)
}

/// Whether a relative path matches a glob. `*` stops at a separator, `**`
/// does not.
pub fn glob_matches(pattern: &str, path: &str) -> (r: bool)
    ensures
        r == glob_match(pattern@, path@),
{
    let pattern_chars = chars_of(pattern);
    let path_chars = chars_of(path);
    glob_matches_chars(&pattern_chars, &path_chars)
}

/// [`glob_matches`] on text already read into characters.
pub fn glob_matches_chars(pattern: &[char], path: &[char]) -> (r: bool)
    ensures
        r == glob_match(pattern@, path@),
{
    let slash: [char; 1] = ['/'];
    let separators: [char; 2] = ['/', '\\'];
    proof {
        assert(slash@ =~= seq!['/']);
        assert(separators@ =~= seq!['/', '\\']);
    }
    let p_pieces = split_by_exec(pattern, &slash);
    let s_pieces = split_by_exec(path, &separators);
    proof {
        assert(views(p_pieces@) =~= split_by(pattern@, seq!['/']));
        assert(views(s_pieces@) =~= split_by(path@, seq!['/', '\\']));
    }
    let p = drop_empty_exec(&p_pieces);
    let s = drop_empty_exec(&s_pieces);
    proof {
        assert(views(p@).skip(0) =~= views(p@));
        assert(views(s@).skip(0) =~= views(s@));
    }
    seg(&p, 0, &s, 0)
}

} // verus!
