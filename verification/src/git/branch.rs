//! The branch list, and what git's one-line answers about refs mean.

use vstd::prelude::*;

use crate::git::log::strings_of;
use crate::git::status::{lossy_chars, utf8_lossy};
use crate::text::{
    chars_of, compare_text, drop_empty, drop_empty_exec, lex_lt, lines, lines_exec,
    lemma_lex_total, lemma_lex_irreflexive, lemma_lex_transitive, string_of, trim, trim_exec, views,
};

verus! {

/// One branch in the branch menu.
#[derive(Debug, Clone)]
pub struct BranchInfo {
    pub name: String,
    pub current: bool,
}

/// What `str::to_lowercase` makes of some text: each character's Unicode
/// lowercase mapping. A function of the text alone.
pub uninterp spec fn to_lower(s: Seq<char>) -> Seq<char>;

/// The text in lower case, as the branch menu sorts by.
///
/// Wraps `str::to_lowercase`; the contract names its result and says nothing
/// more about it.
#[verifier::external_body]
pub(crate) fn lowercase(s: &str) -> (out: String)
    ensures
        out@ == to_lower(s@),
{
    s.to_lowercase()
}

/// `a` sorts after `b` case-insensitively.
pub open spec fn after(a: Seq<char>, b: Seq<char>) -> bool {
    lex_lt(to_lower(b), to_lower(a))
}

/// `x` placed in `s` before the first name that sorts after it.
pub open spec fn insert_by_lower(s: Seq<Seq<char>>, x: Seq<char>) -> Seq<Seq<char>>
    decreases s.len(),
{
    if s.len() == 0 {
        seq![x]
    } else if after(s[0], x) {
        seq![x] + s
    } else {
        seq![s[0]] + insert_by_lower(s.drop_first(), x)
    }
}

/// The names sorted case-insensitively, names that compare equal keeping
/// their order: what `sort_by_cached_key(to_lowercase)` does.
pub open spec fn sort_by_lower(s: Seq<Seq<char>>) -> Seq<Seq<char>>
    decreases s.len(),
{
    if s.len() == 0 {
        s
    } else {
        insert_by_lower(sort_by_lower(s.drop_last()), s.last())
    }
}

/// Whether no name sorts after one that follows it.
pub open spec fn sorted_by_lower(s: Seq<Seq<char>>) -> bool {
    forall|i: int, j: int| 0 <= i < j < s.len() ==> !after(s[i], s[j])
}

proof fn lemma_insert_at(s: Seq<Seq<char>>, x: Seq<char>, j: int)
    requires
        0 <= j <= s.len(),
        forall|k: int| 0 <= k < j ==> !after(#[trigger] s[k], x),
        j < s.len() ==> after(s[j], x),
    ensures
        insert_by_lower(s, x) == s.insert(j, x),
    decreases s.len(),
{
    if s.len() == 0 {
        assert(s.insert(j, x) =~= seq![x]);
    } else if j == 0 {
        assert(s.insert(0, x) =~= seq![x] + s);
    } else {
        assert(!after(s[0], x));
        assert forall|k: int| 0 <= k < j - 1 implies !after(#[trigger] s.drop_first()[k], x) by {
            assert(s.drop_first()[k] == s[k + 1]);
        }
        lemma_insert_at(s.drop_first(), x, j - 1);
        assert(seq![s[0]] + s.drop_first().insert(j - 1, x) =~= s.insert(j, x));
    }
}

proof fn lemma_after_total(a: Seq<char>, b: Seq<char>, c: Seq<char>)
    ensures
        after(a, b) ==> !after(b, a),
        after(a, b) && after(b, c) ==> after(a, c),
        !after(a, b) && !after(b, c) ==> !after(a, c),
{
    lemma_lex_total(to_lower(a), to_lower(b));
    lemma_lex_total(to_lower(b), to_lower(c));
    lemma_lex_total(to_lower(a), to_lower(c));
    if after(a, b) && after(b, c) {
        lemma_lex_transitive(to_lower(c), to_lower(b), to_lower(a));
    }
    if !after(a, b) && !after(b, c) && after(a, c) {
        // lower(c) < lower(a), lower(a) <= lower(b), lower(b) <= lower(c)
        if to_lower(a) == to_lower(b) {
            lemma_lex_irreflexive(to_lower(a));
        } else if to_lower(b) == to_lower(c) {
            lemma_lex_irreflexive(to_lower(b));
        } else {
            lemma_lex_transitive(to_lower(a), to_lower(b), to_lower(c));
            lemma_lex_transitive(to_lower(c), to_lower(a), to_lower(c));
            lemma_lex_irreflexive(to_lower(c));
        }
    }
}

/// Sorting by lower case gives a list in which no name sorts after one that
/// follows it.
pub proof fn lemma_sort_by_lower_sorted(s: Seq<Seq<char>>)
    ensures
        sorted_by_lower(sort_by_lower(s)),
        sort_by_lower(s).len() == s.len(),
    decreases s.len(),
{
    if s.len() > 0 {
        lemma_sort_by_lower_sorted(s.drop_last());
        lemma_insert_sorted(sort_by_lower(s.drop_last()), s.last());
    }
}

proof fn lemma_insert_sorted(s: Seq<Seq<char>>, x: Seq<char>)
    requires
        sorted_by_lower(s),
    ensures
        sorted_by_lower(insert_by_lower(s, x)),
        insert_by_lower(s, x).len() == s.len() + 1,
        forall|k: int| 0 <= k < insert_by_lower(s, x).len() ==> #[trigger] insert_by_lower(s, x)[k] == x || s.contains(insert_by_lower(s, x)[k]),
    decreases s.len(),
{
    let r = insert_by_lower(s, x);
    if s.len() == 0 {
    } else if after(s[0], x) {
        assert forall|i: int, j: int| 0 <= i < j < r.len() implies !after(r[i], r[j]) by {
            if i == 0 {
                assert(r[j] == s[j - 1]);
                if j - 1 > 0 {
                    lemma_after_total(x, s[0], s[j - 1]);
                    lemma_after_total(s[0], x, s[0]);
                    lemma_after_total(s[j - 1], s[0], x);
                } else {
                    lemma_after_total(s[0], x, s[0]);
                }
            } else {
                assert(r[i] == s[i - 1]);
                assert(r[j] == s[j - 1]);
            }
        }
        assert forall|k: int| 0 <= k < r.len() implies #[trigger] r[k] == x || s.contains(r[k]) by {
            if k > 0 {
                assert(r[k] == s[k - 1]);
            }
        }
    } else {
        let t = s.drop_first();
        assert(sorted_by_lower(t)) by {
            assert forall|i: int, j: int| 0 <= i < j < t.len() implies !after(t[i], t[j]) by {
                assert(t[i] == s[i + 1]);
                assert(t[j] == s[j + 1]);
            }
        }
        lemma_insert_sorted(t, x);
        let rt = insert_by_lower(t, x);
        assert(r == seq![s[0]] + rt);
        assert forall|k: int| 0 <= k < r.len() implies #[trigger] r[k] == x || s.contains(r[k]) by {
            if k == 0 {
                assert(s.contains(s[0]));
            } else {
                assert(r[k] == rt[k - 1]);
                if rt[k - 1] != x {
                    let m = choose|m: int| 0 <= m < t.len() && t[m] == rt[k - 1];
                    assert(s[m + 1] == rt[k - 1]);
                }
            }
        }
        assert forall|i: int, j: int| 0 <= i < j < r.len() implies !after(r[i], r[j]) by {
            if i == 0 {
                assert(r[j] == rt[j - 1]);
                if rt[j - 1] == x {
                } else {
                    let m = choose|m: int| 0 <= m < t.len() && t[m] == rt[j - 1];
                    assert(s[m + 1] == rt[j - 1]);
                }
            } else {
                assert(r[i] == rt[i - 1]);
                assert(r[j] == rt[j - 1]);
            }
        }
    }
}

/// The branch names `git for-each-ref --format=%(refname:short)
/// refs/heads` printed, blank lines skipped.
pub open spec fn listed_names(b: Seq<u8>) -> Seq<Seq<char>> {
    drop_empty(lines(utf8_lossy(b)).map_values(|l: Seq<char>| trim(l)))
}

/// The menu's names: those listed, with the current branch added when the
/// listing lacks it (an unborn branch has no ref yet), sorted.
pub open spec fn menu_names(listed: Seq<Seq<char>>, current: Option<Seq<char>>) -> Seq<Seq<char>> {
    let all = match current {
        Some(c) => if listed.contains(c) {
            listed
        } else {
            listed.push(c)
        },
        None => listed,
    };
    sort_by_lower(all)
}

pub open spec fn menu_view(v: Seq<BranchInfo>) -> Seq<(Seq<char>, bool)> {
    v.map_values(|b: BranchInfo| (b.name@, b.current))
}

fn trimmed_lines(text: &[char]) -> (out: Vec<Vec<char>>)
    ensures
        views(out@) == drop_empty(lines(text@).map_values(|l: Seq<char>| trim(l))),
{
    let ls = lines_exec(text);
    let ghost lv = views(ls@);
    let mut trimmed: Vec<Vec<char>> = Vec::new();
    let mut i: usize = 0;
    while i < ls.len()
        invariant
            i <= ls@.len(),
            lv == views(ls@),
            lv == lines(text@),
            views(trimmed@) == lv.take(i as int).map_values(|l: Seq<char>| trim(l)),
        decreases ls.len() - i,
    {
        let ghost before = trimmed@;
        trimmed.push(trim_exec(&ls[i]));
        proof {
            assert(views(trimmed@) =~= views(before).push(trim(lv[i as int])));
            assert(lv.take(i + 1).map_values(|l: Seq<char>| trim(l)) =~= lv.take(i as int).map_values(
                |l: Seq<char>| trim(l),
            ).push(trim(lv[i as int])));
        }
        i = i + 1;
    }
    proof {
        assert(lv.take(lv.len() as int) =~= lv);
    }
    drop_empty_exec(&trimmed)
}

/// Sorts names case-insensitively, keeping the order of names that compare
/// equal.
pub fn sort_names(names: &Vec<Vec<char>>) -> (out: Vec<Vec<char>>)
    ensures
        views(out@) == sort_by_lower(views(names@)),
{
    let ghost nv = views(names@);
    let mut out: Vec<Vec<char>> = Vec::new();
    let mut keys: Vec<Vec<char>> = Vec::new();
    let mut i: usize = 0;
    proof {
        assert(nv.take(0) =~= Seq::<Seq<char>>::empty());
        assert(views(out@) =~= sort_by_lower(nv.take(0)));
    }
    while i < names.len()
        invariant
            i <= names@.len(),
            nv == views(names@),
            views(out@) == sort_by_lower(nv.take(i as int)),
            keys@.len() == out@.len(),
            forall|k: int| 0 <= k < keys@.len() ==> #[trigger] keys@[k]@ == to_lower(out@[k]@),
        decreases names.len() - i,
    {
        let x = crate::text::copy_chars(&names[i]);
        let xs = string_of(&x);
        let kx = chars_of(lowercase(xs.as_str()).as_str());
        let ghost sv = views(out@);
        let mut j: usize = 0;
        while j < out.len() && compare_text(&kx, &keys[j]) >= 0
            invariant
                j <= out@.len(),
                keys@.len() == out@.len(),
                sv == views(out@),
                kx@ == to_lower(x@),
                forall|k: int| 0 <= k < keys@.len() ==> #[trigger] keys@[k]@ == to_lower(out@[k]@),
                forall|k: int| 0 <= k < j ==> !after(#[trigger] sv[k], x@),
            decreases out.len() - j,
        {
            proof {
                assert(keys@[j as int]@ == to_lower(sv[j as int]));
            }
            j = j + 1;
        }
        proof {
            if j < out@.len() {
                assert(keys@[j as int]@ == to_lower(sv[j as int]));
                assert(after(sv[j as int], x@));
            }
            lemma_insert_at(sv, x@, j as int);
            assert(nv.take(i + 1).drop_last() =~= nv.take(i as int));
            assert(nv.take(i + 1).last() == x@);
        }
        out.insert(j, x);
        keys.insert(j, kx);
        proof {
            assert(views(out@) =~= sv.insert(j as int, nv[i as int]));
            assert forall|k: int| 0 <= k < keys@.len() implies #[trigger] keys@[k]@ == to_lower(out@[k]@) by {
                if k < j {
                } else if k > j {
                }
            }
        }
        i = i + 1;
    }
    proof {
        assert(nv.take(names@.len() as int) =~= nv);
    }
    out
}

/// The branch menu for a folder, from the branch HEAD names (`current`,
/// when it names one) and what `git for-each-ref --format=%(refname:short)
/// refs/heads` printed there.
pub fn branches_blocking(is_dir: bool, current: Option<String>, out: Result<Vec<u8>, String>) -> (r: Result<Vec<BranchInfo>, String>)
    ensures
        !is_dir ==> r is Err && r->Err_0@ == "Not a directory"@,
        is_dir ==> match out {
            Err(e) => r is Err && r->Err_0@ == e@,
            Ok(b) => r is Ok && {
                let cur = match current {
                    Some(c) => Some(c@),
                    None => None,
                };
                let names = menu_names(listed_names(b@), cur);
                &&& r->Ok_0@.len() == names.len()
                &&& forall|k: int| 0 <= k < names.len() ==> (#[trigger] r->Ok_0@[k]).name@ == names[k]
                    && r->Ok_0@[k].current == (cur == Some(names[k]))
            },
        },
{
    if !is_dir {
        return Err("Not a directory".to_owned());
    }
    let b = match out {
        Err(e) => return Err(e),
        Ok(b) => b,
    };
    let text = lossy_chars(b.as_slice());
    let mut names = trimmed_lines(&text);
    let ghost listed = views(names@);
    let cur: Option<Vec<char>> = match &current {
        Some(c) => Some(chars_of(c.as_str())),
        None => None,
    };
    match &cur {
        Some(c) => {
            let listed_strings = strings_of(&names);
            if !crate::git::artifacts::contains_text(listed_strings.as_slice(), c) {
                names.push(crate::text::copy_chars(c));
                proof {
                    assert(views(names@) =~= listed.push(c@));
                }
            }
        },
        None => {},
    }
    let sorted = sort_names(&names);
    let mut menu: Vec<BranchInfo> = Vec::new();
    let mut k: usize = 0;
    while k < sorted.len()
        invariant
            k <= sorted@.len(),
            menu@.len() == k,
            forall|m: int| 0 <= m < k ==> (#[trigger] menu@[m]).name@ == sorted@[m]@ && menu@[m].current == (
                match cur {
                    Some(c) => Some(c@),
                    None => None::<Seq<char>>,
                } == Some(sorted@[m]@)),
        decreases sorted.len() - k,
    {
        let is_current = match &cur {
            Some(c) => crate::text::chars_eq(c, &sorted[k]),
            None => false,
        };
        menu.push(BranchInfo { name: string_of(&sorted[k]), current: is_current });
        k = k + 1;
    }
    Ok(menu)
}

/// The branch `git rev-parse --abbrev-ref HEAD` named: none when it failed,
/// printed nothing, or printed `HEAD` (a detached HEAD).
pub fn current_branch(out: Result<Vec<u8>, String>) -> (r: Option<String>)
    ensures
        match out {
            Ok(b) => {
                let t = trim(utf8_lossy(b@));
                if t.len() == 0 || t == "HEAD"@ {
                    r is None
                } else {
                    r is Some && r->Some_0@ == t
                }
            },
            Err(_) => r is None,
        },
{
    match out {
        Err(_) => None,
        Ok(b) => {
            let text = lossy_chars(b.as_slice());
            let t = trim_exec(&text);
            if t.len() == 0 || crate::text::text_is(&t, "HEAD") {
                None
            } else {
                Some(string_of(&t))
            }
        },
    }
}

/// What a one-line git answer names, trimmed: none when git failed or
/// printed nothing. How `rev-parse --verify` answers for an object and
/// `symbolic-ref --short HEAD` for a branch.
pub fn answer_line(out: Result<Vec<u8>, String>) -> (r: Option<String>)
    ensures
        match out {
            Ok(b) => if trim(utf8_lossy(b@)).len() == 0 {
                r is None
            } else {
                r is Some && r->Some_0@ == trim(utf8_lossy(b@))
            },
            Err(_) => r is None,
        },
{
    match out {
        Err(_) => None,
        Ok(b) => {
            let text = lossy_chars(b.as_slice());
            let t = trim_exec(&text);
            if t.len() == 0 {
                None
            } else {
                Some(string_of(&t))
            }
        },
    }
}

} // verus!
