//! What `git status --porcelain=v2 -z` says, read into entries the panel
//! draws.

use vstd::prelude::*;

use crate::text::{
    copy_chars, copy_range, first_index, first_index_exec, string_of,
};

verus! {

/// What `String::from_utf8_lossy` makes of some bytes: each invalid
/// sequence replaced by U+FFFD. A function of the bytes alone.
pub uninterp spec fn utf8_lossy(bytes: Seq<u8>) -> Seq<char>;

/// The characters of some bytes read as UTF-8, invalid sequences replaced.
///
/// Wraps `String::from_utf8_lossy`; the contract names its result and says
/// nothing more about it.
#[verifier::external_body]
pub(crate) fn lossy_chars(bytes: &[u8]) -> (v: Vec<char>)
    ensures
        v@ == utf8_lossy(bytes@),
{
    String::from_utf8_lossy(bytes).chars().collect()
}

/// One change, as the panel lists it.
#[derive(Debug, Clone)]
pub struct ChangeEntry {
    pub path: String,
    pub status: String,
    pub staged: bool,
    pub conflicted: bool,
    pub orig_path: Option<String>,
}

/// A change entry as a value.
pub struct ChangeSpec {
    pub path: Seq<char>,
    pub status: Seq<char>,
    pub staged: bool,
    pub conflicted: bool,
    pub orig: Option<Seq<char>>,
}

pub open spec fn opt_view(o: Option<String>) -> Option<Seq<char>> {
    match o {
        Some(s) => Some(s@),
        None => None,
    }
}

pub open spec fn entry_view(e: ChangeEntry) -> ChangeSpec {
    ChangeSpec {
        path: e.path@,
        status: e.status@,
        staged: e.staged,
        conflicted: e.conflicted,
        orig: opt_view(e.orig_path),
    }
}

pub open spec fn entries_view(v: Seq<ChangeEntry>) -> Seq<ChangeSpec> {
    v.map_values(|e: ChangeEntry| entry_view(e))
}

/// The pieces of a byte string between NUL bytes, as `split` gives them.
pub open spec fn split_nul(b: Seq<u8>) -> Seq<Seq<u8>>
    decreases b.len(),
{
    if b.len() == 0 {
        seq![Seq::<u8>::empty()]
    } else {
        let before = split_nul(b.drop_last());
        if b.last() == 0u8 {
            before.push(Seq::<u8>::empty())
        } else {
            before.update(before.len() - 1, before.last().push(b.last()))
        }
    }
}

/// `str::splitn(n, c)`: at most `n` pieces, the last holding the rest.
pub open spec fn splitn(s: Seq<char>, n: nat, c: char) -> Seq<Seq<char>>
    decreases n,
{
    let k = first_index(s, c);
    if n <= 1 || k < 0 {
        seq![s]
    } else {
        seq![s.take(k)] + splitn(s.skip(k + 1), (n - 1) as nat, c)
    }
}

/// How many bytes a character takes in UTF-8.
pub open spec fn utf8_width(c: char) -> int {
    if (c as int) < 0x80 {
        1
    } else if (c as int) < 0x800 {
        2
    } else if (c as int) < 0x10000 {
        3
    } else {
        4
    }
}

/// `str::get(2..)`: the text from byte 2 on, or nothing when byte 2 is past
/// the end or inside a character.
pub open spec fn from_byte_two(line: Seq<char>) -> Option<Seq<char>> {
    if line.len() == 0 {
        None
    } else if utf8_width(line[0]) == 2 {
        Some(line.skip(1))
    } else if utf8_width(line[0]) == 1 {
        if line.len() == 1 {
            None
        } else if utf8_width(line[1]) == 1 {
            Some(line.skip(2))
        } else {
            None
        }
    } else {
        None
    }
}

/// The one or two entries an `XY` pair stands for: the index side staged,
/// the worktree side not, `.` or a blank meaning no change on that side.
pub open spec fn xy_entries(xy: Seq<char>, path: Seq<char>, orig: Option<Seq<char>>) -> Seq<ChangeSpec> {
    let x = if xy.len() > 0 { xy[0] } else { '.' };
    let y = if xy.len() > 1 { xy[1] } else { '.' };
    let staged: Seq<ChangeSpec> = if x != '.' && x != ' ' {
        seq![ChangeSpec { path, status: seq![x], staged: true, conflicted: false, orig }]
    } else {
        seq![]
    };
    let unstaged: Seq<ChangeSpec> = if y != '.' && y != ' ' {
        seq![ChangeSpec { path, status: seq![y], staged: false, conflicted: false, orig }]
    } else {
        seq![]
    };
    staged + unstaged
}

/// The `XY` field of a record, or `..` when it has none.
pub open spec fn xy_of(parts: Seq<Seq<char>>) -> Seq<char> {
    if parts.len() > 1 {
        parts[1]
    } else {
        seq!['.', '.']
    }
}

/// The entries one record stands for. `line` is the record read as text;
/// `orig` is the text of the record after it, which a rename carries.
pub open spec fn record_entries(kind: u8, line: Seq<char>, orig: Seq<char>) -> Seq<ChangeSpec> {
    if kind == 49u8 {
        // 1 XY sub mH mI mW hH hI path
        let parts = splitn(line, 9, ' ');
        if parts.len() > 8 {
            xy_entries(xy_of(parts), parts[8], None)
        } else {
            seq![]
        }
    } else if kind == 50u8 {
        // 2 XY sub mH mI mW hH hI Xscore path, then the original path
        let parts = splitn(line, 10, ' ');
        if parts.len() > 9 {
            xy_entries(xy_of(parts), parts[9], if orig.len() == 0 { None } else { Some(orig) })
        } else {
            seq![]
        }
    } else if kind == 117u8 {
        // u XY sub m1 m2 m3 mW h1 h2 h3 path
        let parts = splitn(line, 11, ' ');
        if parts.len() > 10 {
            seq![ChangeSpec { path: parts[10], status: seq!['U'], staged: false, conflicted: true, orig: None }]
        } else {
            seq![]
        }
    } else if kind == 63u8 {
        let path = match from_byte_two(line) {
            Some(p) => p,
            None => Seq::<char>::empty(),
        };
        if path.len() > 0 {
            seq![ChangeSpec { path, status: seq!['?'], staged: false, conflicted: false, orig: None }]
        } else {
            seq![]
        }
    } else {
        seq![]
    }
}

/// Whether no rename record is the last piece: git always follows one with
/// the original path, and reading past the end is not something to do.
pub open spec fn porcelain_well_formed(p: Seq<Seq<u8>>) -> bool
    decreases p.len(),
{
    if p.len() == 0 {
        true
    } else if p[0].len() > 0 && p[0][0] == 50u8 {
        p.len() >= 2 && porcelain_well_formed(p.skip(2))
    } else {
        porcelain_well_formed(p.drop_first())
    }
}

/// The entries a list of NUL-separated records stands for, in order.
pub open spec fn porcelain_entries(p: Seq<Seq<u8>>) -> Seq<ChangeSpec>
    decreases p.len(),
{
    if p.len() == 0 {
        seq![]
    } else if p[0].len() == 0 {
        porcelain_entries(p.drop_first())
    } else if p[0][0] == 50u8 {
        if p.len() >= 2 {
            record_entries(50u8, utf8_lossy(p[0]), utf8_lossy(p[1])) + porcelain_entries(p.skip(2))
        } else {
            seq![]
        }
    } else {
        record_entries(p[0][0], utf8_lossy(p[0]), Seq::<char>::empty()) + porcelain_entries(
            p.drop_first(),
        )
    }
}

/// `str::splitn(n, ' ')`.
pub fn splitn_exec(s: &[char], n: usize, c: char) -> (out: Vec<Vec<char>>)
    ensures
        crate::text::views(out@) == splitn(s@, n as nat, c),
    decreases n,
{
    let k = first_index_exec(s, c);
    proof {
        crate::text::lemma_first_index(s@, c);
    }
    if k.is_some() && n > 1 {
        let k = k.unwrap();
        let len = s.len();
        assert(k < len);
        {
            let head = copy_range(s, 0, k);
            let tail = copy_range(s, k + 1, len);
            let rest = splitn_exec(&tail, n - 1, c);
            let mut out: Vec<Vec<char>> = Vec::new();
            out.push(head);
            let mut i: usize = 0;
            let ghost rv = crate::text::views(rest@);
            while i < rest.len()
                invariant
                    i <= rest@.len(),
                    rv == crate::text::views(rest@),
                    crate::text::views(out@) == seq![head@] + rv.take(i as int),
                decreases rest.len() - i,
            {
                let piece = copy_chars(&rest[i]);
                let ghost before = out@;
                out.push(piece);
                proof {
                    assert(crate::text::views(out@) =~= crate::text::views(before).push(rv[i as int]));
                    assert(rv.take(i + 1) =~= rv.take(i as int).push(rv[i as int]));
                    assert(seq![head@] + rv.take(i + 1) =~= (seq![head@] + rv.take(i as int)).push(
                        rv[i as int],
                    ));
                }
                i = i + 1;
            }
            proof {
                assert(rv.take(rest@.len() as int) =~= rv);
                assert(head@ =~= s@.take(k as int));
                assert(tail@ =~= s@.skip(k + 1));
            }
            out
        }
    } else {
        let mut out: Vec<Vec<char>> = Vec::new();
        out.push(copy_chars(s));
        assert(crate::text::views(out@) =~= seq![s@]);
        out
    }
}

fn width(c: char) -> (w: u8)
    ensures
        w as int == utf8_width(c),
{
    if (c as u32) < 0x80 {
        1
    } else if (c as u32) < 0x800 {
        2
    } else if (c as u32) < 0x10000 {
        3
    } else {
        4
    }
}

/// `str::get(2..)` on text held as characters.
fn from_byte_two_exec(line: &[char]) -> (r: Option<Vec<char>>)
    ensures
        match r {
            Some(v) => from_byte_two(line@) == Some(v@),
            None => from_byte_two(line@) is None,
        },
{
    if line.len() == 0 {
        return None;
    }
    let w0 = width(line[0]);
    if w0 == 2 {
        return Some(copy_range(line, 1, line.len()));
    }
    if w0 == 1 {
        if line.len() == 1 {
            return None;
        }
        if width(line[1]) == 1 {
            return Some(copy_range(line, 2, line.len()));
        }
    }
    None
}

fn make_entry(path: &[char], status: char, staged: bool, conflicted: bool, orig: &Option<Vec<char>>) -> (e: ChangeEntry)
    ensures
        entry_view(e) == (ChangeSpec {
            path: path@,
            status: seq![status],
            staged,
            conflicted,
            orig: match orig {
                Some(o) => Some(o@),
                None => None,
            },
        }),
{
    let one: [char; 1] = [status];
    let orig_path = match orig {
        Some(o) => Some(string_of(o)),
        None => None,
    };
    let e = ChangeEntry { path: string_of(path), status: string_of(&one), staged, conflicted, orig_path };
    proof {
        assert(one@ =~= seq![status]);
    }
    e
}

/// Appends the entries an `XY` pair stands for.
fn push_xy(out: &mut Vec<ChangeEntry>, xy: &[char], path: &[char], orig: &Option<Vec<char>>)
    ensures
        entries_view(final(out)@) == entries_view(old(out)@) + xy_entries(
            xy@,
            path@,
            match orig {
                Some(o) => Some(o@),
                None => None,
            },
        ),
{
    let x = if xy.len() > 0 { xy[0] } else { '.' };
    let y = if xy.len() > 1 { xy[1] } else { '.' };
    let ghost start = entries_view(out@);
    if x != '.' && x != ' ' {
        let e = make_entry(path, x, true, false, orig);
        out.push(e);
    }
    let ghost mid = entries_view(out@);
    if y != '.' && y != ' ' {
        let e = make_entry(path, y, false, false, orig);
        out.push(e);
    }
    proof {
        assert(entries_view(out@) =~= start + xy_entries(
            xy@,
            path@,
            match orig {
                Some(o) => Some(o@),
                None => None,
            },
        ));
    }
}

/// The records of `bytes` between NUL bytes.
pub fn split_nul_exec(b: &[u8]) -> (out: Vec<Vec<u8>>)
    ensures
        out@.len() == split_nul(b@).len(),
        forall|k: int| 0 <= k < out@.len() ==> #[trigger] out@[k]@ == split_nul(b@)[k],
{
    let mut out: Vec<Vec<u8>> = Vec::new();
    let mut cur: Vec<u8> = Vec::new();
    let mut i: usize = 0;
    proof {
        assert(b@.take(0) =~= Seq::<u8>::empty());
    }
    while i < b.len()
        invariant
            i <= b@.len(),
            out@.len() + 1 == split_nul(b@.take(i as int)).len(),
            forall|k: int| 0 <= k < out@.len() ==> #[trigger] out@[k]@ == split_nul(b@.take(i as int))[k],
            cur@ == split_nul(b@.take(i as int)).last(),
        decreases b.len() - i,
    {
        let c = b[i];
        proof {
            assert(b@.take(i + 1).drop_last() =~= b@.take(i as int));
            assert(b@.take(i + 1).last() == c);
        }
        if c == 0u8 {
            let mut done: Vec<u8> = Vec::new();
            std::mem::swap(&mut done, &mut cur);
            out.push(done);
        } else {
            cur.push(c);
        }
        i = i + 1;
    }
    proof {
        assert(b@.take(b@.len() as int) =~= b@);
    }
    out.push(cur);
    out
}

/// The byte strings' views.
pub open spec fn byte_views(p: Seq<Vec<u8>>) -> Seq<Seq<u8>> {
    p.map_values(|v: Vec<u8>| v@)
}

/// Reads `git status --porcelain=v2 -z` output into change entries, in the
/// order git printed them: a change on both sides is two entries, a
/// conflict one, an untracked file one.
pub fn parse_porcelain_v2(bytes: &[u8]) -> (out: Vec<ChangeEntry>)
    requires
        porcelain_well_formed(split_nul(bytes@)),
    ensures
        entries_view(out@) == porcelain_entries(split_nul(bytes@)),
{
    let pieces = split_nul_exec(bytes);
    let ghost all = split_nul(bytes@);
    proof {
        assert(byte_views(pieces@) =~= all);
        assert(all.skip(0) =~= all);
    }
    let mut out: Vec<ChangeEntry> = Vec::new();
    let mut j: usize = 0;
    let ghost total = porcelain_entries(all);
    proof {
        assert(entries_view(out@) + porcelain_entries(all.skip(0)) =~= total);
    }
    while j < pieces.len()
        invariant
            all == byte_views(pieces@),
            j <= pieces@.len(),
            total == porcelain_entries(all),
            porcelain_well_formed(all.skip(j as int)),
            entries_view(out@) + porcelain_entries(all.skip(j as int)) == total,
        decreases pieces.len() - j,
    {
        let ghost rest = all.skip(j as int);
        proof {
            assert(rest[0] == pieces@[j as int]@);
            assert(rest.drop_first() =~= all.skip(j + 1));
        }
        let record = &pieces[j];
        if record.len() == 0 {
            j = j + 1;
            continue;
        }
        let kind = record[0];
        let line = lossy_chars(record);
        let ghost before = entries_view(out@);
        if kind == 50u8 {
            proof {
                assert(rest.len() >= 2);
                assert(rest[1] == pieces@[j + 1]@);
                assert(rest.skip(2) =~= all.skip(j + 2));
            }
            let orig_text = lossy_chars(&pieces[j + 1]);
            let parts = splitn_exec(&line, 10, ' ');
            if parts.len() > 9 {
                let orig = if orig_text.len() == 0 { None } else { Some(orig_text) };
                let xy: Vec<char> = if parts.len() > 1 { copy_chars(&parts[1]) } else { vec!['.', '.'] };
                proof {
                    assert(xy@ == xy_of(crate::text::views(parts@)));
                }
                push_xy(&mut out, &xy, &parts[9], &orig);
            }
            proof {
                assert(entries_view(out@) == before + record_entries(50u8, line@, orig_text@));
                assert(entries_view(out@) + porcelain_entries(all.skip(j + 2)) =~= total);
            }
            j = j + 2;
            continue;
        }
        let no_orig: Option<Vec<char>> = None;
        if kind == 49u8 {
            let parts = splitn_exec(&line, 9, ' ');
            if parts.len() > 8 {
                let xy: Vec<char> = if parts.len() > 1 { copy_chars(&parts[1]) } else { vec!['.', '.'] };
                proof {
                    assert(xy@ == xy_of(crate::text::views(parts@)));
                }
                push_xy(&mut out, &xy, &parts[8], &no_orig);
            }
        } else if kind == 117u8 {
            let parts = splitn_exec(&line, 11, ' ');
            if parts.len() > 10 {
                let e = make_entry(&parts[10], 'U', false, true, &no_orig);
                out.push(e);
            }
        } else if kind == 63u8 {
            let path = match from_byte_two_exec(&line) {
                Some(p) => p,
                None => Vec::new(),
            };
            if path.len() > 0 {
                let e = make_entry(&path, '?', false, false, &no_orig);
                out.push(e);
            }
        }
        proof {
            assert(entries_view(out@) =~= before + record_entries(kind, line@, Seq::<char>::empty()));
            assert(entries_view(out@) + porcelain_entries(all.skip(j + 1)) =~= total);
        }
        j = j + 1;
    }
    proof {
        assert(all.skip(pieces@.len() as int) =~= Seq::<Seq<u8>>::empty());
        assert(entries_view(out@) =~= total);
    }
    out
}

} // verus!
