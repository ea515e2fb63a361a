//! The parameters a client sends with a method, and how a command reads them.
//!
//! A call's parameters arrive as one JSON object. `Params` holds its members
//! and `Param` one member's value, whole: a command reads a string, a flag, a
//! number or a list of strings out of it, and hands an object it does not read
//! itself (a record to store, a query for another module) on as it came.

use vstd::prelude::*;

use crate::text::{chars_eq, chars_of, push_str, string_of, strs};

verus! {

/// One member's value: a JSON value.
#[derive(Debug)]
pub enum Param {
    Null,
    Bool(bool),
    /// A whole number from zero up to `u64::MAX`.
    Number(u64),
    /// A whole number below zero, down to `i64::MIN`.
    Negative(i64),
    /// Any other number, as its decimal text.
    Fraction(String),
    Str(String),
    List(Vec<Param>),
    Object(Params),
}

/// The members of a call's parameter object, in any order, each key once.
#[derive(Debug)]
pub struct Params {
    pub fields: Vec<(String, Param)>,
}

/// The value of member `key`.
pub open spec fn member(fields: Seq<(String, Param)>, key: Seq<char>) -> Option<Param>
    decreases fields.len(),
{
    if fields.len() == 0 {
        None
    } else if fields[0].0@ == key {
        Some(fields[0].1)
    } else {
        member(fields.drop_first(), key)
    }
}

/// Member `key` as text, when it is a string.
pub open spec fn str_member(p: Params, key: Seq<char>) -> Option<Seq<char>> {
    match member(p.fields@, key) {
        Some(Param::Str(s)) => Some(s@),
        _ => None,
    }
}

/// Member `key` as a flag, or `fallback`.
pub open spec fn bool_member(p: Params, key: Seq<char>, fallback: bool) -> bool {
    match member(p.fields@, key) {
        Some(Param::Bool(b)) => b,
        _ => fallback,
    }
}

/// Member `key` as a `u32`, or `fallback`: the low 32 bits of a `u64`, as
/// `n as u32` takes them.
pub open spec fn u32_member(p: Params, key: Seq<char>, fallback: u32) -> u32 {
    match member(p.fields@, key) {
        Some(Param::Number(n)) => (n % 0x1_0000_0000) as u32,
        _ => fallback,
    }
}

/// A value as a `u64`, when it is a whole number that fits one.
pub open spec fn as_u64(v: Param) -> Option<u64> {
    match v {
        Param::Number(n) => Some(n),
        _ => None,
    }
}

/// A value as an `i64`, when it is a whole number that fits one.
pub open spec fn as_i64(v: Param) -> Option<i64> {
    match v {
        Param::Number(n) => if n <= i64::MAX as u64 {
            Some(n as i64)
        } else {
            None
        },
        Param::Negative(n) => Some(n),
        _ => None,
    }
}

/// Member `key` as a `u64`.
pub open spec fn u64_member(p: Params, key: Seq<char>) -> Option<u64> {
    match member(p.fields@, key) {
        Some(v) => as_u64(v),
        None => None,
    }
}

/// Member `key` as an `i64`.
pub open spec fn i64_member(p: Params, key: Seq<char>) -> Option<i64> {
    match member(p.fields@, key) {
        Some(v) => as_i64(v),
        None => None,
    }
}

/// The strings of an array member, in order, anything else skipped; nothing
/// when the member is not an array.
pub open spec fn str_items(items: Seq<Param>) -> Seq<Seq<char>>
    decreases items.len(),
{
    if items.len() == 0 {
        Seq::<Seq<char>>::empty()
    } else {
        let before = str_items(items.drop_last());
        match items.last() {
            Param::Str(s) => before.push(s@),
            _ => before,
        }
    }
}

pub open spec fn list_member(p: Params, key: Seq<char>) -> Seq<Seq<char>> {
    match member(p.fields@, key) {
        Some(Param::List(items)) => str_items(items@),
        _ => Seq::<Seq<char>>::empty(),
    }
}

/// Member `key` as a flag, when it is one.
pub open spec fn flag_member(p: Params, key: Seq<char>) -> Option<bool> {
    match member(p.fields@, key) {
        Some(Param::Bool(b)) => Some(b),
        _ => None,
    }
}

pub open spec fn opt_text(o: Option<String>) -> Option<Seq<char>> {
    match o {
        Some(s) => Some(s@),
        None => None,
    }
}

/// A text, or `fallback` when there is none.
pub open spec fn or_text(o: Option<Seq<char>>, fallback: Seq<char>) -> Seq<char> {
    match o {
        Some(s) => s,
        None => fallback,
    }
}

/// `n` held between `lo` and `hi`, as `u32::clamp` holds it.
pub open spec fn clamp_u32(n: u32, lo: u32, hi: u32) -> u32 {
    if n < lo {
        lo
    } else if n > hi {
        hi
    } else {
        n
    }
}

/// The refusal for a required member that is missing.
pub open spec fn missing(key: Seq<char>) -> Seq<char> {
    "missing param: "@ + key
}

pub fn find_member<'a>(p: &'a Params, key: &str) -> (r: Option<&'a Param>)
    ensures
        match r {
            Some(v) => member(p.fields@, key@) == Some(*v),
            None => member(p.fields@, key@) is None,
        },
{
    let k = chars_of(key);
    let mut i: usize = 0;
    proof {
        assert(p.fields@.skip(0) =~= p.fields@);
    }
    while i < p.fields.len()
        invariant
            i <= p.fields@.len(),
            k@ == key@,
            member(p.fields@, key@) == member(p.fields@.skip(i as int), key@),
        decreases p.fields.len() - i,
    {
        let name = chars_of(p.fields[i].0.as_str());
        proof {
            assert(p.fields@.skip(i as int)[0] == p.fields@[i as int]);
            assert(p.fields@.skip(i as int).drop_first() =~= p.fields@.skip(i + 1));
        }
        if chars_eq(&name, &k) {
            return Some(&p.fields[i].1);
        }
        i = i + 1;
    }
    None
}

/// The refusal for a required member that is missing.
pub fn missing_param(key: &str) -> (r: String)
    ensures
        r@ == missing(key@),
{
    let mut msg: Vec<char> = Vec::new();
    push_str(&mut msg, "missing param: ");
    push_str(&mut msg, key);
    string_of(&msg)
}

/// A required string member, or the refusal naming it.
pub fn str_param(p: &Params, key: &str) -> (r: Result<String, String>)
    ensures
        match str_member(*p, key@) {
            Some(s) => r is Ok && r->Ok_0@ == s,
            None => r is Err && r->Err_0@ == missing(key@),
        },
{
    match find_member(p, key) {
        Some(Param::Str(s)) => Ok(s.clone()),
        _ => Err(missing_param(key)),
    }
}

/// An optional string member.
pub fn opt_str_param(p: &Params, key: &str) -> (r: Option<String>)
    ensures
        match str_member(*p, key@) {
            Some(s) => r is Some && r->Some_0@ == s,
            None => r is None,
        },
{
    match find_member(p, key) {
        Some(Param::Str(s)) => Some(s.clone()),
        _ => None,
    }
}

/// A flag, or `fallback` when it is absent or not a flag.
pub fn bool_param(p: &Params, key: &str, fallback: bool) -> (r: bool)
    ensures
        r == bool_member(*p, key@, fallback),
{
    match find_member(p, key) {
        Some(Param::Bool(b)) => *b,
        _ => fallback,
    }
}

/// A flag member, when it is one.
pub fn flag_param(p: &Params, key: &str) -> (r: Option<bool>)
    ensures
        r == flag_member(*p, key@),
{
    match find_member(p, key) {
        Some(Param::Bool(b)) => Some(*b),
        _ => None,
    }
}

/// The text, or `fallback` when there is none.
pub fn text_or(o: Option<String>, fallback: &str) -> (r: String)
    ensures
        r@ == or_text(opt_text(o), fallback@),
{
    match o {
        Some(s) => s,
        None => string_of(&chars_of(fallback)),
    }
}

/// `n` held between `lo` and `hi`.
pub fn clamp(n: u32, lo: u32, hi: u32) -> (r: u32)
    requires
        lo <= hi,
    ensures
        r == clamp_u32(n, lo, hi),
{
    if n < lo {
        lo
    } else if n > hi {
        hi
    } else {
        n
    }
}

/// A count, or `fallback` when it is absent or not a non-negative integer.
pub fn u32_param(p: &Params, key: &str, fallback: u32) -> (r: u32)
    ensures
        r == u32_member(*p, key@, fallback),
{
    match find_member(p, key) {
        Some(Param::Number(n)) => (*n % 0x1_0000_0000) as u32,
        _ => fallback,
    }
}

/// A whole-number member that fits a `u64`.
pub fn u64_param(p: &Params, key: &str) -> (r: Option<u64>)
    ensures
        r == u64_member(*p, key@),
{
    match find_member(p, key) {
        Some(Param::Number(n)) => Some(*n),
        _ => None,
    }
}

/// A whole-number member that fits an `i64`.
pub fn i64_param(p: &Params, key: &str) -> (r: Option<i64>)
    ensures
        r == i64_member(*p, key@),
{
    match find_member(p, key) {
        Some(Param::Number(n)) => if *n <= i64::MAX as u64 {
            Some(*n as i64)
        } else {
            None
        },
        Some(Param::Negative(n)) => Some(*n),
        _ => None,
    }
}

/// Member `key` as it came, taken out of the object: how a command keeps a
/// value it hands on rather than reads.
pub fn take_member(p: Params, key: &str) -> (r: Option<Param>)
    ensures
        r == member(p.fields@, key@),
{
    let k = chars_of(key);
    let mut i: usize = 0;
    proof {
        assert(p.fields@.skip(0) =~= p.fields@);
    }
    while i < p.fields.len()
        invariant
            i <= p.fields@.len(),
            k@ == key@,
            member(p.fields@, key@) == member(p.fields@.skip(i as int), key@),
        decreases p.fields.len() - i,
    {
        let name = chars_of(p.fields[i].0.as_str());
        proof {
            assert(p.fields@.skip(i as int)[0] == p.fields@[i as int]);
            assert(p.fields@.skip(i as int).drop_first() =~= p.fields@.skip(i + 1));
        }
        if chars_eq(&name, &k) {
            let mut fields = p.fields;
            let (_, v) = fields.remove(i);
            return Some(v);
        }
        i = i + 1;
    }
    None
}

/// The strings of a list member.
pub fn str_list(p: &Params, key: &str) -> (r: Vec<String>)
    ensures
        strs(r@) == list_member(*p, key@),
{
    match find_member(p, key) {
        Some(Param::List(items)) => {
            let mut out: Vec<String> = Vec::new();
            let mut i: usize = 0;
            proof {
                assert(items@.take(0) =~= Seq::<Param>::empty());
                assert(strs(out@) =~= Seq::<Seq<char>>::empty());
            }
            while i < items.len()
                invariant
                    i <= items@.len(),
                    strs(out@) == str_items(items@.take(i as int)),
                decreases items.len() - i,
            {
                proof {
                    assert(items@.take(i + 1).drop_last() =~= items@.take(i as int));
                }
                match &items[i] {
                    Param::Str(s) => {
                        let ghost before = out@;
                        out.push(s.clone());
                        proof {
                            assert(strs(out@) =~= strs(before).push(s@));
                        }
                    },
                    _ => {},
                }
                i = i + 1;
            }
            proof {
                assert(items@.take(items@.len() as int) =~= items@);
            }
            out
        },
        _ => {
            let out: Vec<String> = Vec::new();
            assert(strs(out@) =~= Seq::<Seq<char>>::empty());
            out
        },
    }
}

} // verus!
