//! What the editor pane is handed of a file: text it may edit, or the bytes
//! of a document a window draws.

use vstd::prelude::*;

use base64::Engine;

use crate::git::status::{lossy_chars, utf8_lossy};
use crate::text::{decimal, decimal_exec, push_chars, push_str, string_of};

verus! {

/// The largest file the editor opens as text.
pub const MAX_TEXT_BYTES: u64 = 10 * 1024 * 1024;

/// The largest document a window is handed in one piece.
pub const MAX_VIEW_BYTES: u64 = 64 * 1024 * 1024;

/// A text file as the editor holds it.
#[derive(Debug, Clone)]
pub struct TextFile {
    pub content: String,
    pub size: u64,
    pub is_readonly: bool,
    /// Invalid UTF-8 was decoded with replacement characters: saving this
    /// content back would change the file's bytes.
    pub lossy: bool,
}

/// Whether the first 8 KiB hold a NUL byte.
pub open spec fn has_nul_early(b: Seq<u8>) -> bool {
    exists|i: int| 0 <= i < b.len() && i < 8192 && b[i] == 0
}

/// Whether some bytes look like a binary file: a NUL in the first 8 KiB.
pub fn looks_binary(bytes: &[u8]) -> (r: bool)
    ensures
        r == has_nul_early(bytes@),
{
    let end = if bytes.len() < 8192 { bytes.len() } else { 8192 };
    let mut i: usize = 0;
    while i < end
        invariant
            i <= end,
            end <= bytes@.len(),
            end <= 8192,
            end == bytes@.len() || end == 8192,
            forall|k: int| 0 <= k < i ==> bytes@[k] != 0,
        decreases end - i,
    {
        if bytes[i] == 0 {
            assert(bytes@[i as int] == 0 && i < 8192);
            return true;
        }
        i = i + 1;
    }
    false
}

/// The refusal for a file of `size` bytes over a limit of `max`.
pub open spec fn too_large(size: u64, max: u64) -> Seq<char> {
    "file too large ("@ + decimal(size as nat) + " bytes > "@ + decimal(max as nat) + " max)"@
}

fn too_large_exec(size: u64, max: u64) -> (s: String)
    ensures
        s@ == too_large(size, max),
{
    let mut m: Vec<char> = Vec::new();
    push_str(&mut m, "file too large (");
    push_chars(&mut m, &decimal_exec(size));
    push_str(&mut m, " bytes > ");
    push_chars(&mut m, &decimal_exec(max));
    push_str(&mut m, " max)");
    string_of(&m)
}

/// What `String::from_utf8` makes of some bytes: their text when they are
/// valid UTF-8, nothing otherwise. A function of the bytes alone.
pub uninterp spec fn utf8_text(bytes: Seq<u8>) -> Option<Seq<char>>;

/// The bytes as text when they are valid UTF-8.
///
/// Wraps `String::from_utf8`; the contract names its result and adds one
/// fact its documentation gives: the string is made of those very bytes, so
/// it is empty exactly when they are.
#[verifier::external_body]
pub(crate) fn utf8_exact(bytes: Vec<u8>) -> (r: Option<String>)
    ensures
        match r {
            Some(s) => utf8_text(bytes@) == Some(s@) && (s@.len() == 0 <==> bytes@.len() == 0),
            None => utf8_text(bytes@) is None,
        },
{
    String::from_utf8(bytes).ok()
}

/// Whether a file of `size` bytes may be opened as text.
pub fn check_text_size(size: u64) -> (r: Result<(), String>)
    ensures
        size <= MAX_TEXT_BYTES <==> r is Ok,
        r matches Err(e) ==> e@ == too_large(size, MAX_TEXT_BYTES),
{
    if size > MAX_TEXT_BYTES {
        Err(too_large_exec(size, MAX_TEXT_BYTES))
    } else {
        Ok(())
    }
}

/// A file's bytes read as the editor's text: refused when larger than the
/// limit or binary; decoded as UTF-8, lossily and marked so when it is not
/// valid.
pub fn text_file(size: u64, bytes: Vec<u8>, is_readonly: bool) -> (r: Result<TextFile, String>)
    ensures
        size > MAX_TEXT_BYTES ==> r is Err && r->Err_0@ == too_large(size, MAX_TEXT_BYTES),
        size <= MAX_TEXT_BYTES && has_nul_early(bytes@) ==> r is Err && r->Err_0@ == "binary file"@,
        size <= MAX_TEXT_BYTES && !has_nul_early(bytes@) ==> r is Ok && {
            let f = r->Ok_0;
            &&& f.size == size
            &&& f.is_readonly == is_readonly
            &&& match utf8_text(bytes@) {
                Some(t) => f.content@ == t && !f.lossy,
                None => f.content@ == utf8_lossy(bytes@) && f.lossy,
            }
        },
{
    if size > MAX_TEXT_BYTES {
        return Err(too_large_exec(size, MAX_TEXT_BYTES));
    }
    if looks_binary(bytes.as_slice()) {
        return Err("binary file".to_owned());
    }
    let ghost b = bytes@;
    let lossy_text = lossy_chars(bytes.as_slice());
    match utf8_exact(bytes) {
        Some(content) => Ok(TextFile { content, size, is_readonly, lossy: false }),
        None => Ok(TextFile { content: string_of(&lossy_text), size, is_readonly, lossy: true }),
    }
}

/// The standard base64 alphabet.
pub open spec fn b64_digit(v: int) -> char {
    if v < 26 {
        (('A' as int) + v) as char
    } else if v < 52 {
        (('a' as int) + v - 26) as char
    } else if v < 62 {
        (('0' as int) + v - 52) as char
    } else if v == 62 {
        '+'
    } else {
        '/'
    }
}

/// Standard base64 with padding: each three bytes become four digits of six
/// bits each, and a last group of one or two bytes is padded with `=`.
pub open spec fn base64_of(b: Seq<u8>) -> Seq<char>
    decreases b.len(),
{
    if b.len() == 0 {
        Seq::<char>::empty()
    } else {
        let b0 = b[0] as int;
        let b1 = if b.len() > 1 { b[1] as int } else { 0 };
        let b2 = if b.len() > 2 { b[2] as int } else { 0 };
        let first = b64_digit(b0 / 4);
        let second = b64_digit((b0 % 4) * 16 + b1 / 16);
        if b.len() == 1 {
            seq![first, second, '=', '=']
        } else if b.len() == 2 {
            seq![first, second, b64_digit((b1 % 16) * 4), '=']
        } else {
            seq![first, second, b64_digit((b1 % 16) * 4 + b2 / 64), b64_digit(b2 % 64)]
                + base64_of(b.skip(3))
        }
    }
}

/// The bytes in standard base64 with padding.
///
/// Wraps `base64::engine::general_purpose::STANDARD.encode`, which uses the
/// standard alphabet and pads; the contract states that encoding. The crate
/// panics when the encoded length overflows `usize`, which the bound on the
/// input rules out.
#[verifier::external_body]
pub(crate) fn encode_base64(bytes: &[u8]) -> (s: String)
    requires
        bytes@.len() <= usize::MAX / 2,
    ensures
        s@ == base64_of(bytes@),
{
    base64::engine::general_purpose::STANDARD.encode(bytes)
}

/// Whether a document of `size` bytes may be handed to a window.
pub fn check_view_size(size: u64) -> (r: Result<(), String>)
    ensures
        size <= MAX_VIEW_BYTES <==> r is Ok,
        r matches Err(e) ==> e@ == too_large(size, MAX_VIEW_BYTES),
{
    if size > MAX_VIEW_BYTES {
        Err(too_large_exec(size, MAX_VIEW_BYTES))
    } else {
        Ok(())
    }
}

/// A whole document for a window to draw, base64: refused over the limit.
pub fn view_document(size: u64, bytes: &[u8]) -> (r: Result<String, String>)
    requires
        bytes@.len() <= usize::MAX / 2,
    ensures
        size > MAX_VIEW_BYTES ==> r is Err && r->Err_0@ == too_large(size, MAX_VIEW_BYTES),
        size <= MAX_VIEW_BYTES ==> r is Ok && r->Ok_0@ == base64_of(bytes@),
{
    match check_view_size(size) {
        Err(e) => Err(e),
        Ok(()) => Ok(encode_base64(bytes)),
    }
}

} // verus!
