//! Text operations of std that the diagnostics use on source text.
use vstd::prelude::*;
use vstd::utf8::{decode_utf8, encode_utf8, is_char_boundary, valid_utf8};

verus! {

/// What `str::get(start..end)` gives on a string whose UTF-8 encoding is
/// `encode_utf8(text)`: the text between the byte offsets `start` and `end`
/// when `start <= end`, `end` is within the encoding and both fall on
/// character boundaries, and nothing otherwise.
pub open spec fn byte_range_text(text: Seq<char>, start: nat, end: nat) -> Option<Seq<char>> {
    let bytes = encode_utf8(text);
    if start <= end && end <= bytes.len() && is_char_boundary(bytes, start as int) && is_char_boundary(
        bytes,
        end as int,
    ) {
        Some(decode_utf8(bytes.subrange(start as int, end as int)))
    } else {
        None
    }
}

/// `str::get(start..end)`: the slice of `text` between two byte offsets, if
/// they delimit one, as [`byte_range_text`] states.
#[verifier::external_body]
pub(crate) fn str_get(text: &str, start: usize, end: usize) -> (r: Option<&str>)
    ensures
        match r {
            Some(s) => byte_range_text(text@, start as nat, end as nat) == Some(s@),
            None => byte_range_text(text@, start as nat, end as nat) is None,
        },
{
    text.get(start..end)
}

/// `s` with every occurrence of the non-empty `from` replaced by `to`,
/// scanning left to right without overlap.
pub open spec fn replaced(s: Seq<char>, from: Seq<char>, to: Seq<char>) -> Seq<char>
    decreases s.len(),
{
    if from.len() == 0 || s.len() < from.len() {
        s
    } else if s.take(from.len() as int) == from {
        to + replaced(s.skip(from.len() as int), from, to)
    } else {
        seq![s[0]] + replaced(s.skip(1), from, to)
    }
}

/// `str::replace` with a non-empty pattern: as [`replaced`] states.
#[verifier::external_body]
pub(crate) fn str_replace(s: &str, from: &str, to: &str) -> (r: String)
    requires
        from@.len() > 0,
    ensures
        r@ == replaced(s@, from@, to@),
{
    s.replace(from, to)
}

/// Whether `c` has the Unicode White_Space property.
pub open spec fn is_white_space(c: char) -> bool {
    let u = c as u32;
    ||| 0x09 <= u <= 0x0D
    ||| u == 0x20
    ||| u == 0x85
    ||| u == 0xA0
    ||| u == 0x1680
    ||| 0x2000 <= u <= 0x200A
    ||| u == 0x2028
    ||| u == 0x2029
    ||| u == 0x202F
    ||| u == 0x205F
    ||| u == 0x3000
}

/// `s` without its leading white space.
pub open spec fn trim_start(s: Seq<char>) -> Seq<char>
    decreases s.len(),
{
    if s.len() > 0 && is_white_space(s[0]) {
        trim_start(s.skip(1))
    } else {
        s
    }
}

/// `s` without its trailing white space.
pub open spec fn trim_end(s: Seq<char>) -> Seq<char>
    decreases s.len(),
{
    if s.len() > 0 && is_white_space(s.last()) {
        trim_end(s.drop_last())
    } else {
        s
    }
}

/// The text `str::trim` leaves of `s`: without its leading and trailing
/// white space.
pub open spec fn trimmed(s: Seq<char>) -> Seq<char> {
    trim_end(trim_start(s))
}

/// `str::trim`, owned: as [`trimmed`] states.
#[verifier::external_body]
pub(crate) fn str_trim(s: &str) -> (r: String)
    ensures
        r@ == trimmed(s@),
{
    s.trim().to_string()
}

/// What `String::from_utf8_lossy` decodes `bytes` to: their UTF-8 decoding,
/// with each invalid sequence replaced by U+FFFD.
pub uninterp spec fn lossy_text(bytes: Seq<u8>) -> Seq<char>;

/// `String::from_utf8_lossy`, owned. Its result is named by [`lossy_text`];
/// on valid UTF-8 it is the plain decoding.
#[verifier::external_body]
pub(crate) fn utf8_lossy(bytes: &[u8]) -> (r: String)
    ensures
        r@ == lossy_text(bytes@),
        valid_utf8(bytes@) ==> r@ == decode_utf8(bytes@),
{
    String::from_utf8_lossy(bytes).into_owned()
}

} // verus!
