//! From the bytes that a process printed to the text handed to the caller.

use vstd::prelude::*;
use vstd::utf8::{decode_utf8, valid_utf8};

verus! {

/// The text that `String::from_utf8_lossy` makes of bytes that are not UTF-8:
/// what can be decoded of them, with U+FFFD in place of what cannot.
pub uninterp spec fn utf8_lossy(bytes: Seq<u8>) -> Seq<char>;

/// Whether `char::is_whitespace` holds of `c`: whether Unicode counts it as
/// `White_Space`.
pub uninterp spec fn is_whitespace(c: char) -> bool;

/// `text` without the whitespace it starts with.
pub open spec fn without_leading_whitespace(text: Seq<char>) -> Seq<char>
    decreases text.len(),
{
    if text.len() > 0 && is_whitespace(text.first()) {
        without_leading_whitespace(text.drop_first())
    } else {
        text
    }
}

/// `text` without the whitespace it ends with.
pub open spec fn without_trailing_whitespace(text: Seq<char>) -> Seq<char>
    decreases text.len(),
{
    if text.len() > 0 && is_whitespace(text.last()) {
        without_trailing_whitespace(text.drop_last())
    } else {
        text
    }
}

/// `text` without the whitespace around it.
pub open spec fn trimmed(text: Seq<char>) -> Seq<char> {
    without_trailing_whitespace(without_leading_whitespace(text))
}

/// The text of `bytes`: the text that they encode where they are UTF-8, and
/// else what is left of it when everything that is not UTF-8 is replaced.
pub open spec fn lossy_text(bytes: Seq<u8>) -> Seq<char> {
    if valid_utf8(bytes) {
        decode_utf8(bytes)
    } else {
        utf8_lossy(bytes)
    }
}

/// What the caller gets to see of a captured stream: its text, trimmed.
pub open spec fn captured_text(bytes: Seq<u8>) -> Seq<char> {
    trimmed(lossy_text(bytes))
}

/// Decodes with `String::from_utf8_lossy`. Trusted: that bytes which are
/// UTF-8 give the text they encode, and that the text given for other bytes
/// depends on the bytes alone.
#[verifier::external_body]
fn decode_lossy(bytes: &[u8]) -> (text: String)
    ensures
        valid_utf8(bytes@) ==> text@ == decode_utf8(bytes@),
        !valid_utf8(bytes@) ==> text@ == utf8_lossy(bytes@),
{
    String::from_utf8_lossy(bytes).into_owned()
}

/// Trims with `str::trim`. Trusted: that the result is the text without the
/// characters at its start and at its end of which `char::is_whitespace`
/// holds, so that what is left neither starts nor ends with one.
#[verifier::external_body]
fn trim(text: &str) -> (inner: &str)
    ensures
        inner@ == trimmed(text@),
        inner@.len() > 0 ==> !is_whitespace(inner@.first()) && !is_whitespace(inner@.last()),
{
    text.trim()
}

/// Decodes and trims a captured stream.
pub fn capture_text(bytes: &[u8]) -> (text: String)
    ensures
        text@ == captured_text(bytes@),
{
    let decoded = decode_lossy(bytes);
    trim(decoded.as_str()).to_owned()
}

} // verus!
