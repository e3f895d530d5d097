//! Strict UTF-8 decoding of byte spans.
//!
//! Query evaluation works on raw bytes and never fails on malformed text;
//! only when captured spans are assembled into the final result is each span
//! decoded strictly, so that a result never carries garbled text.

use vstd::prelude::*;

verus! {

use vstd::utf8::{valid_utf8, decode_utf8};

/// Relies on str::from_utf8: returns `Ok` exactly when the bytes are valid
/// UTF-8, and the string slice it returns is their decoding.
#[verifier::external_body]
fn bytes_to_str(bytes: &[u8]) -> (r: Option<&str>)
    ensures
        match r {
            Some(t) => valid_utf8(bytes@) && t@ == decode_utf8(bytes@),
            None => !valid_utf8(bytes@),
        },
{
    core::str::from_utf8(bytes).ok()
}

/// Strictly decode the byte span `[start, end)` of `source` as UTF-8 text:
/// `Some` of the decoded text when the span is valid UTF-8, `None` otherwise.
pub fn decode_span(source: &[u8], start: usize, end: usize) -> (r: Option<String>)
    requires
        start <= end <= source@.len(),
    ensures
        match r {
            Some(t) => valid_utf8(source@.subrange(start as int, end as int))
                && t@ == decode_utf8(source@.subrange(start as int, end as int)),
            None => !valid_utf8(source@.subrange(start as int, end as int)),
        },
{
    let piece = vstd::slice::slice_subrange(source, start, end);
    match bytes_to_str(piece) {
        Some(t) => Some(t.to_owned()),
        None => None,
    }
}

} // verus!
