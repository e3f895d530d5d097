//! The mathematical model of query output: each query match is a sequence of
//! captured byte spans of the source, and an extraction is the strict decode
//! of every span, flattened across matches in report order.

use vstd::prelude::*;

verus! {

use vstd::utf8::{valid_utf8, decode_utf8};

/// The byte span of one captured node: the half-open range `[start, end)`
/// of the source bytes.
#[derive(Clone, Copy, Debug, PartialEq, Eq, Structural)]
pub struct Span {
    pub start: usize,
    pub end: usize,
}

/// The bytes of `source` addressed by the span `s`.
pub open spec fn span_bytes(source: Seq<u8>, s: Span) -> Seq<u8> {
    source.subrange(s.start as int, s.end as int)
}

/// Every capture of every match addresses a range within a source of
/// `source_len` bytes.
pub open spec fn spans_wf(ms: Seq<Seq<Span>>, source_len: nat) -> bool {
    forall|k: int, j: int|
        0 <= k < ms.len() && 0 <= j < ms[k].len()
            ==> (#[trigger] ms[k][j]).start <= ms[k][j].end <= source_len
}

/// Every captured span of every match is valid UTF-8.
pub open spec fn all_spans_decode(source: Seq<u8>, ms: Seq<Seq<Span>>) -> bool {
    forall|k: int, j: int|
        0 <= k < ms.len() && 0 <= j < ms[k].len()
            ==> valid_utf8(span_bytes(source, #[trigger] ms[k][j]))
}

/// The decoded texts of one match's captures, in capture order.
pub open spec fn match_texts(source: Seq<u8>, m: Seq<Span>) -> Seq<Seq<char>> {
    m.map_values(|s: Span| decode_utf8(span_bytes(source, s)))
}

/// The decoded texts of all captures of all matches, flattened in report
/// order: all of match `k`'s captures stand before all of match `k + 1`'s.
pub open spec fn extracted_texts(source: Seq<u8>, ms: Seq<Seq<Span>>) -> Seq<Seq<char>> {
    ms.map_values(|m: Seq<Span>| match_texts(source, m)).flatten()
}

/// Some span that lies within the source fails the strict decode: what a
/// decode failure of an extraction witnesses. A source no in-bounds span of
/// which is invalid (an all-ASCII source, say) can never fail this way.
pub open spec fn has_undecodable_span(source: Seq<u8>) -> bool {
    exists|s: Span| s.start <= s.end <= source.len() && !valid_utf8(span_bytes(source, s))
}

/// The mathematical value of query output held as vectors of spans.
pub open spec fn spans_view(v: Seq<Vec<Span>>) -> Seq<Seq<Span>> {
    v.map_values(|m: Vec<Span>| m@)
}

/// How many captures the first `k` matches report in all.
pub open spec fn captures_before(ms: Seq<Seq<Span>>, k: int) -> int
    decreases k,
{
    if k <= 0 {
        0
    } else {
        ms[0].len() + captures_before(ms.drop_first(), k - 1)
    }
}

/// Appending one more match appends exactly its capture texts.
pub proof fn lemma_extracted_push(source: Seq<u8>, ms: Seq<Seq<Span>>, m: Seq<Span>)
    ensures
        extracted_texts(source, ms.push(m))
            == extracted_texts(source, ms) + match_texts(source, m),
{
    let f = |n: Seq<Span>| match_texts(source, n);
    assert(ms.push(m).map_values(f) =~= ms.map_values(f).push(match_texts(source, m)));
    ms.map_values(f).lemma_flatten_push(match_texts(source, m));
}

/// A query that captures nothing in any match yields an empty extraction,
/// and trivially decodes throughout.
pub proof fn lemma_no_captures(source: Seq<u8>, ms: Seq<Seq<Span>>)
    requires
        forall|k: int| 0 <= k < ms.len() ==> (#[trigger] ms[k]).len() == 0,
    ensures
        extracted_texts(source, ms) =~= Seq::<Seq<char>>::empty(),
        all_spans_decode(source, ms),
    decreases ms.len(),
{
    let f = |n: Seq<Span>| match_texts(source, n);
    if ms.len() == 0 {
        assert(ms.map_values(f) =~= Seq::<Seq<Seq<char>>>::empty());
    } else {
        assert(ms.map_values(f).drop_first() =~= ms.drop_first().map_values(f));
        assert(ms.map_values(f).first() =~= Seq::<Seq<char>>::empty());
        lemma_no_captures(source, ms.drop_first());
    }
}

/// Flattening is order-preserving: the `j`-th capture of the `k`-th match
/// stands at position `captures_before(ms, k) + j` of the extraction, so all
/// of an earlier match's captures come before all of a later match's.
pub proof fn lemma_capture_position(source: Seq<u8>, ms: Seq<Seq<Span>>, k: int, j: int)
    requires
        0 <= k < ms.len(),
        0 <= j < ms[k].len(),
    ensures
        0 <= captures_before(ms, k) + j < extracted_texts(source, ms).len(),
        extracted_texts(source, ms)[captures_before(ms, k) + j]
            == decode_utf8(span_bytes(source, ms[k][j])),
    decreases k,
{
    let f = |n: Seq<Span>| match_texts(source, n);
    assert(ms.map_values(f).drop_first() =~= ms.drop_first().map_values(f));
    assert(extracted_texts(source, ms)
        == match_texts(source, ms[0]) + extracted_texts(source, ms.drop_first()));
    if k == 0 {
        assert(extracted_texts(source, ms)[j] == match_texts(source, ms[0])[j]);
    } else {
        lemma_capture_position(source, ms.drop_first(), k - 1, j);
        assert(ms.drop_first()[k - 1] == ms[k]);
        assert(captures_before(ms, k) == ms[0].len() + captures_before(ms.drop_first(), k - 1));
    }
}

} // verus!
