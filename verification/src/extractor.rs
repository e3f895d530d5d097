//! The extractor: a language descriptor and a compiled query, immutably
//! bound together, and the pipeline that turns one file's bytes into the
//! ordered sequence of captured text fragments.

use vstd::prelude::*;

verus! {

use vstd::utf8::valid_utf8;
use crate::parsing;
use crate::spans::{
    Span, span_bytes, spans_wf, spans_view, all_spans_decode, match_texts, extracted_texts,
    has_undecodable_span,
};
use crate::text::decode_span;

/// A language descriptor: a name for diagnostics and the opaque handle to
/// the grammar definition that the parsing library uses. Built once during
/// setup and read-only afterwards.
#[derive(Debug)]
pub struct LanguageDescriptor {
    name: String,
    grammar: tree_sitter::Language,
}

impl LanguageDescriptor {
    /// The descriptor's name, as a mathematical value.
    pub closed spec fn spec_name(&self) -> Seq<char> {
        self.name@
    }

    /// The grammar handle the descriptor carries.
    pub closed spec fn spec_grammar(&self) -> tree_sitter::Language {
        self.grammar
    }

    /// Bind a name to a grammar handle.
    pub fn new(name: String, grammar: tree_sitter::Language) -> (r: LanguageDescriptor)
        ensures
            r.spec_name() == name@,
            r.spec_grammar() == grammar,
    {
        LanguageDescriptor { name, grammar }
    }

    /// The descriptor's name.
    pub fn name(&self) -> (r: &String)
        ensures
            r@ == self.spec_name(),
    {
        &self.name
    }

    /// The grammar handle.
    pub fn grammar(&self) -> (r: &tree_sitter::Language)
        ensures
            *r == self.spec_grammar(),
    {
        &self.grammar
    }
}

/// Why one extraction call failed. Every failure aborts the whole call for
/// that file: there is no partial result.
#[derive(Debug, Clone, PartialEq, Eq)]
pub enum ExtractError {
    /// The file could not be read; carries the offending path.
    Read { path: String },
    /// The grammar could not be bound to the parser.
    Configure,
    /// The parser produced no tree at all (a total failure, not a syntax
    /// error in the source); carries the offending path.
    Parse { path: String },
    /// A captured byte span is not valid text.
    Decode,
}

/// One captured text fragment: the exact decode of the byte span that one
/// capture of one query match addressed in the source.
#[derive(Debug, Clone, PartialEq, Eq)]
pub struct ExtractedMatch {
    pub text: String,
}

/// The result of extracting from one file: the file's path and the captured
/// fragments of all query matches, in report order.
#[derive(Debug, Clone, PartialEq, Eq)]
pub struct ExtractedFile {
    pub file: String,
    pub matches: Vec<ExtractedMatch>,
}

/// The views of captured fragments, in order.
pub open spec fn texts_of(ms: Seq<ExtractedMatch>) -> Seq<Seq<char>> {
    ms.map_values(|m: ExtractedMatch| m.text@)
}

/// The view of a collection outcome: the fragments' views on success, the
/// error unchanged on failure.
pub open spec fn matches_view(r: Result<Vec<ExtractedMatch>, ExtractError>) -> Result<
    Seq<ExtractedMatch>,
    ExtractError,
> {
    match r {
        Ok(v) => Ok(v@),
        Err(e) => Err(e),
    }
}

/// What collecting the captures of `ms` over `source` must return: exactly
/// the decoded texts when every span decodes, and the decode failure — no
/// partial result — when any span does not.
pub open spec fn collect_post(
    source: Seq<u8>,
    ms: Seq<Seq<Span>>,
    r: Result<Seq<ExtractedMatch>, ExtractError>,
) -> bool {
    match r {
        Ok(v) => all_spans_decode(source, ms) && texts_of(v) == extracted_texts(source, ms),
        Err(e) => e == ExtractError::Decode && !all_spans_decode(source, ms),
    }
}

/// The collection contract pins one outcome: two calls that see the same
/// bytes and the same query output can differ in nothing, which is why
/// repeating an extraction on an unmodified input repeats its result.
pub proof fn lemma_collect_deterministic(
    source: Seq<u8>,
    ms: Seq<Seq<Span>>,
    r1: Result<Seq<ExtractedMatch>, ExtractError>,
    r2: Result<Seq<ExtractedMatch>, ExtractError>,
)
    requires
        collect_post(source, ms, r1),
        collect_post(source, ms, r2),
    ensures
        match (r1, r2) {
            (Ok(a), Ok(b)) => texts_of(a) == texts_of(b),
            (Err(e1), Err(e2)) => e1 == e2,
            _ => false,
        },
{
}

/// Strictly decode every captured span of every match and flatten the texts
/// across matches in report order. One undecodable span fails the whole
/// call: the result is exactly the decoded texts, or the decode failure.
pub fn collect_matches(source: &[u8], raw: &Vec<Vec<Span>>) -> (r: Result<
    Vec<ExtractedMatch>,
    ExtractError,
>)
    requires
        spans_wf(spans_view(raw@), source@.len()),
    ensures
        collect_post(source@, spans_view(raw@), matches_view(r)),
{
    let ghost ms = spans_view(raw@);
    let mut out: Vec<ExtractedMatch> = Vec::new();
    let mut k: usize = 0;
    while k < raw.len()
        invariant
            ms == spans_view(raw@),
            spans_wf(ms, source@.len()),
            k <= raw@.len(),
            texts_of(out@) =~= extracted_texts(source@, ms.take(k as int)),
            forall|k2: int, j2: int|
                0 <= k2 < k && 0 <= j2 < ms[k2].len() ==> valid_utf8(
                    span_bytes(source@, #[trigger] ms[k2][j2]),
                ),
        decreases raw@.len() - k,
    {
        let m: &Vec<Span> = &raw[k];
        assert(m@ == ms[k as int]);
        let mut j: usize = 0;
        while j < m.len()
            invariant
                ms == spans_view(raw@),
                spans_wf(ms, source@.len()),
                k < raw@.len(),
                m@ == ms[k as int],
                j <= m@.len(),
                texts_of(out@) =~= extracted_texts(source@, ms.take(k as int)) + match_texts(
                    source@,
                    m@.take(j as int),
                ),
                forall|k2: int, j2: int|
                    0 <= k2 < k && 0 <= j2 < ms[k2].len() ==> valid_utf8(
                        span_bytes(source@, #[trigger] ms[k2][j2]),
                    ),
                forall|j2: int|
                    0 <= j2 < j ==> valid_utf8(span_bytes(source@, #[trigger] ms[k as int][j2])),
            decreases m@.len() - j,
        {
            let s = m[j];
            assert(s == ms[k as int][j as int]);
            match decode_span(source, s.start, s.end) {
                Some(t) => {
                    let ghost old_out = out@;
                    out.push(ExtractedMatch { text: t });
                    proof {
                        assert(texts_of(out@) =~= texts_of(old_out).push(t@));
                        assert(match_texts(source@, m@.take(j + 1 as int)) =~= match_texts(
                            source@,
                            m@.take(j as int),
                        ).push(t@));
                    }
                },
                None => {
                    proof {
                        assert(!all_spans_decode(source@, ms)) by {
                            if all_spans_decode(source@, ms) {
                                assert(valid_utf8(
                                    span_bytes(source@, ms[k as int][j as int]),
                                ));
                            }
                        }
                    }
                    return Err(ExtractError::Decode);
                },
            }
            j += 1;
        }
        proof {
            assert(m@.take(m@.len() as int) =~= m@);
            assert(ms.take(k + 1 as int) =~= ms.take(k as int).push(ms[k as int]));
            crate::spans::lemma_extracted_push(source@, ms.take(k as int), ms[k as int]);
        }
        k += 1;
    }
    proof {
        assert(ms.take(raw@.len() as int) =~= ms);
    }
    Ok(out)
}

/// The extractor: immutably bound to exactly one language descriptor and
/// one compiled query for its whole lifetime. To extract with a different
/// grammar or pattern, construct a new extractor.
#[derive(Debug)]
pub struct Extractor {
    language: LanguageDescriptor,
    query: tree_sitter::Query,
}

impl Extractor {
    /// The language descriptor, as a mathematical value.
    pub closed spec fn spec_language(&self) -> LanguageDescriptor {
        self.language
    }

    /// The compiled query, as an opaque value.
    pub closed spec fn spec_query(&self) -> tree_sitter::Query {
        self.query
    }

    /// Bind a language descriptor and an already-compiled query. Nothing is
    /// re-validated here: the caller compiled the query against a grammar.
    pub fn new(language: LanguageDescriptor, query: tree_sitter::Query) -> (r: Extractor)
        ensures
            r.spec_language() == language,
            r.spec_query() == query,
    {
        Extractor { language, query }
    }

    /// The language descriptor this extractor is bound to.
    pub fn language(&self) -> (r: &LanguageDescriptor)
        ensures
            *r == self.spec_language(),
    {
        &self.language
    }

    /// Extract from one file's bytes, read by the caller from `path`:
    /// configure the shared parser with this extractor's grammar, parse the
    /// bytes into a tree, run the query over it and strictly decode every
    /// captured span. On success the fragments are the decodes of
    /// well-formed spans of exactly these bytes, flattened in report order;
    /// any failure aborts the whole call. The parser's active grammar is
    /// deliberately reconfigured: callers must not assume it keeps an
    /// earlier configuration across calls with different extractors.
    pub fn extract_from_source(
        &self,
        path: &str,
        source: &[u8],
        parser: &mut tree_sitter::Parser,
    ) -> (r: Result<ExtractedFile, ExtractError>)
        ensures
            match r {
                Ok(ef) => ef.file@ == path@ && (exists|ms: Seq<Seq<Span>>|
                    spans_wf(ms, source@.len()) && all_spans_decode(source@, ms) && texts_of(
                        ef.matches@,
                    ) == extracted_texts(source@, ms)),
                Err(e) => match e {
                    ExtractError::Read { .. } => false,
                    ExtractError::Configure => true,
                    ExtractError::Parse { path: p } => p@ == path@,
                    ExtractError::Decode => has_undecodable_span(source@),
                },
            },
    {
        match parsing::set_language(parser, self.language.grammar()) {
            Ok(_) => (),
            Err(_) => {
                return Err(ExtractError::Configure);
            },
        }
        let raw = match parsing::parse_and_query(parser, &self.query, source) {
            Some(r) => r,
            None => {
                return Err(ExtractError::Parse { path: path.to_owned() });
            },
        };
        let matches = match collect_matches(source, &raw) {
            Ok(v) => v,
            Err(e) => {
                proof {
                    let ms = spans_view(raw@);
                    let (k, j) = choose|k: int, j: int|
                        0 <= k < ms.len() && 0 <= j < ms[k].len() && !valid_utf8(
                            span_bytes(source@, ms[k][j]),
                        );
                    assert(ms[k][j].start <= ms[k][j].end <= source@.len());
                    assert(has_undecodable_span(source@)) by {
                        assert(!valid_utf8(span_bytes(source@, ms[k][j])));
                    }
                }
                return Err(e);
            },
        };
        proof {
            let w = spans_view(raw@);
            assert(spans_wf(w, source@.len()) && all_spans_decode(source@, w) && texts_of(
                matches@,
            ) == extracted_texts(source@, w));
        }
        Ok(ExtractedFile { file: path.to_owned(), matches })
    }

    /// The read half of extracting from a file: the caller reads the file at
    /// `path` and hands the outcome over. A failed read is the read failure
    /// for that path, and nothing else is attempted — in particular the
    /// parser is left exactly as it was, since reading precedes configuring;
    /// a successful read runs the extraction on exactly the bytes read.
    pub fn extract_from_read(
        &self,
        path: &str,
        source: Option<Vec<u8>>,
        parser: &mut tree_sitter::Parser,
    ) -> (r: Result<ExtractedFile, ExtractError>)
        ensures
            source is None ==> (r matches Err(ExtractError::Read { path: p }) && p@ == path@
                && *final(parser) == *old(parser)),
            match r {
                Ok(ef) => source matches Some(b) && ef.file@ == path@ && (exists|
                    ms: Seq<Seq<Span>>,
                |
                    spans_wf(ms, b@.len()) && all_spans_decode(b@, ms) && texts_of(ef.matches@)
                        == extracted_texts(b@, ms)),
                Err(e) => match e {
                    ExtractError::Read { path: p } => source is None && p@ == path@,
                    ExtractError::Configure => source is Some,
                    ExtractError::Parse { path: p } => source is Some && p@ == path@,
                    ExtractError::Decode => (source matches Some(b) && has_undecodable_span(b@)),
                },
            },
    {
        match source {
            None => Err(ExtractError::Read { path: path.to_owned() }),
            Some(bytes) => self.extract_from_source(path, bytes.as_slice(), parser),
        }
    }
}

} // verus!
