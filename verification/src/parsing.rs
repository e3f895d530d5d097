//! The trusted boundary to the tree-sitter parsing and query engine.
//!
//! Grammars, parsers and queries are opaque handles of the outside library;
//! the wrappers here hand their results back as plain values, and everything
//! downstream of them is verified. Parsing and querying stand in one wrapper
//! on purpose: a tree's node offsets are byte positions of the bytes that
//! tree was parsed from, so the tree never crosses the boundary alone —
//! every span the wrapper reports is tied to the `source` it was given.

use vstd::prelude::*;

verus! {

use crate::spans::{Span, spans_view, spans_wf};

#[verifier::external_type_specification]
#[verifier::external_body]
pub struct ExLanguage(tree_sitter::Language);

#[verifier::external_type_specification]
#[verifier::external_body]
pub struct ExLanguageError(tree_sitter::LanguageError);

#[verifier::external_type_specification]
#[verifier::external_body]
pub struct ExParser(tree_sitter::Parser);

#[verifier::external_type_specification]
#[verifier::external_body]
pub struct ExQuery(tree_sitter::Query);

/// Relies on tree_sitter::Parser::set_language: binds the grammar to the
/// parser, or fails when the grammar was generated by a tree-sitter version
/// the library is incompatible with.
#[verifier::external_body]
pub(crate) fn set_language(
    parser: &mut tree_sitter::Parser,
    grammar: &tree_sitter::Language,
) -> (r: Result<(), tree_sitter::LanguageError>) {
    parser.set_language(*grammar)
}

/// Relies on tree_sitter::Parser::parse, tree_sitter::QueryCursor::matches
/// and tree_sitter::Node's byte positions. Parse returns a best-effort tree
/// even for malformed source, and nothing only when no grammar is configured
/// or parsing was cancelled. On a tree, the query's matches are reported in
/// the order they are found, each as its captured nodes' byte spans; a node
/// of a tree parsed from exactly these bytes spans a range within them
/// (Node::utf8_text indexes the parsed bytes with these ranges). Query
/// evaluation reads the raw bytes and never aborts on text that is not
/// valid UTF-8.
#[verifier::external_body]
pub(crate) fn parse_and_query(
    parser: &mut tree_sitter::Parser,
    query: &tree_sitter::Query,
    source: &[u8],
) -> (r: Option<Vec<Vec<Span>>>)
    ensures
        r matches Some(v) ==> spans_wf(spans_view(v@), source@.len()),
{
    let tree = parser.parse(source, None)?;
    let mut cursor = tree_sitter::QueryCursor::new();
    let mut out: Vec<Vec<Span>> = Vec::new();
    for m in cursor.matches(query, tree.root_node(), source) {
        let mut caps: Vec<Span> = Vec::new();
        for c in m.captures {
            caps.push(Span { start: c.node.start_byte(), end: c.node.end_byte() });
        }
        out.push(caps);
    }
    Some(out)
}

} // verus!
