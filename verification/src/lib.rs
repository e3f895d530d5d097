//! Extraction of text fragments from source files: each file is parsed into a
//! syntax tree with a tree-sitter grammar, a compiled query is run over the
//! tree, and the byte spans of the query's captures are decoded into text.

pub mod extractor;
pub mod parsing;
pub mod spans;
pub mod text;

pub use extractor::{ExtractError, ExtractedFile, ExtractedMatch, Extractor, LanguageDescriptor};
pub use spans::Span;
pub use text::decode_span;
