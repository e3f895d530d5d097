use tree_grepper::{ExtractError, ExtractedFile, Extractor, LanguageDescriptor, Span};

fn rust_extractor(pattern: &str) -> Extractor {
    let grammar = tree_sitter_rust::language();
    let query = tree_sitter::Query::new(grammar, pattern).expect("query must compile");
    Extractor::new(
        LanguageDescriptor::new("rust".to_string(), grammar),
        query,
    )
}

fn json_extractor(pattern: &str) -> Extractor {
    let grammar = tree_sitter_json::language();
    let query = tree_sitter::Query::new(grammar, pattern).expect("query must compile");
    Extractor::new(
        LanguageDescriptor::new("json".to_string(), grammar),
        query,
    )
}

fn texts(ef: &ExtractedFile) -> Vec<String> {
    ef.matches.iter().map(|m| m.text.clone()).collect()
}

#[test]
fn captures_three_function_names_in_source_order() {
    let extractor = rust_extractor("(function_item name: (identifier) @name)");
    let mut parser = tree_sitter::Parser::new();
    let source = b"fn a() {}\nfn b() {}\nfn c() {}\n";
    let ef = extractor
        .extract_from_source("three.rs", source, &mut parser)
        .expect("extraction must succeed");
    assert_eq!(ef.file, "three.rs");
    assert_eq!(texts(&ef), vec!["a", "b", "c"]);
}

#[test]
fn zero_capture_query_yields_empty_result() {
    let extractor = rust_extractor("(function_item)");
    let mut parser = tree_sitter::Parser::new();
    let source = b"fn a() {}\nfn b() {}\n";
    let ef = extractor
        .extract_from_source("zero.rs", source, &mut parser)
        .expect("extraction must succeed");
    assert_eq!(ef.file, "zero.rs");
    assert!(ef.matches.is_empty());
}

#[test]
fn two_captures_per_match_flattened_in_match_order() {
    let extractor = rust_extractor("(function_item name: (identifier) @n body: (block) @b)");
    let mut parser = tree_sitter::Parser::new();
    let source = b"fn a() {}\nfn b() {}\n";
    let ef = extractor
        .extract_from_source("pairs.rs", source, &mut parser)
        .expect("extraction must succeed");
    assert_eq!(texts(&ef), vec!["a", "{}", "b", "{}"]);
}

#[test]
fn extracting_twice_from_unchanged_bytes_is_identical() {
    let extractor = rust_extractor("(function_item name: (identifier) @name)");
    let mut parser = tree_sitter::Parser::new();
    let source = b"fn a() {}\nfn b() {}\n";
    let first = extractor
        .extract_from_source("same.rs", source, &mut parser)
        .expect("extraction must succeed");
    let second = extractor
        .extract_from_source("same.rs", source, &mut parser)
        .expect("extraction must succeed");
    assert_eq!(first, second);
}

#[test]
fn changed_bytes_are_reflected_in_the_new_result() {
    let extractor = rust_extractor("(function_item name: (identifier) @name)");
    let mut parser = tree_sitter::Parser::new();
    let before = extractor
        .extract_from_source("file.rs", b"fn old_name() {}\n", &mut parser)
        .expect("extraction must succeed");
    let after = extractor
        .extract_from_source("file.rs", b"fn new_name() {}\n", &mut parser)
        .expect("extraction must succeed");
    assert_eq!(texts(&before), vec!["old_name"]);
    assert_eq!(texts(&after), vec!["new_name"]);
    assert_ne!(before, after);
}

#[test]
fn failed_read_gives_read_failure_with_the_path() {
    let extractor = rust_extractor("(function_item name: (identifier) @name)");
    let mut parser = tree_sitter::Parser::new();
    let r = extractor.extract_from_read("does/not/exist.rs", None, &mut parser);
    assert_eq!(
        r,
        Err(ExtractError::Read { path: "does/not/exist.rs".to_string() })
    );
}

#[test]
fn successful_read_extracts_the_bytes_that_were_read() {
    let extractor = rust_extractor("(function_item name: (identifier) @name)");
    let mut parser = tree_sitter::Parser::new();
    let ef = extractor
        .extract_from_read("read.rs", Some(b"fn only() {}\n".to_vec()), &mut parser)
        .expect("extraction must succeed");
    assert_eq!(ef.file, "read.rs");
    assert_eq!(texts(&ef), vec!["only"]);
}

#[test]
fn invalid_utf8_in_a_captured_span_fails_with_decode_error() {
    let extractor = rust_extractor("(source_file) @all");
    let mut parser = tree_sitter::Parser::new();
    let mut source = b"fn a() {}\n".to_vec();
    source.push(0xFF);
    let r = extractor.extract_from_source("bad.rs", &source, &mut parser);
    assert_eq!(r, Err(ExtractError::Decode));
}

#[test]
fn one_parser_is_reusable_across_two_grammars() {
    let rust = rust_extractor("(function_item name: (identifier) @name)");
    let json = json_extractor("(pair key: (string) @key)");
    let mut parser = tree_sitter::Parser::new();
    let from_rust = rust
        .extract_from_source("lib.rs", b"fn f() {}\n", &mut parser)
        .expect("extraction must succeed");
    let from_json = json
        .extract_from_source("data.json", b"{\"x\": 1}\n", &mut parser)
        .expect("extraction must succeed");
    assert_eq!(texts(&from_rust), vec!["f"]);
    assert_eq!(texts(&from_json), vec!["\"x\""]);
    assert_eq!(rust.language().name().as_str(), "rust");
    assert_eq!(json.language().name().as_str(), "json");
}

#[test]
fn collect_matches_flattens_spans_in_report_order() {
    let source = b"hello";
    let raw = vec![
        vec![Span { start: 0, end: 1 }, Span { start: 1, end: 2 }],
        vec![],
        vec![Span { start: 2, end: 5 }],
    ];
    let ms = tree_grepper::extractor::collect_matches(source, &raw).expect("all spans decode");
    let got: Vec<String> = ms.into_iter().map(|m| m.text).collect();
    assert_eq!(got, vec!["h", "e", "llo"]);
}

#[test]
fn collect_matches_is_all_or_nothing_on_a_bad_span() {
    let source = &[b'a', 0xFF, b'b'];
    let raw = vec![
        vec![Span { start: 0, end: 1 }],
        vec![Span { start: 1, end: 2 }],
        vec![Span { start: 2, end: 3 }],
    ];
    let r = tree_grepper::extractor::collect_matches(source, &raw);
    assert_eq!(r, Err(ExtractError::Decode));
}

#[test]
fn decode_span_rejects_a_split_multibyte_sequence() {
    let source = "h\u{e9}llo".as_bytes();
    assert_eq!(source[1], 0xC3);
    assert_eq!(tree_grepper::decode_span(source, 1, 2), None);
    assert_eq!(
        tree_grepper::decode_span(source, 1, 3),
        Some("\u{e9}".to_string())
    );
    assert_eq!(tree_grepper::decode_span(source, 0, 0), Some(String::new()));
}
