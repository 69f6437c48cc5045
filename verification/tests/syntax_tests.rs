use scaffold_core::syntax::{analyze_ast, AnalysisError, SyntaxIndex};

const PYTHON_SOURCE: &str = "def alpha():\n    pass\n\ndef beta():\n    return 1\n";
const FUNCTION_NAME_PATTERN: &str = "(function_definition name: (identifier) @name)";

#[test]
fn python_single_capture_pattern_yields_one_record_per_match() {
    let records = analyze_ast(PYTHON_SOURCE, "python", FUNCTION_NAME_PATTERN).unwrap();
    assert_eq!(records.len(), 2);
    assert_eq!(records[0].capture, "name");
    assert_eq!(records[0].text, "alpha");
    assert_eq!(records[0].node_kind, "identifier");
    assert_eq!(records[1].text, "beta");
    for record in &records {
        // The text is exactly the source slice for the record's range.
        assert_eq!(
            record.text.as_bytes(),
            &PYTHON_SOURCE.as_bytes()[record.start_byte..record.end_byte]
        );
        assert!(record.start_byte <= record.end_byte);
        assert!(record.end_byte <= PYTHON_SOURCE.len());
    }
}

#[test]
fn byte_ranges_stay_valid_under_multibyte_text() {
    let source = "def caf\u{e9}():\n    pass\n";
    let records = analyze_ast(source, "python", FUNCTION_NAME_PATTERN).unwrap();
    assert_eq!(records.len(), 1);
    assert_eq!(records[0].text, "caf\u{e9}");
    assert_eq!(
        records[0].text.as_bytes(),
        &source.as_bytes()[records[0].start_byte..records[0].end_byte]
    );
}

#[test]
fn rust_function_items_are_found() {
    let source = "fn one() {}\nfn two() {}\n";
    let records = analyze_ast(source, "rust", "(function_item name: (identifier) @fn_name)")
        .unwrap();
    assert_eq!(records.len(), 2);
    assert_eq!(records[0].text, "one");
    assert_eq!(records[1].text, "two");
}

#[test]
fn javascript_go_typescript_and_tsx_resolve() {
    let js = analyze_ast(
        "function f() {}",
        "javascript",
        "(function_declaration name: (identifier) @n)",
    )
    .unwrap();
    assert_eq!(js.len(), 1);
    assert_eq!(js[0].text, "f");
    let go = analyze_ast(
        "package p\nfunc g() {}\n",
        "go",
        "(function_declaration name: (identifier) @n)",
    )
    .unwrap();
    assert_eq!(go.len(), 1);
    assert_eq!(go[0].text, "g");
    let ts = analyze_ast(
        "function h(x: number) {}",
        "typescript",
        "(function_declaration name: (identifier) @n)",
    )
    .unwrap();
    assert_eq!(ts.len(), 1);
    assert_eq!(ts[0].text, "h");
    let tsx = analyze_ast(
        "function k() {}",
        "tsx",
        "(function_declaration name: (identifier) @n)",
    )
    .unwrap();
    assert_eq!(tsx.len(), 1);
}

#[test]
fn unknown_language_tag_is_unsupported() {
    let result = analyze_ast(PYTHON_SOURCE, "cobol", FUNCTION_NAME_PATTERN);
    match result {
        Err(AnalysisError::UnsupportedLanguage(tag)) => assert_eq!(tag, "cobol"),
        other => panic!("expected UnsupportedLanguage, got {:?}", other),
    }
}

#[test]
fn malformed_pattern_is_invalid_query_and_does_not_corrupt_later_queries() {
    let index = SyntaxIndex::with_default_grammars();
    let bad = index.query(PYTHON_SOURCE, "python", "((");
    assert!(matches!(bad, Err(AnalysisError::InvalidQuery(_))));
    // An independent query on the same source still succeeds afterwards.
    let good = index.query(PYTHON_SOURCE, "python", FUNCTION_NAME_PATTERN).unwrap();
    assert_eq!(good.len(), 2);
    assert_eq!(good[0].text, "alpha");
}

#[test]
fn invalid_source_still_parses_best_effort() {
    // The grammars are error-tolerant: broken input still yields a tree.
    let records = analyze_ast("def broken(:\n", "python", "(identifier) @id");
    assert!(records.is_ok());
}

#[test]
fn registry_is_extensible_by_registration() {
    let empty = SyntaxIndex::new();
    assert!(matches!(
        empty.query("x", "python", "(identifier) @id"),
        Err(AnalysisError::UnsupportedLanguage(_))
    ));
}

#[test]
fn error_messages_are_descriptive() {
    assert_eq!(
        AnalysisError::UnsupportedLanguage("cobol".to_string()).message(),
        "unknown language: cobol"
    );
    assert_eq!(AnalysisError::ParseFailure.message(), "failed to parse content");
    assert_eq!(
        AnalysisError::InvalidQuery("oops".to_string()).message(),
        "invalid query: oops"
    );
}
