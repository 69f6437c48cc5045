//! Multi-language structural queries over parsed syntax trees.
//!
//! A registry maps a language tag to one of the bundled grammars.  A
//! query runs in stages that short-circuit on the first failure:
//! resolve the tag, parse the source (the grammars are
//! error-tolerant, so with a resolved grammar a tree is always
//! produced), compile the pattern, then walk the matches and emit one
//! `CaptureRecord` per (match, capture) pair with the capture name,
//! the node kind, the half-open byte range and the exact source slice
//! for that range.
//!
//! What the grammar reports for a given source and pattern — the
//! compile diagnostic and the capture list — is a function of those
//! inputs alone, so each grammar's results are given names
//! (`python_captures` and so on) and the query contract is stated
//! over them.

use vstd::prelude::*;
use vstd::string::StringSliceAdditionalSpecFns;
use vstd::utf8::{decode_utf8, valid_utf8};
use tree_sitter::StreamingIterator;
use crate::textenc;

verus! {

/// The bundled grammars.  TypeScript and TSX share one grammar under
/// two tags.
#[derive(Debug, Clone, Copy, PartialEq, Eq, Structural)]
pub enum GrammarKind {
    Python,
    Javascript,
    Tsx,
    Go,
    Rust,
}

#[verifier::external_type_specification]
#[verifier::external_body]
pub struct ExTree(tree_sitter::Tree);

#[verifier::external_type_specification]
#[verifier::external_body]
pub struct ExQuery(tree_sitter::Query);

/// One (match, capture) pair as tree-sitter reports it: the capture
/// name, the node-kind label, and the node's half-open byte range.
#[derive(Debug, Clone)]
pub struct RawCapture {
    pub name: String,
    pub node_kind: String,
    pub start: usize,
    pub end: usize,
}

/// A reported capture as plain values: capture name, node kind,
/// start byte, end byte.
pub open spec fn raw_view(raw: RawCapture) -> (Seq<char>, Seq<char>, nat, nat) {
    (raw.name@, raw.node_kind@, raw.start as nat, raw.end as nat)
}

pub open spec fn raws_view(raws: Seq<RawCapture>) -> Seq<(Seq<char>, Seq<char>, nat, nat)> {
    raws.map_values(|raw: RawCapture| raw_view(raw))
}

/// The diagnostic that compiling `pattern` against the Python grammar
/// produces, or `None` when the pattern is well-formed.  Compilation
/// is a function of the pattern alone; the pattern grammar takes
/// pages to state, so the result is named.
pub uninterp spec fn python_compile_error(pattern: Seq<char>) -> Option<Seq<char>>;

/// The (name, kind, start, end) capture list that querying `source`
/// with a well-formed `pattern` reports under the Python grammar, in
/// the order found, one entry per (match, capture) pair.
pub uninterp spec fn python_captures(source: Seq<u8>, pattern: Seq<char>) -> Seq<
    (Seq<char>, Seq<char>, nat, nat),
>;

/// As `python_compile_error`, for the JavaScript grammar.
pub uninterp spec fn javascript_compile_error(pattern: Seq<char>) -> Option<Seq<char>>;

/// As `python_captures`, for the JavaScript grammar.
pub uninterp spec fn javascript_captures(source: Seq<u8>, pattern: Seq<char>) -> Seq<
    (Seq<char>, Seq<char>, nat, nat),
>;

/// As `python_compile_error`, for the TypeScript/TSX grammar.
pub uninterp spec fn tsx_compile_error(pattern: Seq<char>) -> Option<Seq<char>>;

/// As `python_captures`, for the TypeScript/TSX grammar.
pub uninterp spec fn tsx_captures(source: Seq<u8>, pattern: Seq<char>) -> Seq<
    (Seq<char>, Seq<char>, nat, nat),
>;

/// As `python_compile_error`, for the Go grammar.
pub uninterp spec fn go_compile_error(pattern: Seq<char>) -> Option<Seq<char>>;

/// As `python_captures`, for the Go grammar.
pub uninterp spec fn go_captures(source: Seq<u8>, pattern: Seq<char>) -> Seq<
    (Seq<char>, Seq<char>, nat, nat),
>;

/// As `python_compile_error`, for the Rust grammar.
pub uninterp spec fn rust_compile_error(pattern: Seq<char>) -> Option<Seq<char>>;

/// As `python_captures`, for the Rust grammar.
pub uninterp spec fn rust_captures(source: Seq<u8>, pattern: Seq<char>) -> Seq<
    (Seq<char>, Seq<char>, nat, nat),
>;

/// The compile diagnostic for a pattern under a grammar.
pub open spec fn spec_compile_error(kind: GrammarKind, pattern: Seq<char>) -> Option<Seq<char>> {
    match kind {
        GrammarKind::Python => python_compile_error(pattern),
        GrammarKind::Javascript => javascript_compile_error(pattern),
        GrammarKind::Tsx => tsx_compile_error(pattern),
        GrammarKind::Go => go_compile_error(pattern),
        GrammarKind::Rust => rust_compile_error(pattern),
    }
}

/// The reported capture list for a source and a well-formed pattern
/// under a grammar.
pub open spec fn spec_captures(kind: GrammarKind, source: Seq<u8>, pattern: Seq<char>) -> Seq<
    (Seq<char>, Seq<char>, nat, nat),
> {
    match kind {
        GrammarKind::Python => python_captures(source, pattern),
        GrammarKind::Javascript => javascript_captures(source, pattern),
        GrammarKind::Tsx => tsx_captures(source, pattern),
        GrammarKind::Go => go_captures(source, pattern),
        GrammarKind::Rust => rust_captures(source, pattern),
    }
}

/// Relies on QueryCursor::matches and the query-capture accessors:
/// one entry per (match, capture) pair, in the order the matches were
/// found; a capture's index is always in range of the query's capture
/// names.  Shared by the per-grammar pipelines below, which carry the
/// contracts.
#[verifier::external_body]
fn collect_captures(query: &tree_sitter::Query, tree: &tree_sitter::Tree, source: &[u8]) -> Vec<
    RawCapture,
> {
    let mut cursor = tree_sitter::QueryCursor::new();
    let mut matches = cursor.matches(query, tree.root_node(), source);
    let mut found: Vec<RawCapture> = Vec::new();
    while let Some(m) = matches.next() {
        for c in m.captures() {
            found.push(RawCapture {
                name: query.capture_names()[c.index as usize].to_string(),
                node_kind: c.node.kind().to_string(),
                start: c.node.start_byte(),
                end: c.node.end_byte(),
            });
        }
    }
    found
}

/// Relies on tree-sitter's Parser, Query and QueryCursor over the
/// Python grammar: set_language cannot fail (the bundled grammar's
/// ABI version lies in the parser's supported range), parse returns a
/// best-effort tree whenever a language is assigned, Query::new fails
/// with a diagnostic exactly on a malformed pattern, and the matches
/// are a function of the source and pattern alone, named
/// `python_captures`.
#[verifier::external_body]
fn python_query_raw(source: &str, pattern: &str) -> (result: Result<Vec<RawCapture>, String>)
    ensures
        match result {
            Ok(raws) => python_compile_error(pattern@) is None && raws_view(raws@)
                == python_captures(source.spec_bytes(), pattern@),
            Err(message) => python_compile_error(pattern@) matches Some(diag) && message@ == diag,
        },
{
    let language = tree_sitter::Language::new(tree_sitter_python::LANGUAGE);
    let mut parser = tree_sitter::Parser::new();
    if parser.set_language(&language).is_err() {
        return Err(String::new());
    }
    let tree = match parser.parse(source, None) {
        Some(tree) => tree,
        None => return Err(String::new()),
    };
    match tree_sitter::Query::new(&language, pattern) {
        Ok(query) => Ok(collect_captures(&query, &tree, source.as_bytes())),
        Err(error) => Err(error.message),
    }
}

/// As `python_query_raw`, over the JavaScript grammar.
#[verifier::external_body]
fn javascript_query_raw(source: &str, pattern: &str) -> (result: Result<Vec<RawCapture>, String>)
    ensures
        match result {
            Ok(raws) => javascript_compile_error(pattern@) is None && raws_view(raws@)
                == javascript_captures(source.spec_bytes(), pattern@),
            Err(message) => javascript_compile_error(pattern@) matches Some(diag) && message@ == diag,
        },
{
    let language = tree_sitter::Language::new(tree_sitter_javascript::LANGUAGE);
    let mut parser = tree_sitter::Parser::new();
    if parser.set_language(&language).is_err() {
        return Err(String::new());
    }
    let tree = match parser.parse(source, None) {
        Some(tree) => tree,
        None => return Err(String::new()),
    };
    match tree_sitter::Query::new(&language, pattern) {
        Ok(query) => Ok(collect_captures(&query, &tree, source.as_bytes())),
        Err(error) => Err(error.message),
    }
}

/// As `python_query_raw`, over the TypeScript/TSX grammar.
#[verifier::external_body]
fn tsx_query_raw(source: &str, pattern: &str) -> (result: Result<Vec<RawCapture>, String>)
    ensures
        match result {
            Ok(raws) => tsx_compile_error(pattern@) is None && raws_view(raws@)
                == tsx_captures(source.spec_bytes(), pattern@),
            Err(message) => tsx_compile_error(pattern@) matches Some(diag) && message@ == diag,
        },
{
    let language = tree_sitter::Language::new(tree_sitter_typescript::LANGUAGE_TSX);
    let mut parser = tree_sitter::Parser::new();
    if parser.set_language(&language).is_err() {
        return Err(String::new());
    }
    let tree = match parser.parse(source, None) {
        Some(tree) => tree,
        None => return Err(String::new()),
    };
    match tree_sitter::Query::new(&language, pattern) {
        Ok(query) => Ok(collect_captures(&query, &tree, source.as_bytes())),
        Err(error) => Err(error.message),
    }
}

/// As `python_query_raw`, over the Go grammar.
#[verifier::external_body]
fn go_query_raw(source: &str, pattern: &str) -> (result: Result<Vec<RawCapture>, String>)
    ensures
        match result {
            Ok(raws) => go_compile_error(pattern@) is None && raws_view(raws@)
                == go_captures(source.spec_bytes(), pattern@),
            Err(message) => go_compile_error(pattern@) matches Some(diag) && message@ == diag,
        },
{
    let language = tree_sitter::Language::new(tree_sitter_go::LANGUAGE);
    let mut parser = tree_sitter::Parser::new();
    if parser.set_language(&language).is_err() {
        return Err(String::new());
    }
    let tree = match parser.parse(source, None) {
        Some(tree) => tree,
        None => return Err(String::new()),
    };
    match tree_sitter::Query::new(&language, pattern) {
        Ok(query) => Ok(collect_captures(&query, &tree, source.as_bytes())),
        Err(error) => Err(error.message),
    }
}

/// As `python_query_raw`, over the Rust grammar.
#[verifier::external_body]
fn rust_query_raw(source: &str, pattern: &str) -> (result: Result<Vec<RawCapture>, String>)
    ensures
        match result {
            Ok(raws) => rust_compile_error(pattern@) is None && raws_view(raws@)
                == rust_captures(source.spec_bytes(), pattern@),
            Err(message) => rust_compile_error(pattern@) matches Some(diag) && message@ == diag,
        },
{
    let language = tree_sitter::Language::new(tree_sitter_rust::LANGUAGE);
    let mut parser = tree_sitter::Parser::new();
    if parser.set_language(&language).is_err() {
        return Err(String::new());
    }
    let tree = match parser.parse(source, None) {
        Some(tree) => tree,
        None => return Err(String::new()),
    };
    match tree_sitter::Query::new(&language, pattern) {
        Ok(query) => Ok(collect_captures(&query, &tree, source.as_bytes())),
        Err(error) => Err(error.message),
    }
}

/// Run the parse-compile-match pipeline for one grammar.
fn run_grammar_query(kind: GrammarKind, source: &str, pattern: &str) -> (result: Result<
    Vec<RawCapture>,
    String,
>)
    ensures
        spec_compile_error(kind, pattern@) is None ==> (result matches Ok(raws) && raws_view(
            raws@,
        ) == spec_captures(kind, source.spec_bytes(), pattern@)),
        spec_compile_error(kind, pattern@) matches Some(diag) ==> (result matches Err(message)
            && message@ == diag),
{
    match kind {
        GrammarKind::Python => python_query_raw(source, pattern),
        GrammarKind::Javascript => javascript_query_raw(source, pattern),
        GrammarKind::Tsx => tsx_query_raw(source, pattern),
        GrammarKind::Go => go_query_raw(source, pattern),
        GrammarKind::Rust => rust_query_raw(source, pattern),
    }
}

/// One captured sub-tree: the pattern-defined capture label, the
/// exact source substring for the node, the grammar node-kind label,
/// and the half-open byte range `[start_byte, end_byte)`.
#[derive(Debug, Clone, PartialEq, Eq)]
pub struct CaptureRecord {
    pub capture: String,
    pub text: String,
    pub node_kind: String,
    pub start_byte: usize,
    pub end_byte: usize,
}

/// The reported byte range lies inside the source buffer and on
/// slice boundaries that decode as UTF-8.
pub open spec fn capture_in_bounds(
    capture: (Seq<char>, Seq<char>, nat, nat),
    source: Seq<u8>,
) -> bool {
    &&& capture.2 <= capture.3 <= source.len()
    &&& valid_utf8(source.subrange(capture.2 as int, capture.3 as int))
}

/// The reported captures whose ranges lie inside the source buffer,
/// in their reported order.
pub open spec fn kept_captures(
    captures: Seq<(Seq<char>, Seq<char>, nat, nat)>,
    source: Seq<u8>,
) -> Seq<(Seq<char>, Seq<char>, nat, nat)>
    decreases captures.len(),
{
    if captures.len() == 0 {
        Seq::empty()
    } else {
        let rest = kept_captures(captures.drop_last(), source);
        if capture_in_bounds(captures.last(), source) {
            rest.push(captures.last())
        } else {
            rest
        }
    }
}

pub proof fn lemma_kept_captures_in_bounds(
    captures: Seq<(Seq<char>, Seq<char>, nat, nat)>,
    source: Seq<u8>,
)
    ensures
        forall|i: int|
            0 <= i < kept_captures(captures, source).len() ==> capture_in_bounds(
                #[trigger] kept_captures(captures, source)[i],
                source,
            ),
    decreases captures.len(),
{
    if captures.len() > 0 {
        lemma_kept_captures_in_bounds(captures.drop_last(), source);
        let rest = kept_captures(captures.drop_last(), source);
        assert forall|i: int|
            0 <= i < kept_captures(captures, source).len() implies capture_in_bounds(
            #[trigger] kept_captures(captures, source)[i],
            source,
        ) by {
            if capture_in_bounds(captures.last(), source) {
                assert(kept_captures(captures, source) == rest.push(captures.last()));
                if i < rest.len() {
                    assert(kept_captures(captures, source)[i] == rest[i]);
                } else {
                    assert(kept_captures(captures, source)[i] == captures.last());
                }
            } else {
                assert(kept_captures(captures, source)[i] == rest[i]);
            }
        }
    }
}

/// The record reports exactly the capture's label, kind and range,
/// and its text is the decoded source slice for that range.
pub open spec fn record_represents(
    record: CaptureRecord,
    capture: (Seq<char>, Seq<char>, nat, nat),
    source: Seq<u8>,
) -> bool {
    &&& record.capture@ == capture.0
    &&& record.node_kind@ == capture.1
    &&& record.start_byte == capture.2
    &&& record.end_byte == capture.3
    &&& record.text@ == decode_utf8(source.subrange(capture.2 as int, capture.3 as int))
}

/// Turn the reported captures into capture records against the
/// source buffer they were reported for.  Every capture whose range
/// lies inside the buffer yields exactly one record, in order, with
/// no deduplication; the record slices the source by bytes, never by
/// character count.
pub fn records_from_captures(raws: &Vec<RawCapture>, source: &[u8]) -> (records: Vec<
    CaptureRecord,
>)
    ensures
        records@.len() == kept_captures(raws_view(raws@), source@).len(),
        forall|i: int|
            0 <= i < records@.len() ==> record_represents(
                #[trigger] records@[i],
                kept_captures(raws_view(raws@), source@)[i],
                source@,
            ),
{
    let ghost all = raws_view(raws@);
    let mut records: Vec<CaptureRecord> = Vec::new();
    let mut i: usize = 0;
    while i < raws.len()
        invariant
            i <= raws@.len(),
            all == raws_view(raws@),
            records@.len() == kept_captures(all.take(i as int), source@).len(),
            forall|j: int|
                0 <= j < records@.len() ==> record_represents(
                    #[trigger] records@[j],
                    kept_captures(all.take(i as int), source@)[j],
                    source@,
                ),
        decreases raws@.len() - i,
    {
        proof {
            assert(all.take(i + 1).drop_last() =~= all.take(i as int));
            assert(all.take(i + 1).last() == all[i as int]);
            assert(all[i as int] == raw_view(raws@[i as int]));
        }
        let raw = &raws[i];
        if raw.start <= raw.end && raw.end <= source.len() {
            let slice = &source[raw.start..raw.end];
            match textenc::utf8_decode(slice) {
                Some(text) => {
                    records.push(
                        CaptureRecord {
                            capture: raw.name.clone(),
                            text,
                            node_kind: raw.node_kind.clone(),
                            start_byte: raw.start,
                            end_byte: raw.end,
                        },
                    );
                },
                None => {},
            }
        }
        i = i + 1;
    }
    proof {
        assert(all.take(raws@.len() as int) =~= all);
    }
    records
}

/// Why a structural query failed, one stage each: an unresolvable
/// language tag, a catastrophic parse failure, or a malformed pattern
/// with its diagnostic message.
#[derive(Debug, Clone, PartialEq, Eq)]
pub enum AnalysisError {
    UnsupportedLanguage(String),
    ParseFailure,
    InvalidQuery(String),
}

impl AnalysisError {
    /// A descriptive message for the failure.
    pub fn message(&self) -> (text: String)
        ensures
            match self {
                AnalysisError::UnsupportedLanguage(tag) => text@ == "unknown language: "@ + tag@,
                AnalysisError::ParseFailure => text@ == "failed to parse content"@,
                AnalysisError::InvalidQuery(diag) => text@ == "invalid query: "@ + diag@,
            },
    {
        match self {
            AnalysisError::UnsupportedLanguage(tag) => String::from_str(
                "unknown language: ",
            ).concat(tag.as_str()),
            AnalysisError::ParseFailure => String::from_str("failed to parse content"),
            AnalysisError::InvalidQuery(diag) => String::from_str("invalid query: ").concat(
                diag.as_str(),
            ),
        }
    }
}

struct GrammarEntry {
    tag: String,
    kind: GrammarKind,
}

/// The per-language grammar registry and query engine.  A tag is
/// resolved against the registered grammars, first match first;
/// registration extends the registry, so supported languages are
/// data rather than a hard-coded conditional.
pub struct SyntaxIndex {
    entries: Vec<GrammarEntry>,
}

spec fn lookup_in(entries: Seq<GrammarEntry>, tag: Seq<char>) -> Option<GrammarKind>
    decreases entries.len(),
{
    if entries.len() == 0 {
        None
    } else if entries.first().tag@ == tag {
        Some(entries.first().kind)
    } else {
        lookup_in(entries.drop_first(), tag)
    }
}

proof fn lemma_lookup_in_push(entries: Seq<GrammarEntry>, entry: GrammarEntry, tag: Seq<char>)
    ensures
        lookup_in(entries.push(entry), tag) == match lookup_in(entries, tag) {
            Some(kind) => Some(kind),
            None => if entry.tag@ == tag {
                Some(entry.kind)
            } else {
                None
            },
        },
    decreases entries.len(),
{
    if entries.len() == 0 {
        assert(entries.push(entry).first() == entry);
        assert(entries.push(entry).drop_first() =~= Seq::<GrammarEntry>::empty());
    } else {
        assert(entries.push(entry).first() == entries.first());
        assert(entries.push(entry).drop_first() =~= entries.drop_first().push(entry));
        lemma_lookup_in_push(entries.drop_first(), entry, tag);
    }
}

proof fn lemma_lookup_in_skip(entries: Seq<GrammarEntry>, tag: Seq<char>, count: int)
    requires
        0 <= count <= entries.len(),
        forall|j: int| 0 <= j < count ==> entries[j].tag@ != tag,
    ensures
        lookup_in(entries, tag) == lookup_in(entries.skip(count), tag),
    decreases count,
{
    if count > 0 {
        assert(entries[0].tag@ != tag);
        assert(entries.drop_first() =~= entries.skip(1));
        assert(forall|j: int| 0 <= j < count - 1 ==> entries.skip(1)[j].tag@ != tag);
        lemma_lookup_in_skip(entries.skip(1), tag, count - 1);
        assert(entries.skip(1).skip(count - 1) =~= entries.skip(count));
    } else {
        assert(entries.skip(0) =~= entries);
    }
}

/// The grammar that the stock registry resolves a tag to.
pub open spec fn default_grammar_for(tag: Seq<char>) -> Option<GrammarKind> {
    if tag == "python"@ {
        Some(GrammarKind::Python)
    } else if tag == "javascript"@ {
        Some(GrammarKind::Javascript)
    } else if tag == "typescript"@ {
        Some(GrammarKind::Tsx)
    } else if tag == "tsx"@ {
        Some(GrammarKind::Tsx)
    } else if tag == "go"@ {
        Some(GrammarKind::Go)
    } else if tag == "rust"@ {
        Some(GrammarKind::Rust)
    } else {
        None
    }
}

impl SyntaxIndex {
    /// The grammar a tag resolves to: the first registered entry
    /// carrying the tag.
    pub closed spec fn spec_lookup(&self, tag: Seq<char>) -> Option<GrammarKind> {
        lookup_in(self.entries@, tag)
    }

    /// Whether some registered grammar carries this tag.
    pub open spec fn spec_supports(&self, tag: Seq<char>) -> bool {
        self.spec_lookup(tag) is Some
    }

    /// An empty registry: no tag resolves.
    pub fn new() -> (index: Self)
        ensures
            forall|tag: Seq<char>| #[trigger] index.spec_lookup(tag) is None,
    {
        let index = SyntaxIndex { entries: Vec::new() };
        proof {
            assert forall|tag: Seq<char>| #[trigger] index.spec_lookup(tag) is None by {
                assert(index.entries@.len() == 0);
            }
        }
        index
    }

    /// Register a grammar under a tag.  Earlier registrations win;
    /// a fresh tag resolves to the new grammar.
    pub fn register(&mut self, tag: String, kind: GrammarKind)
        ensures
            forall|t: Seq<char>| #[trigger] final(self).spec_lookup(t) == match old(
                self,
            ).spec_lookup(t) {
                Some(k) => Some(k),
                None => if t == tag@ {
                    Some(kind)
                } else {
                    None
                },
            },
    {
        let ghost tag_view = tag@;
        let ghost before = self.entries@;
        self.entries.push(GrammarEntry { tag, kind });
        proof {
            assert forall|t: Seq<char>| #[trigger] self.spec_lookup(t) == match lookup_in(
                before,
                t,
            ) {
                Some(k) => Some(k),
                None => if t == tag_view {
                    Some(kind)
                } else {
                    None
                },
            } by {
                assert(self.entries@ =~= before.push(self.entries@.last()));
                assert(self.entries@.last().tag@ == tag_view);
                assert(self.entries@.last().kind == kind);
                lemma_lookup_in_push(before, self.entries@.last(), t);
            }
        }
    }

    /// The registry with the stock grammars: Python, JavaScript,
    /// TypeScript and TSX (one grammar, two tags), Go, and Rust.
    pub fn with_default_grammars() -> (index: Self)
        ensures
            forall|tag: Seq<char>| #[trigger] index.spec_lookup(tag) == default_grammar_for(tag),
    {
        let mut index = SyntaxIndex::new();
        index.register(String::from_str("python"), GrammarKind::Python);
        index.register(String::from_str("javascript"), GrammarKind::Javascript);
        index.register(String::from_str("typescript"), GrammarKind::Tsx);
        index.register(String::from_str("tsx"), GrammarKind::Tsx);
        index.register(String::from_str("go"), GrammarKind::Go);
        index.register(String::from_str("rust"), GrammarKind::Rust);
        proof {
            reveal_strlit("python");
            reveal_strlit("javascript");
            reveal_strlit("typescript");
            reveal_strlit("tsx");
            reveal_strlit("go");
            reveal_strlit("rust");
            assert forall|tag: Seq<char>| #[trigger] index.spec_lookup(tag) == default_grammar_for(
                tag,
            ) by {
            }
        }
        index
    }

    /// Resolve a tag to its grammar.
    fn lookup(&self, tag: &str) -> (found: Option<GrammarKind>)
        ensures
            found == self.spec_lookup(tag@),
    {
        let owned = tag.to_owned();
        let mut i: usize = 0;
        while i < self.entries.len()
            invariant
                i <= self.entries@.len(),
                owned@ == tag@,
                forall|j: int| 0 <= j < i ==> self.entries@[j].tag@ != tag@,
            decreases self.entries@.len() - i,
        {
            if self.entries[i].tag == owned {
                proof {
                    lemma_lookup_in_skip(self.entries@, tag@, i as int);
                    assert(self.entries@.skip(i as int).first() == self.entries@[i as int]);
                }
                return Some(self.entries[i].kind);
            }
            i = i + 1;
        }
        proof {
            lemma_lookup_in_skip(self.entries@, tag@, i as int);
            assert(self.entries@.skip(i as int).len() == 0);
        }
        None
    }

    /// Execute a structural query.  The stages short-circuit on the
    /// first failure, in order: an unregistered tag fails with
    /// `UnsupportedLanguage` exactly when the tag does not resolve; a
    /// resolved grammar always yields a best-effort tree, even for
    /// syntactically invalid source, so `ParseFailure` is never
    /// reported by these grammars; a malformed pattern fails with
    /// `InvalidQuery` carrying the grammar's diagnostic.  On success
    /// the records are exactly the grammar's reported (match,
    /// capture) pairs whose ranges lie inside the source, in order,
    /// with no deduplication; each record's byte range lies on valid
    /// UTF-8 slice boundaries and its text is the source slice for
    /// that range, sliced by bytes.
    pub fn query(&self, source: &str, language: &str, pattern: &str) -> (result: Result<
        Vec<CaptureRecord>,
        AnalysisError,
    >)
        ensures
            (result matches Err(AnalysisError::UnsupportedLanguage(tag))) <==> self.spec_lookup(
                language@,
            ) is None,
            result matches Err(AnalysisError::UnsupportedLanguage(tag)) ==> tag@ == language@,
            self.spec_lookup(language@) matches Some(kind) ==> match spec_compile_error(
                kind,
                pattern@,
            ) {
                Some(diag) => result matches Err(AnalysisError::InvalidQuery(message))
                    && message@ == diag,
                None => {
                    let kept = kept_captures(
                        spec_captures(kind, source.spec_bytes(), pattern@),
                        source.spec_bytes(),
                    );
                    result matches Ok(records) && records@.len() == kept.len() && forall|i: int|
                        0 <= i < records@.len() ==> record_represents(
                            #[trigger] records@[i],
                            kept[i],
                            source.spec_bytes(),
                        )
                },
            },
            result matches Ok(records) ==> forall|i: int|
                0 <= i < records@.len() ==> {
                    &&& (#[trigger] records@[i]).start_byte <= records@[i].end_byte
                    &&& records@[i].end_byte <= source.spec_bytes().len()
                    &&& valid_utf8(
                        source.spec_bytes().subrange(
                            records@[i].start_byte as int,
                            records@[i].end_byte as int,
                        ),
                    )
                    &&& records@[i].text@ == decode_utf8(
                        source.spec_bytes().subrange(
                            records@[i].start_byte as int,
                            records@[i].end_byte as int,
                        ),
                    )
                },
    {
        let kind = match self.lookup(language) {
            Some(kind) => kind,
            None => {
                return Err(AnalysisError::UnsupportedLanguage(language.to_owned()));
            },
        };
        let source_bytes = source.as_bytes();
        let raws = match run_grammar_query(kind, source, pattern) {
            Ok(raws) => raws,
            Err(diagnostic) => {
                return Err(AnalysisError::InvalidQuery(diagnostic));
            },
        };
        proof {
            lemma_kept_captures_in_bounds(raws_view(raws@), source_bytes@);
        }
        Ok(records_from_captures(&raws, source_bytes))
    }
}

/// Run a structural query against the stock grammar registry.  The
/// contract is `SyntaxIndex::query`'s, with the stock tag resolution.
pub fn analyze_ast(content: &str, language: &str, pattern: &str) -> (result: Result<
    Vec<CaptureRecord>,
    AnalysisError,
>)
    ensures
        (result matches Err(AnalysisError::UnsupportedLanguage(tag))) <==> default_grammar_for(
            language@,
        ) is None,
        result matches Err(AnalysisError::UnsupportedLanguage(tag)) ==> tag@ == language@,
        default_grammar_for(language@) matches Some(kind) ==> match spec_compile_error(
            kind,
            pattern@,
        ) {
            Some(diag) => result matches Err(AnalysisError::InvalidQuery(message)) && message@
                == diag,
            None => {
                let kept = kept_captures(
                    spec_captures(kind, content.spec_bytes(), pattern@),
                    content.spec_bytes(),
                );
                result matches Ok(records) && records@.len() == kept.len() && forall|i: int|
                    0 <= i < records@.len() ==> record_represents(
                        #[trigger] records@[i],
                        kept[i],
                        content.spec_bytes(),
                    )
            },
        },
        result matches Ok(records) ==> forall|i: int|
            0 <= i < records@.len() ==> {
                &&& (#[trigger] records@[i]).start_byte <= records@[i].end_byte
                &&& records@[i].end_byte <= content.spec_bytes().len()
                &&& valid_utf8(
                    content.spec_bytes().subrange(
                        records@[i].start_byte as int,
                        records@[i].end_byte as int,
                    ),
                )
                &&& records@[i].text@ == decode_utf8(
                    content.spec_bytes().subrange(
                        records@[i].start_byte as int,
                        records@[i].end_byte as int,
                    ),
                )
            },
{
    let index = SyntaxIndex::with_default_grammars();
    index.query(content, language, pattern)
}

} // verus!
