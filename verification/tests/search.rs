use fff_mcp::find::{FindReply, FindRequest, FindSession, FindStep, FoundFile, Score};
use fff_mcp::grep::{GrepReply, GrepRequest, GrepSession, GrepStep, LineMatch};
use fff_mcp::multi_grep::{MultiGrepReply, MultiGrepRequest, MultiGrepSession, MultiGrepStep};
use fff_mcp::options::{
    FuzzySearchOptions, GrepMode, OutputMode, PaginationArgs, make_file_options,
    make_grep_options,
};
use fff_mcp::query::{cleanup_fuzzy_query, merge_constraints};
use fff_mcp::text::{
    contains_char, decimal_text, join, join_from, same_text, split_words, starts_with_char, trim,
};

fn request(query: &str) -> GrepRequest {
    GrepRequest {
        query: query.to_string(),
        mode: GrepMode::PlainText,
        max_results: 20,
        output_mode: OutputMode::Content,
        context: None,
        file_offset: 0,
    }
}

fn nothing_approximate() -> GrepReply {
    GrepReply::Approximate { matches: vec![], files: vec![] }
}

fn line(file_index: usize, line_number: u64, content: &str) -> LineMatch {
    LineMatch { file_index, line_number, line_content: content.to_string() }
}

fn answer_of(session: GrepSession) -> String {
    match session.step {
        GrepStep::Answer { text, may_carry_notice } => {
            assert!(may_carry_notice);
            text
        }
        other => panic!("no answer: {other:?}"),
    }
}

fn failure_of(session: GrepSession) -> String {
    match session.step {
        GrepStep::Fail { message } => message,
        other => panic!("no failure: {other:?}"),
    }
}

#[test]
fn merge_constraints_prepends_and_handles_empty() {
    assert_eq!(merge_constraints("", "def show"), "def show");
    assert_eq!(merge_constraints("*.rs", "def show"), "*.rs def show");
    assert_eq!(
        merge_constraints("editor2022/imgui_viewer.py", "def show"),
        "editor2022/imgui_viewer.py def show"
    );
}

#[test]
fn merged_words_are_those_of_both() {
    let merged = merge_constraints(" *.rs  !test/", "def  show ");
    assert_eq!(split_words(&merged), vec!["*.rs", "!test/", "def", "show"]);
}

#[test]
fn words_are_split_at_white_space() {
    assert_eq!(split_words(""), Vec::<String>::new());
    assert_eq!(split_words(" \t\n"), Vec::<String>::new());
    assert_eq!(split_words("a"), vec!["a"]);
    assert_eq!(split_words("  a bc\u{3000}d\u{a0}e "), vec!["a", "bc", "d", "e"]);
    for code in 0..=0x10ffffu32 {
        if let Some(c) = char::from_u32(code) {
            let s = c.to_string();
            let expected: Vec<String> = s.split_whitespace().map(|w| w.to_string()).collect();
            if c.is_whitespace() || code < 0x3100 {
                assert_eq!(split_words(&s), expected);
            }
        }
    }
}

#[test]
fn joining_and_splitting_are_inverse() {
    let words = vec!["ab".to_string(), "c".to_string(), "d-e".to_string()];
    assert_eq!(join(&words, ", "), "ab, c, d-e");
    assert_eq!(join_from(&words, 1, " "), "c d-e");
    assert_eq!(join_from(&words, 3, " "), "");
    assert_eq!(split_words(&join(&words, " ")), words);
}

#[test]
fn words_hold_all_but_white_space() {
    let text = " fn\tmain ( ) ";
    assert_eq!(join(&split_words(text), ""), "fnmain()");
}

#[test]
fn white_space_around_a_text_is_trimmed() {
    for text in ["", " ", "a", " a b\t", "\u{3000}x\u{a0}", "\n\n", "3"] {
        assert_eq!(trim(text), text.trim());
    }
}

#[test]
fn cleaning_goes_by_parts() {
    for (a, b) in [("", "X"), ("Foo_", "-Bar"), ("À /*.", "İ:"), ("ΑΣ", "Σ")] {
        let whole = format!("{a}{b}");
        let parts = format!("{}{}", cleanup_fuzzy_query(a), cleanup_fuzzy_query(b));
        assert_eq!(cleanup_fuzzy_query(&whole), parts);
    }
    assert_eq!(cleanup_fuzzy_query("A /.*_B"), "a /.*b");
    for query in ["Foo_Bar-Baz:1", "ÀÉ_Straße", "İx", "ΑΣ"] {
        let once = cleanup_fuzzy_query(query);
        assert_eq!(cleanup_fuzzy_query(&once), once);
        assert!(!once.contains([':', '-', '_']));
    }
}

#[test]
fn small_text_functions() {
    assert_eq!(decimal_text(0), "0");
    assert_eq!(decimal_text(10), "10");
    assert_eq!(decimal_text(907), "907");
    assert_eq!(decimal_text(u64::MAX), u64::MAX.to_string());
    assert!(contains_char("a/b", '/'));
    assert!(!contains_char("ab", '/'));
    assert!(starts_with_char("[a", '['));
    assert!(!starts_with_char("", '['));
    assert!(same_text("ab", "ab"));
    assert!(!same_text("ab", "a"));
}

#[test]
fn fuzzy_queries_are_cleaned_up() {
    assert_eq!(cleanup_fuzzy_query("Foo::Bar-baz_QUX"), "foobarbazqux");
    assert_eq!(cleanup_fuzzy_query("ÀB İ"), "àb i\u{307}");
    assert_eq!(cleanup_fuzzy_query(":-_"), "");
    let once = cleanup_fuzzy_query("A_b C");
    assert_eq!(cleanup_fuzzy_query(&once), once);
    assert_eq!(once, "ab c");
}

#[test]
fn grep_options_follow_the_output_mode() {
    let (options, auto_expand) =
        make_grep_options(OutputMode::Content, GrepMode::Regex, 7, None);
    assert!(auto_expand);
    assert_eq!(options.max_file_size, 10 * 1024 * 1024);
    assert_eq!(options.max_matches_per_file, 10);
    assert_eq!(options.file_offset, 7);
    assert_eq!(options.page_limit, 50);
    assert_eq!(options.mode, GrepMode::Regex);
    assert_eq!((options.before_context, options.after_context), (0, 8));
    assert!(options.smart_case && options.classify_definitions && options.trim_whitespace);
    assert_eq!((options.time_budget_ms, options.enforce_time_budget), (0, false));

    let (options, auto_expand) =
        make_grep_options(OutputMode::Usage, GrepMode::PlainText, 0, None);
    assert!(!auto_expand);
    assert_eq!(options.max_matches_per_file, 8);
    assert_eq!((options.before_context, options.after_context), (1, 1));

    let (options, auto_expand) =
        make_grep_options(OutputMode::Usage, GrepMode::PlainText, 0, Some(0));
    assert!(!auto_expand);
    assert_eq!((options.before_context, options.after_context), (0, 0));

    let (options, auto_expand) =
        make_grep_options(OutputMode::FilesWithMatches, GrepMode::Fuzzy, 0, Some(4));
    assert!(!auto_expand);
    assert_eq!(options.max_matches_per_file, 1);
    assert_eq!((options.before_context, options.after_context), (4, 4));
}

#[test]
fn file_options_ask_for_a_page() {
    assert_eq!(
        make_file_options(40, 20),
        FuzzySearchOptions {
            max_threads: 0,
            combo_boost_score_multiplier: 100,
            min_combo_count: 3,
            pagination: PaginationArgs { offset: 40, limit: 20 },
        }
    );
}

#[test]
fn matches_are_formatted() {
    let session = GrepSession::new(GrepRequest {
        context: Some(2),
        ..request("fn main")
    });
    match &session.step {
        GrepStep::Search { query, options } => {
            assert_eq!(query, "fn main");
            assert_eq!(options.before_context, 2);
        }
        other => panic!("{other:?}"),
    }
    let session = session.advance(GrepReply::Searched { unconstrained: true, matched: 4 });
    match &session.step {
        GrepStep::Format { shown, broadened } => {
            assert_eq!(shown.total_matched, 4);
            assert_eq!(shown.max_results, 20);
            assert!(shown.show_context);
            assert!(!shown.auto_expand_defs);
            assert_eq!(*broadened, None);
        }
        other => panic!("{other:?}"),
    }
    let session = session.advance(GrepReply::Formatted { text: "four".to_string() });
    assert_eq!(answer_of(session), "four");
}

#[test]
fn later_pages_do_not_fall_back() {
    let session = GrepSession::new(GrepRequest { file_offset: 3, ..request("a b") });
    let session = session.advance(GrepReply::Searched { unconstrained: true, matched: 0 });
    assert_eq!(answer_of(session), "0 matches.");
}

#[test]
fn several_words_are_broadened() {
    let session = GrepSession::new(request("old  new.* name"))
        .advance(GrepReply::Searched { unconstrained: true, matched: 0 });
    match &session.step {
        GrepStep::Parse { query } => assert_eq!(query, "new.* name"),
        other => panic!("{other:?}"),
    }
    let session = session.advance(GrepReply::Parsed { regex: true });
    match &session.step {
        GrepStep::Retry { query, options } => {
            assert_eq!(query, "new.* name");
            assert_eq!(options.mode, GrepMode::Regex);
        }
        other => panic!("{other:?}"),
    }
    let session = session.advance(GrepReply::Retried { matched: 10 });
    let session = session.advance(GrepReply::Formatted { text: "ten".to_string() });
    assert_eq!(
        answer_of(session),
        "0 matches for 'old  new.* name'. Auto-broadened to 'new.* name':\nten"
    );
}

#[test]
fn constraints_and_many_matches_prevent_broadening() {
    let session = GrepSession::new(request("*.rs Foo_Bar"))
        .advance(GrepReply::Searched { unconstrained: false, matched: 0 });
    match &session.step {
        GrepStep::Fuzzy { query, options } => {
            assert_eq!(query, "*.rs foobar");
            assert_eq!(options.mode, GrepMode::Fuzzy);
            assert_eq!((options.before_context, options.after_context), (0, 8));
        }
        other => panic!("{other:?}"),
    }

    for matched in [0, 11] {
        let session = GrepSession::new(request("a b"))
            .advance(GrepReply::Searched { unconstrained: true, matched: 0 })
            .advance(GrepReply::Parsed { regex: false })
            .advance(GrepReply::Retried { matched });
        assert!(matches!(session.step, GrepStep::Fuzzy { .. }));
        assert_eq!(answer_of(session.advance(nothing_approximate())), "0 matches.");
    }
}

#[test]
fn approximate_matches_are_listed() {
    let session = GrepSession::new(request("fooo"))
        .advance(GrepReply::Searched { unconstrained: true, matched: 0 })
        .advance(GrepReply::Approximate {
            matches: vec![
                line(1, 12, "let foo;"),
                line(1, 15, "foo()"),
                line(0, 3, "use foo;"),
                line(0, 4, "more"),
            ],
            files: vec!["src/a.rs".to_string(), "src/b.rs".to_string()],
        });
    assert_eq!(
        answer_of(session),
        "0 exact matches. 4 approximate:\nsrc/b.rs\n 12: let foo;\n 15: foo()\nsrc/a.rs\n 3: use foo;"
    );
}

#[test]
fn paths_are_suggested_for_strong_matches() {
    let start = |query: &str| {
        GrepSession::new(request(query))
            .advance(GrepReply::Searched { unconstrained: false, matched: 0 })
            .advance(nothing_approximate())
    };
    let session = start("src/a");
    match &session.step {
        GrepStep::SuggestPath { query, search } => {
            assert_eq!(query, "src/a");
            assert_eq!(search.pagination, PaginationArgs { offset: 0, limit: 1 });
        }
        other => panic!("{other:?}"),
    }
    let suggestion = |base_score: i32| GrepReply::Suggested {
        path: "src/a.rs".to_string(),
        base_score,
    };
    assert_eq!(
        answer_of(session.advance(suggestion(51))),
        "0 content matches. But there is a relevant file path: src/a.rs"
    );
    assert_eq!(answer_of(start("src/a").advance(suggestion(50))), "0 matches.");
    assert_eq!(
        answer_of(start("src/a").advance(GrepReply::NothingSuggested)),
        "0 matches."
    );
    // The length of a query is that of its bytes.
    assert_eq!(answer_of(start("é/").advance(suggestion(30))), "0 matches.");
    assert!(answer_of(start("é/").advance(suggestion(31))).starts_with("0 content"));
}

#[test]
fn locks_make_searches_fail() {
    let session = GrepSession::new(request("x"))
        .advance(GrepReply::IndexLockFailed { reason: "poisoned".to_string() });
    assert_eq!(failure_of(session), "Failed to acquire picker lock: poisoned");
    let session = GrepSession::new(request("x")).advance(GrepReply::NoIndex);
    assert_eq!(failure_of(session), "File picker not initialized");
    let session = GrepSession::new(request("x"))
        .advance(GrepReply::Searched { unconstrained: true, matched: 1 })
        .advance(GrepReply::CursorLockFailed { reason: "poisoned".to_string() });
    assert_eq!(failure_of(session), "Failed to acquire cursor store lock: poisoned");
}

fn found(path: &str, suffix: &str) -> FoundFile {
    FoundFile { path: path.to_string(), suffix: suffix.to_string() }
}

fn score(total: i32, exact_match: bool) -> Score {
    Score { total, exact_match }
}

fn find(query: &str, page_offset: usize) -> FindSession {
    FindSession::new(FindRequest { query: query.to_string(), max_results: 2, page_offset })
}

fn page(items: Vec<FoundFile>, scores: Vec<Score>, total_matched: usize) -> FindReply {
    FindReply::Found { items, scores, total_matched, total_files: 1234 }
}

fn found_answer(session: FindSession) -> String {
    match session.step {
        FindStep::Answer { text, may_carry_notice } => {
            assert_eq!(may_carry_notice, !text.starts_with("0 results"));
            text
        }
        other => panic!("no answer: {other:?}"),
    }
}

#[test]
fn files_are_listed_with_a_headline() {
    let both = || vec![found("a.rs", " M"), found("b.rs", "")];
    assert_eq!(
        found_answer(find("a", 0).advance(page(both(), vec![score(1, true), score(9, false)], 2))),
        "→ Read a.rs (exact match!)\na.rs M\nb.rs"
    );
    assert_eq!(
        found_answer(find("a", 0).advance(page(both(), vec![score(21, false), score(10, false)], 2))),
        "→ Read a.rs (best match — Read this file directly)\na.rs M\nb.rs"
    );
    assert_eq!(
        found_answer(find("a", 0).advance(page(both(), vec![score(20, false), score(10, false)], 2))),
        "a.rs M\nb.rs"
    );
    assert_eq!(
        found_answer(find("a", 0).advance(page(
            both(),
            vec![score(i32::MAX, false), score(i32::MAX - 1, false)],
            2
        ))),
        "a.rs M\nb.rs"
    );
    assert_eq!(
        found_answer(find("a", 0).advance(page(
            both(),
            vec![score(i32::MIN, false), score(i32::MIN, false)],
            2
        ))),
        "a.rs M\nb.rs"
    );
    assert_eq!(
        found_answer(find("a", 0).advance(page(
            vec![found("a.rs", "")],
            vec![score(-5, false)],
            1
        ))),
        "→ Read a.rs (best match — Read this file directly)\na.rs"
    );
}

#[test]
fn pages_are_linked_by_cursors() {
    let session = find("a", 0).advance(page(
        vec![found("a.rs", ""), found("b.rs", "")],
        vec![score(3, false), score(2, false)],
        3,
    ));
    match &session.step {
        FindStep::StoreCursor { offset, lines } => {
            assert_eq!(*offset, 2);
            assert_eq!(lines.len(), 3);
        }
        other => panic!("{other:?}"),
    }
    let session = session.advance(FindReply::CursorStored { id: "7".to_string() });
    assert_eq!(found_answer(session), "2/3 matches\na.rs\nb.rs\ncursor: 7");

    let session = find("a", 2);
    match &session.step {
        FindStep::Search { query, options } => {
            assert_eq!(query, "a");
            assert_eq!(options.pagination, PaginationArgs { offset: 2, limit: 2 });
        }
        other => panic!("{other:?}"),
    }
    let session = session.advance(page(vec![found("c.rs", "")], vec![score(1, true)], 3));
    assert_eq!(found_answer(session), "c.rs");

    let session = find("a", 0)
        .advance(page(vec![found("a.rs", "")], vec![score(1, true)], 2))
        .advance(FindReply::CursorLockFailed { reason: "poisoned".to_string() });
    match session.step {
        FindStep::Fail { message } => {
            assert_eq!(message, "Failed to acquire cursor store lock: poisoned")
        }
        other => panic!("{other:?}"),
    }
}

#[test]
fn long_file_queries_are_shortened() {
    let session = find("one  two three", 0).advance(page(vec![], vec![], 0));
    match &session.step {
        FindStep::Retry { query, options, total_files } => {
            assert_eq!(query, "one two");
            assert_eq!(options.pagination, PaginationArgs { offset: 0, limit: 2 });
            assert_eq!(*total_files, 1234);
        }
        other => panic!("{other:?}"),
    }
    let empty = session.advance(FindReply::Found {
        items: vec![],
        scores: vec![],
        total_matched: 0,
        total_files: 9,
    });
    assert_eq!(found_answer(empty), "0 results (1234 indexed)");

    assert_eq!(
        found_answer(find("one two", 0).advance(page(vec![], vec![], 0))),
        "0 results (1234 indexed)"
    );
    assert_eq!(
        found_answer(find("one two three", 2).advance(page(vec![], vec![], 0))),
        "0 results (1234 indexed)"
    );
}

#[test]
fn file_searches_fail_without_an_index() {
    match find("a", 0).advance(FindReply::NoIndex).step {
        FindStep::Fail { message } => assert_eq!(message, "File picker not initialized"),
        other => panic!("{other:?}"),
    }
    match find("a", 0)
        .advance(FindReply::IndexLockFailed { reason: "gone".to_string() })
        .step
    {
        FindStep::Fail { message } => {
            assert_eq!(message, "Failed to acquire picker lock: gone")
        }
        other => panic!("{other:?}"),
    }
}

fn multi(context: Option<usize>) -> MultiGrepSession {
    MultiGrepSession::new(MultiGrepRequest {
        patterns: vec!["a".to_string(), "b".to_string()],
        constraints: "*.rs".to_string(),
        max_results: 5,
        output_mode: OutputMode::Usage,
        context,
        file_offset: 6,
    })
}

#[test]
fn several_patterns_are_searched_as_plain_text() {
    let session = multi(None);
    match &session.step {
        MultiGrepStep::Search { options } => {
            assert_eq!(options.mode, GrepMode::PlainText);
            assert_eq!(options.file_offset, 6);
            assert_eq!(options.before_context, 1);
        }
        other => panic!("{other:?}"),
    }
    match multi(None).advance(MultiGrepReply::Searched { matched: 0 }).step {
        MultiGrepStep::Answer { text, may_carry_notice } => {
            assert_eq!(text, "0 matches.");
            assert!(may_carry_notice);
        }
        other => panic!("{other:?}"),
    }
    let session = multi(Some(0)).advance(MultiGrepReply::Searched { matched: 3 });
    match &session.step {
        MultiGrepStep::Format { shown } => {
            assert_eq!(shown.total_matched, 3);
            assert_eq!(shown.max_results, 5);
            assert!(!shown.show_context && !shown.auto_expand_defs);
        }
        other => panic!("{other:?}"),
    }
    match session.advance(MultiGrepReply::Formatted { text: "m".to_string() }).step {
        MultiGrepStep::Answer { text, may_carry_notice } => {
            assert_eq!(text, "m");
            assert!(may_carry_notice);
        }
        other => panic!("{other:?}"),
    }
    match multi(None).advance(MultiGrepReply::NoIndex).step {
        MultiGrepStep::Fail { message } => assert_eq!(message, "File picker not initialized"),
        other => panic!("{other:?}"),
    }
    match multi(None)
        .advance(MultiGrepReply::IndexLockFailed { reason: "r".to_string() })
        .step
    {
        MultiGrepStep::Fail { message } => assert_eq!(message, "Failed to acquire picker lock: r"),
        other => panic!("{other:?}"),
    }
    match multi(None)
        .advance(MultiGrepReply::Searched { matched: 1 })
        .advance(MultiGrepReply::CursorLockFailed { reason: "r".to_string() })
        .step
    {
        MultiGrepStep::Fail { message } => {
            assert_eq!(message, "Failed to acquire cursor store lock: r")
        }
        other => panic!("{other:?}"),
    }
}
