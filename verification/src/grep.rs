//! The content search: which searches are made one after another, and how
//! their results are answered.
use crate::options::{
    FuzzySearchOptions, GrepMode, GrepSearchOptions, OutputMode, auto_expands, context_lines,
    file_options, grep_options, make_file_options, make_grep_options,
};
use crate::query::{cleaned, cleanup_fuzzy_query};
use crate::text::{
    contains_char, decimal, decimal_text, is_word, join, join_from, joined, line_break, same_text,
    space, split_words, view_option, views, words, words_are_words, words_of_joined,
};
use vstd::prelude::*;
use vstd::utf8::encode_utf8;

verus! {

/// What a content search is asked for.
#[derive(Debug)]
pub struct GrepRequest<T = String> {
    pub query: T,
    pub mode: GrepMode,
    pub max_results: usize,
    pub output_mode: OutputMode,
    pub context: Option<usize>,
    /// How many files are passed over: where the page begins.
    pub file_offset: usize,
}

impl View for GrepRequest<String> {
    type V = GrepRequest<Seq<char>>;

    open spec fn view(&self) -> GrepRequest<Seq<char>> {
        GrepRequest {
            query: self.query@,
            mode: self.mode,
            max_results: self.max_results,
            output_mode: self.output_mode,
            context: self.context,
            file_offset: self.file_offset,
        }
    }
}

/// How the matches of a search are to be shown.
#[derive(Clone, Copy, Debug, PartialEq, Eq, Structural)]
pub struct FormatOptions {
    pub total_matched: usize,
    pub output_mode: OutputMode,
    pub max_results: usize,
    pub show_context: bool,
    pub auto_expand_defs: bool,
}

/// What a content search waits for, or what came of it.
#[derive(Debug)]
pub enum GrepStep<T = String> {
    /// Search for the query as it was asked for.
    Search { query: T, options: GrepSearchOptions },
    /// Parse the query without its first word.
    Parse { query: T },
    /// Search for the query without its first word.
    Retry { query: T, options: GrepSearchOptions },
    /// Search approximately.
    Fuzzy { query: T, options: GrepSearchOptions },
    /// Find the file whose path is closest to the query.
    SuggestPath { query: T, search: FuzzySearchOptions },
    /// Write out the matches of the last search. A query that the search was
    /// broadened to is announced in front of them.
    Format { shown: FormatOptions, broadened: Option<T> },
    /// The answer. Every one may carry the notice of an update.
    Answer { text: T, may_carry_notice: bool },
    /// The search failed.
    Fail { message: T },
}

impl View for GrepStep<String> {
    type V = GrepStep<Seq<char>>;

    open spec fn view(&self) -> GrepStep<Seq<char>> {
        match self {
            GrepStep::Search { query, options } => GrepStep::Search {
                query: query@,
                options: *options,
            },
            GrepStep::Parse { query } => GrepStep::Parse { query: query@ },
            GrepStep::Retry { query, options } => GrepStep::Retry {
                query: query@,
                options: *options,
            },
            GrepStep::Fuzzy { query, options } => GrepStep::Fuzzy {
                query: query@,
                options: *options,
            },
            GrepStep::SuggestPath { query, search } => GrepStep::SuggestPath {
                query: query@,
                search: *search,
            },
            GrepStep::Format { shown, broadened } => GrepStep::Format {
                shown: *shown,
                broadened: view_option(*broadened),
            },
            GrepStep::Answer { text, may_carry_notice } => GrepStep::Answer {
                text: text@,
                may_carry_notice: *may_carry_notice,
            },
            GrepStep::Fail { message } => GrepStep::Fail { message: message@ },
        }
    }
}

/// A matching line: in which file of the result it stands, where, and what it
/// holds.
#[derive(Debug)]
pub struct LineMatch<T = String> {
    pub file_index: usize,
    pub line_number: u64,
    pub line_content: T,
}

/// What a matching line holds.
pub open spec fn line_view(line: LineMatch<String>) -> LineMatch<Seq<char>> {
    LineMatch {
        file_index: line.file_index,
        line_number: line.line_number,
        line_content: line.line_content@,
    }
}

/// What matching lines hold.
pub open spec fn line_views(lines: Seq<LineMatch<String>>) -> Seq<LineMatch<Seq<char>>> {
    Seq::new(lines.len(), |i: int| line_view(lines[i]))
}

/// What comes back for a step. `T` is a text, `L` a list of texts, `M` a list
/// of matching lines.
#[derive(Debug)]
pub enum GrepReply<T = String, L = Vec<String>, M = Vec<LineMatch<String>>> {
    /// For the search: whether the parsed query holds no constraints, and the
    /// number of matches.
    Searched { unconstrained: bool, matched: usize },
    /// For the search: the index could not be locked.
    IndexLockFailed { reason: T },
    /// For the search: there is no index.
    NoIndex,
    /// For the parse: whether the text that is searched for holds characters
    /// of regular expressions.
    Parsed { regex: bool },
    /// For the search with fewer words: the number of matches.
    Retried { matched: usize },
    /// For the approximate search: the matching lines, and the relative paths
    /// of the files that they stand in.
    Approximate { matches: M, files: L },
    /// For the file search: the closest path with its score.
    Suggested { path: T, base_score: i32 },
    /// For the file search: no path.
    NothingSuggested,
    /// For the format: the matches, written out.
    Formatted { text: T },
    /// For the format: the cursors could not be locked.
    CursorLockFailed { reason: T },
}

/// What comes back for a step, by what its texts hold.
pub type GrepReplyView = GrepReply<Seq<char>, Seq<Seq<char>>, Seq<LineMatch<Seq<char>>>>;

impl View for GrepReply<String, Vec<String>, Vec<LineMatch<String>>> {
    type V = GrepReplyView;

    open spec fn view(&self) -> GrepReplyView {
        match self {
            GrepReply::Searched { unconstrained, matched } => GrepReply::Searched {
                unconstrained: *unconstrained,
                matched: *matched,
            },
            GrepReply::IndexLockFailed { reason } => GrepReply::IndexLockFailed {
                reason: reason@,
            },
            GrepReply::NoIndex => GrepReply::NoIndex,
            GrepReply::Parsed { regex } => GrepReply::Parsed { regex: *regex },
            GrepReply::Retried { matched } => GrepReply::Retried { matched: *matched },
            GrepReply::Approximate { matches, files } => GrepReply::Approximate {
                matches: line_views(matches@),
                files: views(files@),
            },
            GrepReply::Suggested { path, base_score } => GrepReply::Suggested {
                path: path@,
                base_score: *base_score,
            },
            GrepReply::NothingSuggested => GrepReply::NothingSuggested,
            GrepReply::Formatted { text } => GrepReply::Formatted { text: text@ },
            GrepReply::CursorLockFailed { reason } => GrepReply::CursorLockFailed {
                reason: reason@,
            },
        }
    }
}

/// The number of approximate matches that an answer shows.
pub const SHOWN_APPROXIMATE: usize = 3;

/// The most matches that a broadened search may have to be shown.
pub const MAX_BROADENED: usize = 10;

/// The answer where nothing matched.
pub open spec fn no_matches() -> Seq<char> {
    "0 matches."@
}

/// The message where the index could not be locked.
pub open spec fn index_lock_message(reason: Seq<char>) -> Seq<char> {
    "Failed to acquire picker lock: "@ + reason
}

/// The message where there is no index.
pub open spec fn no_index_message() -> Seq<char> {
    "File picker not initialized"@
}

/// The message where the cursors could not be locked.
pub open spec fn cursor_lock_message(reason: Seq<char>) -> Seq<char> {
    "Failed to acquire cursor store lock: "@ + reason
}

/// Writes the message where the index could not be locked.
pub fn write_index_lock_message(reason: &str) -> (message: String)
    ensures
        message@ == index_lock_message(reason@),
{
    let mut message: String = "Failed to acquire picker lock: ".to_owned();
    message.append(reason);
    message
}

/// Writes the message where the cursors could not be locked.
pub fn write_cursor_lock_message(reason: &str) -> (message: String)
    ensures
        message@ == cursor_lock_message(reason@),
{
    let mut message: String = "Failed to acquire cursor store lock: ".to_owned();
    message.append(reason);
    message
}

/// A query without its first word, the other words with single spaces between
/// them.
pub open spec fn without_first_word(query: Seq<char>) -> Seq<char> {
    joined(words(query).skip(1), seq![' '])
}

/// How the matches of a search are shown.
pub open spec fn format_options(request: GrepRequest<Seq<char>>, matched: usize) -> FormatOptions {
    FormatOptions {
        total_matched: matched,
        output_mode: request.output_mode,
        max_results: request.max_results,
        show_context: context_lines(request.output_mode, request.context) > 0,
        auto_expand_defs: auto_expands(request.output_mode, request.context),
    }
}

/// The step that begins a search.
pub open spec fn first_step(request: GrepRequest<Seq<char>>) -> GrepStep<Seq<char>> {
    GrepStep::Search {
        query: request.query,
        options: grep_options(
            request.output_mode,
            request.mode,
            request.file_offset,
            request.context,
        ),
    }
}

/// The approximate search: for the cleaned up query, from the first file on,
/// without context.
pub open spec fn fuzzy_step(request: GrepRequest<Seq<char>>) -> GrepStep<Seq<char>> {
    GrepStep::Fuzzy {
        query: cleaned(request.query),
        options: grep_options(request.output_mode, GrepMode::Fuzzy, 0, Some(0)),
    }
}

/// The step after the first search. Matches are written out. Where there are
/// none on the first page, a query of several words and no constraints is
/// tried again without its first word, and any other one approximately.
pub open spec fn after_search(
    request: GrepRequest<Seq<char>>,
    unconstrained: bool,
    matched: usize,
) -> GrepStep<Seq<char>> {
    if matched > 0 {
        GrepStep::Format { shown: format_options(request, matched), broadened: None }
    } else if request.file_offset > 0 {
        GrepStep::Answer { text: no_matches(), may_carry_notice: true }
    } else if words(request.query).len() >= 2 && unconstrained {
        GrepStep::Parse { query: without_first_word(request.query) }
    } else {
        fuzzy_step(request)
    }
}

/// The search with fewer words: by regular expression where the text looks
/// like one, or else as the request has it, from the first file on.
pub open spec fn after_parse(
    request: GrepRequest<Seq<char>>,
    query: Seq<char>,
    regex: bool,
) -> GrepStep<Seq<char>> {
    GrepStep::Retry {
        query,
        options: grep_options(
            request.output_mode,
            if regex {
                GrepMode::Regex
            } else {
                request.mode
            },
            0,
            request.context,
        ),
    }
}

/// The step after the search with fewer words: a few matches are written out;
/// without any, and with too many, the search goes on approximately.
pub open spec fn after_retry(
    request: GrepRequest<Seq<char>>,
    query: Seq<char>,
    matched: usize,
) -> GrepStep<Seq<char>> {
    if 0 < matched <= MAX_BROADENED {
        GrepStep::Format { shown: format_options(request, matched), broadened: Some(query) }
    } else {
        fuzzy_step(request)
    }
}

/// The lines for the first `n` approximate matches: the path of the file,
/// where it is not that of the match before, then the matching line.
pub open spec fn approximate_lines(
    matches: Seq<LineMatch<Seq<char>>>,
    files: Seq<Seq<char>>,
    n: nat,
) -> Seq<Seq<char>>
    decreases n,
{
    if n == 0 {
        Seq::empty()
    } else {
        let line = matches[n - 1];
        let path = files[line.file_index as int];
        let shown = if n == 1 {
            Seq::empty()
        } else {
            files[matches[n - 2].file_index as int]
        };
        let before = approximate_lines(matches, files, (n - 1) as nat);
        let with_path = if path != shown {
            before.push(path)
        } else {
            before
        };
        with_path.push(
            seq![' '] + decimal(line.line_number as nat) + ": "@ + line.line_content,
        )
    }
}

/// How many of the approximate matches are shown.
pub open spec fn shown_of(matched: nat) -> nat {
    if matched <= SHOWN_APPROXIMATE {
        matched
    } else {
        SHOWN_APPROXIMATE as nat
    }
}

/// The answer with approximate matches: their number, then the first ones.
pub open spec fn approximate_answer(
    matches: Seq<LineMatch<Seq<char>>>,
    files: Seq<Seq<char>>,
) -> Seq<char> {
    joined(
        seq!["0 exact matches. "@ + decimal(matches.len()) + " approximate:"@]
            + approximate_lines(matches, files, shown_of(matches.len())),
        seq!['\n'],
    )
}

/// The step after the approximate search: matches are the answer; without
/// them, a query that looks like a path is matched against the paths.
pub open spec fn after_fuzzy(
    request: GrepRequest<Seq<char>>,
    matches: Seq<LineMatch<Seq<char>>>,
    files: Seq<Seq<char>>,
) -> GrepStep<Seq<char>> {
    if matches.len() > 0 {
        GrepStep::Answer { text: approximate_answer(matches, files), may_carry_notice: true }
    } else if request.query.contains('/') {
        GrepStep::SuggestPath { query: request.query, search: file_options(0, 1) }
    } else {
        GrepStep::Answer { text: no_matches(), may_carry_notice: true }
    }
}

/// The answer after the file search: the path, where its score is more than
/// ten for each byte of the query.
pub open spec fn after_suggestion(
    request: GrepRequest<Seq<char>>,
    path: Seq<char>,
    base_score: i32,
) -> Seq<char> {
    if base_score > 10 * encode_utf8(request.query).len() {
        "0 content matches. But there is a relevant file path: "@ + path
    } else {
        no_matches()
    }
}

/// The answer with the matches written out. That the search was broadened is
/// announced in front of them.
pub open spec fn after_format(
    request: GrepRequest<Seq<char>>,
    broadened: Option<Seq<char>>,
    text: Seq<char>,
) -> Seq<char> {
    match broadened {
        Some(query) => "0 matches for '"@ + request.query + "'. Auto-broadened to '"@ + query
            + "':\n"@ + text,
        None => text,
    }
}

/// Whether a reply is one for a step. The files that approximate matches
/// stand in are among the files of the reply, as far as they are shown; a
/// query that a path was found for is short enough that ten times its length
/// is an `i32`.
pub open spec fn answers(step: GrepStep<Seq<char>>, reply: GrepReplyView) -> bool {
    match step {
        GrepStep::Search { query, options } => reply is Searched || reply is IndexLockFailed
            || reply is NoIndex,
        GrepStep::Parse { query } => reply is Parsed,
        GrepStep::Retry { query, options } => reply is Retried,
        GrepStep::Fuzzy { query, options } => match reply {
            GrepReply::Approximate { matches, files } => forall|i: int|
                0 <= i < shown_of(matches.len()) ==> (#[trigger] matches[i]).file_index
                    < files.len(),
            _ => false,
        },
        GrepStep::SuggestPath { query, search } => reply is NothingSuggested || (reply is Suggested
            && 10 * encode_utf8(query).len() <= i32::MAX),
        GrepStep::Format { shown, broadened } => reply is Formatted || reply is CursorLockFailed,
        GrepStep::Answer { text, may_carry_notice } => false,
        GrepStep::Fail { message } => false,
    }
}

/// The step that a reply leads to.
pub open spec fn next_step(
    request: GrepRequest<Seq<char>>,
    step: GrepStep<Seq<char>>,
    reply: GrepReplyView,
) -> GrepStep<Seq<char>> {
    match (step, reply) {
        (
            GrepStep::Search { query, options },
            GrepReply::Searched { unconstrained, matched },
        ) => after_search(request, unconstrained, matched),
        (GrepStep::Search { query, options }, GrepReply::IndexLockFailed { reason }) =>
            GrepStep::Fail { message: index_lock_message(reason) },
        (GrepStep::Search { query, options }, GrepReply::NoIndex) => GrepStep::Fail {
            message: no_index_message(),
        },
        (GrepStep::Parse { query }, GrepReply::Parsed { regex }) => after_parse(
            request,
            query,
            regex,
        ),
        (GrepStep::Retry { query, options }, GrepReply::Retried { matched }) => after_retry(
            request,
            query,
            matched,
        ),
        (
            GrepStep::Fuzzy { query, options },
            GrepReply::Approximate { matches, files },
        ) => after_fuzzy(request, matches, files),
        (
            GrepStep::SuggestPath { query, search },
            GrepReply::Suggested { path, base_score },
        ) => GrepStep::Answer {
            text: after_suggestion(request, path, base_score),
            may_carry_notice: true,
        },
        (GrepStep::SuggestPath { query, search }, GrepReply::NothingSuggested) =>
            GrepStep::Answer { text: no_matches(), may_carry_notice: true },
        (GrepStep::Format { shown, broadened }, GrepReply::Formatted { text }) =>
            GrepStep::Answer {
            text: after_format(request, broadened, text),
            may_carry_notice: true,
        },
        (GrepStep::Format { shown, broadened }, GrepReply::CursorLockFailed { reason }) =>
            GrepStep::Fail { message: cursor_lock_message(reason) },
        _ => step,
    }
}

/// Whether a step is one that a search for a request can come to.
pub open spec fn fits(request: GrepRequest<Seq<char>>, step: GrepStep<Seq<char>>) -> bool {
    match step {
        GrepStep::Search { query, options } => step == first_step(request),
        GrepStep::Parse { query } => {
            &&& request.file_offset == 0
            &&& words(request.query).len() >= 2
            &&& query == without_first_word(request.query)
        },
        GrepStep::Retry { query, options } => {
            &&& request.file_offset == 0
            &&& words(request.query).len() >= 2
            &&& query == without_first_word(request.query)
            &&& step == after_parse(request, query, true) || step == after_parse(
                request,
                query,
                false,
            )
        },
        GrepStep::Fuzzy { query, options } => request.file_offset == 0 && step == fuzzy_step(
            request,
        ),
        GrepStep::SuggestPath { query, search } => {
            &&& request.file_offset == 0
            &&& request.query.contains('/')
            &&& query == request.query
            &&& search == file_options(0, 1)
        },
        GrepStep::Format { shown, broadened } => {
            &&& shown.total_matched > 0
            &&& shown == format_options(request, shown.total_matched)
            &&& broadened matches Some(query) ==> {
                &&& request.file_offset == 0
                &&& shown.total_matched <= MAX_BROADENED
                &&& query == without_first_word(request.query)
            }
        },
        GrepStep::Answer { text, may_carry_notice } => true,
        GrepStep::Fail { message } => true,
    }
}

/// A content search under way.
#[derive(Debug)]
pub struct GrepSession {
    pub request: GrepRequest,
    pub step: GrepStep,
}

impl GrepSession {
    /// The step is one that a search for the request can come to.
    pub open spec fn well_formed(&self) -> bool {
        fits(self.request@, self.step@)
    }
}

/// Writes the answer where nothing matched.
fn answer_no_matches() -> (step: GrepStep)
    ensures
        step@ == (GrepStep::Answer { text: no_matches(), may_carry_notice: true }),
{
    GrepStep::Answer { text: "0 matches.".to_owned(), may_carry_notice: true }
}

/// Writes the answer with approximate matches.
pub fn write_approximate_answer(
    matches: &Vec<LineMatch<String>>,
    files: &Vec<String>,
) -> (answer: String)
    requires
        forall|i: int|
            0 <= i < shown_of(matches@.len()) ==> (#[trigger] line_views(matches@)[i]).file_index
                < files@.len(),
    ensures
        answer@ == approximate_answer(line_views(matches@), views(files@)),
{
    let ghost all = line_views(matches@);
    let ghost paths = views(files@);
    let mut head: String = "0 exact matches. ".to_owned();
    head.append(decimal_text(matches.len() as u64).as_str());
    head.append(" approximate:");
    let ghost title = head@;
    let mut lines: Vec<String> = Vec::new();
    lines.push(head);
    assert(views(lines@) =~= seq![title] + approximate_lines(all, paths, 0));
    let mut current: String = String::new();
    let mut i: usize = 0;
    while i < matches.len() && i < SHOWN_APPROXIMATE
        invariant
            all == line_views(matches@),
            paths == views(files@),
            i <= shown_of(all.len()),
            forall|k: int|
                0 <= k < shown_of(all.len()) ==> (#[trigger] all[k]).file_index < paths.len(),
            views(lines@) == seq![title] + approximate_lines(all, paths, i as nat),
            current@ == if i == 0 {
                Seq::empty()
            } else {
                paths[all[i - 1].file_index as int]
            },
        decreases matches@.len() - i,
    {
        assert(all[i as int].file_index < paths.len());
        let line = &matches[i];
        let path = &files[line.file_index];
        let ghost before = views(lines@);
        let ghost mut with_path = before;
        if !same_text(path.as_str(), current.as_str()) {
            current = path.clone();
            lines.push(path.clone());
            proof {
                with_path = before.push(path@);
                assert(views(lines@) =~= with_path);
            }
        }
        let mut shown: String = space();
        shown.append(decimal_text(line.line_number).as_str());
        shown.append(": ");
        shown.append(line.line_content.as_str());
        let ghost written = shown@;
        lines.push(shown);
        proof {
            assert(views(lines@) =~= with_path.push(written));
            let more = approximate_lines(all, paths, (i + 1) as nat);
            assert(seq![title] + more =~= with_path.push(written));
        }
        i += 1;
    }
    join(&lines, line_break().as_str())
}

impl GrepSession {
    /// Begins a content search.
    pub fn new(request: GrepRequest) -> (session: GrepSession)
        ensures
            session.well_formed(),
            session.request == request,
            session.step@ == first_step(request@),
    {
        let query = request.query.clone();
        let (options, _auto_expand) = make_grep_options(
            request.output_mode,
            request.mode,
            request.file_offset,
            request.context,
        );
        GrepSession { request, step: GrepStep::Search { query, options } }
    }

    /// Begins the approximate search.
    fn begin_fuzzy(&self) -> (step: GrepStep)
        ensures
            step@ == fuzzy_step(self.request@),
    {
        let query = cleanup_fuzzy_query(self.request.query.as_str());
        let (options, _auto_expand) = make_grep_options(
            self.request.output_mode,
            GrepMode::Fuzzy,
            0,
            Some(0),
        );
        GrepStep::Fuzzy { query, options }
    }

    /// Says how the matches of a search are shown.
    fn begin_format(&self, matched: usize, broadened: Option<String>) -> (step: GrepStep)
        ensures
            step@ == (GrepStep::Format {
                shown: format_options(self.request@, matched),
                broadened: view_option(broadened),
            }),
    {
        let (options, auto_expand) = make_grep_options(
            self.request.output_mode,
            self.request.mode,
            self.request.file_offset,
            self.request.context,
        );
        GrepStep::Format {
            shown: FormatOptions {
                total_matched: matched,
                output_mode: self.request.output_mode,
                max_results: self.request.max_results,
                show_context: options.before_context > 0,
                auto_expand_defs: auto_expand,
            },
            broadened,
        }
    }

    /// Decides what follows the first search.
    fn continue_search(&self, unconstrained: bool, matched: usize) -> (step: GrepStep)
        ensures
            step@ == after_search(self.request@, unconstrained, matched),
    {
        if matched > 0 {
            return self.begin_format(matched, None);
        }
        if self.request.file_offset > 0 {
            return answer_no_matches();
        }
        let parts = split_words(self.request.query.as_str());
        assert(views(parts@).len() == parts@.len());
        if parts.len() >= 2 && unconstrained {
            let query = join_from(&parts, 1, space().as_str());
            GrepStep::Parse { query }
        } else {
            self.begin_fuzzy()
        }
    }

    /// Decides what follows the approximate search.
    fn continue_fuzzy(&self, matches: &Vec<LineMatch<String>>, files: &Vec<String>) -> (step:
        GrepStep)
        requires
            forall|i: int|
                0 <= i < shown_of(matches@.len()) ==> (#[trigger] line_views(
                    matches@,
                )[i]).file_index < files@.len(),
        ensures
            step@ == after_fuzzy(self.request@, line_views(matches@), views(files@)),
    {
        if matches.len() > 0 {
            let text: String = write_approximate_answer(matches, files);
            GrepStep::Answer { text, may_carry_notice: true }
        } else if contains_char(self.request.query.as_str(), '/') {
            GrepStep::SuggestPath {
                query: self.request.query.clone(),
                search: make_file_options(0, 1),
            }
        } else {
            answer_no_matches()
        }
    }

    /// Decides what follows the file search.
    fn continue_suggestion(&self, path: &str, base_score: i32) -> (step: GrepStep)
        requires
            10 * encode_utf8(self.request@.query).len() <= i32::MAX,
        ensures
            step@ == (GrepStep::Answer {
                text: after_suggestion(self.request@, path@, base_score),
                may_carry_notice: true,
            }),
    {
        let length: i32 = self.request.query.as_str().as_bytes().len() as i32;
        if base_score > length * 10 {
            let mut text: String = "0 content matches. But there is a relevant file path: ".to_owned();
            text.append(path);
            GrepStep::Answer { text, may_carry_notice: true }
        } else {
            answer_no_matches()
        }
    }

    /// Writes the answer with the matches written out.
    fn finish(&self, broadened: Option<String>, text: String) -> (step: GrepStep)
        ensures
            step@ == (GrepStep::Answer {
                text: after_format(
                    self.request@,
                    view_option(broadened),
                    text@,
                ),
                may_carry_notice: true,
            }),
    {
        match broadened {
            Some(query) => {
                let mut answer: String = "0 matches for '".to_owned();
                answer.append(self.request.query.as_str());
                answer.append("'. Auto-broadened to '");
                answer.append(query.as_str());
                answer.append("':\n");
                answer.append(text.as_str());
                GrepStep::Answer { text: answer, may_carry_notice: true }
            },
            None => GrepStep::Answer { text, may_carry_notice: true },
        }
    }

    /// Takes what came back for the step that the search waits for.
    pub fn advance(self, reply: GrepReply) -> (next: GrepSession)
        requires
            self.well_formed(),
            answers(self.step@, reply@),
        ensures
            next.well_formed(),
            next.request == self.request,
            next.step@ == next_step(self.request@, self.step@, reply@),
    {
        let step: GrepStep = match (&self.step, reply) {
            (
                GrepStep::Search { query: _, options: _ },
                GrepReply::Searched { unconstrained, matched },
            ) => self.continue_search(unconstrained, matched),
            (
                GrepStep::Search { query: _, options: _ },
                GrepReply::IndexLockFailed { reason },
            ) => GrepStep::Fail { message: write_index_lock_message(reason.as_str()) },
            (GrepStep::Search { query: _, options: _ }, GrepReply::NoIndex) => GrepStep::Fail {
                message: "File picker not initialized".to_owned(),
            },
            (GrepStep::Parse { query }, GrepReply::Parsed { regex }) => {
                let mode = if regex {
                    GrepMode::Regex
                } else {
                    self.request.mode
                };
                let (options, _auto_expand) = make_grep_options(
                    self.request.output_mode,
                    mode,
                    0,
                    self.request.context,
                );
                GrepStep::Retry { query: query.clone(), options }
            },
            (GrepStep::Retry { query, options: _ }, GrepReply::Retried { matched }) => {
                if matched > 0 && matched <= MAX_BROADENED {
                    self.begin_format(matched, Some(query.clone()))
                } else {
                    self.begin_fuzzy()
                }
            },
            (
                GrepStep::Fuzzy { query: _, options: _ },
                GrepReply::Approximate { matches, files },
            ) => self.continue_fuzzy(&matches, &files),
            (
                GrepStep::SuggestPath { query: _, search: _ },
                GrepReply::Suggested { path, base_score },
            ) => self.continue_suggestion(path.as_str(), base_score),
            (GrepStep::SuggestPath { query: _, search: _ }, GrepReply::NothingSuggested) => {
                answer_no_matches()
            },
            (GrepStep::Format { shown: _, broadened }, GrepReply::Formatted { text }) => {
                self.finish(broadened.clone(), text)
            },
            (
                GrepStep::Format { shown: _, broadened: _ },
                GrepReply::CursorLockFailed { reason },
            ) => GrepStep::Fail { message: write_cursor_lock_message(reason.as_str()) },
            _ => {
                assert(false);
                answer_no_matches()
            },
        };
        GrepSession { request: self.request, step }
    }
}

/// How many replies a search still takes at most.
pub open spec fn replies_left(step: GrepStep<Seq<char>>) -> nat {
    match step {
        GrepStep::Search { query, options } => 5,
        GrepStep::Parse { query } => 4,
        GrepStep::Retry { query, options } => 3,
        GrepStep::Fuzzy { query, options } => 2,
        GrepStep::SuggestPath { query, search } => 1,
        GrepStep::Format { shown, broadened } => 1,
        GrepStep::Answer { text, may_carry_notice } => 0,
        GrepStep::Fail { message } => 0,
    }
}

/// The step that a search has come to after some replies.
pub open spec fn step_after(
    request: GrepRequest<Seq<char>>,
    replies: Seq<GrepReplyView>,
) -> GrepStep<Seq<char>>
    decreases replies.len(),
{
    if replies.len() == 0 {
        first_step(request)
    } else {
        next_step(request, step_after(request, replies.drop_last()), replies.last())
    }
}

/// Whether each reply is one for the step that the search had come to.
pub open spec fn is_run(request: GrepRequest<Seq<char>>, replies: Seq<GrepReplyView>) -> bool
    decreases replies.len(),
{
    replies.len() > 0 ==> {
        &&& is_run(request, replies.drop_last())
        &&& answers(step_after(request, replies.drop_last()), replies.last())
    }
}

/// Every search ends: each reply brings it closer to an answer or a failure,
/// so that it takes five replies at most. On the way, every step fits the
/// request.
pub proof fn search_ends(request: GrepRequest<Seq<char>>, replies: Seq<GrepReplyView>)
    requires
        is_run(request, replies),
    ensures
        fits(request, step_after(request, replies)),
        replies.len() + replies_left(step_after(request, replies)) <= 5,
    decreases replies.len(),
{
    if replies.len() > 0 {
        search_ends(request, replies.drop_last());
    }
}

/// Every answer of a search may carry the notice of an update, one that found
/// nothing among them.
pub proof fn every_answer_may_carry_notice(
    request: GrepRequest<Seq<char>>,
    replies: Seq<GrepReplyView>,
)
    requires
        is_run(request, replies),
    ensures
        step_after(request, replies) matches GrepStep::Answer { text, may_carry_notice }
            ==> may_carry_notice,
{
}

/// A search fails only where the index or the cursors could not be had.
pub proof fn search_fails_by_locks_alone(
    request: GrepRequest<Seq<char>>,
    step: GrepStep<Seq<char>>,
    reply: GrepReplyView,
)
    requires
        answers(step, reply),
    ensures
        next_step(request, step, reply) is Fail <==> reply is IndexLockFailed || reply is NoIndex
            || reply is CursorLockFailed,
{
}

/// Where the first search finds something, and on a later page, nothing else
/// is searched for.
pub proof fn no_fallback_behind_matches(
    request: GrepRequest<Seq<char>>,
    unconstrained: bool,
    matched: usize,
)
    requires
        matched > 0 || request.file_offset > 0,
    ensures
        ({
            let next = after_search(request, unconstrained, matched);
            if matched > 0 {
                next == (GrepStep::Format {
                    shown: format_options(request, matched),
                    broadened: None::<Seq<char>>,
                })
            } else {
                next == (GrepStep::Answer { text: no_matches(), may_carry_notice: true })
            }
        }),
{
}

/// A search is broadened only on the first page, where nothing matched, for a
/// query of several words and without constraints: then its first word is one
/// that is searched for, and no file filter.
pub proof fn broadening_needs_words_alone(
    request: GrepRequest<Seq<char>>,
    unconstrained: bool,
    matched: usize,
)
    ensures
        after_search(request, unconstrained, matched) is Parse <==> matched == 0
            && request.file_offset == 0 && words(request.query).len() >= 2 && unconstrained,
{
}

/// A broadened query holds the words of the query but for the first.
pub proof fn broadened_words(query: Seq<char>)
    requires
        words(query).len() > 0,
    ensures
        words(without_first_word(query)) == words(query).skip(1),
{
    words_are_words(query);
    let rest = words(query).skip(1);
    assert forall|i: int| 0 <= i < rest.len() implies is_word(#[trigger] rest[i]) by {
        assert(is_word(words(query)[i + 1]));
    }
    words_of_joined(rest);
}

/// Whether matches are to be shown as they were asked for: all of them are
/// counted, up to the limit of the request, with context where lines around a
/// match are asked for or usages are, and with what definitions hold where
/// neither is.
pub open spec fn shows_as_asked(
    shown: FormatOptions,
    matched: usize,
    output_mode: OutputMode,
    max_results: usize,
    context: Option<usize>,
) -> bool {
    &&& shown.total_matched == matched
    &&& shown.output_mode == output_mode
    &&& shown.max_results == max_results
    &&& shown.show_context <==> match context {
        Some(lines) => lines > 0,
        None => output_mode is Usage,
    }
    &&& shown.auto_expand_defs <==> !(output_mode is Usage) && (context is None || context
        == Some(0usize))
}

/// A search begins with the query, the mode and the first file of the request.
pub proof fn search_begins_with_request(request: GrepRequest<Seq<char>>)
    ensures
        first_step(request) matches GrepStep::Search { query, options } && {
            &&& query == request.query
            &&& options.mode == request.mode
            &&& options.file_offset == request.file_offset
            &&& options == grep_options(
                request.output_mode,
                options.mode,
                options.file_offset,
                request.context,
            )
        },
{
}

/// Matches of the first search are written out, however many there are and
/// whatever the page is, and nothing is announced in front of them.
pub proof fn matches_are_written_out(
    request: GrepRequest<Seq<char>>,
    step: GrepStep<Seq<char>>,
    unconstrained: bool,
    matched: usize,
)
    requires
        step is Search,
        matched > 0,
    ensures
        next_step(
            request,
            step,
            GrepReply::Searched { unconstrained, matched },
        ) matches GrepStep::Format { shown, broadened } && {
            &&& broadened is None
            &&& shows_as_asked(
                shown,
                matched,
                request.output_mode,
                request.max_results,
                request.context,
            )
        },
{
}

/// Where the first search finds nothing, the answer on a later page is that
/// nothing matched. On the first page another search follows: one without the
/// first word, where there are several words and no constraints, and an
/// approximate one otherwise.
pub proof fn empty_search_falls_back(
    request: GrepRequest<Seq<char>>,
    step: GrepStep<Seq<char>>,
    unconstrained: bool,
)
    requires
        step is Search,
    ensures
        ({
            let next = next_step(
                request,
                step,
                GrepReply::Searched { unconstrained, matched: 0 },
            );
            &&& request.file_offset > 0 <==> next == (GrepStep::Answer {
                text: "0 matches."@,
                may_carry_notice: true,
            })
            &&& request.file_offset == 0 && unconstrained && words(request.query).len() >= 2
                <==> next is Parse
            &&& request.file_offset == 0 && !(unconstrained && words(request.query).len() >= 2)
                <==> next is Fuzzy
            &&& next matches GrepStep::Parse { query } ==> query == joined(
                words(request.query).subrange(1, words(request.query).len() as int),
                seq![' '],
            )
            &&& next is Fuzzy ==> searches_approximately(request, next)
        }),
{
    let all = words(request.query);
    if all.len() >= 2 {
        assert(all.subrange(1, all.len() as int) =~= all.skip(1));
    }
}

/// Whether a step is an approximate search for a request: for its query without
/// joining characters and in lower case, from the first file on, and without
/// lines in front of a match.
pub open spec fn searches_approximately(
    request: GrepRequest<Seq<char>>,
    step: GrepStep<Seq<char>>,
) -> bool {
    step matches GrepStep::Fuzzy { query, options } && {
        &&& query == cleaned(request.query)
        &&& options.mode is Fuzzy
        &&& options.file_offset == 0
        &&& options.before_context == 0
        &&& options == grep_options(request.output_mode, options.mode, 0, Some(0))
    }
}

/// The query without its first word is searched for as it was parsed, from the
/// first file on: by regular expression where it looks like one, and else in
/// the mode of the request, with as many lines around a match.
pub proof fn parsed_query_is_searched_for(
    request: GrepRequest<Seq<char>>,
    parsed: Seq<char>,
    regex: bool,
)
    ensures
        next_step(
            request,
            GrepStep::Parse { query: parsed },
            GrepReply::Parsed { regex },
        ) matches GrepStep::Retry { query, options } && {
            &&& query == parsed
            &&& regex ==> options.mode is Regex
            &&& !regex ==> options.mode == request.mode
            &&& options.file_offset == 0
            &&& options == grep_options(
                request.output_mode,
                options.mode,
                options.file_offset,
                request.context,
            )
        },
{
}

/// A broadened search with one to ten matches is written out, each of them
/// counted and the broadened query announced. It is followed by the
/// approximate search if and only if it has no match or more than ten.
pub proof fn few_broadened_matches_are_written_out(
    request: GrepRequest<Seq<char>>,
    step: GrepStep<Seq<char>>,
    matched: usize,
)
    requires
        step is Retry,
    ensures
        ({
            let next = next_step(request, step, GrepReply::Retried { matched });
            &&& 1 <= matched <= 10 <==> next is Format
            &&& next matches GrepStep::Format { shown, broadened } ==> {
                &&& broadened == Some(step->Retry_query)
                &&& shows_as_asked(
                    shown,
                    matched,
                    request.output_mode,
                    request.max_results,
                    request.context,
                )
            }
            &&& matched == 0 || matched > 10 <==> next is Fuzzy
            &&& next is Fuzzy ==> searches_approximately(request, next)
        }),
{
}

/// Approximate matches are answered. Without any, a path is looked for where
/// the query holds a slash, for the query as it was asked for and one path
/// alone; where it holds none, nothing matched.
pub proof fn approximate_matches_are_answered(
    request: GrepRequest<Seq<char>>,
    step: GrepStep<Seq<char>>,
    matches: Seq<LineMatch<Seq<char>>>,
    files: Seq<Seq<char>>,
)
    requires
        step is Fuzzy,
    ensures
        ({
            let next = next_step(request, step, GrepReply::Approximate { matches, files });
            &&& matches.len() > 0 ==> next == (GrepStep::Answer {
                text: approximate_answer(matches, files),
                may_carry_notice: true,
            })
            &&& next is SuggestPath <==> matches.len() == 0 && exists|i: int|
                0 <= i < request.query.len() && request.query[i] == '/'
            &&& next matches GrepStep::SuggestPath { query, search } ==> {
                &&& query == request.query
                &&& search.pagination.offset == 0
                &&& search.pagination.limit == 1
            }
            &&& matches.len() == 0 && !(next is SuggestPath) ==> next == (GrepStep::Answer {
                text: "0 matches."@,
                may_carry_notice: true,
            })
        }),
{
    if request.query.contains('/') {
        let i = choose|i: int| 0 <= i < request.query.len() && request.query[i] == '/';
        assert(request.query[i] == '/');
    }
}

/// An answer with approximate matches says how many there are, then shows the
/// first three, or all where there are fewer. With each match shown the lines
/// end with the line of the match; the path of its file stands before that, if
/// and only if it is not the path of the match shown before, and a first match
/// always has its path shown, unless that is empty.
pub proof fn approximate_answer_shows_first_three(
    matches: Seq<LineMatch<Seq<char>>>,
    files: Seq<Seq<char>>,
    n: nat,
)
    ensures
        approximate_answer(matches, files) == joined(
            seq!["0 exact matches. "@ + decimal(matches.len()) + " approximate:"@]
                + approximate_lines(
                matches,
                files,
                if matches.len() < 3 {
                    matches.len()
                } else {
                    3
                },
            ),
            seq!['\n'],
        ),
        approximate_lines(matches, files, 0).len() == 0,
        ({
            let before = approximate_lines(matches, files, n);
            let after = approximate_lines(matches, files, n + 1);
            let path = files[matches[n as int].file_index as int];
            let line = seq![' '] + decimal(matches[n as int].line_number as nat) + ": "@
                + matches[n as int].line_content;
            let same_file = if n == 0 {
                path.len() == 0
            } else {
                path == files[matches[n - 1].file_index as int]
            };
            after == if same_file {
                before + seq![line]
            } else {
                before + seq![path, line]
            }
        }),
{
    let before = approximate_lines(matches, files, n);
    let after = approximate_lines(matches, files, n + 1);
    let path = files[matches[n as int].file_index as int];
    let line = seq![' '] + decimal(matches[n as int].line_number as nat) + ": "@
        + matches[n as int].line_content;
    assert(path.len() == 0 <==> path =~= Seq::<char>::empty());
    assert(before.push(line) =~= before + seq![line]);
    assert(before.push(path).push(line) =~= before + seq![path, line]);
    assert((n + 1) as nat - 1 == n);
}

/// A path is suggested if and only if its score is more than ten for each byte
/// of the query; otherwise, and where no path was found, nothing matched.
pub proof fn strong_path_is_suggested(
    request: GrepRequest<Seq<char>>,
    step: GrepStep<Seq<char>>,
    path: Seq<char>,
    base_score: i32,
)
    requires
        step is SuggestPath,
    ensures
        next_step(request, step, GrepReply::Suggested { path, base_score }) == (GrepStep::Answer {
            text: if base_score > encode_utf8(request.query).len() * 10 {
                "0 content matches. But there is a relevant file path: "@ + path
            } else {
                "0 matches."@
            },
            may_carry_notice: true,
        }),
        next_step(request, step, GrepReply::NothingSuggested) == (GrepStep::Answer {
            text: "0 matches."@,
            may_carry_notice: true,
        }),
{
}

/// Matches that were written out are the answer, as they are. Behind a
/// broadened search both queries are announced in front of them.
pub proof fn written_matches_are_answered(
    request: GrepRequest<Seq<char>>,
    shown: FormatOptions,
    query: Seq<char>,
    text: Seq<char>,
)
    ensures
        next_step(
            request,
            GrepStep::Format { shown, broadened: None },
            GrepReply::Formatted { text },
        ) == (GrepStep::Answer { text, may_carry_notice: true }),
        next_step(
            request,
            GrepStep::Format { shown, broadened: Some(query) },
            GrepReply::Formatted { text },
        ) == (GrepStep::Answer {
            text: "0 matches for '"@ + request.query + "'. Auto-broadened to '"@ + query + "':\n"@
                + text,
            may_carry_notice: true,
        }),
{
}

/// A failure says what could not be had, and why.
pub proof fn failures_say_why(
    request: GrepRequest<Seq<char>>,
    step: GrepStep<Seq<char>>,
    reason: Seq<char>,
)
    ensures
        step is Search ==> next_step(request, step, GrepReply::IndexLockFailed { reason }) == (
        GrepStep::Fail { message: "Failed to acquire picker lock: "@ + reason }),
        step is Search ==> next_step(request, step, GrepReply::NoIndex) == (GrepStep::Fail {
            message: "File picker not initialized"@,
        }),
        step is Format ==> next_step(request, step, GrepReply::CursorLockFailed { reason }) == (
        GrepStep::Fail { message: "Failed to acquire cursor store lock: "@ + reason }),
{
}

/// A search takes every reply that its step can get: any number of matches, any
/// flag, any text. Two things alone are asked of replies: the first three
/// approximate matches stand in files of the reply, and a query that a path was
/// found for is short enough to count ten for each byte.
pub proof fn every_reply_is_taken(step: GrepStep<Seq<char>>, reply: GrepReplyView)
    ensures
        step is Search ==> (answers(step, reply) <==> reply is Searched || reply is IndexLockFailed
            || reply is NoIndex),
        step is Parse ==> (answers(step, reply) <==> reply is Parsed),
        step is Retry ==> (answers(step, reply) <==> reply is Retried),
        step is Fuzzy ==> (reply matches GrepReply::Approximate { matches, files } && (forall|
            i: int,
        |
            0 <= i < 3 && i < matches.len() ==> (#[trigger] matches[i]).file_index < files.len())
            ==> answers(step, reply)),
        step matches GrepStep::SuggestPath { query, search } ==> (answers(step, reply) <==> reply
            is NothingSuggested || reply is Suggested && encode_utf8(query).len() * 10
            <= i32::MAX),
        step is Format ==> (answers(step, reply) <==> reply is Formatted || reply
            is CursorLockFailed),
{
}

/// The whole of a broadened search: a query of several words and no
/// constraints that finds nothing on the first page, and one to ten matches
/// without its first word, is answered by these matches, with both queries in
/// front of them.
pub proof fn broadened_search_is_answered(
    request: GrepRequest<Seq<char>>,
    regex: bool,
    matched: usize,
    text: Seq<char>,
)
    requires
        request.file_offset == 0,
        words(request.query).len() >= 2,
        1 <= matched <= 10,
    ensures
        ({
            let replies: Seq<GrepReplyView> = seq![
                GrepReply::Searched { unconstrained: true, matched: 0 },
                GrepReply::Parsed { regex },
                GrepReply::Retried { matched },
                GrepReply::Formatted { text },
            ];
            let all = words(request.query);
            &&& is_run(request, replies)
            &&& step_after(request, replies) == (GrepStep::Answer {
                text: "0 matches for '"@ + request.query + "'. Auto-broadened to '"@ + joined(
                    all.subrange(1, all.len() as int),
                    seq![' '],
                ) + "':\n"@ + text,
                may_carry_notice: true,
            })
        }),
{
    let first: GrepReplyView = GrepReply::Searched { unconstrained: true, matched: 0 };
    let second: GrepReplyView = GrepReply::Parsed { regex };
    let third: GrepReplyView = GrepReply::Retried { matched };
    let fourth: GrepReplyView = GrepReply::Formatted { text };
    assert(seq![first, second, third, fourth].drop_last() =~= seq![first, second, third]);
    assert(seq![first, second, third].drop_last() =~= seq![first, second]);
    assert(seq![first, second].drop_last() =~= seq![first]);
    assert(seq![first].drop_last() =~= Seq::<GrepReplyView>::empty());
    reveal_with_fuel(step_after, 5);
    reveal_with_fuel(is_run, 5);
    let all = words(request.query);
    assert(all.subrange(1, all.len() as int) =~= all.skip(1));
}

/// What a request, a step and a reply hold is seen as it is.
pub proof fn contents_are_seen(
    request: GrepRequest,
    step: GrepStep,
    reply: GrepReply,
    line: LineMatch,
    lines: Seq<LineMatch>,
)
    ensures
        request@.query == request.query@,
        request@.mode == request.mode,
        request@.max_results == request.max_results,
        request@.output_mode == request.output_mode,
        request@.context == request.context,
        request@.file_offset == request.file_offset,
        (match step {
            GrepStep::Search { query, options } => step@ == (GrepStep::Search {
                query: query@,
                options,
            }),
            GrepStep::Parse { query } => step@ == (GrepStep::Parse { query: query@ }),
            GrepStep::Retry { query, options } => step@ == (GrepStep::Retry {
                query: query@,
                options,
            }),
            GrepStep::Fuzzy { query, options } => step@ == (GrepStep::Fuzzy {
                query: query@,
                options,
            }),
            GrepStep::SuggestPath { query, search } => step@ == (GrepStep::SuggestPath {
                query: query@,
                search,
            }),
            GrepStep::Format { shown, broadened: None } => step@ == (GrepStep::Format {
                shown,
                broadened: None::<Seq<char>>,
            }),
            GrepStep::Format { shown, broadened: Some(query) } => step@ == (GrepStep::Format {
                shown,
                broadened: Some(query@),
            }),
            GrepStep::Answer { text, may_carry_notice } => step@ == (GrepStep::Answer {
                text: text@,
                may_carry_notice,
            }),
            GrepStep::Fail { message } => step@ == (GrepStep::Fail { message: message@ }),
        }),
        (match reply {
            GrepReply::Searched { unconstrained, matched } => reply@ == (
            GrepReplyView::Searched { unconstrained, matched }),
            GrepReply::Parsed { regex } => reply@ == (GrepReplyView::Parsed { regex }),
            GrepReply::Retried { matched } => reply@ == (GrepReplyView::Retried { matched }),
            GrepReply::Suggested { path, base_score } => reply@ == (GrepReplyView::Suggested {
                path: path@,
                base_score,
            }),
            GrepReply::Formatted { text } => reply@ == (GrepReplyView::Formatted { text: text@ }),
            GrepReply::Approximate { matches, files } => reply@ == (GrepReplyView::Approximate {
                matches: line_views(matches@),
                files: views(files@),
            }),
            GrepReply::IndexLockFailed { reason } => reply@ == (GrepReplyView::IndexLockFailed {
                reason: reason@,
            }),
            GrepReply::CursorLockFailed { reason } => reply@ == (GrepReplyView::CursorLockFailed {
                reason: reason@,
            }),
            GrepReply::NoIndex => reply@ == GrepReplyView::NoIndex,
            GrepReply::NothingSuggested => reply@ == GrepReplyView::NothingSuggested,
        }),
        line_view(line).file_index == line.file_index,
        line_view(line).line_number == line.line_number,
        line_view(line).line_content == line.line_content@,
        line_views(lines).len() == lines.len(),
        forall|i: int| 0 <= i < lines.len() ==> #[trigger] line_views(lines)[i] == line_view(
            lines[i],
        ),
{
}

} // verus!
