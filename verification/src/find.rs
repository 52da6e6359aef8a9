//! The file search by name: when it is tried again with fewer words, and how
//! a page of results is answered.
use crate::grep::{
    cursor_lock_message, index_lock_message, no_index_message, write_cursor_lock_message,
    write_index_lock_message,
};
use crate::options::{FuzzySearchOptions, file_options, make_file_options};
use crate::text::{
    decimal, decimal_text, is_word, join, joined, line_break, space, split_words, views, words,
    words_are_words, words_of_joined,
};
use vstd::prelude::*;

verus! {

/// What a file search is asked for.
#[derive(Debug)]
pub struct FindRequest<T = String> {
    pub query: T,
    pub max_results: usize,
    /// How many results are passed over: where the page begins.
    pub page_offset: usize,
}

impl View for FindRequest<String> {
    type V = FindRequest<Seq<char>>;

    open spec fn view(&self) -> FindRequest<Seq<char>> {
        FindRequest {
            query: self.query@,
            max_results: self.max_results,
            page_offset: self.page_offset,
        }
    }
}

/// A found file: its relative path, and what is written behind it.
#[derive(Debug)]
pub struct FoundFile<T = String> {
    pub path: T,
    pub suffix: T,
}

/// How well a file matches.
#[derive(Clone, Copy, Debug, PartialEq, Eq, Structural)]
pub struct Score {
    pub total: i32,
    pub exact_match: bool,
}

/// What found files hold.
pub open spec fn file_views(files: Seq<FoundFile<String>>) -> Seq<FoundFile<Seq<char>>> {
    Seq::new(
        files.len(),
        |i: int| FoundFile { path: files[i].path@, suffix: files[i].suffix@ },
    )
}

/// What a file search waits for, or what came of it. `T` is a text, `L` a
/// list of texts.
#[derive(Debug)]
pub enum FindStep<T = String, L = Vec<String>> {
    /// Search for the query as it was asked for.
    Search { query: T, options: FuzzySearchOptions },
    /// Search for the first two words of the query. The number of files that
    /// the first search knew of is kept.
    Retry { query: T, options: FuzzySearchOptions, total_files: usize },
    /// Keep the offset of the next page under a cursor, which is written
    /// below the lines.
    StoreCursor { offset: usize, lines: L },
    /// The answer. One that lists files may carry the notice of an update.
    Answer { text: T, may_carry_notice: bool },
    /// The search failed.
    Fail { message: T },
}

/// A step, by what its texts hold.
pub type FindStepView = FindStep<Seq<char>, Seq<Seq<char>>>;

impl View for FindStep<String, Vec<String>> {
    type V = FindStepView;

    open spec fn view(&self) -> FindStepView {
        match self {
            FindStep::Search { query, options } => FindStep::Search {
                query: query@,
                options: *options,
            },
            FindStep::Retry { query, options, total_files } => FindStep::Retry {
                query: query@,
                options: *options,
                total_files: *total_files,
            },
            FindStep::StoreCursor { offset, lines } => FindStep::StoreCursor {
                offset: *offset,
                lines: views(lines@),
            },
            FindStep::Answer { text, may_carry_notice } => FindStep::Answer {
                text: text@,
                may_carry_notice: *may_carry_notice,
            },
            FindStep::Fail { message } => FindStep::Fail { message: message@ },
        }
    }
}

/// What comes back for a step. `T` is a text, `F` a list of found files, `S`
/// a list of scores.
#[derive(Debug)]
pub enum FindReply<T = String, F = Vec<FoundFile<String>>, S = Vec<Score>> {
    /// For a search: a page of files with their scores, the number of files
    /// that match, and the number of files that are known.
    Found { items: F, scores: S, total_matched: usize, total_files: usize },
    /// For the first search: the index could not be locked.
    IndexLockFailed { reason: T },
    /// For the first search: there is no index.
    NoIndex,
    /// The cursor under which the offset is kept.
    CursorStored { id: T },
    /// The cursors could not be locked.
    CursorLockFailed { reason: T },
}

/// What comes back for a step, by what its texts hold.
pub type FindReplyView = FindReply<Seq<char>, Seq<FoundFile<Seq<char>>>, Seq<Score>>;

impl View for FindReply<String, Vec<FoundFile<String>>, Vec<Score>> {
    type V = FindReplyView;

    open spec fn view(&self) -> FindReplyView {
        match self {
            FindReply::Found { items, scores, total_matched, total_files } => FindReply::Found {
                items: file_views(items@),
                scores: scores@,
                total_matched: *total_matched,
                total_files: *total_files,
            },
            FindReply::IndexLockFailed { reason } => FindReply::IndexLockFailed {
                reason: reason@,
            },
            FindReply::NoIndex => FindReply::NoIndex,
            FindReply::CursorStored { id } => FindReply::CursorStored { id: id@ },
            FindReply::CursorLockFailed { reason } => FindReply::CursorLockFailed {
                reason: reason@,
            },
        }
    }
}

/// The step that begins a search.
pub open spec fn first_step(request: FindRequest<Seq<char>>) -> FindStepView {
    FindStep::Search {
        query: request.query,
        options: file_options(request.page_offset, request.max_results),
    }
}

/// The first two words of a query, with a space between them.
pub open spec fn first_two_words(query: Seq<char>) -> Seq<char> {
    joined(words(query).take(2), seq![' '])
}

/// Twice a score, cut at the range of scores.
pub open spec fn doubled(score: i32) -> int {
    if 2 * score > i32::MAX {
        i32::MAX as int
    } else if 2 * score < i32::MIN {
        i32::MIN as int
    } else {
        2 * score
    }
}

/// Whether the first file is far ahead: it is the only one, or its score is
/// more than twice that of the second.
pub open spec fn is_far_ahead(scores: Seq<Score>) -> bool {
    scores.len() < 2 || scores[0].total > doubled(scores[1].total)
}

/// The headline of the first page, where its first file is an exact match or
/// far ahead.
pub open spec fn headline(
    page_offset: usize,
    items: Seq<FoundFile<Seq<char>>>,
    scores: Seq<Score>,
) -> Seq<Seq<char>> {
    if page_offset > 0 {
        Seq::empty()
    } else if scores[0].exact_match {
        seq!["→ Read "@ + items[0].path + " (exact match!)"@]
    } else if is_far_ahead(scores) {
        seq!["→ Read "@ + items[0].path + " (best match — Read this file directly)"@]
    } else {
        Seq::empty()
    }
}

/// Whether there are results behind a page.
pub open spec fn has_more(page_offset: usize, found: nat, total_matched: usize) -> bool {
    page_offset + found < total_matched
}

/// The lines of a page: the headline, the count where there are more results
/// than the page holds, then one line for each file.
pub open spec fn page_lines(
    page_offset: usize,
    items: Seq<FoundFile<Seq<char>>>,
    scores: Seq<Score>,
    total_matched: usize,
) -> Seq<Seq<char>> {
    let count = if has_more(page_offset, items.len(), total_matched) {
        seq![decimal(items.len()) + "/"@ + decimal(total_matched as nat) + " matches"@]
    } else {
        Seq::empty()
    };
    headline(page_offset, items, scores) + count + Seq::new(
        items.len(),
        |i: int| items[i].path + items[i].suffix,
    )
}

/// The answer where no file matches.
pub open spec fn no_results(total_files: usize) -> Seq<char> {
    "0 results ("@ + decimal(total_files as nat) + " indexed)"@
}

/// The step that a page of results leads to: a page behind which there are
/// more results gets a cursor.
pub open spec fn after_page(
    request: FindRequest<Seq<char>>,
    items: Seq<FoundFile<Seq<char>>>,
    scores: Seq<Score>,
    total_matched: usize,
    total_files: usize,
) -> FindStepView {
    let lines = page_lines(request.page_offset, items, scores, total_matched);
    if items.len() == 0 {
        FindStep::Answer { text: no_results(total_files), may_carry_notice: false }
    } else if has_more(request.page_offset, items.len(), total_matched) {
        FindStep::StoreCursor { offset: (request.page_offset + items.len()) as usize, lines }
    } else {
        FindStep::Answer { text: joined(lines, seq!['\n']), may_carry_notice: true }
    }
}

/// Whether a search without results is tried again with fewer words: on the
/// first page, for a query of three words or more.
pub open spec fn is_retried(request: FindRequest<Seq<char>>, found: nat) -> bool {
    found == 0 && words(request.query).len() >= 3 && request.page_offset == 0
}

/// The step after the first search.
pub open spec fn after_search(
    request: FindRequest<Seq<char>>,
    items: Seq<FoundFile<Seq<char>>>,
    scores: Seq<Score>,
    total_matched: usize,
    total_files: usize,
) -> FindStepView {
    if is_retried(request, items.len()) {
        FindStep::Retry {
            query: first_two_words(request.query),
            options: file_options(0, request.max_results),
            total_files,
        }
    } else {
        after_page(request, items, scores, total_matched, total_files)
    }
}

/// Whether a page can be answered: each page that holds files holds a score,
/// and the offset of the next page is a `usize`.
pub open spec fn is_page(
    request: FindRequest<Seq<char>>,
    items: Seq<FoundFile<Seq<char>>>,
    scores: Seq<Score>,
) -> bool {
    items.len() > 0 ==> scores.len() > 0 && request.page_offset + items.len() <= usize::MAX
}

/// Whether a reply is one for a step.
pub open spec fn answers(
    request: FindRequest<Seq<char>>,
    step: FindStepView,
    reply: FindReplyView,
) -> bool {
    match step {
        FindStep::Search { query, options } => match reply {
            FindReply::Found { items, scores, total_matched, total_files } => is_page(
                request,
                items,
                scores,
            ),
            _ => reply is IndexLockFailed || reply is NoIndex,
        },
        FindStep::Retry { query, options, total_files: kept } => match reply {
            FindReply::Found { items, scores, total_matched, total_files } => is_page(
                request,
                items,
                scores,
            ),
            _ => false,
        },
        FindStep::StoreCursor { offset, lines } => reply is CursorStored || reply
            is CursorLockFailed,
        FindStep::Answer { text, may_carry_notice } => false,
        FindStep::Fail { message } => false,
    }
}

/// The step that a reply leads to.
pub open spec fn next_step(
    request: FindRequest<Seq<char>>,
    step: FindStepView,
    reply: FindReplyView,
) -> FindStepView {
    match (step, reply) {
        (
            FindStep::Search { query, options },
            FindReply::Found { items, scores, total_matched, total_files },
        ) => after_search(request, items, scores, total_matched, total_files),
        (FindStep::Search { query, options }, FindReply::IndexLockFailed { reason }) =>
            FindStep::Fail { message: index_lock_message(reason) },
        (FindStep::Search { query, options }, FindReply::NoIndex) => FindStep::Fail {
            message: no_index_message(),
        },
        (
            FindStep::Retry { query, options, total_files: kept },
            FindReply::Found { items, scores, total_matched, total_files },
        ) => after_page(request, items, scores, total_matched, kept),
        (FindStep::StoreCursor { offset, lines }, FindReply::CursorStored { id }) =>
            FindStep::Answer {
                text: joined(lines.push("cursor: "@ + id), seq!['\n']),
                may_carry_notice: true,
            },
        (FindStep::StoreCursor { offset, lines }, FindReply::CursorLockFailed { reason }) =>
            FindStep::Fail { message: cursor_lock_message(reason) },
        _ => step,
    }
}

/// A file search under way.
#[derive(Debug)]
pub struct FindSession {
    pub request: FindRequest,
    pub step: FindStep,
}

/// Twice a score, cut at the range of scores.
fn double_score(score: i32) -> (out: i32)
    ensures
        out == doubled(score),
{
    if score > i32::MAX / 2 {
        i32::MAX
    } else if score < -1_073_741_824 {
        i32::MIN
    } else {
        2 * score
    }
}

/// Writes the headline with a path.
fn write_headline(path: &str, remark: &str) -> (line: String)
    ensures
        line@ == "→ Read "@ + path@ + remark@,
{
    let mut line: String = "→ Read ".to_owned();
    line.append(path);
    line.append(remark);
    line
}

/// Writes the lines of a page.
pub fn write_page_lines(
    page_offset: usize,
    items: &Vec<FoundFile<String>>,
    scores: &Vec<Score>,
    total_matched: usize,
) -> (lines: Vec<String>)
    requires
        items@.len() > 0,
        scores@.len() > 0,
        page_offset + items@.len() <= usize::MAX,
    ensures
        views(lines@) == page_lines(page_offset, file_views(items@), scores@, total_matched),
{
    let ghost files = file_views(items@);
    let mut lines: Vec<String> = Vec::new();
    assert(views(lines@) =~= Seq::<Seq<char>>::empty());
    if page_offset == 0 {
        if scores[0].exact_match {
            lines.push(write_headline(items[0].path.as_str(), " (exact match!)"));
        } else if scores.len() < 2 || scores[0].total > double_score(scores[1].total) {
            lines.push(
                write_headline(
                    items[0].path.as_str(),
                    " (best match — Read this file directly)",
                ),
            );
        }
    }
    assert(views(lines@) =~= headline(page_offset, files, scores@));
    let ghost title = views(lines@);
    if page_offset + items.len() < total_matched {
        let mut count: String = decimal_text(items.len() as u64);
        count.append("/");
        count.append(decimal_text(total_matched as u64).as_str());
        count.append(" matches");
        let ghost text = count@;
        lines.push(count);
        assert(views(lines@) =~= title + seq![text]);
    }
    let ghost top = views(lines@);
    let ghost entries = Seq::new(files.len(), |i: int| files[i].path + files[i].suffix);
    assert(top + entries =~= page_lines(page_offset, files, scores@, total_matched));
    let mut i: usize = 0;
    assert(top + entries.take(0) =~= top);
    while i < items.len()
        invariant
            i <= items@.len(),
            files == file_views(items@),
            entries == Seq::new(files.len(), |k: int| files[k].path + files[k].suffix),
            views(lines@) == top + entries.take(i as int),
        decreases items@.len() - i,
    {
        let ghost before = views(lines@);
        let mut line: String = items[i].path.clone();
        line.append(items[i].suffix.as_str());
        let ghost text = line@;
        lines.push(line);
        proof {
            assert(views(lines@) =~= before.push(text));
            assert(entries.take(i + 1) =~= entries.take(i as int).push(entries[i as int]));
            assert(before.push(text) =~= top + entries.take(i + 1));
        }
        i += 1;
    }
    assert(entries.take(entries.len() as int) =~= entries);
    lines
}

/// Joins lines with line breaks between them.
fn join_lines(lines: &Vec<String>) -> (text: String)
    ensures
        text@ == joined(views(lines@), seq!['\n']),
{
    join(lines, line_break().as_str())
}

impl FindSession {
    /// Begins a file search.
    pub fn new(request: FindRequest) -> (session: FindSession)
        ensures
            session.request == request,
            session.step@ == first_step(request@),
    {
        let query = request.query.clone();
        let options = make_file_options(request.page_offset, request.max_results);
        FindSession { request, step: FindStep::Search { query, options } }
    }

    /// Decides what follows a page of results.
    fn continue_page(
        &self,
        items: &Vec<FoundFile<String>>,
        scores: &Vec<Score>,
        total_matched: usize,
        total_files: usize,
    ) -> (step: FindStep)
        requires
            is_page(self.request@, file_views(items@), scores@),
        ensures
            step@ == after_page(
                self.request@,
                file_views(items@),
                scores@,
                total_matched,
                total_files,
            ),
    {
        if items.len() == 0 {
            let mut text: String = "0 results (".to_owned();
            text.append(decimal_text(total_files as u64).as_str());
            text.append(" indexed)");
            return FindStep::Answer { text, may_carry_notice: false };
        }
        let lines = write_page_lines(self.request.page_offset, items, scores, total_matched);
        let offset: usize = self.request.page_offset + items.len();
        if offset < total_matched {
            FindStep::StoreCursor { offset, lines }
        } else {
            FindStep::Answer { text: join_lines(&lines), may_carry_notice: true }
        }
    }

    /// Decides what follows the first search.
    fn continue_search(
        &self,
        items: &Vec<FoundFile<String>>,
        scores: &Vec<Score>,
        total_matched: usize,
        total_files: usize,
    ) -> (step: FindStep)
        requires
            is_page(self.request@, file_views(items@), scores@),
        ensures
            step@ == after_search(
                self.request@,
                file_views(items@),
                scores@,
                total_matched,
                total_files,
            ),
    {
        let mut parts = split_words(self.request.query.as_str());
        assert(views(parts@).len() == parts@.len());
        if items.len() == 0 && parts.len() >= 3 && self.request.page_offset == 0 {
            let ghost all = views(parts@);
            parts.truncate(2);
            assert(views(parts@) =~= all.take(2));
            FindStep::Retry {
                query: join(&parts, space().as_str()),
                options: make_file_options(0, self.request.max_results),
                total_files,
            }
        } else {
            self.continue_page(items, scores, total_matched, total_files)
        }
    }

    /// Takes what came back for the step that the search waits for.
    pub fn advance(self, reply: FindReply) -> (next: FindSession)
        requires
            answers(self.request@, self.step@, reply@),
        ensures
            next.request == self.request,
            next.step@ == next_step(self.request@, self.step@, reply@),
    {
        let step: FindStep = match (&self.step, reply) {
            (
                FindStep::Search { query: _, options: _ },
                FindReply::Found { items, scores, total_matched, total_files },
            ) => self.continue_search(&items, &scores, total_matched, total_files),
            (
                FindStep::Search { query: _, options: _ },
                FindReply::IndexLockFailed { reason },
            ) => FindStep::Fail { message: write_index_lock_message(reason.as_str()) },
            (FindStep::Search { query: _, options: _ }, FindReply::NoIndex) => FindStep::Fail {
                message: "File picker not initialized".to_owned(),
            },
            (
                FindStep::Retry { query: _, options: _, total_files: kept },
                FindReply::Found { items, scores, total_matched, total_files: _ },
            ) => self.continue_page(&items, &scores, total_matched, *kept),
            (FindStep::StoreCursor { offset: _, lines }, FindReply::CursorStored { id }) => {
                let mut last: String = "cursor: ".to_owned();
                last.append(id.as_str());
                let ghost shown = views(lines@);
                let ghost text = last@;
                let mut all = lines.clone();
                assert(views(all@) =~= shown);
                all.push(last);
                assert(views(all@) =~= shown.push(text));
                FindStep::Answer { text: join_lines(&all), may_carry_notice: true }
            },
            (
                FindStep::StoreCursor { offset: _, lines: _ },
                FindReply::CursorLockFailed { reason },
            ) => FindStep::Fail { message: write_cursor_lock_message(reason.as_str()) },
            _ => {
                assert(false);
                FindStep::Fail { message: String::new() }
            },
        };
        FindSession { request: self.request, step }
    }
}

/// How many replies a search still takes at most.
pub open spec fn replies_left(step: FindStepView) -> nat {
    match step {
        FindStep::Search { query, options } => 3,
        FindStep::Retry { query, options, total_files } => 2,
        FindStep::StoreCursor { offset, lines } => 1,
        FindStep::Answer { text, may_carry_notice } => 0,
        FindStep::Fail { message } => 0,
    }
}

/// Every search ends: each reply brings it closer to an answer or a failure,
/// so that it takes three replies at most.
pub proof fn search_ends(request: FindRequest<Seq<char>>, step: FindStepView, reply: FindReplyView)
    requires
        answers(request, step, reply),
    ensures
        replies_left(next_step(request, step, reply)) < replies_left(step) <= 3,
{
}

/// A search fails only where the index or the cursors could not be had.
pub proof fn search_fails_by_locks_alone(
    request: FindRequest<Seq<char>>,
    step: FindStepView,
    reply: FindReplyView,
)
    requires
        answers(request, step, reply),
    ensures
        next_step(request, step, reply) is Fail <==> reply is IndexLockFailed || reply is NoIndex
            || reply is CursorLockFailed,
{
}

/// The query of the second search holds the first two words of the query.
pub proof fn shortened_words(query: Seq<char>)
    requires
        words(query).len() >= 2,
    ensures
        words(first_two_words(query)) == words(query).take(2),
{
    words_are_words(query);
    let two = words(query).take(2);
    assert forall|i: int| 0 <= i < two.len() implies is_word(#[trigger] two[i]) by {
        assert(is_word(words(query)[i]));
    }
    words_of_joined(two);
}

/// Pages follow each other without gap or overlap, and end with the results:
/// a page that holds files leads to a cursor if and only if there are results
/// behind it, and the cursor leads to the first of them.
pub proof fn pages_follow_each_other(
    request: FindRequest<Seq<char>>,
    items: Seq<FoundFile<Seq<char>>>,
    scores: Seq<Score>,
    total_matched: usize,
    total_files: usize,
)
    requires
        items.len() > 0,
        is_page(request, items, scores),
    ensures
        ({
            let next = after_page(request, items, scores, total_matched, total_files);
            let end = request.page_offset + items.len();
            &&& next is StoreCursor <==> end < total_matched
            &&& next matches FindStep::StoreCursor { offset, lines } ==> offset == end
        }),
{
}

/// A search begins with the query of the request, for the page that it asks
/// for.
pub proof fn search_begins_with_request(request: FindRequest<Seq<char>>)
    ensures
        first_step(request) matches FindStep::Search { query, options } && {
            &&& query == request.query
            &&& options == file_options(request.page_offset, request.max_results)
        },
{
}

/// A first search without results is made again if and only if it is for the
/// first page and a query of three words or more: for the first two words, the
/// first page and the limit of the request. The number of known files is kept.
pub proof fn long_query_is_tried_again(
    request: FindRequest<Seq<char>>,
    step: FindStepView,
    items: Seq<FoundFile<Seq<char>>>,
    scores: Seq<Score>,
    total_matched: usize,
    total_files: usize,
)
    requires
        step is Search,
    ensures
        ({
            let next = next_step(
                request,
                step,
                FindReply::Found { items, scores, total_matched, total_files },
            );
            &&& next is Retry <==> items.len() == 0 && request.page_offset == 0 && words(
                request.query,
            ).len() >= 3
            &&& next matches FindStep::Retry { query, options, total_files: kept } ==> {
                &&& query == words(request.query)[0] + seq![' '] + words(request.query)[1]
                &&& options == file_options(0, request.max_results)
                &&& kept == total_files
            }
        }),
{
    let all = words(request.query);
    if all.len() >= 3 {
        let two = all.take(2);
        assert(two.take(1) =~= seq![all[0]]);
        assert(two[1] == all[1]);
        reveal_with_fuel(joined, 3);
        assert(joined(two, seq![' ']) == joined(two.take(1), seq![' ']) + seq![' '] + two[1]);
    }
}

/// The lines of a page that holds files end with one line for each file, in
/// order: its path and what is written behind it. In front of them stands the
/// number of files and of all that match, if and only if there are more. In
/// front of that, on the first page alone, stands the path of the first file,
/// if and only if it is an exact match, the only one scored, or has a score of
/// more than twice that of the second and not the lowest there is.
pub proof fn page_lists_every_file(
    page_offset: usize,
    items: Seq<FoundFile<Seq<char>>>,
    scores: Seq<Score>,
    total_matched: usize,
)
    requires
        items.len() > 0,
        scores.len() > 0,
    ensures
        ({
            let lines = page_lines(page_offset, items, scores, total_matched);
            let top = lines.len() - items.len();
            let more = page_offset + items.len() < total_matched;
            let ahead = scores.len() == 1 || (scores[0].total > 2 * scores[1].total
                && scores[0].total > i32::MIN);
            let headed = page_offset == 0 && (scores[0].exact_match || ahead);
            &&& top == (if headed {
                1int
            } else {
                0int
            }) + (if more {
                1int
            } else {
                0int
            })
            &&& forall|i: int|
                0 <= i < items.len() ==> #[trigger] lines[top + i] == items[i].path
                    + items[i].suffix
            &&& more ==> lines[top - 1] == decimal(items.len()) + "/"@ + decimal(
                total_matched as nat,
            ) + " matches"@
            &&& headed && scores[0].exact_match ==> lines[0] == "→ Read "@ + items[0].path
                + " (exact match!)"@
            &&& headed && !scores[0].exact_match ==> lines[0] == "→ Read "@ + items[0].path
                + " (best match — Read this file directly)"@
        }),
{
}

/// Whether a step answers that no file matches.
pub open spec fn answers_nothing(step: FindStepView) -> bool {
    step matches FindStep::Answer { text, may_carry_notice } && !may_carry_notice
}

/// What a search finds is what is answered, be it the first search or the
/// second one: where it found files, their page is the answer or, if and only
/// if there are more, is kept with the offset behind the page. Where it found
/// none, and is not made again, the answer says so, with the number of files
/// that the first search knew of, and carries no notice.
pub proof fn found_files_are_answered(
    request: FindRequest<Seq<char>>,
    step: FindStepView,
    items: Seq<FoundFile<Seq<char>>>,
    scores: Seq<Score>,
    total_matched: usize,
    total_files: usize,
)
    requires
        step is Search || step is Retry,
        is_page(request, items, scores),
    ensures
        ({
            let next = next_step(
                request,
                step,
                FindReply::Found { items, scores, total_matched, total_files },
            );
            let lines = page_lines(request.page_offset, items, scores, total_matched);
            let end = request.page_offset + items.len();
            let known = if step is Retry {
                step->Retry_total_files
            } else {
                total_files
            };
            &&& items.len() > 0 ==> !answers_nothing(next)
            &&& items.len() > 0 && end < total_matched ==> next == (FindStepView::StoreCursor {
                offset: end as usize,
                lines,
            })
            &&& items.len() > 0 && end >= total_matched ==> next == (FindStepView::Answer {
                text: joined(lines, seq!['\n']),
                may_carry_notice: true,
            })
            &&& items.len() == 0 && !(next is Retry) ==> next == (FindStepView::Answer {
                text: "0 results ("@ + decimal(known as nat) + " indexed)"@,
                may_carry_notice: false,
            })
            &&& step is Retry ==> !(next is Retry)
        }),
{
}

/// A page with a cursor is answered by its lines and a last one that names the
/// cursor; a failure says what could not be had, and why.
pub proof fn cursor_ends_the_page(
    request: FindRequest<Seq<char>>,
    step: FindStepView,
    text: Seq<char>,
)
    ensures
        step matches FindStep::StoreCursor { offset, lines } ==> next_step(
            request,
            step,
            FindReply::CursorStored { id: text },
        ) == (FindStepView::Answer {
            text: joined(lines + seq!["cursor: "@ + text], seq!['\n']),
            may_carry_notice: true,
        }),
        step is StoreCursor ==> next_step(
            request,
            step,
            FindReply::CursorLockFailed { reason: text },
        ) == (FindStepView::Fail { message: "Failed to acquire cursor store lock: "@ + text }),
        step is Search ==> next_step(request, step, FindReply::IndexLockFailed { reason: text })
            == (FindStepView::Fail { message: "Failed to acquire picker lock: "@ + text }),
        step is Search ==> next_step(request, step, FindReply::NoIndex) == (FindStepView::Fail {
            message: "File picker not initialized"@,
        }),
{
    if let FindStep::StoreCursor { offset, lines } = step {
        assert(lines.push("cursor: "@ + text) =~= lines + seq!["cursor: "@ + text]);
    }
}

/// A search takes every reply that its step can get. One thing alone is asked
/// of a page that holds files: it holds a score, and its end can be counted.
pub proof fn every_reply_is_taken(
    request: FindRequest<Seq<char>>,
    step: FindStepView,
    reply: FindReplyView,
)
    ensures
        step is Search && (reply is IndexLockFailed || reply is NoIndex) ==> answers(
            request,
            step,
            reply,
        ),
        step is StoreCursor && (reply is CursorStored || reply is CursorLockFailed) ==> answers(
            request,
            step,
            reply,
        ),
        reply matches FindReply::Found { items, scores, total_matched, total_files } ==> (((step
            is Search || step is Retry) && (items.len() == 0 || (scores.len() > 0
            && request.page_offset + items.len() <= usize::MAX))) ==> answers(
            request,
            step,
            reply,
        )),
{
}

/// What a request, a step and a reply hold is seen as it is.
pub proof fn contents_are_seen(
    request: FindRequest,
    step: FindStep,
    reply: FindReply,
    files: Seq<FoundFile>,
)
    ensures
        request@.query == request.query@,
        request@.max_results == request.max_results,
        request@.page_offset == request.page_offset,
        file_views(files).len() == files.len(),
        forall|i: int|
            0 <= i < files.len() ==> (#[trigger] file_views(files)[i]).path == files[i].path@
                && file_views(files)[i].suffix == files[i].suffix@,
        (match step {
            FindStep::Search { query, options } => step@ == (FindStepView::Search {
                query: query@,
                options,
            }),
            FindStep::Retry { query, options, total_files } => step@ == (FindStepView::Retry {
                query: query@,
                options,
                total_files,
            }),
            FindStep::StoreCursor { offset, lines } => step@ == (FindStepView::StoreCursor {
                offset,
                lines: views(lines@),
            }),
            FindStep::Answer { text, may_carry_notice } => step@ == (FindStepView::Answer {
                text: text@,
                may_carry_notice,
            }),
            FindStep::Fail { message } => step@ == (FindStepView::Fail { message: message@ }),
        }),
        (match reply {
            FindReply::Found { items, scores, total_matched, total_files } => reply@ == (
            FindReplyView::Found {
                items: file_views(items@),
                scores: scores@,
                total_matched,
                total_files,
            }),
            FindReply::IndexLockFailed { reason } => reply@ == (FindReplyView::IndexLockFailed {
                reason: reason@,
            }),
            FindReply::NoIndex => reply@ == FindReplyView::NoIndex,
            FindReply::CursorStored { id } => reply@ == (FindReplyView::CursorStored { id: id@ }),
            FindReply::CursorLockFailed { reason } => reply@ == (FindReplyView::CursorLockFailed {
                reason: reason@,
            }),
        }),
{
}

} // verus!
