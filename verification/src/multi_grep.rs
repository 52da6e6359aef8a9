//! The content search for any of several patterns.
use crate::grep::{
    FormatOptions, cursor_lock_message, index_lock_message, no_index_message, no_matches,
    shows_as_asked, write_cursor_lock_message, write_index_lock_message,
};
use crate::options::{
    GrepMode, GrepSearchOptions, OutputMode, auto_expands, context_lines, grep_options,
    make_grep_options,
};
use crate::text::views;
use vstd::prelude::*;

verus! {

/// What a search for any of several patterns is asked for. `T` is a text, `L`
/// a list of texts.
#[derive(Debug)]
pub struct MultiGrepRequest<T = String, L = Vec<String>> {
    pub patterns: L,
    pub constraints: T,
    pub max_results: usize,
    pub output_mode: OutputMode,
    pub context: Option<usize>,
    /// How many files are passed over: where the page begins.
    pub file_offset: usize,
}

/// A request, by what its texts hold.
pub type MultiGrepRequestView = MultiGrepRequest<Seq<char>, Seq<Seq<char>>>;

impl View for MultiGrepRequest<String, Vec<String>> {
    type V = MultiGrepRequestView;

    open spec fn view(&self) -> MultiGrepRequestView {
        MultiGrepRequest {
            patterns: views(self.patterns@),
            constraints: self.constraints@,
            max_results: self.max_results,
            output_mode: self.output_mode,
            context: self.context,
            file_offset: self.file_offset,
        }
    }
}

/// What a search waits for, or what came of it. The patterns and the
/// constraints that are searched for are those of the request.
#[derive(Debug)]
pub enum MultiGrepStep<T = String> {
    /// Search for the patterns.
    Search { options: GrepSearchOptions },
    /// Write out the matches.
    Format { shown: FormatOptions },
    /// The answer. Every one may carry the notice of an update.
    Answer { text: T, may_carry_notice: bool },
    /// The search failed.
    Fail { message: T },
}

impl View for MultiGrepStep<String> {
    type V = MultiGrepStep<Seq<char>>;

    open spec fn view(&self) -> MultiGrepStep<Seq<char>> {
        match self {
            MultiGrepStep::Search { options } => MultiGrepStep::Search { options: *options },
            MultiGrepStep::Format { shown } => MultiGrepStep::Format { shown: *shown },
            MultiGrepStep::Answer { text, may_carry_notice } => MultiGrepStep::Answer {
                text: text@,
                may_carry_notice: *may_carry_notice,
            },
            MultiGrepStep::Fail { message } => MultiGrepStep::Fail { message: message@ },
        }
    }
}

/// What comes back for a step.
#[derive(Debug)]
pub enum MultiGrepReply<T = String> {
    /// For the search: the number of matches.
    Searched { matched: usize },
    /// For the search: the index could not be locked.
    IndexLockFailed { reason: T },
    /// For the search: there is no index.
    NoIndex,
    /// For the format: the matches, written out.
    Formatted { text: T },
    /// For the format: the cursors could not be locked.
    CursorLockFailed { reason: T },
}

impl View for MultiGrepReply<String> {
    type V = MultiGrepReply<Seq<char>>;

    open spec fn view(&self) -> MultiGrepReply<Seq<char>> {
        match self {
            MultiGrepReply::Searched { matched } => MultiGrepReply::Searched {
                matched: *matched,
            },
            MultiGrepReply::IndexLockFailed { reason } => MultiGrepReply::IndexLockFailed {
                reason: reason@,
            },
            MultiGrepReply::NoIndex => MultiGrepReply::NoIndex,
            MultiGrepReply::Formatted { text } => MultiGrepReply::Formatted { text: text@ },
            MultiGrepReply::CursorLockFailed { reason } => MultiGrepReply::CursorLockFailed {
                reason: reason@,
            },
        }
    }
}

/// The step that begins a search: literal text, from the first file of the
/// page on.
pub open spec fn first_step(request: MultiGrepRequestView) -> MultiGrepStep<Seq<char>> {
    MultiGrepStep::Search {
        options: grep_options(
            request.output_mode,
            GrepMode::PlainText,
            request.file_offset,
            request.context,
        ),
    }
}

/// The step after the search: matches are written out.
pub open spec fn after_search(
    request: MultiGrepRequestView,
    matched: usize,
) -> MultiGrepStep<Seq<char>> {
    if matched == 0 {
        MultiGrepStep::Answer { text: no_matches(), may_carry_notice: true }
    } else {
        MultiGrepStep::Format {
            shown: FormatOptions {
                total_matched: matched,
                output_mode: request.output_mode,
                max_results: request.max_results,
                show_context: context_lines(request.output_mode, request.context) > 0,
                auto_expand_defs: auto_expands(request.output_mode, request.context),
            },
        }
    }
}

/// Whether a reply is one for a step.
pub open spec fn answers(
    step: MultiGrepStep<Seq<char>>,
    reply: MultiGrepReply<Seq<char>>,
) -> bool {
    match step {
        MultiGrepStep::Search { options } => reply is Searched || reply is IndexLockFailed
            || reply is NoIndex,
        MultiGrepStep::Format { shown } => reply is Formatted || reply is CursorLockFailed,
        MultiGrepStep::Answer { text, may_carry_notice } => false,
        MultiGrepStep::Fail { message } => false,
    }
}

/// The step that a reply leads to.
pub open spec fn next_step(
    request: MultiGrepRequestView,
    step: MultiGrepStep<Seq<char>>,
    reply: MultiGrepReply<Seq<char>>,
) -> MultiGrepStep<Seq<char>> {
    match (step, reply) {
        (MultiGrepStep::Search { options }, MultiGrepReply::Searched { matched }) => after_search(
            request,
            matched,
        ),
        (MultiGrepStep::Search { options }, MultiGrepReply::IndexLockFailed { reason }) =>
            MultiGrepStep::Fail { message: index_lock_message(reason) },
        (MultiGrepStep::Search { options }, MultiGrepReply::NoIndex) => MultiGrepStep::Fail {
            message: no_index_message(),
        },
        (MultiGrepStep::Format { shown }, MultiGrepReply::Formatted { text }) =>
            MultiGrepStep::Answer { text, may_carry_notice: true },
        (MultiGrepStep::Format { shown }, MultiGrepReply::CursorLockFailed { reason }) =>
            MultiGrepStep::Fail { message: cursor_lock_message(reason) },
        _ => step,
    }
}

/// A search for any of several patterns under way.
#[derive(Debug)]
pub struct MultiGrepSession {
    pub request: MultiGrepRequest,
    pub step: MultiGrepStep,
}

impl MultiGrepSession {
    /// Begins a search.
    pub fn new(request: MultiGrepRequest) -> (session: MultiGrepSession)
        ensures
            session.request == request,
            session.step@ == first_step(request@),
    {
        let (options, _auto_expand) = make_grep_options(
            request.output_mode,
            GrepMode::PlainText,
            request.file_offset,
            request.context,
        );
        MultiGrepSession { request, step: MultiGrepStep::Search { options } }
    }

    /// Decides what follows the search.
    fn continue_search(&self, matched: usize) -> (step: MultiGrepStep)
        ensures
            step@ == after_search(self.request@, matched),
    {
        if matched == 0 {
            return MultiGrepStep::Answer { text: "0 matches.".to_owned(), may_carry_notice: true };
        }
        let (options, auto_expand) = make_grep_options(
            self.request.output_mode,
            GrepMode::PlainText,
            self.request.file_offset,
            self.request.context,
        );
        MultiGrepStep::Format {
            shown: FormatOptions {
                total_matched: matched,
                output_mode: self.request.output_mode,
                max_results: self.request.max_results,
                show_context: options.before_context > 0,
                auto_expand_defs: auto_expand,
            },
        }
    }

    /// Takes what came back for the step that the search waits for.
    pub fn advance(self, reply: MultiGrepReply) -> (next: MultiGrepSession)
        requires
            answers(self.step@, reply@),
        ensures
            next.request == self.request,
            next.step@ == next_step(self.request@, self.step@, reply@),
    {
        let step: MultiGrepStep = match (&self.step, reply) {
            (MultiGrepStep::Search { options: _ }, MultiGrepReply::Searched { matched }) => {
                self.continue_search(matched)
            },
            (
                MultiGrepStep::Search { options: _ },
                MultiGrepReply::IndexLockFailed { reason },
            ) => MultiGrepStep::Fail { message: write_index_lock_message(reason.as_str()) },
            (MultiGrepStep::Search { options: _ }, MultiGrepReply::NoIndex) => {
                MultiGrepStep::Fail { message: "File picker not initialized".to_owned() }
            },
            (MultiGrepStep::Format { shown: _ }, MultiGrepReply::Formatted { text }) => {
                MultiGrepStep::Answer { text, may_carry_notice: true }
            },
            (
                MultiGrepStep::Format { shown: _ },
                MultiGrepReply::CursorLockFailed { reason },
            ) => MultiGrepStep::Fail { message: write_cursor_lock_message(reason.as_str()) },
            _ => {
                assert(false);
                MultiGrepStep::Fail { message: String::new() }
            },
        };
        MultiGrepSession { request: self.request, step }
    }
}

/// Every answer of a search may carry the notice of an update, one that found
/// nothing among them.
pub proof fn every_answer_may_carry_notice(
    request: MultiGrepRequestView,
    step: MultiGrepStep<Seq<char>>,
    reply: MultiGrepReply<Seq<char>>,
)
    requires
        answers(step, reply),
    ensures
        first_step(request) is Search,
        next_step(request, step, reply) matches MultiGrepStep::Answer { text, may_carry_notice }
            ==> may_carry_notice,
{
}

/// A search fails only where the index or the cursors could not be had, and
/// without matches it answers so at once.
pub proof fn search_fails_by_locks_alone(
    request: MultiGrepRequestView,
    step: MultiGrepStep<Seq<char>>,
    reply: MultiGrepReply<Seq<char>>,
)
    requires
        answers(step, reply),
    ensures
        next_step(request, step, reply) is Fail <==> reply is IndexLockFailed || reply is NoIndex
            || reply is CursorLockFailed,
        reply == (MultiGrepReply::<Seq<char>>::Searched { matched: 0 }) ==> next_step(
            request,
            step,
            reply,
        ) == (MultiGrepStep::Answer { text: no_matches(), may_carry_notice: true }),
{
}

/// A search begins in plain text, at the first file of the page, with as many
/// lines around a match as the request asks for.
pub proof fn search_begins_with_request(request: MultiGrepRequestView)
    ensures
        first_step(request) matches MultiGrepStep::Search { options } && {
            &&& options.mode is PlainText
            &&& options.file_offset == request.file_offset
            &&& options == grep_options(
                request.output_mode,
                options.mode,
                options.file_offset,
                request.context,
            )
        },
{
}

/// The search answers that nothing matched if and only if there is no match.
/// Any greater number of matches is written out, all of them counted, as the
/// request asks for it.
pub proof fn matches_are_written_out(
    request: MultiGrepRequestView,
    step: MultiGrepStep<Seq<char>>,
    matched: usize,
)
    requires
        step is Search,
    ensures
        ({
            let next = next_step(request, step, MultiGrepReply::Searched { matched });
            &&& matched == 0 <==> next == (MultiGrepStep::Answer {
                text: "0 matches."@,
                may_carry_notice: true,
            })
            &&& matched > 0 <==> next is Format
            &&& next matches MultiGrepStep::Format { shown } ==> shows_as_asked(
                shown,
                matched,
                request.output_mode,
                request.max_results,
                request.context,
            )
        }),
{
}

/// Matches that were written out are the answer, as they are, and a failure
/// says what could not be had, and why.
pub proof fn written_matches_are_answered(
    request: MultiGrepRequestView,
    step: MultiGrepStep<Seq<char>>,
    text: Seq<char>,
)
    ensures
        step is Format ==> next_step(request, step, MultiGrepReply::Formatted { text }) == (
        MultiGrepStep::Answer { text, may_carry_notice: true }),
        step is Format ==> next_step(
            request,
            step,
            MultiGrepReply::CursorLockFailed { reason: text },
        ) == (MultiGrepStep::Fail { message: "Failed to acquire cursor store lock: "@ + text }),
        step is Search ==> next_step(
            request,
            step,
            MultiGrepReply::IndexLockFailed { reason: text },
        ) == (MultiGrepStep::Fail { message: "Failed to acquire picker lock: "@ + text }),
        step is Search ==> next_step(request, step, MultiGrepReply::NoIndex) == (
        MultiGrepStep::Fail { message: "File picker not initialized"@ }),
{
}

/// A search takes every reply that its step can get, and what a request, a
/// step and a reply hold is seen as it is.
pub proof fn every_reply_is_taken(
    request: MultiGrepRequest,
    step: MultiGrepStep,
    reply: MultiGrepReply,
)
    ensures
        step is Search ==> (answers(step@, reply@) <==> reply is Searched || reply
            is IndexLockFailed || reply is NoIndex),
        step is Format ==> (answers(step@, reply@) <==> reply is Formatted || reply
            is CursorLockFailed),
        request@.patterns == views(request.patterns@),
        request@.constraints == request.constraints@,
        request@.max_results == request.max_results,
        request@.output_mode == request.output_mode,
        request@.context == request.context,
        request@.file_offset == request.file_offset,
        (match step {
            MultiGrepStep::Search { options } => step@ == (MultiGrepStep::<Seq<char>>::Search {
                options,
            }),
            MultiGrepStep::Format { shown } => step@ == (MultiGrepStep::<Seq<char>>::Format {
                shown,
            }),
            MultiGrepStep::Answer { text, may_carry_notice } => step@ == (MultiGrepStep::Answer {
                text: text@,
                may_carry_notice,
            }),
            MultiGrepStep::Fail { message } => step@ == (MultiGrepStep::Fail {
                message: message@,
            }),
        }),
        (match reply {
            MultiGrepReply::Searched { matched } => reply@ == (MultiGrepReply::<
                Seq<char>,
            >::Searched { matched }),
            MultiGrepReply::Formatted { text } => reply@ == (MultiGrepReply::Formatted {
                text: text@,
            }),
            MultiGrepReply::IndexLockFailed { reason } => reply@ == (
            MultiGrepReply::IndexLockFailed { reason: reason@ }),
            MultiGrepReply::CursorLockFailed { reason } => reply@ == (
            MultiGrepReply::CursorLockFailed { reason: reason@ }),
            MultiGrepReply::NoIndex => reply@ == MultiGrepReply::<Seq<char>>::NoIndex,
        }),
{
}

} // verus!
