//! The server: what it remembers between requests, and how a request begins a
//! search.
use crate::find::{FindRequest, FindSession};
use crate::grep::{GrepRequest, GrepSession};
use crate::multi_grep::{MultiGrepRequest, MultiGrepRequestView, MultiGrepSession};
use crate::number::{context_of, max_results_of, normalize_context, normalize_max_results};
use crate::options::{GrepMode, OutputMode};
use crate::params::{FindFilesParams, GrepParams, MultiGrepParams};
use crate::query::{merge_constraints, merged};
use crate::text::views;
use std::borrow::Cow;
use vstd::prelude::*;

verus! {

/// The limit of a request that gives none.
pub const DEFAULT_MAX_RESULTS: usize = 20;

/// How long a request waits for the index, in seconds.
pub const SCAN_READY_TIMEOUT_SECS: u64 = 30;

/// How long a request waits before it looks at the index again, in
/// milliseconds.
pub const SCAN_POLL_MILLIS: u64 = 50;

/// What the server remembers between requests.
#[derive(Debug, PartialEq, Eq, Structural)]
pub struct FffServer {
    /// Whether the notice of an update has been sent.
    pub update_notice_sent: bool,
    /// Seconds from the epoch to the last request.
    pub last_activity: u64,
    /// Whether the index is known to be complete.
    pub scan_ready: bool,
}

/// What a request that waits for the index does next.
#[derive(Clone, Copy, Debug, PartialEq, Eq, Structural)]
pub enum ScanStep {
    /// Go on: the index is complete.
    Ready,
    /// Look whether the index is being built.
    Poll,
    /// Give up.
    TimedOut,
    /// Look again after the given time.
    Sleep { millis: u64 },
}

/// The message of a request that gave up waiting for the index.
pub open spec fn scan_timeout_message() -> Seq<char> {
    "Index is still building; retry shortly"@
}

/// Writes the message of a request that gave up waiting for the index.
pub fn write_scan_timeout_message() -> (message: String)
    ensures
        message@ == scan_timeout_message(),
{
    "Index is still building; retry shortly".to_owned()
}

/// The seconds of a clock: those since the epoch, or zero for a clock that
/// stands before it.
pub open spec fn clock_secs(since_epoch: Option<u64>) -> u64 {
    match since_epoch {
        Some(secs) => secs,
        None => 0,
    }
}

/// Reads the seconds of a clock.
pub fn now_secs(since_epoch: Option<u64>) -> (secs: u64)
    ensures
        secs == clock_secs(since_epoch),
{
    match since_epoch {
        Some(secs) => secs,
        None => 0,
    }
}

/// Where a page begins: at the offset that a cursor was found to stand for,
/// or at the beginning.
pub open spec fn page_start(cursor: Option<usize>) -> usize {
    match cursor {
        Some(offset) => offset,
        None => 0,
    }
}

/// Takes the offset that a page begins at.
fn start_of_page(cursor: Option<usize>) -> (offset: usize)
    ensures
        offset == page_start(cursor),
{
    match cursor {
        Some(offset) => offset,
        None => 0,
    }
}

/// The text of an optional text, empty where there is none.
pub open spec fn text_or_empty(text: Option<Seq<char>>) -> Seq<char> {
    match text {
        Some(s) => s,
        None => Seq::empty(),
    }
}

/// The query of a content search, with the constraints that are given apart
/// from it.
pub open spec fn full_query(params: GrepParams<Seq<char>>) -> Seq<char> {
    merged(text_or_empty(params.constraints), params.query)
}

/// The content of an answer with the notice of an update behind it, where
/// there is one and it was not sent before.
pub open spec fn with_notice(
    sent: bool,
    content: Seq<Seq<char>>,
    notice: Seq<char>,
) -> Seq<Seq<char>> {
    if sent || notice.len() == 0 {
        content
    } else {
        content.push(notice)
    }
}

/// Whether the notice counts as sent after a request.
pub open spec fn notice_sent_after(sent: bool, notice: Seq<char>) -> bool {
    sent || notice.len() > 0
}

/// The content of an answer: its text and, where it may carry the notice of an
/// update, the notice behind it.
pub open spec fn answer_content(
    sent: bool,
    text: Seq<char>,
    may_carry_notice: bool,
    notice: Seq<char>,
) -> Seq<Seq<char>> {
    if may_carry_notice {
        with_notice(sent, seq![text], notice)
    } else {
        seq![text]
    }
}

/// What a request that needs the index does first.
pub open spec fn first_scan_step(server: FffServer) -> ScanStep {
    if server.scan_ready {
        ScanStep::Ready
    } else {
        ScanStep::Poll
    }
}

/// What a request that waits for the index does after a look at it.
pub open spec fn poll_step(scan_active: Option<bool>, waited: u128, timeout: u128) -> ScanStep {
    if scan_active == Some(false) {
        ScanStep::Ready
    } else if waited >= timeout {
        ScanStep::TimedOut
    } else {
        ScanStep::Sleep { millis: SCAN_POLL_MILLIS }
    }
}

/// What a file search is asked for by its parameters.
pub open spec fn find_request(
    params: FindFilesParams<Seq<char>>,
    cursor: Option<usize>,
) -> FindRequest<Seq<char>> {
    FindRequest {
        query: params.query,
        max_results: max_results_of(params.max_results, DEFAULT_MAX_RESULTS),
        page_offset: page_start(cursor),
    }
}

/// What a content search is asked for by its parameters.
pub open spec fn grep_request(
    params: GrepParams<Seq<char>>,
    regex: bool,
    cursor: Option<usize>,
    output_mode: OutputMode,
) -> GrepRequest<Seq<char>> {
    GrepRequest {
        query: full_query(params),
        mode: if regex {
            GrepMode::Regex
        } else {
            GrepMode::PlainText
        },
        max_results: max_results_of(params.max_results, DEFAULT_MAX_RESULTS),
        output_mode,
        context: context_of(params.context),
        file_offset: page_start(cursor),
    }
}

/// What a search for any of several patterns is asked for by its parameters.
pub open spec fn multi_grep_request(
    params: MultiGrepParams<Seq<char>, Seq<Seq<char>>>,
    cursor: Option<usize>,
    output_mode: OutputMode,
) -> MultiGrepRequestView {
    MultiGrepRequest {
        patterns: params.patterns,
        constraints: text_or_empty(params.constraints),
        max_results: max_results_of(params.max_results, DEFAULT_MAX_RESULTS),
        output_mode,
        context: context_of(params.context),
        file_offset: page_start(cursor),
    }
}

/// The server after a request began.
pub open spec fn after_request(server: FffServer, now: u64) -> FffServer {
    FffServer { last_activity: now, ..server }
}

/// The server after it was looked whether the index is being built.
pub open spec fn after_poll(server: FffServer, scan_active: Option<bool>) -> FffServer {
    FffServer { scan_ready: server.scan_ready || scan_active == Some(false), ..server }
}

/// The server after an answer was given.
pub open spec fn after_answer(
    server: FffServer,
    may_carry_notice: bool,
    notice: Seq<char>,
) -> FffServer {
    if may_carry_notice {
        FffServer {
            update_notice_sent: notice_sent_after(server.update_notice_sent, notice),
            ..server
        }
    } else {
        server
    }
}

impl FffServer {
    /// A server that has answered nothing, started at a time.
    pub fn new(now: u64) -> (server: FffServer)
        ensures
            server == (FffServer {
                update_notice_sent: false,
                last_activity: now,
                scan_ready: false,
            }),
    {
        FffServer { update_notice_sent: false, last_activity: now, scan_ready: false }
    }

    /// When the last request came.
    pub fn last_activity(&self) -> (secs: u64)
        ensures
            secs == self.last_activity,
    {
        self.last_activity
    }

    /// Notes the time of a request.
    pub fn bump_activity(&mut self, now: u64)
        ensures
            *final(self) == after_request(*old(self), now),
    {
        self.last_activity = now;
    }

    /// Decides what a request does that needs the index: it goes on at once
    /// where the index was complete before, and else begins to wait.
    pub fn wait_for_scan(&self) -> (step: ScanStep)
        ensures
            step == first_scan_step(*self),
    {
        if self.scan_ready {
            ScanStep::Ready
        } else {
            ScanStep::Poll
        }
    }

    /// Begins a request of any tool: notes its time, before anything can fail,
    /// and decides what it does first.
    pub fn begin_request(&mut self, now: u64) -> (step: ScanStep)
        ensures
            *final(self) == after_request(*old(self), now),
            step == first_scan_step(*old(self)),
    {
        self.bump_activity(now);
        self.wait_for_scan()
    }

    /// Decides what a request does that waits for the index. `scan_active`
    /// says whether the index is being built, where that could be found out;
    /// the waited time and the limit are in the same unit. That the index is
    /// complete is remembered.
    pub fn poll_scan(&mut self, scan_active: Option<bool>, waited: u128, timeout: u128) -> (step:
        ScanStep)
        ensures
            step == (if scan_active == Some(false) {
                ScanStep::Ready
            } else if waited >= timeout {
                ScanStep::TimedOut
            } else {
                ScanStep::Sleep { millis: SCAN_POLL_MILLIS }
            }),
            step == poll_step(scan_active, waited, timeout),
            *final(self) == after_poll(*old(self), scan_active),
    {
        let scanning = match scan_active {
            Some(active) => active,
            None => true,
        };
        if !scanning {
            self.scan_ready = true;
            return ScanStep::Ready;
        }
        if waited >= timeout {
            ScanStep::TimedOut
        } else {
            ScanStep::Sleep { millis: SCAN_POLL_MILLIS }
        }
    }

    /// Adds the notice of an update to the content of an answer, once. An
    /// empty notice is none: the next request tries again.
    pub fn maybe_append_update_notice(&mut self, notice: &str, content: &mut Vec<String>)
        ensures
            views(final(content)@) == with_notice(
                old(self).update_notice_sent,
                views(old(content)@),
                notice@,
            ),
            *final(self) == after_answer(*old(self), true, notice@),
    {
        if self.update_notice_sent {
            return ;
        }
        if notice.is_empty() {
            return ;
        }
        self.update_notice_sent = true;
        let ghost before = views(content@);
        content.push(notice.to_owned());
        assert(views(content@) =~= before.push(notice@));
    }

    /// Gives the content of an answer: its text and, where it may carry the
    /// notice of an update, the notice behind it, once.
    pub fn answer(&mut self, text: String, may_carry_notice: bool, notice: &str) -> (content: Vec<
        String,
    >)
        ensures
            views(content@) == answer_content(
                old(self).update_notice_sent,
                text@,
                may_carry_notice,
                notice@,
            ),
            *final(self) == after_answer(*old(self), may_carry_notice, notice@),
    {
        let mut content: Vec<String> = Vec::new();
        content.push(text);
        assert(views(content@) =~= seq![text@]);
        if may_carry_notice {
            self.maybe_append_update_notice(notice, &mut content);
        }
        content
    }

    /// Begins a file search. `cursor` is the offset that the cursor of the
    /// request was found to stand for.
    pub fn find_files(&self, params: FindFilesParams, cursor: Option<usize>) -> (session:
        FindSession)
        ensures
            session.request@ == (FindRequest {
                query: params@.query,
                max_results: max_results_of(params@.max_results, DEFAULT_MAX_RESULTS),
                page_offset: page_start(cursor),
            }),
            session.request@ == find_request(params@, cursor),
            session.step@ == crate::find::first_step(session.request@),
    {
        let max_results = normalize_max_results(params.max_results, DEFAULT_MAX_RESULTS);
        FindSession::new(
            FindRequest { query: params.query, max_results, page_offset: start_of_page(cursor) },
        )
    }

    /// Writes the query of a content search, with the constraints that are
    /// given apart from it.
    pub fn grep_query(params: &GrepParams) -> (query: String)
        ensures
            query@ == full_query(params@),
    {
        let constraints: &str = match &params.constraints {
            Some(text) => text.as_str(),
            None => "",
        };
        proof {
            reveal_strlit("");
            if params.constraints is None {
                assert(constraints@ =~= Seq::<char>::empty());
            }
        }
        match merge_constraints(constraints, params.query.as_str()) {
            Cow::Borrowed(text) => text.to_owned(),
            Cow::Owned(text) => text,
        }
    }

    /// Begins a content search for a query.
    pub fn perform_grep(
        &self,
        query: String,
        mode: GrepMode,
        max_results: usize,
        cursor: Option<usize>,
        output_mode: OutputMode,
        context: Option<usize>,
    ) -> (session: GrepSession)
        ensures
            session.well_formed(),
            session.request@ == (GrepRequest {
                query: query@,
                mode,
                max_results,
                output_mode,
                context,
                file_offset: page_start(cursor),
            }),
            session.step@ == crate::grep::first_step(session.request@),
    {
        GrepSession::new(
            GrepRequest {
                query,
                mode,
                max_results,
                output_mode,
                context,
                file_offset: start_of_page(cursor),
            },
        )
    }

    /// Begins a content search. `regex` says whether the text that the query
    /// searches for holds characters of regular expressions, `cursor` is the
    /// offset that the cursor of the request was found to stand for.
    pub fn grep(
        &self,
        params: GrepParams,
        regex: bool,
        cursor: Option<usize>,
        output_mode: OutputMode,
    ) -> (session: GrepSession)
        ensures
            session.well_formed(),
            session.request@ == (GrepRequest {
                query: full_query(params@),
                mode: if regex {
                    GrepMode::Regex
                } else {
                    GrepMode::PlainText
                },
                max_results: max_results_of(params@.max_results, DEFAULT_MAX_RESULTS),
                output_mode,
                context: context_of(params@.context),
                file_offset: page_start(cursor),
            }),
            session.request@ == grep_request(params@, regex, cursor, output_mode),
            session.step@ == crate::grep::first_step(session.request@),
    {
        let query = FffServer::grep_query(&params);
        let mode = if regex {
            GrepMode::Regex
        } else {
            GrepMode::PlainText
        };
        let max_results = normalize_max_results(params.max_results, DEFAULT_MAX_RESULTS);
        let context = normalize_context(params.context);
        self.perform_grep(query, mode, max_results, cursor, output_mode, context)
    }

    /// Begins a search for any of several patterns. `cursor` is the offset
    /// that the cursor of the request was found to stand for.
    pub fn multi_grep(
        &self,
        params: MultiGrepParams,
        cursor: Option<usize>,
        output_mode: OutputMode,
    ) -> (session: MultiGrepSession)
        ensures
            session.request@ == (MultiGrepRequest {
                patterns: params@.patterns,
                constraints: text_or_empty(params@.constraints),
                max_results: max_results_of(params@.max_results, DEFAULT_MAX_RESULTS),
                output_mode,
                context: context_of(params@.context),
                file_offset: page_start(cursor),
            }),
            session.request@ == multi_grep_request(params@, cursor, output_mode),
            session.step@ == crate::multi_grep::first_step(session.request@),
    {
        let max_results = normalize_max_results(params.max_results, DEFAULT_MAX_RESULTS);
        let context = normalize_context(params.context);
        let constraints = match params.constraints {
            Some(text) => text,
            None => String::new(),
        };
        MultiGrepSession::new(
            MultiGrepRequest {
                patterns: params.patterns,
                constraints,
                max_results,
                output_mode,
                context,
                file_offset: start_of_page(cursor),
            },
        )
    }

    /// Writes the instructions that a client gets, with the notice of an
    /// update behind them where there is one.
    pub fn instructions(base: &str, notice: &str) -> (text: String)
        ensures
            text@ == base@ + notice@,
    {
        let mut text: String = base.to_owned();
        if notice.is_empty() {
            assert(base@ + notice@ =~= base@);
        } else {
            text.append(notice);
        }
        text
    }
}

/// Whether the notice counts as sent after some requests, each with the notice
/// that was there at its time.
pub open spec fn sent_after(sent: bool, notices: Seq<Seq<char>>) -> bool
    decreases notices.len(),
{
    if notices.len() == 0 {
        sent
    } else {
        notice_sent_after(sent_after(sent, notices.drop_last()), notices.last())
    }
}

/// How many of some requests, each answered with one content, were answered
/// with a notice.
pub open spec fn notices_sent(sent: bool, notices: Seq<Seq<char>>) -> nat
    decreases notices.len(),
{
    if notices.len() == 0 {
        0
    } else {
        let before = sent_after(sent, notices.drop_last());
        let content = Seq::<Seq<char>>::empty();
        notices_sent(sent, notices.drop_last()) + with_notice(
            before,
            content,
            notices.last(),
        ).len()
    }
}

/// The notice of an update is sent once, with the first answer at whose time
/// there is one, and never again.
pub proof fn notice_is_sent_once(notices: Seq<Seq<char>>)
    ensures
        notices_sent(false, notices) <= 1,
        notices_sent(false, notices) == 1 <==> sent_after(false, notices),
        sent_after(false, notices) <==> exists|i: int|
            0 <= i < notices.len() && (#[trigger] notices[i]).len() > 0,
    decreases notices.len(),
{
    if notices.len() > 0 {
        let init = notices.drop_last();
        notice_is_sent_once(init);
        if exists|i: int| 0 <= i < notices.len() && (#[trigger] notices[i]).len() > 0 {
            let i = choose|i: int| 0 <= i < notices.len() && (#[trigger] notices[i]).len() > 0;
            if i < init.len() {
                assert(init[i].len() > 0);
            }
        }
        if sent_after(false, init) {
            let i = choose|i: int| 0 <= i < init.len() && (#[trigger] init[i]).len() > 0;
            assert(notices[i].len() > 0);
        }
        if notices.last().len() > 0 {
            assert(notices[notices.len() - 1].len() > 0);
        }
    }
}

/// What happens to a server.
pub enum ServerEvent {
    /// A request begins at a time.
    Request { now: u64 },
    /// It is looked whether the index is being built.
    Poll { scan_active: Option<bool> },
    /// An answer is given.
    Answer { may_carry_notice: bool, notice: Seq<char> },
}

/// The server after something happened to it.
pub open spec fn after_event(server: FffServer, event: ServerEvent) -> FffServer {
    match event {
        ServerEvent::Request { now } => after_request(server, now),
        ServerEvent::Poll { scan_active } => after_poll(server, scan_active),
        ServerEvent::Answer { may_carry_notice, notice } => after_answer(
            server,
            may_carry_notice,
            notice,
        ),
    }
}

/// The server after all that happened to it, in order.
pub open spec fn after_events(server: FffServer, events: Seq<ServerEvent>) -> FffServer
    decreases events.len(),
{
    if events.len() == 0 {
        server
    } else {
        after_event(after_events(server, events.drop_last()), events.last())
    }
}

/// The last activity is the time at which the latest request began, whatever
/// came of it; before any request it stays what it was.
pub proof fn activity_is_that_of_latest_request(
    server: FffServer,
    events: Seq<ServerEvent>,
    latest: int,
)
    requires
        -1 <= latest < events.len(),
        latest >= 0 ==> events[latest] is Request,
        forall|i: int| latest < i < events.len() ==> !((#[trigger] events[i]) is Request),
    ensures
        after_events(server, events).last_activity == if latest >= 0 {
            events[latest]->now
        } else {
            server.last_activity
        },
    decreases events.len(),
{
    if events.len() > 0 {
        let init = events.drop_last();
        if latest < init.len() {
            assert(!(events[events.len() - 1] is Request));
            assert forall|i: int| latest < i < init.len() implies !((
            #[trigger] init[i]) is Request) by {
                assert(!(events[i] is Request));
            }
            activity_is_that_of_latest_request(server, init, latest);
        }
    }
}

/// Once the index is known to be complete, no request waits for it again.
pub proof fn ready_index_stays_ready(server: FffServer, events: Seq<ServerEvent>)
    requires
        server.scan_ready,
    ensures
        after_events(server, events).scan_ready,
        first_scan_step(after_events(server, events)) == ScanStep::Ready,
    decreases events.len(),
{
    if events.len() > 0 {
        ready_index_stays_ready(server, events.drop_last());
    }
}

/// A request changes the time of the last activity alone; a look at the index
/// remembers that it is complete, if and only if it is not being built, and
/// forgets nothing; an answer that may carry the notice of an update remembers
/// that it was sent, if there was one, and any other answer changes nothing.
pub proof fn server_remembers(
    server: FffServer,
    now: u64,
    scan_active: Option<bool>,
    may_carry_notice: bool,
    notice: Seq<char>,
)
    ensures
        after_request(server, now) == (FffServer {
            update_notice_sent: server.update_notice_sent,
            last_activity: now,
            scan_ready: server.scan_ready,
        }),
        after_poll(server, scan_active) == (FffServer {
            update_notice_sent: server.update_notice_sent,
            last_activity: server.last_activity,
            scan_ready: server.scan_ready || (scan_active is Some && !scan_active->0),
        }),
        after_answer(server, may_carry_notice, notice) == (FffServer {
            update_notice_sent: server.update_notice_sent || (may_carry_notice && notice.len()
                > 0),
            last_activity: server.last_activity,
            scan_ready: server.scan_ready,
        }),
        first_scan_step(server) == if server.scan_ready {
            ScanStep::Ready
        } else {
            ScanStep::Poll
        },
{
}

/// An answer is its text, and behind it the notice of an update if and only if
/// it may carry one, there is one, and none was sent before.
pub proof fn answer_is_text_and_notice(
    sent: bool,
    text: Seq<char>,
    may_carry_notice: bool,
    notice: Seq<char>,
    content: Seq<Seq<char>>,
)
    ensures
        answer_content(sent, text, may_carry_notice, notice) == if may_carry_notice && !sent
            && notice.len() > 0 {
            seq![text, notice]
        } else {
            seq![text]
        },
        with_notice(sent, content, notice) == if !sent && notice.len() > 0 {
            content + seq![notice]
        } else {
            content
        },
        notice_sent_after(sent, notice) <==> sent || notice.len() > 0,
{
    assert(content.push(notice) =~= content + seq![notice]);
    assert(seq![text].push(notice) =~= seq![text, notice]);
}

/// What a request leaves out has its default: a page begins at the first
/// result, constraints are empty, and a clock before the epoch stands at it.
/// What it gives is taken as it is: the query of a content search is the query
/// that is given, behind the constraints that are given apart from it.
pub proof fn request_is_taken_as_given(
    offset: usize,
    text: Seq<char>,
    secs: u64,
    params: GrepParams<Seq<char>>,
)
    ensures
        page_start(Some(offset)) == offset,
        page_start(None) == 0,
        text_or_empty(Some(text)) == text,
        text_or_empty(None) == Seq::<char>::empty(),
        clock_secs(Some(secs)) == secs,
        clock_secs(None) == 0,
        params.constraints is None ==> full_query(params) == params.query,
        params.constraints matches Some(constraints) ==> full_query(params)
            == if constraints.len() == 0 {
            params.query
        } else {
            constraints + seq![' '] + params.query
        },
{
    if let Some(constraints) = params.constraints {
        assert(constraints.push(' ') + params.query =~= constraints + seq![' '] + params.query);
    }
}

/// A request that waits goes on if and only if the index is known not to be
/// built any more, even where its time is up. Else it gives up if and only if
/// its time is up, and looks again a twentieth of a second later before that.
pub proof fn waiting_ends(scan_active: Option<bool>, waited: u128, timeout: u128)
    ensures
        ({
            let step = poll_step(scan_active, waited, timeout);
            let complete = scan_active is Some && !scan_active->0;
            &&& step is Ready <==> complete
            &&& step is TimedOut <==> !complete && waited >= timeout
            &&& step is Sleep <==> !complete && waited < timeout
            &&& step matches ScanStep::Sleep { millis } ==> 20 * millis == 1000
        }),
{
}

/// A search is asked for what its parameters hold: their query, behind the
/// constraints of a content search, or their patterns and constraints; twenty
/// results where they give no limit above zero; the context that they give; and
/// the page that the cursor was found to stand for, or the first one. A content
/// search is by regular expression if and only if its query looks like one.
pub proof fn parameters_are_asked_for(
    find: FindFilesParams<Seq<char>>,
    grep: GrepParams<Seq<char>>,
    multi: MultiGrepParams<Seq<char>, Seq<Seq<char>>>,
    regex: bool,
    cursor: Option<usize>,
    output_mode: OutputMode,
)
    ensures
        ({
            let asked = find_request(find, cursor);
            &&& asked.query == find.query
            &&& asked.max_results == max_results_of(find.max_results, 20)
            &&& cursor is None ==> asked.page_offset == 0
            &&& cursor matches Some(offset) ==> asked.page_offset == offset
        }),
        ({
            let asked = grep_request(grep, regex, cursor, output_mode);
            &&& grep.constraints is None || grep.constraints->0.len() == 0 ==> asked.query
                == grep.query
            &&& grep.constraints is Some && grep.constraints->0.len() > 0 ==> asked.query
                == grep.constraints->0 + seq![' '] + grep.query
            &&& asked.mode is Regex <==> regex
            &&& asked.mode is PlainText <==> !regex
            &&& asked.max_results == max_results_of(grep.max_results, 20)
            &&& asked.output_mode == output_mode
            &&& asked.context == context_of(grep.context)
            &&& cursor is None ==> asked.file_offset == 0
            &&& cursor matches Some(offset) ==> asked.file_offset == offset
        }),
        ({
            let asked = multi_grep_request(multi, cursor, output_mode);
            &&& asked.patterns == multi.patterns
            &&& multi.constraints is None ==> asked.constraints.len() == 0
            &&& multi.constraints matches Some(constraints) ==> asked.constraints == constraints
            &&& asked.max_results == max_results_of(multi.max_results, 20)
            &&& asked.output_mode == output_mode
            &&& asked.context == context_of(multi.context)
            &&& cursor is None ==> asked.file_offset == 0
            &&& cursor matches Some(offset) ==> asked.file_offset == offset
        }),
{
    if let Some(constraints) = grep.constraints {
        assert(constraints.push(' ') + grep.query =~= constraints + seq![' '] + grep.query);
    }
}

} // verus!
