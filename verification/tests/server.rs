use fff_mcp::find::FindStep;
use fff_mcp::grep::GrepStep;
use fff_mcp::multi_grep::MultiGrepStep;
use fff_mcp::number::Binary64;
use fff_mcp::options::{GrepMode, OutputMode};
use fff_mcp::params::{FindFilesParams, GrepParams, MultiGrepParams};
use fff_mcp::server::{
    FffServer, SCAN_READY_TIMEOUT_SECS, ScanStep, now_secs, write_scan_timeout_message,
};

fn number(v: f64) -> Option<Binary64> {
    Some(Binary64::from_bits(v.to_bits()))
}

fn grep_params(query: &str, constraints: Option<&str>) -> GrepParams {
    GrepParams {
        query: query.to_string(),
        max_results: number(2.6),
        cursor: None,
        output_mode: None,
        constraints: constraints.map(|s| s.to_string()),
        context: number(1e9),
    }
}

#[test]
fn activity_is_noted() {
    let mut server = FffServer::new(now_secs(Some(5)));
    assert_eq!(server.last_activity(), 5);
    server.bump_activity(now_secs(Some(9)));
    assert_eq!(server.last_activity(), 9);
    assert_eq!(now_secs(None), 0);
    assert!(!server.scan_ready && !server.update_notice_sent);
}

#[test]
fn requests_wait_for_the_index() {
    let mut server = FffServer::new(0);
    assert_eq!(SCAN_READY_TIMEOUT_SECS, 30);
    assert_eq!(server.wait_for_scan(), ScanStep::Poll);
    assert_eq!(server.poll_scan(Some(true), 0, 30), ScanStep::Sleep { millis: 50 });
    assert_eq!(server.poll_scan(None, 29, 30), ScanStep::Sleep { millis: 50 });
    assert_eq!(server.poll_scan(Some(true), 30, 30), ScanStep::TimedOut);
    assert_eq!(server.wait_for_scan(), ScanStep::Poll);
    assert_eq!(server.poll_scan(Some(false), 31, 30), ScanStep::Ready);
    assert_eq!(server.wait_for_scan(), ScanStep::Ready);
    assert_eq!(server.poll_scan(Some(true), 99, 30), ScanStep::TimedOut);
    assert_eq!(server.wait_for_scan(), ScanStep::Ready);
    assert_eq!(write_scan_timeout_message(), "Index is still building; retry shortly");
}

#[test]
fn activity_is_that_of_the_latest_request() {
    let mut server = FffServer::new(1);
    assert_eq!(server.begin_request(7), ScanStep::Poll);
    assert_eq!(server.last_activity(), 7);
    assert_eq!(server.poll_scan(Some(true), 30, 30), ScanStep::TimedOut);
    assert_eq!(server.last_activity(), 7);
    assert_eq!(server.begin_request(9), ScanStep::Poll);
    assert_eq!(server.poll_scan(Some(false), 0, 30), ScanStep::Ready);
    assert_eq!(server.answer("a".to_string(), true, ""), vec!["a"]);
    assert_eq!(server.last_activity(), 9);
    assert_eq!(server.begin_request(8), ScanStep::Ready);
    assert_eq!(server.last_activity(), 8);
}

#[test]
fn answers_carry_the_notice_where_they_may() {
    let mut server = FffServer::new(0);
    assert_eq!(server.answer("none".to_string(), false, "update!"), vec!["none"]);
    assert_eq!(server.answer("early".to_string(), true, ""), vec!["early"]);
    assert!(!server.update_notice_sent);
    assert_eq!(server.answer("files".to_string(), true, "update!"), vec!["files", "update!"]);
    assert!(server.update_notice_sent);
    assert_eq!(server.answer("more".to_string(), true, "update!"), vec!["more"]);
}

#[test]
fn update_notice_is_sent_once() {
    let mut server = FffServer::new(0);
    let mut content = vec!["answer".to_string()];
    server.maybe_append_update_notice("", &mut content);
    assert_eq!(content, vec!["answer"]);
    server.maybe_append_update_notice("update!", &mut content);
    assert_eq!(content, vec!["answer", "update!"]);
    server.maybe_append_update_notice("update!", &mut content);
    assert_eq!(content, vec!["answer", "update!"]);
}

#[test]
fn instructions_carry_the_notice() {
    assert_eq!(FffServer::instructions("Use grep.", ""), "Use grep.");
    assert_eq!(FffServer::instructions("Use grep.", " Update!"), "Use grep. Update!");
}

#[test]
fn grep_starts_with_merged_constraints() {
    let server = FffServer::new(0);
    let params = grep_params("def show", Some("*.rs"));
    assert_eq!(FffServer::grep_query(&params), "*.rs def show");
    assert_eq!(FffServer::grep_query(&grep_params("def show", None)), "def show");
    let session = server.grep(params, true, Some(4), OutputMode::Content);
    assert_eq!(session.request.query, "*.rs def show");
    assert_eq!(session.request.mode, GrepMode::Regex);
    assert_eq!(session.request.max_results, 3);
    assert_eq!(session.request.context, Some(100));
    assert_eq!(session.request.file_offset, 4);
    assert!(matches!(session.step, GrepStep::Search { .. }));
    let session = server.grep(grep_params("x", None), false, None, OutputMode::Usage);
    assert_eq!(session.request.mode, GrepMode::PlainText);
    assert_eq!(session.request.file_offset, 0);
}

#[test]
fn other_tools_start_with_defaults() {
    let server = FffServer::new(0);
    let session = server.find_files(
        FindFilesParams { query: "main".to_string(), max_results: None, cursor: None },
        Some(20),
    );
    assert_eq!(session.request.max_results, 20);
    assert_eq!(session.request.page_offset, 20);
    assert!(matches!(session.step, FindStep::Search { .. }));

    let session = server.multi_grep(
        MultiGrepParams {
            patterns: vec!["a".to_string()],
            constraints: None,
            max_results: number(0.0),
            cursor: None,
            output_mode: None,
            context: number(-1.0),
        },
        None,
        OutputMode::FilesWithMatches,
    );
    assert_eq!(session.request.patterns, vec!["a"]);
    assert_eq!(session.request.constraints, "");
    assert_eq!(session.request.max_results, 20);
    assert_eq!(session.request.context, None);
    assert!(matches!(session.step, MultiGrepStep::Search { .. }));
}
