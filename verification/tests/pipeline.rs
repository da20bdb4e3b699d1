use tc_logsave::api::{DownloadL7Logs, DownloadL7LogsRes, L7OfflineLog};
use tc_logsave::calendar::{derive_dates, Date, UtcOffset, MAX_DAY, MIN_DAY};
use tc_logsave::pipeline::{Context, DayAction, DayError, DayEvent, DayState, PAGE_LIMIT};
use tc_logsave::segment::{FetchResult, SegmentError, SegmentOutcome};

const SAMPLE_BODY: [u8; 43] = [
    31, 139, 8, 8, 128, 9, 151, 102, 0, 3, 115, 101, 103, 46, 108, 111, 103, 0, 203, 201, 204, 75,
    85, 200, 207, 75, 229, 202, 1, 49, 74, 202, 243, 185, 0, 139, 215, 244, 117, 18, 0, 0, 0,
];

fn context() -> Context {
    Context::new("zone-1".to_string(), UtcOffset::from_hours(8).unwrap())
}

fn day(n: i32) -> Date {
    Date::from_days(739_084 + n).unwrap()
}

fn segment(n: u64) -> L7OfflineLog {
    L7OfflineLog {
        domain: "www.example.com".to_string(),
        area: "mainland".to_string(),
        log_packet_name: format!("p{n}.log.gz"),
        url: format!("https://logs.example.com/p{n}.log.gz?sign=s{n}"),
        log_time: 1_721_174_400 + n,
        log_start_time: "2024-07-17T00:00:00+08:00".to_string(),
        log_end_time: "2024-07-17T00:59:59+08:00".to_string(),
        size: 43,
    }
}

fn response(count: u64) -> DownloadL7LogsRes {
    DownloadL7LogsRes { total_count: count as u32, data: (0..count).map(segment).collect() }
}

fn good_body() -> FetchResult {
    FetchResult::Answered { status: 200, body: SAMPLE_BODY.to_vec() }
}

fn answered(res: DownloadL7LogsRes) -> DayEvent {
    DayEvent::QueryAnswered { status: 200, response: Some(res) }
}

fn iterating(count: u64) -> (DayState, DayAction) {
    let ctx = context();
    let (state, _) = ctx.handle_a_day(day(0), DayState::BuildWindow, DayEvent::Start);
    let (state, _) = ctx.handle_a_day(day(0), state, answered(response(count)));
    ctx.handle_a_day(day(0), state, DayEvent::ArchiveOpened)
}

#[test]
fn context_asks_with_the_fixed_page_limit() {
    assert_eq!(PAGE_LIMIT, 300);
    let ctx = context();
    assert_eq!(ctx.max_limit, 300);
    assert_eq!(ctx.zone_id, "zone-1");
    assert_eq!(ctx.time_zone.seconds(), 28_800);
}

#[test]
fn query_covers_the_day_at_the_offset() {
    let query = context().query_for(day(0)).unwrap();
    assert_eq!(
        query,
        DownloadL7Logs {
            start_time: "2024-07-17T00:00:00+08:00".to_string(),
            end_time: "2024-07-17T23:59:00+08:00".to_string(),
            zone_ids: vec!["zone-1".to_string()],
            domains: None,
            limit: 300,
            offset: 0,
        }
    );
}

#[test]
fn query_between_two_texts_asks_for_the_first_page_of_the_zone() {
    let query = context().query_between("from".to_string(), "to".to_string());
    assert_eq!(
        query,
        DownloadL7Logs {
            start_time: "from".to_string(),
            end_time: "to".to_string(),
            zone_ids: vec!["zone-1".to_string()],
            domains: None,
            limit: 300,
            offset: 0,
        }
    );
}

#[test]
fn a_range_without_days_asks_for_nothing() {
    assert!(derive_dates(day(0), day(0)).is_empty());
    assert!(derive_dates(day(1), day(0)).is_empty());
}

#[test]
fn start_asks_for_the_query() {
    let (state, action) = context().handle_a_day(day(0), DayState::BuildWindow, DayEvent::Start);
    assert!(matches!(state, DayState::Query));
    match action {
        DayAction::Query(query) => assert_eq!(query, context().query_for(day(0)).unwrap()),
        other => panic!("unexpected action {other:?}"),
    }
}

#[test]
fn response_within_the_limit_asks_for_the_archive() {
    let ctx = context();
    let (state, action) =
        ctx.handle_a_day(day(0), DayState::Query, answered(response(2)));
    match state {
        DayState::OpenArchive { segments } => assert_eq!(segments, response(2).data),
        other => panic!("unexpected state {other:?}"),
    }
    match action {
        DayAction::CreateArchive { name } => assert_eq!(name, "20240717-zone-1.xz"),
        other => panic!("unexpected action {other:?}"),
    }
}

#[test]
fn total_count_at_the_limit_is_accepted() {
    let mut res = response(1);
    res.total_count = 300;
    let (state, _) = context().handle_a_day(day(0), DayState::Query, answered(res));
    assert!(matches!(state, DayState::OpenArchive { .. }));
}

#[test]
fn total_count_over_the_limit_is_fatal() {
    let mut res = response(1);
    res.total_count = 301;
    let (state, action) =
        context().handle_a_day(day(0), DayState::Query, answered(res));
    let error = DayError::PaginationRequired { total_count: 301, limit: 300 };
    assert!(matches!(state, DayState::Failed(e) if e == error));
    assert!(matches!(action, DayAction::Abort(e) if e == error));
}

#[test]
fn failed_query_is_fatal_with_its_status() {
    for status in [199u16, 300, 403, 500] {
        let (state, action) = context().handle_a_day(
            day(0),
            DayState::Query,
            DayEvent::QueryAnswered { status, response: None },
        );
        let error = DayError::QueryFailed { status: Some(status) };
        assert!(matches!(state, DayState::Failed(e) if e == error));
        assert!(matches!(action, DayAction::Abort(e) if e == error));
    }
}

#[test]
fn failed_query_is_fatal_even_with_a_page_in_its_body() {
    let (state, _) = context().handle_a_day(
        day(0),
        DayState::Query,
        DayEvent::QueryAnswered { status: 403, response: Some(response(1)) },
    );
    assert!(matches!(state, DayState::Failed(DayError::QueryFailed { status: Some(403) })));
}

#[test]
fn unanswered_query_is_fatal_without_a_status() {
    let (state, action) =
        context().handle_a_day(day(0), DayState::Query, DayEvent::QueryUnanswered);
    assert!(matches!(state, DayState::Failed(DayError::QueryFailed { status: None })));
    assert!(matches!(action, DayAction::Abort(DayError::QueryFailed { status: None })));
}

#[test]
fn malformed_response_is_fatal() {
    for status in [200u16, 299] {
        let (state, action) = context().handle_a_day(
            day(0),
            DayState::Query,
            DayEvent::QueryAnswered { status, response: None },
        );
        assert!(matches!(state, DayState::Failed(DayError::MalformedResponse)));
        assert!(matches!(action, DayAction::Abort(DayError::MalformedResponse)));
    }
}

#[test]
fn existing_archive_is_fatal_and_nothing_is_written() {
    let ctx = context();
    let (state, _) = ctx.handle_a_day(day(0), DayState::Query, answered(response(2)));
    let (mut state, action) = ctx.handle_a_day(day(0), state, DayEvent::ArchiveExists);
    assert!(matches!(state, DayState::Failed(DayError::ArchiveExists)));
    assert!(matches!(action, DayAction::Abort(DayError::ArchiveExists)));
    let events = vec![
        DayEvent::Start,
        DayEvent::ArchiveOpened,
        DayEvent::Fetched(good_body()),
        DayEvent::Written,
        answered(response(1)),
    ];
    for event in events {
        let (next, action) = ctx.handle_a_day(day(0), state, event);
        assert!(matches!(next, DayState::Failed(DayError::ArchiveExists)));
        assert!(matches!(action, DayAction::Abort(DayError::ArchiveExists)));
        state = next;
    }
}

#[test]
fn archive_that_cannot_be_created_is_fatal() {
    let ctx = context();
    let (state, _) = ctx.handle_a_day(day(0), DayState::Query, answered(response(2)));
    let (state, action) = ctx.handle_a_day(day(0), state, DayEvent::ArchiveFailed);
    assert!(matches!(state, DayState::Failed(DayError::ArchiveFailed)));
    assert!(matches!(action, DayAction::Abort(DayError::ArchiveFailed)));
}

#[test]
fn opened_archive_asks_for_the_first_segment() {
    let (state, action) = iterating(2);
    match state {
        DayState::IterateSegments { segments, next, archive } => {
            assert_eq!(segments.len(), 2);
            assert_eq!(next, 0);
            assert_eq!(archive.len(), 0);
        }
        other => panic!("unexpected state {other:?}"),
    }
    match action {
        DayAction::Fetch { url } => {
            assert_eq!(url, "https://logs.example.com/p0.log.gz?sign=s0")
        }
        other => panic!("unexpected action {other:?}"),
    }
}

#[test]
fn day_without_segments_writes_an_empty_archive() {
    let ctx = context();
    let (state, action) = iterating(0);
    assert!(matches!(state, DayState::Finalize));
    match action {
        DayAction::Write { archive } => {
            assert_eq!(archive.len(), 0);
            assert!(archive.content().is_empty());
        }
        other => panic!("unexpected action {other:?}"),
    }
    let (state, action) = ctx.handle_a_day(day(0), state, DayEvent::Written);
    assert!(matches!(state, DayState::Done));
    assert!(matches!(action, DayAction::Finish));
}

#[test]
fn failed_segments_are_recorded_and_the_day_completes() {
    let ctx = context();
    let (mut state, mut action) = iterating(5);
    let fetches = vec![
        good_body(),
        FetchResult::Answered { status: 404, body: Vec::new() },
        good_body(),
        FetchResult::Unanswered,
        good_body(),
    ];
    let mut asked = Vec::new();
    for fetched in fetches {
        match action {
            DayAction::Fetch { url } => asked.push(url),
            other => panic!("unexpected action {other:?}"),
        }
        let (next, then) = ctx.handle_a_day(day(0), state, DayEvent::Fetched(fetched));
        state = next;
        action = then;
    }
    let urls: Vec<String> = (0..5).map(|n| segment(n).url).collect();
    assert_eq!(asked, urls);
    assert!(matches!(state, DayState::Finalize));
    let archive = match action {
        DayAction::Write { archive } => archive,
        other => panic!("unexpected action {other:?}"),
    };
    assert_eq!(archive.len(), 5);
    let failed: Vec<bool> =
        archive.outcomes().iter().map(|o| matches!(o, SegmentOutcome::Failed { .. })).collect();
    assert_eq!(failed, vec![false, true, false, true, false]);
    assert_eq!(archive.outcomes()[1], SegmentOutcome::Failed { status: Some(404) });
    assert_eq!(archive.outcomes()[3], SegmentOutcome::Failed { status: None });
    let text = String::from_utf8(archive.content().clone()).unwrap();
    let lines: Vec<&str> = text.lines().collect();
    assert_eq!(lines.len(), 5 * 2 + 3 * 2);
    assert!(lines[0].contains("\"LogPacketName\":\"p0.log.gz\""));
    assert_eq!(lines[1], "line one");
    assert_eq!(lines[2], "line two");
    assert!(lines[3].starts_with("{\"type\":\"Ok\""));
    assert!(lines[4].contains("\"LogPacketName\":\"p1.log.gz\""));
    assert_eq!(lines[5], "{\"type\":\"Err\",\"status\":404}");
    assert!(lines[10].contains("\"LogPacketName\":\"p3.log.gz\""));
    assert_eq!(lines[11], "{\"type\":\"Err\",\"status\":null}");
    let (state, action) = ctx.handle_a_day(day(0), state, DayEvent::Written);
    assert!(matches!(state, DayState::Done));
    assert!(matches!(action, DayAction::Finish));
}

#[test]
fn a_segment_in_another_format_is_fatal() {
    let ctx = context();
    let (state, _) = iterating(3);
    let (state, _) = ctx.handle_a_day(
        day(0),
        state,
        DayEvent::Fetched(FetchResult::Answered { status: 500, body: Vec::new() }),
    );
    let (state, action) = ctx.handle_a_day(
        day(0),
        state,
        DayEvent::Fetched(FetchResult::Answered { status: 200, body: b"not gzip".to_vec() }),
    );
    let error = DayError::Segment { index: 1, error: SegmentError::Corrupt };
    assert!(matches!(state, DayState::Failed(e) if e == error));
    assert!(matches!(action, DayAction::Abort(e) if e == error));
}

#[test]
fn failed_write_is_fatal() {
    let (state, action) =
        context().handle_a_day(day(0), DayState::Finalize, DayEvent::WriteFailed);
    assert!(matches!(state, DayState::Failed(DayError::ArchiveFailed)));
    assert!(matches!(action, DayAction::Abort(DayError::ArchiveFailed)));
}

#[test]
fn an_event_that_answers_nothing_is_fatal() {
    let ctx = context();
    let (state, action) = ctx.handle_a_day(day(0), DayState::BuildWindow, DayEvent::Written);
    assert!(matches!(state, DayState::Failed(DayError::UnexpectedEvent)));
    assert!(matches!(action, DayAction::Abort(DayError::UnexpectedEvent)));
    let (state, _) = ctx.handle_a_day(day(0), DayState::Query, DayEvent::Start);
    assert!(matches!(state, DayState::Failed(DayError::UnexpectedEvent)));
    let (state, _) = ctx.handle_a_day(day(0), DayState::Finalize, DayEvent::ArchiveOpened);
    assert!(matches!(state, DayState::Failed(DayError::UnexpectedEvent)));
    let (state, _) = ctx.handle_a_day(day(0), DayState::Done, DayEvent::Start);
    assert!(matches!(state, DayState::Failed(DayError::UnexpectedEvent)));
    let (state, _) = iterating(1);
    let (state, _) = ctx.handle_a_day(day(0), state, DayEvent::ArchiveOpened);
    assert!(matches!(state, DayState::Failed(DayError::UnexpectedEvent)));
}

#[test]
fn a_date_whose_window_leaves_the_calendar_fails() {
    let west = Context::new("zone-1".to_string(), UtcOffset::from_hours(-5).unwrap());
    let last = Date::from_days(MAX_DAY).unwrap();
    assert!(west.query_for(last).is_none());
    let (state, action) = west.handle_a_day(last, DayState::BuildWindow, DayEvent::Start);
    assert!(matches!(state, DayState::Failed(DayError::NoWindow)));
    assert!(matches!(action, DayAction::Abort(DayError::NoWindow)));
    let first = Date::from_days(MIN_DAY).unwrap();
    let (state, action) = context().handle_a_day(first, DayState::BuildWindow, DayEvent::Start);
    assert!(matches!(state, DayState::Failed(DayError::NoWindow)));
    assert!(matches!(action, DayAction::Abort(DayError::NoWindow)));
}

#[test]
fn two_days_give_two_archives() {
    let ctx = context();
    let dates = derive_dates(day(0), day(2));
    assert_eq!(dates.len(), 2);
    let mut names = Vec::new();
    let mut windows = Vec::new();
    let mut sizes = Vec::new();
    for (n, date) in dates.into_iter().enumerate() {
        let (state, action) = ctx.handle_a_day(date, DayState::BuildWindow, DayEvent::Start);
        match action {
            DayAction::Query(query) => {
                assert_eq!(query.zone_ids, vec!["zone-1".to_string()]);
                assert_eq!(query.limit, 300);
                assert_eq!(query.offset, 0);
                windows.push((query.start_time, query.end_time));
            }
            other => panic!("unexpected action {other:?}"),
        }
        let count = n as u64 + 1;
        let (state, action) = ctx.handle_a_day(date, state, answered(response(count)));
        match action {
            DayAction::CreateArchive { name } => names.push(name),
            other => panic!("unexpected action {other:?}"),
        }
        let (mut state, mut action) = ctx.handle_a_day(date, state, DayEvent::ArchiveOpened);
        while let DayAction::Fetch { .. } = action {
            let fetched = DayEvent::Fetched(good_body());
            let (next, then) = ctx.handle_a_day(date, state, fetched);
            state = next;
            action = then;
        }
        match action {
            DayAction::Write { archive } => sizes.push(archive.len()),
            other => panic!("unexpected action {other:?}"),
        }
        let (state, _) = ctx.handle_a_day(date, state, DayEvent::Written);
        assert!(matches!(state, DayState::Done));
    }
    assert_eq!(names, vec!["20240717-zone-1.xz".to_string(), "20240718-zone-1.xz".to_string()]);
    assert_eq!(
        windows,
        vec![
            ("2024-07-17T00:00:00+08:00".to_string(), "2024-07-17T23:59:00+08:00".to_string()),
            ("2024-07-18T00:00:00+08:00".to_string(), "2024-07-18T23:59:00+08:00".to_string()),
        ]
    );
    assert_eq!(sizes, vec![1, 2]);
}
