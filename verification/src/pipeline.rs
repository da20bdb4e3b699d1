//! The pipeline of one day, as a state machine.
//!
//! The machine decides; it performs nothing. `Context::handle_a_day` takes
//! the state of a day and the event that the caller has just observed, and
//! returns the next state and the action that the caller is to perform next.
//! The caller sends the query, creates the archive file, fetches the
//! segments and writes the archive, and reports each result as the next
//! event.
//!
//! A day runs `BuildWindow`, `Query`, `OpenArchive`, `IterateSegments` once
//! for each segment, `Finalize`, `Done`. Any failure but that of fetching a
//! segment ends it in `Failed`, from which it never leaves.

use crate::api::{DownloadL7Logs, DownloadL7LogsRes, L7OfflineLog, QueryView};
use crate::archive::{
    appended, archive_name, archive_name_text, empty_archive, ArchiveView, ArchiveWriter,
};
use crate::calendar::{compact_date_text, day_window, window_text, Date, UtcOffset};
use crate::segment::{
    fetch_failed, handle_a_segment, is_success, segment_record, status_is_success, FetchResult,
    FetchView, OutcomeView, SegmentError,
};
use vstd::prelude::*;
use vstd::string::*;

verus! {

/// The page limit that the pipeline asks with. A day with more segments
/// than this cannot be archived whole, and is refused.
pub const PAGE_LIMIT: u32 = 300;

/// What stays the same for all the days of a run.
#[derive(Clone, Debug)]
pub struct Context {
    /// The fixed offset from UTC in which a day is a day.
    pub time_zone: UtcOffset,
    /// The page limit of each query.
    pub max_limit: u32,
    /// The zone whose logs are archived.
    pub zone_id: String,
}

/// A `Context` as a value of specifications.
pub ghost struct ContextView {
    pub time_zone: int,
    pub max_limit: u32,
    pub zone_id: Seq<char>,
}

impl View for Context {
    type V = ContextView;

    open spec fn view(&self) -> ContextView {
        ContextView {
            time_zone: self.time_zone@,
            max_limit: self.max_limit,
            zone_id: self.zone_id@,
        }
    }
}

/// Why a day failed.
#[derive(Clone, Copy, Debug, PartialEq, Eq)]
pub enum DayError {
    /// The date has no window at the configured offset.
    NoWindow,
    /// The query was not answered (no status), or answered with a status
    /// that is not a success.
    QueryFailed { status: Option<u16> },
    /// The answer to the query could not be decoded.
    MalformedResponse,
    /// More segments match the query than one page holds. Pages after the
    /// first are never asked for, so the day would be archived in part.
    PaginationRequired { total_count: u32, limit: u32 },
    /// The archive of this day and zone exists already.
    ArchiveExists,
    /// The archive could not be created or written.
    ArchiveFailed,
    /// The segment at `index` is not in the export format.
    Segment { index: usize, error: SegmentError },
    /// The event does not answer the action that was asked for.
    UnexpectedEvent,
}

/// Where a day stands.
#[derive(Debug)]
pub enum DayState {
    /// Nothing was done yet.
    BuildWindow,
    /// The query was asked for.
    Query,
    /// Creating the archive was asked for.
    OpenArchive { segments: Vec<L7OfflineLog> },
    /// Fetching the segment at `next` was asked for.
    IterateSegments { segments: Vec<L7OfflineLog>, next: usize, archive: ArchiveWriter },
    /// Writing the archive was asked for.
    Finalize,
    /// The archive is written.
    Done,
    /// The day has failed.
    Failed(DayError),
}

/// A `DayState` as a value of specifications.
pub ghost enum StateView {
    BuildWindow,
    Query,
    OpenArchive { segments: Seq<L7OfflineLog> },
    IterateSegments { segments: Seq<L7OfflineLog>, next: usize, archive: ArchiveView },
    Finalize,
    Done,
    Failed(DayError),
}

impl View for DayState {
    type V = StateView;

    open spec fn view(&self) -> StateView {
        match *self {
            DayState::BuildWindow => StateView::BuildWindow,
            DayState::Query => StateView::Query,
            DayState::OpenArchive { segments } => StateView::OpenArchive { segments: segments@ },
            DayState::IterateSegments { segments, next, archive } => StateView::IterateSegments {
                segments: segments@,
                next,
                archive: archive@,
            },
            DayState::Finalize => StateView::Finalize,
            DayState::Done => StateView::Done,
            DayState::Failed(e) => StateView::Failed(e),
        }
    }
}

/// What the caller observed when it performed the last action.
#[derive(Debug)]
pub enum DayEvent {
    /// The day is to begin.
    Start,
    /// The query was answered with this status. `response` is what the
    /// body holds, or `None` where the body is not the JSON that was
    /// expected or was not read.
    QueryAnswered { status: u16, response: Option<DownloadL7LogsRes> },
    /// The query failed in transport: there is no response.
    QueryUnanswered,
    /// The archive file was created, and did not exist before.
    ArchiveOpened,
    /// The archive file exists already.
    ArchiveExists,
    /// The archive file could not be created for another reason.
    ArchiveFailed,
    /// The request for a segment has ended, well or not.
    Fetched(FetchResult),
    /// The archive is written and closed.
    Written,
    /// The archive could not be written.
    WriteFailed,
}

/// A `DayEvent` as a value of specifications.
pub ghost enum EventView {
    Start,
    QueryAnswered { status: u16, response: Option<PageView> },
    QueryUnanswered,
    ArchiveOpened,
    ArchiveExists,
    ArchiveFailed,
    Fetched(FetchView),
    Written,
    WriteFailed,
}

/// One page of segments as a value of specifications: the count of all
/// segments that match, and the segments on the page.
pub ghost struct PageView {
    pub total_count: u32,
    pub data: Seq<L7OfflineLog>,
}

/// A page that may be missing, as a value of specifications.
pub open spec fn page_of(response: Option<DownloadL7LogsRes>) -> Option<PageView> {
    match response {
        Some(res) => Some(PageView { total_count: res.total_count, data: res.data@ }),
        None => None,
    }
}

impl View for DayEvent {
    type V = EventView;

    open spec fn view(&self) -> EventView {
        match *self {
            DayEvent::Start => EventView::Start,
            DayEvent::QueryAnswered { status, response } => EventView::QueryAnswered {
                status,
                response: page_of(response),
            },
            DayEvent::QueryUnanswered => EventView::QueryUnanswered,
            DayEvent::ArchiveOpened => EventView::ArchiveOpened,
            DayEvent::ArchiveExists => EventView::ArchiveExists,
            DayEvent::ArchiveFailed => EventView::ArchiveFailed,
            DayEvent::Fetched(fetched) => EventView::Fetched(fetched@),
            DayEvent::Written => EventView::Written,
            DayEvent::WriteFailed => EventView::WriteFailed,
        }
    }
}

/// What the caller is to do next.
#[derive(Debug)]
pub enum DayAction {
    /// Sign and send this query.
    Query(DownloadL7Logs),
    /// Create the archive file of this name; it must not exist yet.
    CreateArchive { name: String },
    /// Fetch this URL with a plain GET.
    Fetch { url: String },
    /// Compress the archive, write it to the file and close the file.
    Write { archive: ArchiveWriter },
    /// Nothing: the day is complete.
    Finish,
    /// Nothing: the day has failed.
    Abort(DayError),
}

/// A `DayAction` as a value of specifications.
pub ghost enum ActionView {
    Query(QueryView),
    CreateArchive { name: Seq<char> },
    Fetch { url: Seq<char> },
    Write { archive: ArchiveView },
    Finish,
    Abort(DayError),
}

impl View for DayAction {
    type V = ActionView;

    open spec fn view(&self) -> ActionView {
        match *self {
            DayAction::Query(query) => ActionView::Query(query@),
            DayAction::CreateArchive { name } => ActionView::CreateArchive { name: name@ },
            DayAction::Fetch { url } => ActionView::Fetch { url: url@ },
            DayAction::Write { archive } => ActionView::Write { archive: archive@ },
            DayAction::Finish => ActionView::Finish,
            DayAction::Abort(e) => ActionView::Abort(e),
        }
    }
}

/// The day fails with `error`.
pub open spec fn fail(error: DayError) -> (StateView, ActionView) {
    (StateView::Failed(error), ActionView::Abort(error))
}

/// The query for one day: the window from `start_time` to `end_time`, the
/// one zone, no domain filter, the first page.
pub open spec fn day_query(context: ContextView, start_time: Seq<char>, end_time: Seq<char>) -> QueryView {
    QueryView {
        start_time,
        end_time,
        zone_ids: seq![context.zone_id],
        domains: None,
        limit: context.max_limit,
        offset: 0,
    }
}

/// With the segments before `next` in the archive: fetch the segment at
/// `next`, or, where there is none left, write the archive.
pub open spec fn proceed(segments: Seq<L7OfflineLog>, next: usize, archive: ArchiveView) -> (
    StateView,
    ActionView,
) {
    if next < segments.len() {
        (
            StateView::IterateSegments { segments, next, archive },
            ActionView::Fetch { url: segments[next as int].url@ },
        )
    } else {
        (StateView::Finalize, ActionView::Write { archive })
    }
}

/// The transition of the machine: the state after `event` was observed in
/// `state`, and the action to perform then.
pub open spec fn next_step(context: ContextView, date: int, state: StateView, event: EventView) -> (
    StateView,
    ActionView,
) {
    match state {
        StateView::Failed(error) => fail(error),
        StateView::BuildWindow => match event {
            EventView::Start => match window_text(date, context.time_zone) {
                Some((start_time, end_time)) => (
                    StateView::Query,
                    ActionView::Query(day_query(context, start_time, end_time)),
                ),
                None => fail(DayError::NoWindow),
            },
            _ => fail(DayError::UnexpectedEvent),
        },
        StateView::Query => match event {
            EventView::QueryAnswered { status, response } => if !is_success(status) {
                fail(DayError::QueryFailed { status: Some(status) })
            } else {
                match response {
                    None => fail(DayError::MalformedResponse),
                    Some(page) => if page.total_count > context.max_limit {
                        fail(
                            DayError::PaginationRequired {
                                total_count: page.total_count,
                                limit: context.max_limit,
                            },
                        )
                    } else {
                        (
                            StateView::OpenArchive { segments: page.data },
                            ActionView::CreateArchive {
                                name: archive_name_text(
                                    context.zone_id,
                                    compact_date_text(date)->0,
                                ),
                            },
                        )
                    },
                }
            },
            EventView::QueryUnanswered => fail(DayError::QueryFailed { status: None }),
            _ => fail(DayError::UnexpectedEvent),
        },
        StateView::OpenArchive { segments } => match event {
            EventView::ArchiveOpened => proceed(segments, 0, empty_archive()),
            EventView::ArchiveExists => fail(DayError::ArchiveExists),
            EventView::ArchiveFailed => fail(DayError::ArchiveFailed),
            _ => fail(DayError::UnexpectedEvent),
        },
        StateView::IterateSegments { segments, next, archive } => match event {
            EventView::Fetched(fetched) => if next < segments.len() {
                match segment_record(&segments[next as int], fetched) {
                    Ok((outcome, bytes)) => proceed(
                        segments,
                        (next + 1) as usize,
                        appended(archive, outcome, bytes),
                    ),
                    Err(error) => fail(DayError::Segment { index: next, error }),
                }
            } else {
                fail(DayError::UnexpectedEvent)
            },
            _ => fail(DayError::UnexpectedEvent),
        },
        StateView::Finalize => match event {
            EventView::Written => (StateView::Done, ActionView::Finish),
            EventView::WriteFailed => fail(DayError::ArchiveFailed),
            _ => fail(DayError::UnexpectedEvent),
        },
        StateView::Done => fail(DayError::UnexpectedEvent),
    }
}

/// The state after a sequence of events, observed one after the other from
/// `state` on, and the actions that were asked for on the way.
#[verifier::opaque]
pub open spec fn run(context: ContextView, date: int, state: StateView, events: Seq<EventView>) -> (
    StateView,
    Seq<ActionView>,
)
    decreases events.len(),
{
    if events.len() == 0 {
        (state, Seq::empty())
    } else {
        let (before, actions) = run(context, date, state, events.drop_last());
        let (after, action) = next_step(context, date, before, events.last());
        (after, actions.push(action))
    }
}

/// The events of fetching some segments, in order.
pub open spec fn fetched_events(fetches: Seq<FetchView>) -> Seq<EventView> {
    Seq::new(fetches.len(), |i: int| EventView::Fetched(fetches[i]))
}

/// The archive that holds the records of the first `count` segments.
pub open spec fn day_archive(
    segments: Seq<L7OfflineLog>,
    fetches: Seq<FetchView>,
    count: nat,
) -> ArchiveView
    decreases count,
{
    if count == 0 {
        empty_archive()
    } else {
        let record = segment_record(&segments[count - 1], fetches[count - 1])->Ok_0;
        appended(day_archive(segments, fetches, (count - 1) as nat), record.0, record.1)
    }
}

/// A day that has failed stays failed: whatever is observed afterwards, the
/// state keeps the error and every action asked for is to abort with it.
pub proof fn lemma_failed_is_final(
    context: ContextView,
    date: int,
    error: DayError,
    events: Seq<EventView>,
)
    ensures
        run(context, date, StateView::Failed(error), events).0 == StateView::Failed(error),
        run(context, date, StateView::Failed(error), events).1.len() == events.len(),
        forall|i: int|
            0 <= i < events.len() ==> #[trigger] run(
                context,
                date,
                StateView::Failed(error),
                events,
            ).1[i] == ActionView::Abort(error),
    decreases events.len(),
{
    reveal(run);
    if events.len() > 0 {
        lemma_failed_is_final(context, date, error, events.drop_last());
    }
}

/// Observing one event after another is observing them all in a row.
pub proof fn lemma_run_concat(
    context: ContextView,
    date: int,
    state: StateView,
    first: Seq<EventView>,
    second: Seq<EventView>,
)
    ensures
        run(context, date, state, first + second).0 == run(
            context,
            date,
            run(context, date, state, first).0,
            second,
        ).0,
        run(context, date, state, first + second).1 == run(context, date, state, first).1 + run(
            context,
            date,
            run(context, date, state, first).0,
            second,
        ).1,
    decreases second.len(),
{
    reveal(run);
    let middle = run(context, date, state, first);
    if second.len() == 0 {
        assert(first + second =~= first);
        assert(middle.1 + run(context, date, middle.0, second).1 =~= middle.1);
    } else {
        lemma_run_concat(context, date, state, first, second.drop_last());
        assert((first + second).drop_last() =~= first + second.drop_last());
        assert((first + second).last() == second.last());
        let shorter = run(context, date, middle.0, second.drop_last());
        let step = next_step(context, date, shorter.0, second.last());
        assert((middle.1 + shorter.1).push(step.1) =~= middle.1 + shorter.1.push(step.1));
    }
}

/// Observing a single event is one transition.
pub proof fn lemma_run_one(context: ContextView, date: int, state: StateView, event: EventView)
    ensures
        run(context, date, state, seq![event]) == (
            next_step(context, date, state, event).0,
            seq![next_step(context, date, state, event).1],
        ),
{
    reveal(run);
    let events = seq![event];
    assert(events.drop_last() =~= Seq::<EventView>::empty());
    assert(run(context, date, state, events.drop_last()).1 =~= Seq::<ActionView>::empty());
    assert(events.last() == event);
    assert(Seq::<ActionView>::empty().push(next_step(context, date, state, event).1)
        =~= seq![next_step(context, date, state, event).1]);
}

/// An archive that exists already is never touched: the day fails on the
/// spot, and from then on no action is asked for but to abort. In
/// particular nothing is fetched and nothing is written.
pub proof fn lemma_existing_archive_is_never_written(
    context: ContextView,
    date: int,
    segments: Seq<L7OfflineLog>,
    later: Seq<EventView>,
)
    ensures
        next_step(context, date, StateView::OpenArchive { segments }, EventView::ArchiveExists)
            == fail(DayError::ArchiveExists),
        run(context, date, StateView::Failed(DayError::ArchiveExists), later).0
            == StateView::Failed(DayError::ArchiveExists),
        forall|i: int|
            0 <= i < later.len() ==> #[trigger] run(
                context,
                date,
                StateView::Failed(DayError::ArchiveExists),
                later,
            ).1[i] == ActionView::Abort(DayError::ArchiveExists),
{
    lemma_failed_is_final(context, date, DayError::ArchiveExists, later);
}

/// A successful answer with a total count above the page limit fails the
/// day with `PaginationRequired`, whatever the page holds: no archive is
/// asked for.
pub proof fn lemma_page_overflow_is_fatal(
    context: ContextView,
    date: int,
    status: u16,
    total_count: u32,
    data: Seq<L7OfflineLog>,
)
    requires
        is_success(status),
        total_count > context.max_limit,
    ensures
        next_step(context, date, StateView::Query, page_event(status, total_count, data)) == fail(
            DayError::PaginationRequired { total_count, limit: context.max_limit },
        ),
{
}

/// After the first `count` segments were fetched, each with a record, the
/// machine stands where `proceed` puts it with those records archived.
proof fn lemma_iteration(
    context: ContextView,
    date: int,
    segments: Seq<L7OfflineLog>,
    fetches: Seq<FetchView>,
    count: nat,
)
    requires
        segments.len() == fetches.len(),
        segments.len() <= usize::MAX,
        count <= segments.len(),
        forall|i: int|
            0 <= i < segments.len() ==> (#[trigger] segment_record(&segments[i], fetches[i])) is Ok,
    ensures
        ({
            let start = proceed(segments, 0, empty_archive());
            let end = run(context, date, start.0, fetched_events(fetches).take(count as int));
            let here = proceed(segments, count as usize, day_archive(segments, fetches, count));
            &&& end.0 == here.0
            &&& end.1.len() == count
            &&& count > 0 ==> end.1.last() == here.1
            &&& forall|i: int|
                0 <= i < count - 1 ==> #[trigger] end.1[i] == (ActionView::Fetch {
                    url: segments[i + 1].url@,
                })
        }),
        day_archive(segments, fetches, count).outcomes.len() == count,
        forall|i: int|
            0 <= i < count ==> #[trigger] day_archive(segments, fetches, count).outcomes[i]
                == segment_record(&segments[i], fetches[i])->Ok_0.0,
    decreases count,
{
    reveal(run);
    let events = fetched_events(fetches);
    if count > 0 {
        let before = (count - 1) as nat;
        lemma_iteration(context, date, segments, fetches, before);
        assert(events.take(count as int).drop_last() =~= events.take(before as int));
        assert(events.take(count as int).last() == EventView::Fetched(fetches[before as int]));
        assert(segment_record(&segments[before as int], fetches[before as int]) is Ok);
        let start = proceed(segments, 0, empty_archive());
        let earlier = run(context, date, start.0, events.take(before as int));
        let end = run(context, date, start.0, events.take(count as int));
        assert(earlier.0 == (StateView::IterateSegments {
            segments,
            next: before as usize,
            archive: day_archive(segments, fetches, before),
        }));
        assert forall|i: int| 0 <= i < count - 1 implies #[trigger] end.1[i] == (ActionView::Fetch {
            url: segments[i + 1].url@,
        }) by {
            if i < count - 2 {
                assert(end.1[i] == earlier.1[i]);
            } else {
                assert(end.1[i] == earlier.1.last());
            }
        }
    } else {
        assert(events.take(0) =~= Seq::<EventView>::empty());
    }
}

/// Segments that cannot be fetched do not stop the day. Let a day have N
/// segments whose URLs parse, and let each of them either fail, in
/// transport or by its status, or arrive in the export format. Then after
/// the N results were observed the machine asks to write an archive of
/// exactly N records, in the order of the segments; a record is marked
/// failed exactly where the request failed; and on the way the machine
/// asked for nothing but the next segment.
pub proof fn lemma_failed_segments_are_recorded(
    context: ContextView,
    date: int,
    segments: Seq<L7OfflineLog>,
    fetches: Seq<FetchView>,
)
    requires
        segments.len() == fetches.len(),
        segments.len() <= usize::MAX,
        forall|i: int|
            0 <= i < segments.len() ==> (#[trigger] segment_record(&segments[i], fetches[i])) is Ok,
    ensures
        ({
            let start = proceed(segments, 0, empty_archive());
            let end = run(context, date, start.0, fetched_events(fetches));
            let archive = day_archive(segments, fetches, segments.len());
            &&& end.0 == StateView::Finalize
            &&& end.1.len() == segments.len()
            &&& if segments.len() == 0 {
                start.1 == (ActionView::Write { archive })
            } else {
                end.1.last() == (ActionView::Write { archive })
            }
            &&& forall|i: int|
                0 <= i < segments.len() - 1 ==> #[trigger] end.1[i] == (ActionView::Fetch {
                    url: segments[i + 1].url@,
                })
            &&& archive.outcomes.len() == segments.len()
            &&& forall|i: int|
                0 <= i < segments.len() ==> (#[trigger] archive.outcomes[i] is Failed
                    <==> fetch_failed(fetches[i]))
        }),
{
    lemma_iteration(context, date, segments, fetches, segments.len());
    assert(fetched_events(fetches).take(segments.len() as int) =~= fetched_events(fetches));
    let archive = day_archive(segments, fetches, segments.len());
    assert forall|i: int| 0 <= i < segments.len() implies (#[trigger] archive.outcomes[i] is Failed
        <==> fetch_failed(fetches[i])) by {
        assert(segment_record(&segments[i], fetches[i]) is Ok);
    }
}

/// The event of a successful answer that holds a page.
pub open spec fn page_event(status: u16, total_count: u32, data: Seq<L7OfflineLog>) -> EventView {
    EventView::QueryAnswered { status, response: Some(PageView { total_count, data }) }
}

/// From the start of a day with a window, the query is asked for first.
proof fn lemma_day_begins_with_the_query(context: ContextView, date: int, later: Seq<EventView>)
    requires
        window_text(date, context.time_zone) is Some,
    ensures
        ({
            let first = next_step(context, date, StateView::BuildWindow, EventView::Start);
            let rest = run(context, date, StateView::Query, later);
            &&& first.1 is Query
            &&& run(context, date, StateView::BuildWindow, seq![EventView::Start] + later) == (
                rest.0,
                seq![first.1] + rest.1,
            )
        }),
{
    lemma_run_one(context, date, StateView::BuildWindow, EventView::Start);
    lemma_run_concat(context, date, StateView::BuildWindow, seq![EventView::Start], later);
}

/// Observing an event and then others is one transition and then the rest.
proof fn lemma_run_first(
    context: ContextView,
    date: int,
    state: StateView,
    event: EventView,
    later: Seq<EventView>,
)
    ensures
        ({
            let step = next_step(context, date, state, event);
            let rest = run(context, date, step.0, later);
            run(context, date, state, seq![event] + later) == (rest.0, seq![step.1] + rest.1)
        }),
{
    lemma_run_one(context, date, state, event);
    lemma_run_concat(context, date, state, seq![event], later);
}

/// Once a transition fails the day, the day stays failed, and that
/// transition and all later ones ask to abort.
proof fn lemma_fatal_step(
    context: ContextView,
    date: int,
    state: StateView,
    event: EventView,
    error: DayError,
    later: Seq<EventView>,
)
    requires
        next_step(context, date, state, event) == fail(error),
    ensures
        run(context, date, state, seq![event] + later) == (
            StateView::Failed(error),
            Seq::new(1 + later.len(), |i: int| ActionView::Abort(error)),
        ),
{
    let tail = run(context, date, StateView::Failed(error), later);
    lemma_run_one(context, date, state, event);
    lemma_failed_is_final(context, date, error, later);
    lemma_run_concat(context, date, state, seq![event], later);
    assert(seq![ActionView::Abort(error)] + tail.1 =~= Seq::new(
        1 + later.len(),
        |i: int| ActionView::Abort(error),
    ));
}

/// Running a day again over its finished archive fails and overwrites
/// nothing. Let the date have a window and the answer to the query stay
/// within the page limit, and let the archive file exist. Then the day ends
/// in `Failed(ArchiveExists)`, whatever is observed later; and all that was
/// ever asked for is the query, the creation of the file, and to abort:
/// nothing is fetched, and nothing is written.
pub proof fn lemma_rerun_overwrites_nothing(
    context: ContextView,
    date: int,
    status: u16,
    total_count: u32,
    data: Seq<L7OfflineLog>,
    later: Seq<EventView>,
)
    requires
        window_text(date, context.time_zone) is Some,
        is_success(status),
        total_count <= context.max_limit,
    ensures
        ({
            let events = seq![
                EventView::Start,
                page_event(status, total_count, data),
                EventView::ArchiveExists,
            ] + later;
            let end = run(context, date, StateView::BuildWindow, events);
            &&& end.0 == StateView::Failed(DayError::ArchiveExists)
            &&& end.1.len() == 3 + later.len()
            &&& end.1[0] is Query
            &&& end.1[1] is CreateArchive
            &&& forall|i: int|
                2 <= i < 3 + later.len() ==> #[trigger] end.1[i] == ActionView::Abort(
                    DayError::ArchiveExists,
                )
        }),
{
    let answer = page_event(status, total_count, data);
    let error = DayError::ArchiveExists;
    let tail = seq![EventView::ArchiveExists] + later;
    let events = seq![EventView::Start, answer, EventView::ArchiveExists] + later;
    let first = next_step(context, date, StateView::BuildWindow, EventView::Start);
    let step = next_step(context, date, StateView::Query, answer);
    let aborts = Seq::new(1 + later.len(), |i: int| ActionView::Abort(error));
    let actions = seq![first.1] + (seq![step.1] + aborts);
    assert(step.0 == (StateView::OpenArchive { segments: data }) && step.1 is CreateArchive);
    assert(next_step(context, date, step.0, EventView::ArchiveExists) == fail(error));
    assert(run(context, date, step.0, tail) == (StateView::Failed(error), aborts)) by {
        lemma_fatal_step(context, date, step.0, EventView::ArchiveExists, error, later);
    }
    assert(run(context, date, StateView::Query, seq![answer] + tail) == (
        StateView::Failed(error),
        seq![step.1] + aborts,
    )) by {
        lemma_run_first(context, date, StateView::Query, answer, tail);
    }
    assert(run(context, date, StateView::BuildWindow, events) == (StateView::Failed(error), actions)
        && first.1 is Query) by {
        lemma_day_begins_with_the_query(context, date, seq![answer] + tail);
        assert(events =~= seq![EventView::Start] + (seq![answer] + tail));
    }
    assert(actions.len() == 3 + later.len() && actions[0] == first.1 && actions[1] == step.1);
    assert forall|i: int| 2 <= i < 3 + later.len() implies #[trigger] actions[i]
        == ActionView::Abort(error) by {
        assert(actions[i] == aborts[i - 2]);
    }
}

/// A total count above the page limit ends the day before anything is
/// created. Let the date have a window and the API report more segments
/// than one page holds. Then the day ends in `Failed(PaginationRequired)`,
/// whatever is observed later, and all that was ever asked for is the query
/// and to abort: the page that did arrive is not archived as if it were the
/// whole day.
pub proof fn lemma_truncated_day_is_refused(
    context: ContextView,
    date: int,
    status: u16,
    total_count: u32,
    data: Seq<L7OfflineLog>,
    later: Seq<EventView>,
)
    requires
        window_text(date, context.time_zone) is Some,
        is_success(status),
        total_count > context.max_limit,
    ensures
        ({
            let error = DayError::PaginationRequired { total_count, limit: context.max_limit };
            let events = seq![EventView::Start, page_event(status, total_count, data)] + later;
            let end = run(context, date, StateView::BuildWindow, events);
            &&& end.0 == StateView::Failed(error)
            &&& end.1.len() == 2 + later.len()
            &&& end.1[0] is Query
            &&& forall|i: int|
                1 <= i < 2 + later.len() ==> #[trigger] end.1[i] == ActionView::Abort(error)
        }),
{
    let error = DayError::PaginationRequired { total_count, limit: context.max_limit };
    let answer = page_event(status, total_count, data);
    let events = seq![EventView::Start, answer] + later;
    let first = next_step(context, date, StateView::BuildWindow, EventView::Start);
    let aborts = Seq::new(1 + later.len(), |i: int| ActionView::Abort(error));
    assert(next_step(context, date, StateView::Query, answer) == fail(error));
    assert(run(context, date, StateView::Query, seq![answer] + later) == (
        StateView::Failed(error),
        aborts,
    )) by {
        lemma_fatal_step(context, date, StateView::Query, answer, error, later);
    }
    assert(run(context, date, StateView::BuildWindow, events) == (
        StateView::Failed(error),
        seq![first.1] + aborts,
    ) && first.1 is Query) by {
        lemma_day_begins_with_the_query(context, date, seq![answer] + later);
        assert(events =~= seq![EventView::Start] + (seq![answer] + later));
    }
}

fn failed(error: DayError) -> (r: (DayState, DayAction))
    ensures
        (r.0@, r.1@) == fail(error),
{
    (DayState::Failed(error), DayAction::Abort(error))
}

fn advance(segments: Vec<L7OfflineLog>, next: usize, archive: ArchiveWriter) -> (r: (
    DayState,
    DayAction,
))
    ensures
        (r.0@, r.1@) == proceed(segments@, next, archive@),
{
    if next < segments.len() {
        let url = segments[next].url.clone();
        (DayState::IterateSegments { segments, next, archive }, DayAction::Fetch { url })
    } else {
        (DayState::Finalize, DayAction::Write { archive })
    }
}

impl Context {
    /// A context with the page limit that the pipeline is run with.
    pub fn new(zone_id: String, time_zone: UtcOffset) -> (r: Context)
        ensures
            r@ == (ContextView { time_zone: time_zone@, max_limit: PAGE_LIMIT, zone_id: zone_id@ }),
    {
        Context { time_zone, max_limit: PAGE_LIMIT, zone_id }
    }

    /// The query for a window given by the texts of its two ends: the
    /// context's zone alone, no domain filter, the context's limit, the
    /// first page.
    pub fn query_between(&self, start_time: String, end_time: String) -> (r: DownloadL7Logs)
        ensures
            r@ == day_query(self@, start_time@, end_time@),
    {
        let zone = self.zone_id.clone();
        let zone_ids = vec![zone];
        let query = DownloadL7Logs {
            start_time,
            end_time,
            zone_ids,
            domains: None,
            limit: self.max_limit,
            offset: 0,
        };
        proof {
            assert(query@.zone_ids =~= seq![self@.zone_id]);
        }
        query
    }

    /// The query for the day `date`: its window at the context's offset,
    /// the context's zone and limit, the first page. `None` where the date
    /// has no window.
    pub fn query_for(&self, date: Date) -> (r: Option<DownloadL7Logs>)
        ensures
            match window_text(date@, self@.time_zone) {
                Some((start_time, end_time)) => r matches Some(query) && query@ == day_query(
                    self@,
                    start_time,
                    end_time,
                ),
                None => r is None,
            },
    {
        match day_window(date, self.time_zone) {
            Some((start_time, end_time)) => Some(self.query_between(start_time, end_time)),
            None => None,
        }
    }

    /// One step of the day `date`: from the state and the event just
    /// observed to the next state and the action to perform.
    pub fn handle_a_day(&self, date: Date, state: DayState, event: DayEvent) -> (r: (
        DayState,
        DayAction,
    ))
        ensures
            (r.0@, r.1@) == next_step(self@, date@, state@, event@),
    {
        match state {
            DayState::Failed(error) => failed(error),
            DayState::BuildWindow => match event {
                DayEvent::Start => match self.query_for(date) {
                    Some(query) => (DayState::Query, DayAction::Query(query)),
                    None => failed(DayError::NoWindow),
                },
                _ => failed(DayError::UnexpectedEvent),
            },
            DayState::Query => match event {
                DayEvent::QueryAnswered { status, response } => {
                    if !status_is_success(status) {
                        return failed(DayError::QueryFailed { status: Some(status) });
                    }
                    match response {
                        None => failed(DayError::MalformedResponse),
                        Some(res) => {
                            let DownloadL7LogsRes { total_count, data } = res;
                            if total_count > self.max_limit {
                                failed(
                                    DayError::PaginationRequired {
                                        total_count,
                                        limit: self.max_limit,
                                    },
                                )
                            } else {
                                let name = archive_name(self.zone_id.as_str(), date);
                                (
                                    DayState::OpenArchive { segments: data },
                                    DayAction::CreateArchive { name },
                                )
                            }
                        },
                    }
                },
                DayEvent::QueryUnanswered => failed(DayError::QueryFailed { status: None }),
                _ => failed(DayError::UnexpectedEvent),
            },
            DayState::OpenArchive { segments } => match event {
                DayEvent::ArchiveOpened => advance(segments, 0, ArchiveWriter::new()),
                DayEvent::ArchiveExists => failed(DayError::ArchiveExists),
                DayEvent::ArchiveFailed => failed(DayError::ArchiveFailed),
                _ => failed(DayError::UnexpectedEvent),
            },
            DayState::IterateSegments { segments, next, archive } => match event {
                DayEvent::Fetched(fetched) => {
                    if next < segments.len() {
                        match handle_a_segment(&segments[next], fetched) {
                            Ok(record) => {
                                let mut archive = archive;
                                archive.append(record);
                                advance(segments, next + 1, archive)
                            },
                            Err(error) => failed(DayError::Segment { index: next, error }),
                        }
                    } else {
                        failed(DayError::UnexpectedEvent)
                    }
                },
                _ => failed(DayError::UnexpectedEvent),
            },
            DayState::Finalize => match event {
                DayEvent::Written => (DayState::Done, DayAction::Finish),
                DayEvent::WriteFailed => failed(DayError::ArchiveFailed),
                _ => failed(DayError::UnexpectedEvent),
            },
            DayState::Done => failed(DayError::UnexpectedEvent),
        }
    }
}

} // verus!
