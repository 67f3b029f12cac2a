//! The tail itself: a state machine that turns "list the logs of a time
//! range" into a stream of new lines.
//!
//! The caller performs what each [`Step`] asks for and reports back with the
//! matching [`Event`]: after `Search` the records or the failure, after
//! `Sleep` that the pause is over. With each event the caller hands in what
//! its clock reads at that moment. A run that follows first fetches the last
//! hour, then searches forward from a watermark for as long as the caller
//! goes on.

use crate::config::Config;
use crate::error::{DdLogsError, ErrorModel};
use crate::query::{build_query, query_text, FilterSet};
use crate::record::{
    batch_model, emit, last_stamp, latest_timestamp, lemma_last_stamp_origin, output_failure,
    output_lines, Emission, LogRecord, RecordModel,
};
use crate::search::{RequestModel, SearchRequest, SortOrder};
use crate::text::texts;
use crate::time::{Instant, TimeRange, LOOKBACK_SECS};
use vstd::prelude::*;

verus! {

/// How many records a search asks for unless told otherwise.
pub const DEFAULT_LIMIT: i32 = 100;

/// How long to pause between two searches unless told otherwise, in seconds.
pub const DEFAULT_INTERVAL_SECS: u64 = 12;

/// Whether a run ends after its first fetch or keeps following.
#[derive(Clone, Copy, Debug, PartialEq, Eq, Hash, Structural)]
pub enum Mode {
    OneShot,
    Follow,
}

/// Where a run stands.
#[derive(Clone, Copy, Debug, PartialEq, Eq, Hash, Structural)]
pub enum Phase {
    /// Nothing has been asked yet.
    Ready,
    /// The only search of a one-shot run is under way.
    Fetching,
    /// The first search of a following run, over the last hour, is under way.
    Bootstrapping,
    /// A search forward from the watermark is under way.
    Polling,
    /// Pausing between two searches.
    Sleeping,
    /// The run is over.
    Stopped,
}

/// What happened since the last step.
#[derive(Debug)]
pub enum Event {
    /// The run begins.
    Started,
    /// The search came back with these records, if any.
    Response(Option<Vec<LogRecord>>),
    /// The search failed; the text describes how.
    Failure(String),
    /// The pause is over.
    Woke,
}

/// The contents of an [`Event`]. A response without a list of records
/// counts as one with an empty list.
pub enum EventModel {
    Started,
    Response(Seq<RecordModel>),
    Failure(Seq<char>),
    Woke,
}

impl View for Event {
    type V = EventModel;

    open spec fn view(&self) -> EventModel {
        match self {
            Event::Started => EventModel::Started,
            Event::Response(Some(records)) => EventModel::Response(batch_model(records@)),
            Event::Response(None) => EventModel::Response(Seq::empty()),
            Event::Failure(why) => EventModel::Failure(why@),
            Event::Woke => EventModel::Woke,
        }
    }
}

/// What the caller is to do next.
#[derive(Debug)]
pub enum Action {
    /// Run this search and report `Response` or `Failure`.
    Search(SearchRequest),
    /// Pause for this many seconds and report `Woke`.
    Sleep(u64),
    /// The run is complete.
    Finish,
    /// The run ends with this error.
    Fail(DdLogsError),
}

/// The contents of an [`Action`].
pub enum ActionModel {
    Search(RequestModel),
    Sleep(u64),
    Finish,
    Fail(ErrorModel),
}

impl View for Action {
    type V = ActionModel;

    open spec fn view(&self) -> ActionModel {
        match self {
            Action::Search(request) => ActionModel::Search(request@),
            Action::Sleep(secs) => ActionModel::Sleep(*secs),
            Action::Finish => ActionModel::Finish,
            Action::Fail(error) => ActionModel::Fail(error@),
        }
    }
}

/// The outcome of one step: lines to write to the output, in order, and then
/// what to do.
#[derive(Debug)]
pub struct Step {
    pub lines: Vec<String>,
    pub action: Action,
}

/// The contents of a [`Step`].
pub struct StepModel {
    pub lines: Seq<Seq<char>>,
    pub action: ActionModel,
}

impl View for Step {
    type V = StepModel;

    open spec fn view(&self) -> StepModel {
        StepModel { lines: texts(self.lines@), action: self.action@ }
    }
}

/// The state of a run.
#[derive(Debug)]
pub struct Tailer {
    query: String,
    limit: i32,
    interval_secs: u64,
    mode: Mode,
    phase: Phase,
    watermark: Instant,
    poll_started: Instant,
}

/// The contents of a [`Tailer`].
pub struct TailerModel {
    /// The query of every search of the run.
    pub query: Seq<char>,
    /// The most records any search asks for.
    pub limit: i32,
    /// The pause between two searches, in seconds.
    pub interval_secs: u64,
    pub mode: Mode,
    pub phase: Phase,
    /// Where the next search forward begins.
    pub watermark: Instant,
    /// What the clock read when the latest search was issued.
    pub poll_started: Instant,
}

impl View for Tailer {
    type V = TailerModel;

    closed spec fn view(&self) -> TailerModel {
        TailerModel {
            query: self.query@,
            limit: self.limit,
            interval_secs: self.interval_secs,
            mode: self.mode,
            phase: self.phase,
            watermark: self.watermark,
            poll_started: self.poll_started,
        }
    }
}

impl TailerModel {
    /// A run that has not begun.
    pub open spec fn initial(query: Seq<char>, follow: bool, limit: i32, interval_secs: u64) -> TailerModel {
        TailerModel {
            query,
            limit,
            interval_secs,
            mode: if follow {
                Mode::Follow
            } else {
                Mode::OneShot
            },
            phase: Phase::Ready,
            watermark: Instant { secs: 0, nanos: 0 },
            poll_started: Instant { secs: 0, nanos: 0 },
        }
    }

    /// The event answers what the run last asked for.
    pub open spec fn accepts(self, event: EventModel) -> bool {
        match event {
            EventModel::Started => self.phase is Ready,
            EventModel::Response(_) | EventModel::Failure(_) => self.phase is Fetching
                || self.phase is Bootstrapping || self.phase is Polling,
            EventModel::Woke => self.phase is Sleeping,
        }
    }

    /// A step may be taken on `event` when the clock reads `now`: the event
    /// answers what the run last asked for, and where the run begins, the
    /// start of its first range can be held.
    pub open spec fn admits(self, event: EventModel, now: Instant) -> bool {
        self.accepts(event) && (event is Started ==> now.can_look_back())
    }

    /// The search of this run over `range`: always the run's query, oldest
    /// record first, at most `limit` records.
    pub open spec fn request(self, range: TimeRange) -> RequestModel {
        RequestModel { query: self.query, range, sort: SortOrder::TimeAscending, limit: self.limit }
    }

    /// The run, over.
    pub open spec fn stopped(self) -> TailerModel {
        TailerModel { phase: Phase::Stopped, ..self }
    }

    /// The watermark after a batch came back from a search forward: the
    /// time that search was issued for an empty batch, else the timestamp of
    /// the last record that carries one, else unchanged.
    pub open spec fn watermark_after(self, batch: Seq<RecordModel>) -> Instant {
        if batch.len() == 0 {
            self.poll_started
        } else {
            last_stamp(batch, self.watermark)
        }
    }

    /// The state after `event`, the clock reading `now` as the step is taken.
    pub open spec fn next(self, event: EventModel, now: Instant) -> TailerModel {
        match event {
            EventModel::Started => TailerModel {
                phase: if self.mode is OneShot {
                    Phase::Fetching
                } else {
                    Phase::Bootstrapping
                },
                watermark: now,
                poll_started: now,
                ..self
            },
            EventModel::Failure(_) => self.stopped(),
            EventModel::Woke => TailerModel { phase: Phase::Polling, poll_started: now, ..self },
            EventModel::Response(batch) => if output_failure(batch) is Some {
                self.stopped()
            } else {
                match self.phase {
                    Phase::Bootstrapping => TailerModel {
                        phase: Phase::Polling,
                        watermark: last_stamp(batch, self.watermark),
                        poll_started: now,
                        ..self
                    },
                    Phase::Polling => TailerModel {
                        phase: Phase::Sleeping,
                        watermark: self.watermark_after(batch),
                        ..self
                    },
                    _ => self.stopped(),
                }
            },
        }
    }

    /// What the step on `event` hands to the caller.
    pub open spec fn output(self, event: EventModel, now: Instant) -> StepModel {
        match event {
            EventModel::Started => StepModel {
                lines: Seq::empty(),
                action: ActionModel::Search(self.request(TimeRange::recent(now))),
            },
            EventModel::Failure(why) => StepModel {
                lines: Seq::empty(),
                action: ActionModel::Fail(ErrorModel::DatadogError(why)),
            },
            EventModel::Woke => StepModel {
                lines: Seq::empty(),
                action: ActionModel::Search(
                    self.request(TimeRange { start: self.watermark, end: now }),
                ),
            },
            EventModel::Response(batch) => StepModel {
                lines: output_lines(batch),
                action: match output_failure(batch) {
                    Some(why) => ActionModel::Fail(ErrorModel::SerdeError(why)),
                    None => match self.phase {
                        Phase::Bootstrapping => ActionModel::Search(
                            self.request(
                                TimeRange { start: last_stamp(batch, self.watermark), end: now },
                            ),
                        ),
                        Phase::Polling => ActionModel::Sleep(self.interval_secs),
                        _ => ActionModel::Finish,
                    },
                },
            },
        }
    }
}

impl Tailer {
    /// Prepares a run. Both keys must be configured: without them the run is
    /// refused before anything is asked of the service.
    pub fn new(
        config: &Config,
        filters: &FilterSet,
        follow: bool,
        limit: i32,
        interval_secs: u64,
    ) -> (made: Result<Tailer, DdLogsError>)
        ensures
            config@.has_credentials() ==> (made matches Ok(t) && t@ == TailerModel::initial(
                query_text(filters@),
                follow,
                limit,
                interval_secs,
            )),
            !config@.has_credentials() ==> (made matches Err(e) && e@
                == ErrorModel::MissingCredentials),
    {
        if !config.has_credentials() {
            return Err(DdLogsError::MissingCredentials);
        }
        Ok(
            Tailer {
                query: build_query(filters),
                limit,
                interval_secs,
                mode: if follow {
                    Mode::Follow
                } else {
                    Mode::OneShot
                },
                phase: Phase::Ready,
                watermark: Instant { secs: 0, nanos: 0 },
                poll_started: Instant { secs: 0, nanos: 0 },
            },
        )
    }

    /// The event answers what the run last asked for.
    pub fn accepts(&self, event: &Event) -> (ok: bool)
        ensures
            ok == self@.accepts(event@),
    {
        match event {
            Event::Started => matches!(self.phase, Phase::Ready),
            Event::Response(_) | Event::Failure(_) => matches!(
                self.phase,
                Phase::Fetching | Phase::Bootstrapping | Phase::Polling
            ),
            Event::Woke => matches!(self.phase, Phase::Sleeping),
        }
    }

    /// A step may be taken on `event` when the clock reads `now`.
    pub fn admits(&self, event: &Event, now: Instant) -> (ok: bool)
        ensures
            ok == self@.admits(event@, now),
    {
        self.accepts(event) && match event {
            Event::Started => now.secs >= i64::MIN + LOOKBACK_SECS,
            _ => true,
        }
    }

    /// Where the run stands.
    pub fn phase(&self) -> (phase: Phase)
        ensures
            phase == self@.phase,
    {
        self.phase
    }

    /// Whether the run ends after its first fetch or keeps following.
    pub fn mode(&self) -> (mode: Mode)
        ensures
            mode == self@.mode,
    {
        self.mode
    }

    /// Where the next search forward begins.
    pub fn watermark(&self) -> (watermark: Instant)
        ensures
            watermark == self@.watermark,
    {
        self.watermark
    }

    /// What the clock read when the latest search was issued.
    pub fn poll_started(&self) -> (at: Instant)
        ensures
            at == self@.poll_started,
    {
        self.poll_started
    }

    /// The query of every search of the run.
    pub fn query(&self) -> (query: &str)
        ensures
            query@ == self@.query,
    {
        self.query.as_str()
    }

    /// The most records any search asks for.
    pub fn limit(&self) -> (limit: i32)
        ensures
            limit == self@.limit,
    {
        self.limit
    }

    /// The pause between two searches, in seconds.
    pub fn interval_secs(&self) -> (secs: u64)
        ensures
            secs == self@.interval_secs,
    {
        self.interval_secs
    }

    /// The search of this run over `range`.
    fn request(&self, range: TimeRange) -> (request: SearchRequest)
        ensures
            request@ == self@.request(range),
    {
        SearchRequest {
            query: self.query.clone(),
            range,
            sort: SortOrder::TimeAscending,
            limit: self.limit,
        }
    }

    /// Takes one step: `event` is what happened, `now` what the clock reads.
    pub fn step(&mut self, event: Event, now: Instant) -> (step: Step)
        requires
            old(self)@.admits(event@, now),
        ensures
            final(self)@ == old(self)@.next(event@, now),
            step@ == old(self)@.output(event@, now),
    {
        match event {
            Event::Started => {
                self.phase = match self.mode {
                    Mode::OneShot => Phase::Fetching,
                    Mode::Follow => Phase::Bootstrapping,
                };
                self.watermark = now;
                self.poll_started = now;
                let request = self.request(TimeRange::ending_at(now));
                let step = Step { lines: Vec::new(), action: Action::Search(request) };
                assert(step@.lines =~= Seq::<Seq<char>>::empty());
                step
            },
            Event::Failure(why) => {
                self.phase = Phase::Stopped;
                let step = Step {
                    lines: Vec::new(),
                    action: Action::Fail(DdLogsError::DatadogError(why)),
                };
                assert(step@.lines =~= Seq::<Seq<char>>::empty());
                step
            },
            Event::Woke => {
                self.phase = Phase::Polling;
                self.poll_started = now;
                let request = self.request(TimeRange { start: self.watermark, end: now });
                let step = Step { lines: Vec::new(), action: Action::Search(request) };
                assert(step@.lines =~= Seq::<Seq<char>>::empty());
                step
            },
            Event::Response(records) => {
                let records = match records {
                    Some(records) => records,
                    None => Vec::new(),
                };
                assert(batch_model(records@) =~= event@->Response_0);
                let Emission { lines, failure } = emit(&records);
                match failure {
                    Some(why) => {
                        self.phase = Phase::Stopped;
                        Step { lines, action: Action::Fail(DdLogsError::SerdeError(why)) }
                    },
                    None => match self.phase {
                        Phase::Bootstrapping => {
                            self.watermark = latest_timestamp(&records, self.watermark);
                            self.phase = Phase::Polling;
                            self.poll_started = now;
                            let request = self.request(
                                TimeRange { start: self.watermark, end: now },
                            );
                            Step { lines, action: Action::Search(request) }
                        },
                        Phase::Polling => {
                            if records.len() == 0 {
                                self.watermark = self.poll_started;
                            } else {
                                self.watermark = latest_timestamp(&records, self.watermark);
                            }
                            self.phase = Phase::Sleeping;
                            Step { lines, action: Action::Sleep(self.interval_secs) }
                        },
                        _ => {
                            self.phase = Phase::Stopped;
                            Step { lines, action: Action::Finish }
                        },
                    },
                }
            },
        }
    }
}

/// The settings of a run never change, and every search it asks for uses
/// them: the same query, oldest record first, the same limit.
pub proof fn lemma_searches_share_settings(s: TailerModel, event: EventModel, now: Instant)
    ensures
        s.next(event, now).query == s.query,
        s.next(event, now).limit == s.limit,
        s.next(event, now).interval_secs == s.interval_secs,
        s.next(event, now).mode == s.mode,
        s.output(event, now).action matches ActionModel::Search(request) ==> request.query
            == s.query && request.sort == SortOrder::TimeAscending && request.limit == s.limit
            && request.range.end == now,
        s.output(event, now).action matches ActionModel::Sleep(secs) ==> secs == s.interval_secs,
{
}

/// A step stops the run exactly when it ends in `Finish` or `Fail`. The
/// answer to the only search of a one-shot run always stops it, and nothing
/// else ends in `Finish`.
pub proof fn lemma_stops_with_final_action(s: TailerModel, event: EventModel, now: Instant)
    requires
        s.accepts(event),
    ensures
        s.next(event, now).phase is Stopped <==> (s.output(event, now).action is Finish
            || s.output(event, now).action is Fail),
        s.phase is Fetching ==> s.next(event, now).phase is Stopped,
        s.output(event, now).action is Finish ==> s.phase is Fetching,
{
}

/// The watermark never moves backwards in the steady state, as long as the
/// service returns no record stamped before the watermark it was asked to
/// search from, and the clock did not read earlier than the watermark when
/// the search was issued.
pub proof fn lemma_watermark_never_retreats(s: TailerModel, event: EventModel, now: Instant)
    requires
        s.phase is Polling || s.phase is Sleeping,
        s.accepts(event),
        s.watermark.le(s.poll_started),
        event matches EventModel::Response(batch) ==> forall|i: int|
            0 <= i < batch.len() && (#[trigger] batch[i]).timestamp is Some ==> s.watermark.le(
                batch[i].timestamp->0,
            ),
    ensures
        s.watermark.le(s.next(event, now).watermark),
{
    match event {
        EventModel::Response(batch) => {
            lemma_last_stamp_origin(batch, s.watermark);
        },
        _ => {},
    }
}

/// After a search forward that returned nothing, the next search starts at
/// the instant the empty one was issued.
pub proof fn lemma_empty_batch_moves_start(s: TailerModel, now: Instant, later: Instant)
    requires
        s.phase is Polling,
    ensures
        s.next(EventModel::Response(Seq::empty()), now).accepts(EventModel::Woke),
        s.next(EventModel::Response(Seq::empty()), now).output(EventModel::Woke, later).action
            == ActionModel::Search(
            s.request(TimeRange { start: s.poll_started, end: later }),
        ),
{
    let batch = Seq::<RecordModel>::empty();
    assert(output_failure(batch) is None);
}

/// A following run whose first fetch returns nothing searches forward from
/// the instant that fetch was issued; with records, from the timestamp of
/// the last one that carries one.
pub proof fn lemma_bootstrap_sets_watermark(
    s: TailerModel,
    batch: Seq<RecordModel>,
    begun: Instant,
    now: Instant,
)
    requires
        s.phase is Ready,
        s.mode is Follow,
        output_failure(batch) is None,
    ensures
        s.next(EventModel::Started, begun).accepts(EventModel::Response(batch)),
        s.next(EventModel::Started, begun).output(EventModel::Response(batch), now).action
            == ActionModel::Search(
            s.request(TimeRange { start: last_stamp(batch, begun), end: now }),
        ),
        s.next(EventModel::Started, begun).next(EventModel::Response(batch), now).watermark
            == last_stamp(batch, begun),
        batch.len() == 0 ==> last_stamp(batch, begun) == begun,
{
}

} // verus!
