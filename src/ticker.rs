//! The decisions of the metrics ticker.
//!
//! The ticker reads its configuration, connects to the database once, and then
//! loops forever: sleep one second, count the rows of `events` whose status is
//! `'new'`, and emit one log record with that count. Any failure ends the
//! process; nothing is retried.
//!
//! The outside work (reading the environment, the connection, the sleep, the
//! query, writing the record) is done by the caller. [`Ticker::step`] takes the
//! outcome of the last action as an [`Event`] and returns the next [`Action`].

use vstd::prelude::*;
use vstd::string::*;
use crate::clock::local_now_rfc3339;
use crate::config::{database_url, lookup, DATABASE_URL_VAR};

verus! {

/// The `meta.name` field of every record.
pub const PROCESS_NAME: &'static str = "queue-scheduler";

/// The message of every tick record.
pub const TICK_MESSAGE: &'static str = "tick";

/// The one query the ticker issues.
pub const NEW_EVENTS_QUERY: &'static str = "SELECT COUNT(*) FROM events WHERE status = 'new'";

/// The fixed pause before each query, in seconds.
pub const TICK_INTERVAL_SECS: u64 = 1;

/// One structured log record, written as one JSON object on one line with
/// the keys `meta.name`, `meta.process_age_s`, `timestamp`, `msg` and
/// `new_events.count`.
pub struct LogRecord {
    pub name: String,
    pub process_age_s: u64,
    pub timestamp: String,
    pub msg: String,
    pub new_events_count: i64,
}

pub struct RecordView {
    pub name: Seq<char>,
    pub process_age_s: u64,
    pub timestamp: Seq<char>,
    pub msg: Seq<char>,
    pub new_events_count: i64,
}

impl View for LogRecord {
    type V = RecordView;

    open spec fn view(&self) -> RecordView {
        RecordView {
            name: self.name@,
            process_age_s: self.process_age_s,
            timestamp: self.timestamp@,
            msg: self.msg@,
            new_events_count: self.new_events_count,
        }
    }
}

/// The record of a tick that counted `count` new events, `age` whole seconds
/// after the process started, at wall-clock time `now`.
pub open spec fn tick_record_spec(age: u64, now: Seq<char>, count: i64) -> RecordView {
    RecordView {
        name: PROCESS_NAME@,
        process_age_s: age,
        timestamp: now,
        msg: TICK_MESSAGE@,
        new_events_count: count,
    }
}

/// Builds the record of one tick.
pub fn tick_record(process_age_s: u64, timestamp: String, new_events_count: i64) -> (r: LogRecord)
    ensures
        r@ == tick_record_spec(process_age_s, timestamp@, new_events_count),
{
    LogRecord {
        name: PROCESS_NAME.to_owned(),
        process_age_s,
        timestamp,
        msg: TICK_MESSAGE.to_owned(),
        new_events_count,
    }
}

/// Why a query's answer holds no count.
#[derive(PartialEq, Eq, Structural, Clone, Copy, Debug)]
pub enum CountError {
    /// The answer has no row.
    NoRows,
    /// The first column of the first row is not an integer.
    NotAnInteger,
}

/// The count in a query's answer, given as the first column of each row
/// (`None` where that column is not an integer): row 0, column 0.
pub open spec fn count_of(first_cells: Seq<Option<i64>>) -> Result<i64, CountError> {
    if first_cells.len() == 0 {
        Err(CountError::NoRows)
    } else {
        match first_cells[0] {
            Some(c) => Ok(c),
            None => Err(CountError::NotAnInteger),
        }
    }
}

/// Takes the count out of a query's answer.
pub fn extract_count(first_cells: &Vec<Option<i64>>) -> (r: Result<i64, CountError>)
    ensures
        r == count_of(first_cells@),
{
    if first_cells.len() == 0 {
        Err(CountError::NoRows)
    } else {
        match first_cells[0] {
            Some(c) => Ok(c),
            None => Err(CountError::NotAnInteger),
        }
    }
}

/// Why the process has to end.
pub enum Fatal {
    /// A required setting is absent.
    MissingConfig { name: String },
    /// The database refused or could not be reached.
    ConnectFailed,
    /// The query failed.
    QueryFailed,
    /// The query's answer holds no count.
    BadCount { error: CountError },
    /// An outcome came that the ticker was not waiting for.
    OutOfOrder,
}

pub enum FatalView {
    MissingConfig(Seq<char>),
    ConnectFailed,
    QueryFailed,
    BadCount(CountError),
    OutOfOrder,
}

/// The text that reports why the process ends.
pub open spec fn fatal_message(f: FatalView) -> Seq<char> {
    match f {
        FatalView::MissingConfig(name) => name + " must be set"@,
        FatalView::ConnectFailed => "could not connect to the database"@,
        FatalView::QueryFailed => "the count query failed"@,
        FatalView::BadCount(CountError::NoRows) => "the count query returned no row"@,
        FatalView::BadCount(CountError::NotAnInteger) => "the count query returned no integer"@,
        FatalView::OutOfOrder => "an outcome came out of order"@,
    }
}

impl Fatal {
    /// The text that reports why the process ends.
    pub fn message(&self) -> (r: String)
        ensures
            r@ == fatal_message(self@),
    {
        match self {
            Fatal::MissingConfig { name } => name.clone().concat(" must be set"),
            Fatal::ConnectFailed => "could not connect to the database".to_owned(),
            Fatal::QueryFailed => "the count query failed".to_owned(),
            Fatal::BadCount { error: CountError::NoRows } => "the count query returned no row".to_owned(),
            Fatal::BadCount { error: CountError::NotAnInteger } => "the count query returned no integer".to_owned(),
            Fatal::OutOfOrder => "an outcome came out of order".to_owned(),
        }
    }
}

impl View for Fatal {
    type V = FatalView;

    open spec fn view(&self) -> FatalView {
        match self {
            Fatal::MissingConfig { name } => FatalView::MissingConfig(name@),
            Fatal::ConnectFailed => FatalView::ConnectFailed,
            Fatal::QueryFailed => FatalView::QueryFailed,
            Fatal::BadCount { error } => FatalView::BadCount(*error),
            Fatal::OutOfOrder => FatalView::OutOfOrder,
        }
    }
}

/// The outcome of the action that the caller performed last.
pub enum Event {
    /// The environment was read: its (name, value) pairs.
    EnvRead { vars: Vec<(String, String)> },
    /// The database connection is open.
    Connected,
    /// The database connection could not be opened.
    ConnectFailed,
    /// The pause is over.
    Woke,
    /// The query answered: the first column of each row (`None` where it is
    /// not an integer), and the whole seconds since the process started,
    /// measured when the answer came.
    Answered { first_cells: Vec<Option<i64>>, process_age_s: u64 },
    /// The query failed.
    QueryFailed,
    /// The record was written.
    Emitted,
}

pub enum EventView {
    EnvRead(Seq<(String, String)>),
    Connected,
    ConnectFailed,
    Woke,
    Answered(Seq<Option<i64>>, u64),
    QueryFailed,
    Emitted,
}

impl View for Event {
    type V = EventView;

    open spec fn view(&self) -> EventView {
        match self {
            Event::EnvRead { vars } => EventView::EnvRead(vars@),
            Event::Connected => EventView::Connected,
            Event::ConnectFailed => EventView::ConnectFailed,
            Event::Woke => EventView::Woke,
            Event::Answered { first_cells, process_age_s } => EventView::Answered(
                first_cells@,
                *process_age_s,
            ),
            Event::QueryFailed => EventView::QueryFailed,
            Event::Emitted => EventView::Emitted,
        }
    }
}

impl Event {
    /// Whether this is a query's answer, the one event whose handling reads
    /// the wall clock.
    pub fn is_answer(&self) -> (r: bool)
        ensures
            r == (self@ is Answered),
    {
        match self {
            Event::Answered { .. } => true,
            _ => false,
        }
    }
}

/// What the caller is to do next.
pub enum Action {
    /// Read the process environment.
    ReadEnv,
    /// Open the one database connection, without transport encryption.
    Connect { url: String },
    /// Sleep this many seconds.
    Sleep { secs: u64 },
    /// Run this query on the connection.
    Query { sql: String },
    /// Write this record to the log, at info level.
    Emit { record: LogRecord },
    /// End the process abnormally.
    Exit { reason: Fatal },
}

pub enum ActionView {
    ReadEnv,
    Connect(Seq<char>),
    Sleep(u64),
    Query(Seq<char>),
    Emit(RecordView),
    Exit(FatalView),
}

impl View for Action {
    type V = ActionView;

    open spec fn view(&self) -> ActionView {
        match self {
            Action::ReadEnv => ActionView::ReadEnv,
            Action::Connect { url } => ActionView::Connect(url@),
            Action::Sleep { secs } => ActionView::Sleep(*secs),
            Action::Query { sql } => ActionView::Query(sql@),
            Action::Emit { record } => ActionView::Emit(record@),
            Action::Exit { reason } => ActionView::Exit(reason@),
        }
    }
}

/// The ticker's coarse state.
#[derive(PartialEq, Eq, Structural, Clone, Copy, Debug)]
pub enum Phase {
    /// Reading the configuration and connecting.
    Initializing,
    /// In the endless loop of ticks.
    Ticking,
    /// The process is to end; final.
    Terminated,
}

/// Which outcome the ticker waits for.
#[derive(PartialEq, Eq, Structural, Clone, Copy, Debug)]
pub enum Stage {
    ReadingEnv,
    Connecting,
    Sleeping,
    Querying,
    Emitting,
    Terminated,
}

pub open spec fn phase_of(s: Stage) -> Phase {
    match s {
        Stage::ReadingEnv | Stage::Connecting => Phase::Initializing,
        Stage::Sleeping | Stage::Querying | Stage::Emitting => Phase::Ticking,
        Stage::Terminated => Phase::Terminated,
    }
}

/// The next stage and action when `e` comes in stage `s`; `now` is the wall
/// clock's reading, which only a tick record uses.
pub open spec fn next(s: Stage, e: EventView, now: Seq<char>) -> (Stage, ActionView) {
    match (s, e) {
        (Stage::ReadingEnv, EventView::EnvRead(vars)) => match lookup(vars, DATABASE_URL_VAR@) {
            Some(url) => (Stage::Connecting, ActionView::Connect(url)),
            None => (Stage::Terminated, ActionView::Exit(FatalView::MissingConfig(DATABASE_URL_VAR@))),
        },
        (Stage::Connecting, EventView::Connected) => (
            Stage::Sleeping,
            ActionView::Sleep(TICK_INTERVAL_SECS),
        ),
        (Stage::Connecting, EventView::ConnectFailed) => (
            Stage::Terminated,
            ActionView::Exit(FatalView::ConnectFailed),
        ),
        (Stage::Sleeping, EventView::Woke) => (Stage::Querying, ActionView::Query(NEW_EVENTS_QUERY@)),
        (Stage::Querying, EventView::Answered(cells, age)) => match count_of(cells) {
            Ok(c) => (Stage::Emitting, ActionView::Emit(tick_record_spec(age, now, c))),
            Err(err) => (Stage::Terminated, ActionView::Exit(FatalView::BadCount(err))),
        },
        (Stage::Querying, EventView::QueryFailed) => (
            Stage::Terminated,
            ActionView::Exit(FatalView::QueryFailed),
        ),
        (Stage::Emitting, EventView::Emitted) => (
            Stage::Sleeping,
            ActionView::Sleep(TICK_INTERVAL_SECS),
        ),
        _ => (Stage::Terminated, ActionView::Exit(FatalView::OutOfOrder)),
    }
}

/// The ticker: the stage it is in.
pub struct Ticker {
    stage: Stage,
}

impl View for Ticker {
    type V = Stage;

    closed spec fn view(&self) -> Stage {
        self.stage
    }
}

impl Ticker {
    /// A ticker that starts by reading the environment.
    pub fn start() -> (r: (Ticker, Action))
        ensures
            r.0@ == Stage::ReadingEnv,
            r.1@ == ActionView::ReadEnv,
    {
        (Ticker { stage: Stage::ReadingEnv }, Action::ReadEnv)
    }

    /// The stage the ticker is in.
    pub fn stage(&self) -> (r: Stage)
        ensures
            r == self@,
    {
        self.stage
    }

    /// The phase the ticker is in.
    pub fn phase(&self) -> (r: Phase)
        ensures
            r == phase_of(self@),
    {
        match self.stage {
            Stage::ReadingEnv | Stage::Connecting => Phase::Initializing,
            Stage::Sleeping | Stage::Querying | Stage::Emitting => Phase::Ticking,
            Stage::Terminated => Phase::Terminated,
        }
    }

    /// Takes `event` in, with `now` as the wall clock's reading, and returns
    /// the next action.
    pub fn step_at(&mut self, event: Event, now: String) -> (r: Action)
        ensures
            (final(self)@, r@) == next(old(self)@, event@, now@),
    {
        let (stage, action) = match (self.stage, event) {
            (Stage::ReadingEnv, Event::EnvRead { vars }) => match database_url(&vars) {
                Ok(url) => (Stage::Connecting, Action::Connect { url }),
                Err(missing) => (
                    Stage::Terminated,
                    Action::Exit { reason: Fatal::MissingConfig { name: missing.name } },
                ),
            },
            (Stage::Connecting, Event::Connected) => (
                Stage::Sleeping,
                Action::Sleep { secs: TICK_INTERVAL_SECS },
            ),
            (Stage::Connecting, Event::ConnectFailed) => (
                Stage::Terminated,
                Action::Exit { reason: Fatal::ConnectFailed },
            ),
            (Stage::Sleeping, Event::Woke) => (
                Stage::Querying,
                Action::Query { sql: NEW_EVENTS_QUERY.to_owned() },
            ),
            (Stage::Querying, Event::Answered { first_cells, process_age_s }) => match extract_count(
                &first_cells,
            ) {
                Ok(c) => (Stage::Emitting, Action::Emit { record: tick_record(process_age_s, now, c) }),
                Err(error) => (Stage::Terminated, Action::Exit { reason: Fatal::BadCount { error } }),
            },
            (Stage::Querying, Event::QueryFailed) => (
                Stage::Terminated,
                Action::Exit { reason: Fatal::QueryFailed },
            ),
            (Stage::Emitting, Event::Emitted) => (
                Stage::Sleeping,
                Action::Sleep { secs: TICK_INTERVAL_SECS },
            ),
            _ => (Stage::Terminated, Action::Exit { reason: Fatal::OutOfOrder }),
        };
        self.stage = stage;
        action
    }

    /// Takes `event` in and returns the next action. A tick record carries the
    /// local wall-clock time, read here as RFC 3339 text.
    pub fn step(&mut self, event: Event) -> (r: Action)
        ensures
            exists|now: Seq<char>| #[trigger]
                next(old(self)@, event@, now) == (final(self)@, r@),
            r@ is Emit ==> r@->Emit_0.timestamp.len() >= 25,
    {
        let now = if event.is_answer() {
            local_now_rfc3339()
        } else {
            String::new()
        };
        let ghost now_v = now@;
        let r = self.step_at(event, now);
        assert(next(old(self)@, event@, now_v) == (self@, r@));
        r
    }
}

/// A tick reports exactly the count that the query answered: whenever the
/// answer's first row holds an integer in its first column, the record emitted
/// for it carries that integer as `new_events.count`.
pub proof fn lemma_emitted_count_is_answer(first_cells: Seq<Option<i64>>, process_age_s: u64, now: Seq<char>)
    requires
        first_cells.len() > 0,
        first_cells[0] is Some,
    ensures
        ({
            let (s, a) = next(Stage::Querying, EventView::Answered(first_cells, process_age_s), now);
            &&& s == Stage::Emitting
            &&& a matches ActionView::Emit(rec)
            &&& rec.new_events_count == first_cells[0]->Some_0
            &&& rec == tick_record_spec(process_age_s, now, first_cells[0]->Some_0)
        }),
{
}

/// Each completed iteration of the loop (wake, answer, record written) emits
/// exactly one record: the answer is turned into one record, the pause and the
/// write into none, and the ticker is back to sleeping for the fixed interval.
/// An answer that holds no count emits none and ends the process.
pub proof fn lemma_one_record_per_tick(first_cells: Seq<Option<i64>>, process_age_s: u64, now: Seq<char>)
    ensures
        ({
            let (s1, a1) = next(Stage::Sleeping, EventView::Woke, now);
            let (s2, a2) = next(s1, EventView::Answered(first_cells, process_age_s), now);
            let (s3, a3) = next(s2, EventView::Emitted, now);
            &&& a1 !is Emit
            &&& count_of(first_cells) is Ok ==> {
                &&& a2 is Emit
                &&& a3 == ActionView::Sleep(TICK_INTERVAL_SECS)
                &&& s3 == Stage::Sleeping
            }
            &&& count_of(first_cells) is Err ==> {
                &&& a2 is Exit
                &&& s2 == Stage::Terminated
            }
        }),
{
}

/// A record's `meta.process_age_s` is the process age measured for its tick,
/// so the ages of successive records never decrease as long as the clock that
/// measures them does not go back.
pub proof fn lemma_process_age_follows_clock(
    cells1: Seq<Option<i64>>,
    age1: u64,
    now1: Seq<char>,
    cells2: Seq<Option<i64>>,
    age2: u64,
    now2: Seq<char>,
)
    requires
        count_of(cells1) is Ok,
        count_of(cells2) is Ok,
        age1 <= age2,
    ensures
        ({
            let (s1, a1) = next(Stage::Querying, EventView::Answered(cells1, age1), now1);
            let (s2, w) = next(s1, EventView::Emitted, now1);
            let (s3, q) = next(s2, EventView::Woke, now2);
            let (s4, a2) = next(s3, EventView::Answered(cells2, age2), now2);
            &&& a1 matches ActionView::Emit(r1)
            &&& a2 matches ActionView::Emit(r2)
            &&& r1.process_age_s == age1
            &&& r2.process_age_s == age2
            &&& r1.process_age_s <= r2.process_age_s
        }),
{
}

/// The phases only move forward: initializing, then ticking, then
/// terminated. Once ticking, the ticker never initializes again; the only way
/// into ticking is an open connection.
pub proof fn lemma_phases_move_forward(s: Stage, e: EventView, now: Seq<char>)
    ensures
        phase_of(s) == Phase::Ticking ==> phase_of(next(s, e, now).0) != Phase::Initializing,
        phase_of(s) == Phase::Terminated ==> phase_of(next(s, e, now).0) == Phase::Terminated,
        phase_of(s) == Phase::Initializing && phase_of(next(s, e, now).0) == Phase::Ticking ==> s
            == Stage::Connecting && e == EventView::Connected,
{
}

/// Terminated is final: whatever comes afterwards, the ticker stays
/// terminated and only asks for the process to end.
pub proof fn lemma_terminated_is_final(e: EventView, now: Seq<char>)
    ensures
        next(Stage::Terminated, e, now).0 == Stage::Terminated,
        next(Stage::Terminated, e, now).1 is Exit,
{
}

} // verus!
