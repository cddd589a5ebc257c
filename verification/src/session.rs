//! The session coordinator: the bucket is checked, the workers are spawned,
//! watched and joined, and what they wrote is cleaned up. The coordinator is
//! a state machine; its driver carries out each action and reports back.

use vstd::prelude::*;
use crate::args::Mode;
use crate::config::RunConfig;
use crate::failure::Failure;
use crate::key::{delimiter_text, prefix_text, sample_delimiter, sample_prefix};
use crate::text::texts;
use crate::worker::{BarrierState, BARRIER_POLL_MILLIS};

verus! {

/// The milliseconds between two looks at the counter of completed
/// operations.
pub const PROGRESS_POLL_MILLIS: u64 = 50;

/// The object by which the bucket is probed: `/_sos_bucket_test`.
pub open spec fn probe_text() -> Seq<char> {
    "/_sos_bucket_test"@
}

/// The path of the object that is written, and deleted again, to see
/// whether the bucket is there.
pub fn probe_path() -> (path: &'static str)
    ensures
        path@ == probe_text(),
{
    "/_sos_bucket_test"
}

/// What came of the request to create the bucket.
#[derive(Clone, Copy, Debug, PartialEq, Eq, Structural)]
pub enum CreateOutcome {
    /// The bucket is there now.
    Created,
    /// The service answered, and did not create the bucket.
    Refused,
    /// The request failed.
    Failed,
}

/// Where a session stands.
#[derive(Clone, Copy, Debug, PartialEq, Eq, Structural)]
pub enum SessionPhase {
    /// Nothing has happened yet.
    Idle,
    /// The bucket is being probed.
    Probing,
    /// The bucket is being created.
    Creating,
    /// The workers are being spawned.
    Spawning,
    /// Read mode, with progress shown: waiting for the bucket to be filled.
    Watching,
    /// Progress is shown while the workers run.
    Polling,
    /// The workers are being joined: `left` of them are still awaited, and
    /// `failed` says whether one of those that ended did so in an error.
    Joining { left: usize, failed: bool },
    /// The objects under the sample prefix are being listed.
    Listing { failed: bool },
    /// The listed objects are being deleted: `left` deletions are awaited.
    Deleting { left: usize, failed: bool },
    /// The session is over.
    Done { failure: Option<Failure> },
}

/// What the driver reports to the session.
#[derive(Debug, PartialEq, Eq)]
pub enum SessionEvent {
    /// The session begins; `client` says whether the storage client could
    /// be built.
    Started { client: bool },
    /// The probe of the bucket has succeeded or failed.
    Probed { exists: bool },
    /// The request to create the bucket has come back.
    Created { outcome: CreateOutcome },
    /// The workers have been spawned.
    Spawned,
    /// The barrier and the cancellation signal were read.
    Seen { barrier: BarrierState, cancelled: bool },
    /// The counter of completed operations and the cancellation signal were
    /// read.
    Polled { completed: u64, cancelled: bool },
    /// One worker has ended, in success or in an error.
    Joined { ok: bool },
    /// The listing has come back with the keys of the objects under the
    /// prefix, or has failed.
    Listed { keys: Option<Vec<String>> },
    /// One deletion has come back.
    Deleted { ok: bool },
}

/// An event, with its keys as text.
pub enum SessionEventModel {
    Started { client: bool },
    Probed { exists: bool },
    Created { outcome: CreateOutcome },
    Spawned,
    Seen { barrier: BarrierState, cancelled: bool },
    Polled { completed: u64, cancelled: bool },
    Joined { ok: bool },
    Listed { keys: Option<Seq<Seq<char>>> },
    Deleted { ok: bool },
}

impl View for SessionEvent {
    type V = SessionEventModel;

    open spec fn view(&self) -> SessionEventModel {
        match self {
            SessionEvent::Started { client } => SessionEventModel::Started { client: *client },
            SessionEvent::Probed { exists } => SessionEventModel::Probed { exists: *exists },
            SessionEvent::Created { outcome } => SessionEventModel::Created { outcome: *outcome },
            SessionEvent::Spawned => SessionEventModel::Spawned,
            SessionEvent::Seen { barrier, cancelled } => SessionEventModel::Seen {
                barrier: *barrier,
                cancelled: *cancelled,
            },
            SessionEvent::Polled { completed, cancelled } => SessionEventModel::Polled {
                completed: *completed,
                cancelled: *cancelled,
            },
            SessionEvent::Joined { ok } => SessionEventModel::Joined { ok: *ok },
            SessionEvent::Listed { keys } => SessionEventModel::Listed {
                keys: match keys {
                    Some(keys) => Some(texts(keys@)),
                    None => None,
                },
            },
            SessionEvent::Deleted { ok } => SessionEventModel::Deleted { ok: *ok },
        }
    }
}

/// What the driver does for the session next.
#[derive(Debug, PartialEq, Eq)]
pub enum SessionAction {
    /// Write the probe object and delete it again, and report `Probed`.
    Probe { path: &'static str },
    /// Create the bucket, and report `Created`.
    Create,
    /// Spawn that many workers, with the ids from 0, and report `Spawned`.
    Spawn { workers: usize },
    /// Sleep, read the barrier and the cancellation signal, and report
    /// `Seen`.
    Watch { after_millis: u64 },
    /// Show the position, sleep, read the counter and the cancellation
    /// signal, and report `Polled`.
    Poll { position: u64, after_millis: u64 },
    /// Show the position if there is one, as the final one where `finished`
    /// holds; then wait for every worker to end, and report `Joined` for
    /// each.
    Join { position: Option<u64>, finished: bool },
    /// List the objects under the prefix, and report `Listed`.
    List { prefix: &'static str, delimiter: &'static str },
    /// Delete the object of each of these keys, once, all at the same time,
    /// and report `Deleted` for the first deletion that comes back.
    DeleteAll { keys: Vec<String> },
    /// Report `Deleted` for the next deletion that comes back.
    AwaitDeleted,
    /// The session is over: in success, or in the failure given.
    Finish { failure: Option<Failure> },
}

/// A session action, with its strings as text.
pub enum SessionActionModel {
    Probe { path: Seq<char> },
    Create,
    Spawn { workers: usize },
    Watch { after_millis: u64 },
    Poll { position: u64, after_millis: u64 },
    Join { position: Option<u64>, finished: bool },
    List { prefix: Seq<char>, delimiter: Seq<char> },
    DeleteAll { keys: Seq<Seq<char>> },
    AwaitDeleted,
    Finish { failure: Option<Failure> },
}

impl View for SessionAction {
    type V = SessionActionModel;

    open spec fn view(&self) -> SessionActionModel {
        match self {
            SessionAction::Probe { path } => SessionActionModel::Probe { path: path@ },
            SessionAction::Create => SessionActionModel::Create,
            SessionAction::Spawn { workers } => SessionActionModel::Spawn { workers: *workers },
            SessionAction::Watch { after_millis } => SessionActionModel::Watch {
                after_millis: *after_millis,
            },
            SessionAction::Poll { position, after_millis } => SessionActionModel::Poll {
                position: *position,
                after_millis: *after_millis,
            },
            SessionAction::Join { position, finished } => SessionActionModel::Join {
                position: *position,
                finished: *finished,
            },
            SessionAction::List { prefix, delimiter } => SessionActionModel::List {
                prefix: prefix@,
                delimiter: delimiter@,
            },
            SessionAction::DeleteAll { keys } => SessionActionModel::DeleteAll {
                keys: texts(keys@),
            },
            SessionAction::AwaitDeleted => SessionActionModel::AwaitDeleted,
            SessionAction::Finish { failure } => SessionActionModel::Finish { failure: *failure },
        }
    }
}

/// The position of the progress display after `completed` operations: the
/// bytes moved so far, and the largest position where they are beyond it.
pub open spec fn position_of(completed: u64, object_size: usize) -> u64 {
    if completed * object_size <= u64::MAX {
        (completed * object_size) as u64
    } else {
        u64::MAX
    }
}

/// One session: a bucket, a pool of workers, and the cleanup after them.
#[derive(Clone, Copy, Debug, PartialEq, Eq, Structural)]
pub struct Session {
    /// What the run goes by.
    pub config: RunConfig,
    /// Whether a missing bucket may be created.
    pub bucket_create: bool,
    /// Where the session stands.
    pub phase: SessionPhase,
}

impl Session {
    /// A session before it begins.
    pub open spec fn idle(config: RunConfig, bucket_create: bool) -> Session {
        Session { config, bucket_create, phase: SessionPhase::Idle }
    }

    /// The session ends.
    pub open spec fn done(self, failure: Option<Failure>) -> (Session, SessionActionModel) {
        (
            Session { phase: SessionPhase::Done { failure }, ..self },
            SessionActionModel::Finish { failure },
        )
    }

    /// The workers are spawned.
    pub open spec fn spawn(self) -> (Session, SessionActionModel) {
        (
            Session { phase: SessionPhase::Spawning, ..self },
            SessionActionModel::Spawn { workers: self.config.thread_count },
        )
    }

    /// The counter is polled, with `position` on display.
    pub open spec fn poll(self, position: u64) -> (Session, SessionActionModel) {
        (
            Session { phase: SessionPhase::Polling, ..self },
            SessionActionModel::Poll { position, after_millis: PROGRESS_POLL_MILLIS },
        )
    }

    /// The workers are joined; with none to join, the cleanup begins.
    pub open spec fn join(self, position: Option<u64>, finished: bool) -> (
        Session,
        SessionActionModel,
    ) {
        if self.config.thread_count == 0 {
            self.list(false)
        } else {
            (
                Session {
                    phase: SessionPhase::Joining { left: self.config.thread_count, failed: false },
                    ..self
                },
                SessionActionModel::Join { position, finished },
            )
        }
    }

    /// The cleanup begins: the objects under the sample prefix are listed.
    pub open spec fn list(self, failed: bool) -> (Session, SessionActionModel) {
        (
            Session { phase: SessionPhase::Listing { failed }, ..self },
            SessionActionModel::List { prefix: prefix_text(), delimiter: delimiter_text() },
        )
    }

    /// How a session ends after a cleanup that has not failed: in the
    /// workers' error, if one of them failed, and in success otherwise.
    pub open spec fn outcome_after_cleanup(failed: bool) -> Option<Failure> {
        if failed {
            Some(Failure::Operation)
        } else {
            None
        }
    }

    /// How a session ends when the cleanup has failed at `step`: the error
    /// of a worker still comes first.
    pub open spec fn outcome_of_cleanup_failure(failed: bool, step: Failure) -> Option<Failure> {
        if failed {
            Some(Failure::Operation)
        } else {
            Some(step)
        }
    }

    /// Whether the run has made all the operations that it was capped at.
    pub open spec fn is_finished(self, completed: u64) -> bool {
        self.config.count matches Some(count) && count == completed
    }

    /// What a session does on an event. A client that cannot be built, a
    /// bucket that is missing and may not be created, and a bucket that
    /// cannot be created each end the session before any worker is spawned.
    /// With progress shown, the session waits in read mode for the bucket to
    /// be filled, then polls the counter until the run has made all its
    /// operations or is cancelled. Then every worker is joined; then, once,
    /// the objects under the sample prefix are listed and deleted. The
    /// session ends in the first worker's error if there is one, else in the
    /// cleanup's error if there is one, else in success. A session that is
    /// over stays as it is, and an event that answers no action of the
    /// session ends it as out of turn.
    pub open spec fn next(self, event: SessionEventModel) -> (Session, SessionActionModel) {
        match (self.phase, event) {
            (SessionPhase::Done { failure }, _) => (self, SessionActionModel::Finish { failure }),
            (SessionPhase::Idle, SessionEventModel::Started { client }) => if client {
                (
                    Session { phase: SessionPhase::Probing, ..self },
                    SessionActionModel::Probe { path: probe_text() },
                )
            } else {
                self.done(Some(Failure::ClientInit))
            },
            (SessionPhase::Probing, SessionEventModel::Probed { exists }) => if exists {
                self.spawn()
            } else if self.bucket_create {
                (Session { phase: SessionPhase::Creating, ..self }, SessionActionModel::Create)
            } else {
                self.done(Some(Failure::BucketMissing))
            },
            (SessionPhase::Creating, SessionEventModel::Created { outcome }) => match outcome {
                CreateOutcome::Created => self.spawn(),
                CreateOutcome::Refused => self.done(Some(Failure::BucketRefused)),
                CreateOutcome::Failed => self.done(Some(Failure::BucketCreate)),
            },
            (SessionPhase::Spawning, SessionEventModel::Spawned) => if !self.config.progress_enabled {
                self.join(None, false)
            } else if self.config.mode == Mode::Read {
                (
                    Session { phase: SessionPhase::Watching, ..self },
                    SessionActionModel::Watch { after_millis: 0 },
                )
            } else {
                self.poll(0)
            },
            (SessionPhase::Watching, SessionEventModel::Seen { barrier, cancelled }) => if barrier
                == BarrierState::Ready {
                self.poll(0)
            } else if cancelled {
                self.join(Some(0), false)
            } else {
                (self, SessionActionModel::Watch { after_millis: BARRIER_POLL_MILLIS })
            },
            (SessionPhase::Polling, SessionEventModel::Polled { completed, cancelled }) => {
                let position = position_of(completed, self.config.object_size);
                if self.is_finished(completed) || cancelled {
                    self.join(Some(position), self.is_finished(completed))
                } else {
                    self.poll(position)
                }
            },
            (SessionPhase::Joining { left, failed }, SessionEventModel::Joined { ok }) => {
                let failed = failed || !ok;
                if left > 1 {
                    (
                        Session {
                            phase: SessionPhase::Joining { left: (left - 1) as usize, failed },
                            ..self
                        },
                        SessionActionModel::Join { position: None, finished: false },
                    )
                } else {
                    self.list(failed)
                }
            },
            (SessionPhase::Listing { failed }, SessionEventModel::Listed { keys }) => match keys {
                None => self.done(
                    Self::outcome_of_cleanup_failure(failed, Failure::CleanupList),
                ),
                Some(keys) => if keys.len() == 0 {
                    self.done(Self::outcome_after_cleanup(failed))
                } else {
                    (
                        Session {
                            phase: SessionPhase::Deleting { left: keys.len() as usize, failed },
                            ..self
                        },
                        SessionActionModel::DeleteAll { keys },
                    )
                },
            },
            (SessionPhase::Deleting { left, failed }, SessionEventModel::Deleted { ok }) => if !ok {
                self.done(Self::outcome_of_cleanup_failure(failed, Failure::CleanupDelete))
            } else if left > 1 {
                (
                    Session {
                        phase: SessionPhase::Deleting { left: (left - 1) as usize, failed },
                        ..self
                    },
                    SessionActionModel::AwaitDeleted,
                )
            } else {
                self.done(Self::outcome_after_cleanup(failed))
            },
            _ => self.done(Some(Failure::OutOfTurn)),
        }
    }
}

impl RunConfig {
    /// The length of the progress display: the bytes of the whole run where
    /// the operations are capped, and none, for a display without an end,
    /// where they are not.
    pub open spec fn progress_length(&self) -> Option<u64> {
        match self.count {
            Some(count) => Some(position_of(count as u64, self.object_size)),
            None => None,
        }
    }

    /// The length of the progress display.
    pub fn progress_total(&self) -> (total: Option<u64>)
        ensures
            total == self.progress_length(),
            self.valid() && self.progress_enabled ==> (total matches Some(bytes) ==> bytes
                == self.total_bytes()),
    {
        match self.count {
            Some(count) => Some(position(count as u64, self.object_size)),
            None => None,
        }
    }
}

/// The position of the progress display after `completed` operations.
pub fn position(completed: u64, object_size: usize) -> (position: u64)
    ensures
        position == position_of(completed, object_size),
{
    match completed.checked_mul(object_size as u64) {
        Some(bytes) => bytes,
        None => u64::MAX,
    }
}

impl Session {
    /// A session on the bucket that `config` is run against; `bucket_create`
    /// says whether a missing bucket may be created.
    pub fn new(config: RunConfig, bucket_create: bool) -> (session: Session)
        ensures
            session == Session::idle(config, bucket_create),
    {
        Session { config, bucket_create, phase: SessionPhase::Idle }
    }

    /// Whether the session is over.
    pub fn is_done(&self) -> (done: bool)
        ensures
            done == (self.phase is Done),
    {
        match self.phase {
            SessionPhase::Done { .. } => true,
            _ => false,
        }
    }

    /// Takes an event, moves the session on, and says what the driver does
    /// next.
    pub fn step(&mut self, event: SessionEvent) -> (action: SessionAction)
        ensures
            (*final(self), action@) == old(self).next(event@),
    {
        match (self.phase, event) {
            (SessionPhase::Done { failure }, _) => SessionAction::Finish { failure },
            (SessionPhase::Idle, SessionEvent::Started { client }) => {
                if client {
                    self.phase = SessionPhase::Probing;
                    SessionAction::Probe { path: probe_path() }
                } else {
                    self.finish(Some(Failure::ClientInit))
                }
            },
            (SessionPhase::Probing, SessionEvent::Probed { exists }) => {
                if exists {
                    self.start_workers()
                } else if self.bucket_create {
                    self.phase = SessionPhase::Creating;
                    SessionAction::Create
                } else {
                    self.finish(Some(Failure::BucketMissing))
                }
            },
            (SessionPhase::Creating, SessionEvent::Created { outcome }) => match outcome {
                CreateOutcome::Created => self.start_workers(),
                CreateOutcome::Refused => self.finish(Some(Failure::BucketRefused)),
                CreateOutcome::Failed => self.finish(Some(Failure::BucketCreate)),
            },
            (SessionPhase::Spawning, SessionEvent::Spawned) => {
                if !self.config.progress_enabled {
                    self.start_join(None, false)
                } else {
                    match self.config.mode {
                        Mode::Read => {
                            self.phase = SessionPhase::Watching;
                            SessionAction::Watch { after_millis: 0 }
                        },
                        Mode::Write => self.start_poll(0),
                    }
                }
            },
            (SessionPhase::Watching, SessionEvent::Seen { barrier, cancelled }) => {
                if barrier == BarrierState::Ready {
                    self.start_poll(0)
                } else if cancelled {
                    self.start_join(Some(0), false)
                } else {
                    SessionAction::Watch { after_millis: BARRIER_POLL_MILLIS }
                }
            },
            (SessionPhase::Polling, SessionEvent::Polled { completed, cancelled }) => {
                let shown = position(completed, self.config.object_size);
                let finished = match self.config.count {
                    Some(count) => count as u64 == completed,
                    None => false,
                };
                if finished || cancelled {
                    self.start_join(Some(shown), finished)
                } else {
                    self.start_poll(shown)
                }
            },
            (SessionPhase::Joining { left, failed }, SessionEvent::Joined { ok }) => {
                let failed = failed || !ok;
                if left > 1 {
                    self.phase = SessionPhase::Joining { left: left - 1, failed };
                    SessionAction::Join { position: None, finished: false }
                } else {
                    self.start_list(failed)
                }
            },
            (SessionPhase::Listing { failed }, SessionEvent::Listed { keys }) => match keys {
                None => {
                    let failure = if failed {
                        Failure::Operation
                    } else {
                        Failure::CleanupList
                    };
                    self.finish(Some(failure))
                },
                Some(keys) => {
                    if keys.len() == 0 {
                        self.finish(after_cleanup(failed))
                    } else {
                        self.phase = SessionPhase::Deleting { left: keys.len(), failed };
                        SessionAction::DeleteAll { keys }
                    }
                },
            },
            (SessionPhase::Deleting { left, failed }, SessionEvent::Deleted { ok }) => {
                if !ok {
                    let failure = if failed {
                        Failure::Operation
                    } else {
                        Failure::CleanupDelete
                    };
                    self.finish(Some(failure))
                } else if left > 1 {
                    self.phase = SessionPhase::Deleting { left: left - 1, failed };
                    SessionAction::AwaitDeleted
                } else {
                    self.finish(after_cleanup(failed))
                }
            },
            _ => self.finish(Some(Failure::OutOfTurn)),
        }
    }

    /// Ends the session.
    fn finish(&mut self, failure: Option<Failure>) -> (action: SessionAction)
        ensures
            (*final(self), action@) == old(self).done(failure),
    {
        self.phase = SessionPhase::Done { failure };
        SessionAction::Finish { failure }
    }

    /// Asks for the workers.
    fn start_workers(&mut self) -> (action: SessionAction)
        ensures
            (*final(self), action@) == old(self).spawn(),
    {
        self.phase = SessionPhase::Spawning;
        SessionAction::Spawn { workers: self.config.thread_count }
    }

    /// Asks for the next look at the counter.
    fn start_poll(&mut self, position: u64) -> (action: SessionAction)
        ensures
            (*final(self), action@) == old(self).poll(position),
    {
        self.phase = SessionPhase::Polling;
        SessionAction::Poll { position, after_millis: PROGRESS_POLL_MILLIS }
    }

    /// Asks for the workers to be joined.
    fn start_join(&mut self, position: Option<u64>, finished: bool) -> (action: SessionAction)
        ensures
            (*final(self), action@) == old(self).join(position, finished),
    {
        if self.config.thread_count == 0 {
            self.start_list(false)
        } else {
            self.phase = SessionPhase::Joining { left: self.config.thread_count, failed: false };
            SessionAction::Join { position, finished }
        }
    }

    /// Asks for the listing.
    fn start_list(&mut self, failed: bool) -> (action: SessionAction)
        ensures
            (*final(self), action@) == old(self).list(failed),
    {
        self.phase = SessionPhase::Listing { failed };
        SessionAction::List { prefix: sample_prefix(), delimiter: sample_delimiter() }
    }
}

/// How a session ends after a cleanup that has not failed.
fn after_cleanup(failed: bool) -> (failure: Option<Failure>)
    ensures
        failure == Session::outcome_after_cleanup(failed),
{
    if failed {
        Some(Failure::Operation)
    } else {
        None
    }
}

/// How far a session has come: every step leaves the rank as it is or
/// raises it.
pub open spec fn rank(phase: SessionPhase) -> nat {
    match phase {
        SessionPhase::Idle => 0,
        SessionPhase::Probing => 1,
        SessionPhase::Creating => 2,
        SessionPhase::Spawning => 3,
        SessionPhase::Watching => 4,
        SessionPhase::Polling => 5,
        SessionPhase::Joining { .. } => 6,
        SessionPhase::Listing { .. } => 7,
        SessionPhase::Deleting { .. } => 8,
        SessionPhase::Done { .. } => 9,
    }
}

/// A session never goes back, and the cleanup runs at most once: the
/// listing is asked for only in the step that takes the session from the
/// workers to the cleanup, and the workers are spawned only in the step
/// that ends the setup.
pub proof fn lemma_session_goes_forward(session: Session, event: SessionEventModel)
    ensures
        rank(session.next(event).0.phase) >= rank(session.phase),
        session.next(event).0.config == session.config,
        session.next(event).1 is List ==> rank(session.phase) < 7 && session.next(
            event,
        ).0.phase is Listing,
        session.next(event).1 is Spawn ==> rank(session.phase) < 3 && session.next(
            event,
        ).0.phase is Spawning,
        session.next(event).1 is DeleteAll ==> session.phase is Listing && session.next(
            event,
        ).0.phase is Deleting,
{
}

/// The cleanup deletes exactly what the listing returned: the keys handed
/// out to be deleted are the listed keys, in the listing's order, and one
/// deletion is awaited for each of them. They are handed out in the one step
/// that takes the listing, so no key is deleted twice, and the session asks
/// for nothing to be written.
pub proof fn lemma_cleanup_deletes_what_was_listed(session: Session, keys: Seq<Seq<char>>)
    requires
        session.phase is Listing,
        0 < keys.len() <= usize::MAX,
    ensures
        session.next(SessionEventModel::Listed { keys: Some(keys) }).1 == (
        SessionActionModel::DeleteAll { keys }),
        session.next(SessionEventModel::Listed { keys: Some(keys) }).0.phase == (
        SessionPhase::Deleting {
            left: keys.len() as usize,
            failed: session.phase->Listing_failed,
        }),
{
}

/// The cleanup begins only when every worker has ended: with workers in the
/// pool, the listing is asked for in the step that takes the report of the
/// last of them, and in no other.
pub proof fn lemma_cleanup_follows_the_join(session: Session, event: SessionEventModel)
    requires
        session.config.thread_count > 0,
        session.next(event).1 is List,
    ensures
        session.phase matches SessionPhase::Joining { left, .. } && left <= 1,
        event is Joined,
{
}

/// Every worker is waited for: while more than one is awaited, the report
/// of one, in success or in an error, leaves the session joining, with one
/// fewer to await and the error remembered.
pub proof fn lemma_join_waits_for_all(session: Session, ok: bool)
    requires
        session.phase matches SessionPhase::Joining { left, .. } && left > 1,
    ensures
        session.next(SessionEventModel::Joined { ok }).0.phase == (SessionPhase::Joining {
            left: (session.phase->Joining_left - 1) as usize,
            failed: session.phase->Joining_failed || !ok,
        }),
{
}

/// A session ends in success only through the cleanup, and a failure of the
/// setup ends it before any worker is spawned.
pub proof fn lemma_how_sessions_end(session: Session, event: SessionEventModel)
    requires
        !(session.phase is Done),
    ensures
        session.next(event).1 == (SessionActionModel::Finish { failure: None }) ==> (
        session.phase is Listing || session.phase is Deleting),
        session.next(event).1 matches SessionActionModel::Finish { failure: Some(f) }
            && f.is_setup() ==> rank(session.phase) < 3,
        rank(session.phase) < 3 && session.next(event).1 is Finish ==> session.next(event).1
            != (SessionActionModel::Finish { failure: None }),
{
}

/// The error of a worker outlives the cleanup: a session that has seen a
/// worker fail ends in that error, whatever the cleanup does.
pub proof fn lemma_worker_error_comes_first(session: Session, event: SessionEventModel)
    requires
        (session.phase matches SessionPhase::Listing { failed: true } && event is Listed) || (
        session.phase matches SessionPhase::Deleting { failed: true, .. } && event is Deleted),
        session.next(event).1 is Finish,
    ensures
        session.next(event).1 == (SessionActionModel::Finish {
            failure: Some(Failure::Operation),
        }),
{
}

/// While progress is shown, the display stands at the bytes of the
/// completed operations, and the polling ends exactly when the run has made
/// all its operations or is cancelled.
pub proof fn lemma_progress_follows_the_counter(session: Session, completed: u64, cancelled: bool)
    requires
        session.phase is Polling,
        session.config.thread_count > 0,
    ensures
        ({
            let action = session.next(SessionEventModel::Polled { completed, cancelled }).1;
            let shown = position_of(completed, session.config.object_size);
            if session.is_finished(completed) || cancelled {
                action == (SessionActionModel::Join {
                    position: Some(shown),
                    finished: session.is_finished(completed),
                })
            } else {
                action == (SessionActionModel::Poll {
                    position: shown,
                    after_millis: PROGRESS_POLL_MILLIS,
                })
            }
        }),
{
}

/// A session that is over stays over, with the same end.
pub proof fn lemma_done_is_final(session: Session, event: SessionEventModel)
    requires
        session.phase is Done,
    ensures
        session.next(event) == (
            session,
            SessionActionModel::Finish { failure: session.phase->Done_failure },
        ),
{
}

} // verus!
