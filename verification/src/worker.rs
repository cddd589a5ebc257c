//! The worker task: which index a worker takes next, when it stops, and how
//! the workers of a read run wait for the one that fills the bucket first.
//! The worker is a state machine; its driver carries out each action and
//! hands back what came of it.

use vstd::prelude::*;
use crate::args::Mode;
use crate::config::RunConfig;

verus! {

/// The milliseconds between two looks at the barrier.
pub const BARRIER_POLL_MILLIS: u64 = 10;

/// The barrier of a read run, shared by its workers: nobody has begun to
/// fill the bucket, one worker is filling it, or it is filled.
#[derive(Clone, Copy, Debug, PartialEq, Eq, Structural)]
pub enum BarrierState {
    Pending,
    Initializing,
    Ready,
}

impl BarrierState {
    /// The number that stands for the state in a shared atomic cell.
    pub open spec fn code_of(self) -> u8 {
        match self {
            BarrierState::Pending => 0,
            BarrierState::Initializing => 1,
            BarrierState::Ready => 2,
        }
    }

    /// What an attempt to claim the initialization does to the barrier, and
    /// whether it wins: a compare-and-swap from `Pending` to `Initializing`.
    pub open spec fn claimed(self) -> (BarrierState, bool) {
        if self == BarrierState::Pending {
            (BarrierState::Initializing, true)
        } else {
            (self, false)
        }
    }

    /// The number that stands for the state in a shared atomic cell.
    pub fn code(self) -> (code: u8)
        ensures
            code == self.code_of(),
    {
        match self {
            BarrierState::Pending => 0,
            BarrierState::Initializing => 1,
            BarrierState::Ready => 2,
        }
    }

    /// The state that `code` stands for, if it stands for one.
    pub fn from_code(code: u8) -> (state: Option<BarrierState>)
        ensures
            state is Some <==> code <= 2,
            state matches Some(s) ==> s.code_of() == code,
    {
        if code == 0 {
            Some(BarrierState::Pending)
        } else if code == 1 {
            Some(BarrierState::Initializing)
        } else if code == 2 {
            Some(BarrierState::Ready)
        } else {
            None
        }
    }

    /// Claims the initialization: the barrier after the attempt, and whether
    /// the attempt won.
    pub fn claim(self) -> (claimed: (BarrierState, bool))
        ensures
            claimed == self.claimed(),
    {
        match self {
            BarrierState::Pending => (BarrierState::Initializing, true),
            _ => (self, false),
        }
    }
}

/// Why a worker has stopped.
#[derive(Clone, Copy, Debug, PartialEq, Eq, Structural)]
pub enum StopReason {
    /// The cancellation signal was seen.
    Cancelled,
    /// The worker's cursor has reached the cap on the pool's operations.
    CountReached,
    /// The worker has run for the configured time.
    DurationElapsed,
    /// The cursor can advance no further: the next index is beyond what this
    /// machine can count.
    Exhausted,
    /// An operation failed.
    Failed,
    /// The driver handed in an event that answers no action of the worker.
    OutOfTurn,
}

impl StopReason {
    /// Whether the worker ends in an error. A cancelled worker, and one that
    /// has done its share, ends in success.
    pub open spec fn is_failure(self) -> bool {
        self == StopReason::Failed || self == StopReason::OutOfTurn
    }

    /// Whether the worker ends in an error.
    pub fn failed(&self) -> (failed: bool)
        ensures
            failed == self.is_failure(),
    {
        match self {
            StopReason::Failed => true,
            StopReason::OutOfTurn => true,
            _ => false,
        }
    }
}

/// Where a worker stands.
#[derive(Clone, Copy, Debug, PartialEq, Eq, Structural)]
pub enum Phase {
    /// Spawned, and not yet started.
    Pending,
    /// Read mode: the attempt to claim the initialization is under way.
    Claiming,
    /// Read mode, the one worker that won the claim: the write of the object
    /// `next` is under way.
    Initializing { next: usize },
    /// Read mode, the worker that won the claim: every object is written,
    /// and the barrier is being set to ready.
    Publishing,
    /// Read mode, a worker that lost the claim: waiting for the barrier.
    WaitingForReady,
    /// An operation of the running loop is under way. The worker entered the
    /// loop when the clock read `since` nanoseconds.
    Running { since: u128 },
    /// The worker is done.
    Stopped { reason: StopReason },
}

/// What a worker sees of the world when it decides: whether the run is
/// cancelled, and what a monotonic clock reads, in nanoseconds.
#[derive(Clone, Copy, Debug, PartialEq, Eq, Structural)]
pub struct Env {
    pub cancelled: bool,
    pub now_nanos: u128,
}

/// What the driver reports to the worker.
#[derive(Clone, Copy, Debug, PartialEq, Eq, Structural)]
pub enum Event {
    /// The worker's task has started.
    Started,
    /// The attempt to claim the initialization has won or lost.
    Claimed { won: bool },
    /// The barrier was read, and stood at `barrier`.
    Observed { barrier: BarrierState },
    /// The operation asked for is over, in success or in failure.
    Completed { ok: bool },
    /// The barrier was set to ready.
    Published,
}

/// What the driver does for the worker next.
#[derive(Clone, Copy, Debug, PartialEq, Eq, Structural)]
pub enum Action {
    /// Try to move the barrier from pending to initializing, and report
    /// `Claimed`.
    Claim,
    /// Sleep for `after_millis` milliseconds, read the barrier, and report
    /// `Observed`.
    Observe { after_millis: u64 },
    /// Write the object `index`, and report `Completed`. The payload is the
    /// window of the worker's buffer at `index`.
    Write { index: usize, counted: bool },
    /// Read the object `index`, and report `Completed`.
    Read { index: usize, counted: bool },
    /// Set the barrier to ready, and report `Published`.
    Publish,
    /// End the task: in an error where the reason is a failure, in success
    /// otherwise.
    Stop { reason: StopReason },
}

/// One worker of the pool.
#[derive(Clone, Copy, Debug, PartialEq, Eq, Structural)]
pub struct Worker {
    /// What the run goes by.
    pub config: RunConfig,
    /// The worker's place in the pool, counted from 0.
    pub id: usize,
    /// The logical index of the worker's next operation.
    pub cursor: usize,
    /// Where the worker stands.
    pub phase: Phase,
}

/// The nanoseconds from `since` to `now` on a clock that does not run
/// backwards.
pub open spec fn elapsed(now: u128, since: u128) -> u128 {
    if now >= since {
        (now - since) as u128
    } else {
        0
    }
}

impl Worker {
    /// A worker as it is spawned: pending, its cursor at its own id.
    pub open spec fn spawned(config: RunConfig, id: usize) -> Worker {
        Worker { config, id, cursor: id, phase: Phase::Pending }
    }

    /// The worker stops.
    pub open spec fn stop(self, reason: StopReason) -> (Worker, Action) {
        (Worker { phase: Phase::Stopped { reason }, ..self }, Action::Stop { reason })
    }

    /// Why a worker that entered the running loop at `since` must stop now,
    /// if it must. The conditions are looked at in this order: the
    /// cancellation signal; the cap on operations, against the worker's own
    /// cursor; the time limit, against the worker's own clock; and whether
    /// the cursor can advance.
    pub open spec fn due(self, env: Env, since: u128) -> Option<StopReason> {
        if env.cancelled {
            Some(StopReason::Cancelled)
        } else if self.config.count matches Some(count) && self.cursor >= count {
            Some(StopReason::CountReached)
        } else if self.config.duration matches Some(limit) && elapsed(env.now_nanos, since)
            >= limit.nanos() {
            Some(StopReason::DurationElapsed)
        } else if self.cursor + self.config.thread_count > usize::MAX {
            Some(StopReason::Exhausted)
        } else {
            None
        }
    }

    /// The operation of the run's mode on the object `index`, counted.
    pub open spec fn operation(self, index: usize) -> Action {
        match self.config.mode {
            Mode::Read => Action::Read { index, counted: true },
            Mode::Write => Action::Write { index, counted: true },
        }
    }

    /// One turn of the running loop: the worker stops if it must; else it
    /// takes the object at its cursor, reduced modulo `step`, and moves the
    /// cursor on by the number of workers.
    pub open spec fn run(self, env: Env, since: u128) -> (Worker, Action) {
        match self.due(env, since) {
            Some(reason) => self.stop(reason),
            None => (
                Worker {
                    cursor: (self.cursor + self.config.thread_count) as usize,
                    phase: Phase::Running { since },
                    ..self
                },
                self.operation((self.cursor % self.config.step) as usize),
            ),
        }
    }

    /// One turn of the initialization: the object `next` is written,
    /// uncounted, while there is one; then the barrier is set to ready.
    pub open spec fn init(self, next: int) -> (Worker, Action) {
        if 0 <= next < self.config.step {
            (
                Worker { phase: Phase::Initializing { next: next as usize }, ..self },
                Action::Write { index: next as usize, counted: false },
            )
        } else {
            (Worker { phase: Phase::Publishing, ..self }, Action::Publish)
        }
    }

    /// What a worker does on an event. In write mode it enters the running
    /// loop as soon as it starts. In read mode it first tries to claim the
    /// initialization: the worker that wins writes the objects `0` to
    /// `step - 1` and sets the barrier to ready; a worker that loses looks at
    /// the barrier every ten milliseconds until it is ready or the run is
    /// cancelled. A failed operation stops the worker at once. A stopped
    /// worker stays stopped, and an event that answers no action of the
    /// worker stops it as out of turn.
    pub open spec fn next(self, event: Event, env: Env) -> (Worker, Action) {
        match (self.phase, event) {
            (Phase::Stopped { reason }, _) => (self, Action::Stop { reason }),
            (Phase::Pending, Event::Started) => match self.config.mode {
                Mode::Write => self.run(env, env.now_nanos),
                Mode::Read => (Worker { phase: Phase::Claiming, ..self }, Action::Claim),
            },
            (Phase::Claiming, Event::Claimed { won }) => if won {
                self.init(0)
            } else {
                (
                    Worker { phase: Phase::WaitingForReady, ..self },
                    Action::Observe { after_millis: 0 },
                )
            },
            (Phase::Initializing { next }, Event::Completed { ok }) => if ok {
                self.init(next + 1)
            } else {
                self.stop(StopReason::Failed)
            },
            (Phase::Publishing, Event::Published) => self.run(env, env.now_nanos),
            (Phase::WaitingForReady, Event::Observed { barrier }) => if barrier
                == BarrierState::Ready {
                self.run(env, env.now_nanos)
            } else if env.cancelled {
                self.stop(StopReason::Cancelled)
            } else {
                (self, Action::Observe { after_millis: BARRIER_POLL_MILLIS })
            },
            (Phase::Running { since }, Event::Completed { ok }) => if ok {
                self.run(env, since)
            } else {
                self.stop(StopReason::Failed)
            },
            _ => self.stop(StopReason::OutOfTurn),
        }
    }

    /// Whether the worker is done.
    pub open spec fn is_stopped(self) -> bool {
        self.phase is Stopped
    }
}

impl Worker {
    /// The worker `id` of a pool, as it is spawned.
    pub fn new(config: RunConfig, id: usize) -> (worker: Worker)
        ensures
            worker == Worker::spawned(config, id),
    {
        Worker { config, id, cursor: id, phase: Phase::Pending }
    }

    /// Whether the worker is done.
    pub fn stopped(&self) -> (stopped: bool)
        ensures
            stopped == self.is_stopped(),
    {
        match self.phase {
            Phase::Stopped { .. } => true,
            _ => false,
        }
    }

    /// Takes an event, moves the worker on, and says what the driver does
    /// next.
    pub fn step(&mut self, event: Event, env: Env) -> (action: Action)
        requires
            old(self).config.step > 0,
        ensures
            (*final(self), action) == old(self).next(event, env),
            final(self).config == old(self).config,
            final(self).id == old(self).id,
    {
        match (self.phase, event) {
            (Phase::Stopped { reason }, _) => Action::Stop { reason },
            (Phase::Pending, Event::Started) => match self.config.mode {
                Mode::Write => self.turn(env, env.now_nanos),
                Mode::Read => {
                    self.phase = Phase::Claiming;
                    Action::Claim
                },
            },
            (Phase::Claiming, Event::Claimed { won }) => {
                if won {
                    self.prepare(0)
                } else {
                    self.phase = Phase::WaitingForReady;
                    Action::Observe { after_millis: 0 }
                }
            },
            (Phase::Initializing { next }, Event::Completed { ok }) => {
                if !ok {
                    self.halt(StopReason::Failed)
                } else if next < self.config.step {
                    self.prepare(next + 1)
                } else {
                    self.prepare(next)
                }
            },
            (Phase::Publishing, Event::Published) => self.turn(env, env.now_nanos),
            (Phase::WaitingForReady, Event::Observed { barrier }) => {
                if barrier == BarrierState::Ready {
                    self.turn(env, env.now_nanos)
                } else if env.cancelled {
                    self.halt(StopReason::Cancelled)
                } else {
                    Action::Observe { after_millis: BARRIER_POLL_MILLIS }
                }
            },
            (Phase::Running { since }, Event::Completed { ok }) => {
                if ok {
                    self.turn(env, since)
                } else {
                    self.halt(StopReason::Failed)
                }
            },
            _ => self.halt(StopReason::OutOfTurn),
        }
    }

    /// Stops the worker.
    fn halt(&mut self, reason: StopReason) -> (action: Action)
        ensures
            (*final(self), action) == old(self).stop(reason),
    {
        self.phase = Phase::Stopped { reason };
        Action::Stop { reason }
    }

    /// Takes one turn of the initialization.
    fn prepare(&mut self, next: usize) -> (action: Action)
        ensures
            (*final(self), action) == old(self).init(next as int),
            next >= old(self).config.step ==> (*final(self), action) == old(self).init(next + 1),
    {
        if next < self.config.step {
            self.phase = Phase::Initializing { next };
            Action::Write { index: next, counted: false }
        } else {
            self.phase = Phase::Publishing;
            Action::Publish
        }
    }

    /// Takes one turn of the running loop.
    fn turn(&mut self, env: Env, since: u128) -> (action: Action)
        requires
            old(self).config.step > 0,
        ensures
            (*final(self), action) == old(self).run(env, since),
    {
        if env.cancelled {
            return self.halt(StopReason::Cancelled);
        }
        if let Some(count) = self.config.count {
            if self.cursor >= count {
                return self.halt(StopReason::CountReached);
            }
        }
        if let Some(limit) = self.config.duration {
            let spent = if env.now_nanos >= since {
                env.now_nanos - since
            } else {
                0
            };
            if limit.is_over(spent) {
                return self.halt(StopReason::DurationElapsed);
            }
        }
        match self.cursor.checked_add(self.config.thread_count) {
            None => self.halt(StopReason::Exhausted),
            Some(moved) => {
                let index = self.cursor % self.config.step;
                self.cursor = moved;
                self.phase = Phase::Running { since };
                match self.config.mode {
                    Mode::Read => Action::Read { index, counted: true },
                    Mode::Write => Action::Write { index, counted: true },
                }
            },
        }
    }
}

/// The workers of a pool, as they are spawned: one for each id from 0 up to
/// the number of workers, each with its cursor at its own id.
pub fn spawn_workers(config: &RunConfig) -> (workers: Vec<Worker>)
    ensures
        workers@.len() == config.thread_count,
        forall|id: int|
            0 <= id < workers@.len() ==> #[trigger] workers@[id] == Worker::spawned(
                *config,
                id as usize,
            ),
{
    let mut workers: Vec<Worker> = Vec::new();
    let mut id: usize = 0;
    while id < config.thread_count
        invariant
            id <= config.thread_count,
            workers@.len() == id,
            forall|k: int|
                0 <= k < workers@.len() ==> #[trigger] workers@[k] == Worker::spawned(
                    *config,
                    k as usize,
                ),
        decreases config.thread_count - id,
    {
        workers.push(Worker::new(*config, id));
        id = id + 1;
    }
    workers
}

/// Every operation that a worker asks for lies in the working set: its index
/// is below `step`. The configuration and the worker's id never change.
pub proof fn lemma_index_in_working_set(worker: Worker, event: Event, env: Env)
    requires
        worker.config.step > 0,
    ensures
        worker.next(event, env).1 matches Action::Read { index, .. } ==> index
            < worker.config.step,
        worker.next(event, env).1 matches Action::Write { index, .. } ==> index
            < worker.config.step,
        worker.next(event, env).0.config == worker.config,
        worker.next(event, env).0.id == worker.id,
{
}

/// The cursor never moves back, and it moves only when an operation of the
/// running loop is asked for: then by the number of workers, and the
/// operation takes the object at the old cursor, reduced modulo `step`.
pub proof fn lemma_cursor_advances_by_stride(worker: Worker, event: Event, env: Env)
    requires
        worker.config.step > 0,
    ensures
        ({
            let (after, action) = worker.next(event, env);
            let counted = action matches Action::Read { counted: true, .. }
                || action matches Action::Write { counted: true, .. };
            &&& after.cursor >= worker.cursor
            &&& counted ==> after.cursor == worker.cursor + worker.config.thread_count
            &&& counted ==> action == worker.operation(
                (worker.cursor % worker.config.step) as usize,
            )
            &&& !counted ==> after.cursor == worker.cursor
        }),
{
}

/// The operations of the initialization are writes, never counted, and only
/// the worker that won the claim asks for them: a worker becomes the
/// initializer by winning, and by nothing else.
pub proof fn lemma_only_the_winner_initializes(worker: Worker, event: Event, env: Env)
    ensures
        ({
            let (after, action) = worker.next(event, env);
            let initializing = after.phase is Initializing || after.phase is Publishing;
            &&& initializing ==> (worker.phase is Claiming && event == Event::Claimed { won: true })
                || worker.phase is Initializing
            &&& action matches Action::Write { counted: false, .. } ==> after.phase is Initializing
            &&& action is Publish ==> after.phase is Publishing && !(worker.phase is Publishing)
        }),
{
}

/// The initializer writes the objects in order, one for each key: after the
/// write of `next` comes that of `next + 1`, and after the last one the
/// barrier is set to ready.
pub proof fn lemma_initialization_writes_every_key(worker: Worker, env: Env)
    requires
        worker.config.step > 0,
    ensures
        worker.phase is Claiming ==> worker.next(Event::Claimed { won: true }, env).1 == (
        Action::Write { index: 0, counted: false }),
        worker.phase matches Phase::Initializing { next } ==> {
            let action = worker.next(Event::Completed { ok: true }, env).1;
            if next + 1 < worker.config.step {
                action == (Action::Write { index: (next + 1) as usize, counted: false })
            } else {
                action == Action::Publish
            }
        },
{
}

/// In read mode no worker reads before the barrier is ready: a worker enters
/// the running loop only after it has set the barrier to ready itself, or
/// has seen it ready.
pub proof fn lemma_no_read_before_ready(worker: Worker, event: Event, env: Env)
    requires
        worker.config.mode == Mode::Read,
    ensures
        worker.next(event, env).1 is Read || worker.next(event, env).0.phase is Running ==> {
            ||| worker.phase is Running
            ||| worker.phase is Publishing && event == Event::Published
            ||| worker.phase is WaitingForReady && event == (Event::Observed {
                barrier: BarrierState::Ready,
            })
        },
{
}

/// A cancelled worker asks for no further operation of the running loop, and
/// a waiting worker gives up at its next look at the barrier: it stops
/// within one operation, or within one polling interval. Only the
/// initializer finishes what it has begun.
pub proof fn lemma_cancelled_worker_stops(worker: Worker, event: Event, env: Env)
    requires
        env.cancelled,
        !(worker.phase is Claiming),
        !(worker.phase is Initializing),
    ensures
        worker.next(event, env).1 is Stop || worker.next(event, env).1 is Claim,
        worker.config.mode == Mode::Write ==> worker.next(event, env).1 is Stop,
        worker.next(event, env).1 is Stop ==> worker.next(event, env).0.is_stopped(),
{
}

/// A stopped worker stays stopped: whatever comes, it gives the same reason
/// and asks for nothing. A failed operation stops the worker at once, as
/// failed.
pub proof fn lemma_stop_is_final(worker: Worker, event: Event, env: Env)
    ensures
        worker.phase matches Phase::Stopped { reason } ==> worker.next(event, env) == (
            worker,
            Action::Stop { reason },
        ),
        (worker.phase is Running || worker.phase is Initializing) ==> worker.next(
            Event::Completed { ok: false },
            env,
        ) == worker.stop(StopReason::Failed),
{
}

} // verus!
