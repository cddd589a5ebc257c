//! The pool of workers as a whole: how the workers share the indices among
//! them, how many operations a capped run makes, and what the barrier of a
//! read run guarantees.

use vstd::prelude::*;
use vstd::arithmetic::div_mod::{
    lemma_fundamental_div_mod, lemma_fundamental_div_mod_converse, lemma_small_mod,
};
use crate::args::Mode;
use crate::config::RunConfig;
use crate::worker::{
    lemma_cursor_advances_by_stride, lemma_index_in_working_set, Action, BarrierState, Env, Event,
    StopReason, Worker,
};

verus! {

/// The cursor of worker `id` at its turn `turn`, in a pool of `threads`
/// workers: the worker starts at its id and moves on by the number of
/// workers.
pub open spec fn cursor_of(id: nat, threads: nat, turn: nat) -> nat {
    id + turn * threads
}

/// Every logical index belongs to exactly one worker at exactly one turn:
/// index `n` is the cursor of worker `n % threads` at turn `n / threads`.
pub proof fn lemma_every_index_has_its_worker(threads: nat, n: nat)
    requires
        threads > 0,
    ensures
        n % threads < threads,
        cursor_of(n % threads, threads, n / threads) == n,
{
    lemma_fundamental_div_mod(n as int, threads as int);
    assert((n / threads) * threads == threads * (n / threads)) by (nonlinear_arith);
}

/// No index is taken twice: two workers, or two turns of one worker, never
/// share a cursor.
pub proof fn lemma_cursors_are_disjoint(threads: nat, a: nat, j: nat, b: nat, k: nat)
    requires
        a < threads,
        b < threads,
        cursor_of(a, threads, j) == cursor_of(b, threads, k),
    ensures
        a == b,
        j == k,
{
    assert(j * threads == threads * j && k * threads == threads * k) by (nonlinear_arith);
    lemma_fundamental_div_mod_converse(
        cursor_of(a, threads, j) as int,
        threads as int,
        j as int,
        a as int,
    );
    lemma_fundamental_div_mod_converse(
        cursor_of(b, threads, k) as int,
        threads as int,
        k as int,
        b as int,
    );
}

/// With no cap on the operations, the workers between them reach every key
/// of the working set: for each residue below `step` some worker has a turn
/// whose cursor reduces to it.
pub proof fn lemma_every_key_is_reached(threads: nat, step: nat, residue: nat)
    requires
        threads > 0,
        residue < step,
    ensures
        exists|id: nat, turn: nat|
            id < threads && #[trigger] cursor_of(id, threads, turn) % step == residue,
{
    lemma_every_index_has_its_worker(threads, residue);
    let id = residue % threads;
    let turn = residue / threads;
    lemma_small_mod(residue, step);
    assert(cursor_of(id, threads, turn) % step == residue);
}

/// A worker's cursor stays in its own class: it is the worker's id plus a
/// multiple of the number of workers.
pub open spec fn on_stride(worker: Worker) -> bool {
    exists|turn: nat|
        worker.cursor == #[trigger] cursor_of(
            worker.id as nat,
            worker.config.thread_count as nat,
            turn,
        )
}

/// A worker is spawned on its stride, at turn 0.
pub proof fn lemma_spawned_on_stride(config: RunConfig, id: usize)
    ensures
        on_stride(Worker::spawned(config, id)),
{
    let worker = Worker::spawned(config, id);
    assert(worker.cursor == cursor_of(worker.id as nat, worker.config.thread_count as nat, 0))
        by (nonlinear_arith)
        requires
            worker.cursor == worker.id,
    ;
}

/// A worker on its stride stays on it, whatever happens to it.
pub proof fn lemma_stays_on_stride(worker: Worker, event: Event, env: Env)
    requires
        on_stride(worker),
        worker.config.step > 0,
    ensures
        on_stride(worker.next(event, env).0),
{
    let after = worker.next(event, env).0;
    let id = worker.id as nat;
    let threads = worker.config.thread_count as nat;
    let turn = choose|turn: nat| worker.cursor == #[trigger] cursor_of(id, threads, turn);
    lemma_cursor_advances_by_stride(worker, event, env);
    lemma_index_in_working_set(worker, event, env);
    assert(after.id == worker.id && after.config.thread_count == threads);
    if after.cursor == worker.cursor {
        assert(after.cursor == cursor_of(id, threads, turn));
    } else {
        assert(after.cursor == worker.cursor + threads);
        let moved = turn + 1;
        assert(id + moved * threads == id + turn * threads + threads) by (nonlinear_arith)
            requires
                moved == turn + 1,
        ;
        assert(after.cursor == cursor_of(id, threads, moved));
    }
}

/// The number of operations that worker `id` makes in a run capped at
/// `count`: the number of its turns whose cursor lies below the cap.
pub open spec fn quota(id: nat, threads: nat, count: nat) -> nat {
    if id >= count {
        0
    } else {
        ((count - id - 1) / threads as int + 1) as nat
    }
}

/// The operations that the first `workers` workers of the pool make between
/// them in a run capped at `count`.
pub open spec fn pool_quota(threads: nat, count: nat, workers: nat) -> nat
    decreases workers,
{
    if workers == 0 {
        0
    } else {
        pool_quota(threads, count, (workers - 1) as nat) + quota(
            (workers - 1) as nat,
            threads,
            count,
        )
    }
}

/// A worker's quota counts its turns below the cap: the worker stops for the
/// cap at the turn whose number is its quota, and not before.
pub proof fn lemma_quota_counts_turns(id: nat, threads: nat, count: nat, turn: nat)
    requires
        threads > 0,
    ensures
        cursor_of(id, threads, turn) < count <==> turn < quota(id, threads, count),
{
    if id < count {
        let x = (count - id - 1) as int;
        let t = threads as int;
        lemma_fundamental_div_mod(x, t);
        let q = x / t;
        assert(0 <= q) by (nonlinear_arith)
            requires
                x == t * q + x % t,
                0 <= x,
                t > 0,
                0 <= x % t < t,
        ;
        if turn <= q {
            assert(turn * threads <= q * t) by (nonlinear_arith)
                requires
                    turn <= q,
                    t == threads,
                    t > 0,
            ;
            assert(t * q == q * t) by (nonlinear_arith);
        } else {
            assert(turn * threads >= (q + 1) * t) by (nonlinear_arith)
                requires
                    turn >= q + 1,
                    t == threads,
                    t > 0,
            ;
            assert((q + 1) * t == t * q + t) by (nonlinear_arith);
        }
    } else {
        assert(turn * threads >= 0) by (nonlinear_arith);
    }
}

/// A worker of a capped run stops for the cap exactly when it has used its
/// quota up: at a turn below the quota it takes the object at its cursor, at
/// its quota it stops, and the cap is the reason.
pub proof fn lemma_worker_stops_at_its_quota(worker: Worker, turn: nat, env: Env)
    requires
        worker.config.step > 0,
        worker.config.thread_count > 0,
        worker.config.count is Some,
        worker.config.duration is None,
        !env.cancelled,
        worker.phase is Running,
        worker.cursor == cursor_of(worker.id as nat, worker.config.thread_count as nat, turn),
        worker.cursor + worker.config.thread_count <= usize::MAX,
    ensures
        ({
            let action = worker.next(Event::Completed { ok: true }, env).1;
            let share = quota(
                worker.id as nat,
                worker.config.thread_count as nat,
                worker.config.count->0 as nat,
            );
            if turn < share {
                action == worker.operation((worker.cursor % worker.config.step) as usize)
            } else {
                action == (Action::Stop { reason: StopReason::CountReached })
            }
        }),
{
    lemma_quota_counts_turns(
        worker.id as nat,
        worker.config.thread_count as nat,
        worker.config.count->0 as nat,
        turn,
    );
}

/// The quota of a worker of the pool: the cap divided by the number of
/// workers, and one more for the workers whose id lies below the remainder.
proof fn lemma_quota_of_worker(id: nat, threads: nat, count: nat)
    requires
        id < threads,
    ensures
        quota(id, threads, count) == count / threads + if id < count % threads {
            1nat
        } else {
            0nat
        },
{
    let t = threads as int;
    let q = (count / threads) as int;
    let r = (count % threads) as int;
    lemma_fundamental_div_mod(count as int, t);
    assert(0 <= q) by (nonlinear_arith)
        requires
            count == t * q + r,
            0 <= r < t,
            count >= 0,
    ;
    if id >= count {
        assert(q == 0) by (nonlinear_arith)
            requires
                count == t * q + r,
                0 <= r < t,
                count <= id,
                id < t,
                0 <= q,
        ;
    } else {
        let x = (count - id - 1) as int;
        if id < r {
            assert(x == q * t + (r - id - 1)) by (nonlinear_arith)
                requires
                    x == count - id - 1,
                    count == t * q + r,
            ;
            lemma_fundamental_div_mod_converse(x, t, q, r - id - 1);
        } else {
            assert(q >= 1) by (nonlinear_arith)
                requires
                    count == t * q + r,
                    0 <= r <= id,
                    id < count,
                    0 <= q,
                    t > 0,
            ;
            assert(x == (q - 1) * t + (t + r - id - 1)) by (nonlinear_arith)
                requires
                    x == count - id - 1,
                    count == t * q + r,
            ;
            lemma_fundamental_div_mod_converse(x, t, q - 1, t + r - id - 1);
        }
    }
}

/// The quotas of the first `workers` workers add up to that many shares of
/// the quotient, and one more for each of them below the remainder.
proof fn lemma_pool_quota_prefix(threads: nat, count: nat, workers: nat)
    requires
        threads > 0,
        workers <= threads,
    ensures
        pool_quota(threads, count, workers) == workers * (count / threads) + if workers < count
            % threads {
            workers
        } else {
            count % threads
        },
    decreases workers,
{
    let q = count / threads;
    if workers > 0 {
        let before = (workers - 1) as nat;
        lemma_pool_quota_prefix(threads, count, before);
        lemma_quota_of_worker(before, threads, count);
        assert(workers * q == before * q + q) by (nonlinear_arith)
            requires
                workers == before + 1,
        ;
    } else {
        assert(workers * q == 0) by (nonlinear_arith)
            requires
                workers == 0,
        ;
    }
}

/// A capped run makes exactly `count` operations: the quotas of the workers
/// of the pool add up to the cap, however many workers share it.
pub proof fn lemma_pool_makes_count_operations(threads: nat, count: nat)
    requires
        threads > 0,
    ensures
        pool_quota(threads, count, threads) == count,
{
    lemma_pool_quota_prefix(threads, count, threads);
    lemma_fundamental_div_mod(count as int, threads as int);
}

/// A worker of the pool, and the action that its driver is carrying out for
/// it; none before the worker has started.
pub struct Slot {
    pub worker: Worker,
    pub asked: Option<Action>,
}

/// The pool of a run: the shared barrier and the workers.
pub struct Pool {
    pub barrier: BarrierState,
    pub slots: Seq<Slot>,
}

/// What a faithful driver does with an action: what becomes of the barrier,
/// and what the driver reports to the worker. `ok` says whether an operation
/// on the bucket succeeds. A stopped worker is reported nothing.
pub open spec fn carry_out(barrier: BarrierState, asked: Option<Action>, ok: bool) -> (
    BarrierState,
    Option<Event>,
) {
    match asked {
        None => (barrier, Some(Event::Started)),
        Some(Action::Claim) => (
            barrier.claimed().0,
            Some(Event::Claimed { won: barrier.claimed().1 }),
        ),
        Some(Action::Observe { .. }) => (barrier, Some(Event::Observed { barrier })),
        Some(Action::Read { .. }) => (barrier, Some(Event::Completed { ok })),
        Some(Action::Write { .. }) => (barrier, Some(Event::Completed { ok })),
        Some(Action::Publish) => (BarrierState::Ready, Some(Event::Published)),
        Some(Action::Stop { .. }) => (barrier, None),
    }
}

/// One step of the pool: the driver of worker `i` carries out what the
/// worker asked for, and the worker takes the report. The workers take
/// their steps in any order, one at a time.
pub open spec fn pool_step(pool: Pool, i: int, ok: bool, env: Env) -> Pool {
    let slot = pool.slots[i];
    let (barrier, event) = carry_out(pool.barrier, slot.asked, ok);
    match event {
        None => pool,
        Some(event) => {
            let (worker, action) = slot.worker.next(event, env);
            Pool { barrier, slots: pool.slots.update(i, Slot { worker, asked: Some(action) }) }
        },
    }
}

/// Whether the worker of the slot is filling the bucket.
pub open spec fn is_initializer(slot: Slot) -> bool {
    slot.worker.phase is Initializing || slot.worker.phase is Publishing
}

/// Whether the worker of the slot has passed the barrier: it is in the
/// running loop, or a read is under way for it.
pub open spec fn has_passed(slot: Slot) -> bool {
    slot.worker.phase is Running || slot.asked matches Some(Action::Read { .. })
}

/// What the barrier guarantees of a read run, at every moment: a worker
/// fills the bucket only while the barrier says so, no two workers fill it,
/// and no worker has passed the barrier unless it is ready.
pub open spec fn barrier_holds(pool: Pool) -> bool {
    &&& forall|i: int|
        0 <= i < pool.slots.len() ==> (#[trigger] pool.slots[i]).worker.config.mode == Mode::Read
    &&& forall|i: int|
        0 <= i < pool.slots.len() && (#[trigger] pool.slots[i]).asked == Some(Action::Publish)
            ==> pool.slots[i].worker.phase is Publishing
    &&& forall|i: int|
        0 <= i < pool.slots.len() && is_initializer(#[trigger] pool.slots[i]) ==> pool.barrier
            == BarrierState::Initializing
    &&& forall|i: int, j: int|
        0 <= i < pool.slots.len() && 0 <= j < pool.slots.len() && i != j ==> !(is_initializer(
            #[trigger] pool.slots[i],
        ) && is_initializer(#[trigger] pool.slots[j]))
    &&& forall|i: int|
        0 <= i < pool.slots.len() && has_passed(#[trigger] pool.slots[i]) ==> pool.barrier
            == BarrierState::Ready
}

/// Whether the pool is as it is spawned: the barrier pending, every worker
/// pending in read mode, nothing asked yet.
pub open spec fn is_fresh(pool: Pool) -> bool {
    &&& pool.barrier == BarrierState::Pending
    &&& forall|i: int|
        0 <= i < pool.slots.len() ==> {
            &&& (#[trigger] pool.slots[i]).worker.phase is Pending
            &&& pool.slots[i].worker.config.mode == Mode::Read
            &&& pool.slots[i].asked is None
        }
}

/// The barrier's guarantee holds of a pool as it is spawned.
pub proof fn lemma_fresh_pool_holds(pool: Pool)
    requires
        is_fresh(pool),
    ensures
        barrier_holds(pool),
{
}

/// The barrier's guarantee is kept by every step of every worker, whatever
/// the order of the steps, whether operations succeed or fail, and whether
/// the run is cancelled: at no moment do two workers fill the bucket, and at
/// no moment has a worker passed a barrier that is not ready.
pub proof fn lemma_step_keeps_barrier(pool: Pool, i: int, ok: bool, env: Env)
    requires
        barrier_holds(pool),
        0 <= i < pool.slots.len(),
    ensures
        barrier_holds(pool_step(pool, i, ok, env)),
        pool_step(pool, i, ok, env).slots.len() == pool.slots.len(),
{
    let after = pool_step(pool, i, ok, env);
    let slot = pool.slots[i];
    let (barrier, event) = carry_out(pool.barrier, slot.asked, ok);
    if event is Some {
        let (worker, action) = slot.worker.next(event->0, env);
        assert(after.slots[i] == Slot { worker, asked: Some(action) });
        assert forall|j: int| 0 <= j < after.slots.len() && j != i implies #[trigger] after.slots[j]
            == pool.slots[j] by {}
        assert forall|j: int|
            0 <= j < after.slots.len() && is_initializer(
                #[trigger] after.slots[j],
            ) implies after.barrier == BarrierState::Initializing by {
            if j != i {
                assert(after.slots[j] == pool.slots[j]);
            }
        }
        assert forall|j: int, k: int|
            0 <= j < after.slots.len() && 0 <= k < after.slots.len() && j != k implies !(
            is_initializer(#[trigger] after.slots[j]) && is_initializer(
                #[trigger] after.slots[k],
            )) by {
            if j != i {
                assert(after.slots[j] == pool.slots[j]);
            }
            if k != i {
                assert(after.slots[k] == pool.slots[k]);
            }
        }
        assert forall|j: int|
            0 <= j < after.slots.len() && has_passed(
                #[trigger] after.slots[j],
            ) implies after.barrier == BarrierState::Ready by {
            if j != i {
                assert(after.slots[j] == pool.slots[j]);
            }
        }
    }
}

/// The barrier only advances: once claimed it is never pending again, and
/// once ready it stays ready. A worker turns initializer only in the step
/// that takes the barrier from pending to initializing, so in a whole run
/// at most one worker ever fills the bucket.
pub proof fn lemma_barrier_only_advances(pool: Pool, i: int, ok: bool, env: Env)
    requires
        0 <= i < pool.slots.len(),
    ensures
        pool_step(pool, i, ok, env).barrier.code_of() >= pool.barrier.code_of(),
        is_initializer(pool_step(pool, i, ok, env).slots[i]) && !is_initializer(pool.slots[i])
            ==> pool.barrier == BarrierState::Pending && pool_step(pool, i, ok, env).barrier
            == BarrierState::Initializing,
{
}

} // verus!
