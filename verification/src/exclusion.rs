//! Trace-level mutual exclusion.
//!
//! [`crate::mutex::run_interleaving`] shows that whole
//! lock/increment/unlock cycles compose; this module shows why the lock is
//! needed at all. Here an increment is *not* atomic: a thread acquires,
//! reads the counter, and only later writes back its read plus one when it
//! releases. Without exclusion, interleaved reads would lose increments.
//! The lock's one rule — acquisition is enabled only while no thread holds
//! it — is exactly what [`lemma_exclusion_counts`] turns into "no increment
//! is ever lost": every legal interleaving of `threads` threads, each
//! completing `rounds` cycles, ends with the counter at
//! `threads * rounds`.

use vstd::prelude::*;

verus! {

/// One thread's progress through its lock/increment/unlock cycles.
pub enum ThreadState {
    /// Between cycles, with `done` cycles completed.
    Ready { done: nat },
    /// Holding the lock mid-cycle, with the counter value it read at
    /// acquisition.
    Holding { done: nat, read: nat },
}

/// How many cycles a thread has completed.
pub open spec fn done_of(ts: ThreadState) -> nat {
    match ts {
        ThreadState::Ready { done } => done,
        ThreadState::Holding { done, read: _ } => done,
    }
}

/// The shared state: the lock's owner, the shared counter, and every
/// thread's progress.
pub struct RaceState {
    /// Which thread currently holds the lock, if any.
    pub owner: Option<int>,
    /// The shared counter.
    pub counter: nat,
    /// Per-thread progress.
    pub threads: Seq<ThreadState>,
}

/// One scheduling event: some thread performs its next enabled move.
pub enum Event {
    /// The thread takes the free lock and reads the counter.
    Acquire(int),
    /// The holder writes back its read plus one and frees the lock.
    Release(int),
}

/// The initial state: lock free, counter zero, every thread ready with no
/// completed cycles.
pub open spec fn init(threads: nat) -> RaceState {
    RaceState {
        owner: Option::None,
        counter: 0,
        threads: Seq::new(threads, |t: int| ThreadState::Ready { done: 0 }),
    }
}

/// Whether `e` is an enabled move in `s` for threads performing `rounds`
/// cycles each. Acquisition demands the lock free — the mutual-exclusion
/// rule — and release demands ownership.
pub open spec fn enabled(s: RaceState, e: Event, rounds: nat) -> bool {
    match e {
        Event::Acquire(t) => 0 <= t < s.threads.len() && s.owner is None
            && (s.threads[t] matches ThreadState::Ready { done } && done < rounds),
        Event::Release(t) => 0 <= t < s.threads.len() && s.owner == Option::Some(t)
            && s.threads[t] is Holding,
    }
}

/// The state after `e`.
pub open spec fn step(s: RaceState, e: Event) -> RaceState {
    match e {
        Event::Acquire(t) => RaceState {
            owner: Option::Some(t),
            counter: s.counter,
            threads: s.threads.update(
                t,
                ThreadState::Holding { done: done_of(s.threads[t]), read: s.counter },
            ),
        },
        Event::Release(t) => RaceState {
            owner: Option::None,
            counter: (match s.threads[t] {
                ThreadState::Holding { done: _, read } => read + 1,
                ThreadState::Ready { done: _ } => s.counter,
            }) as nat,
            threads: s.threads.update(
                t,
                ThreadState::Ready { done: done_of(s.threads[t]) + 1 },
            ),
        },
    }
}

/// Whether every event of `trace` is enabled when its turn comes.
pub open spec fn trace_ok(s: RaceState, trace: Seq<Event>, rounds: nat) -> bool
    decreases trace.len(),
{
    trace.len() == 0 || (enabled(s, trace[0], rounds) && trace_ok(
        step(s, trace[0]),
        trace.drop_first(),
        rounds,
    ))
}

/// The state a trace ends in.
pub open spec fn run(s: RaceState, trace: Seq<Event>) -> RaceState
    decreases trace.len(),
{
    if trace.len() == 0 {
        s
    } else {
        run(step(s, trace[0]), trace.drop_first())
    }
}

/// The total number of completed cycles over all threads.
pub open spec fn total_done(threads: Seq<ThreadState>) -> nat
    decreases threads.len(),
{
    if threads.len() == 0 {
        0
    } else {
        total_done(threads.drop_last()) + done_of(threads.last())
    }
}

/// The inductive invariant that carries the mutual-exclusion argument:
/// while a thread holds the lock, the counter still equals the value it
/// read — no other thread can have moved it — and the counter always equals
/// the total number of completed cycles.
pub open spec fn inv(s: RaceState) -> bool {
    &&& (s.owner matches Option::Some(t) ==> 0 <= t < s.threads.len() && (s.threads[t] matches
    ThreadState::Holding { done: _, read } && read == s.counter))
    &&& (forall|t: int|
        0 <= t < s.threads.len() && #[trigger] s.threads[t] is Holding ==> s.owner
            == Option::Some(t))
    &&& s.counter == total_done(s.threads)
}

proof fn lemma_total_done_update(threads: Seq<ThreadState>, t: int, ts: ThreadState)
    requires
        0 <= t < threads.len(),
    ensures
        total_done(threads.update(t, ts)) == total_done(threads) + done_of(ts) - done_of(
            threads[t],
        ),
    decreases threads.len(),
{
    let updated = threads.update(t, ts);
    if t == threads.len() - 1 {
        assert(updated.drop_last() =~= threads.drop_last());
        assert(updated.last() == ts);
    } else {
        assert(updated.drop_last() =~= threads.drop_last().update(t, ts));
        assert(updated.last() == threads.last());
        lemma_total_done_update(threads.drop_last(), t, ts);
    }
}

proof fn lemma_step_preserves_inv(s: RaceState, e: Event, rounds: nat)
    requires
        inv(s),
        enabled(s, e, rounds),
    ensures
        inv(step(s, e)),
        step(s, e).threads.len() == s.threads.len(),
{
    match e {
        Event::Acquire(t) => {
            lemma_total_done_update(
                s.threads,
                t,
                ThreadState::Holding { done: done_of(s.threads[t]), read: s.counter },
            );
        },
        Event::Release(t) => {
            lemma_total_done_update(
                s.threads,
                t,
                ThreadState::Ready { done: done_of(s.threads[t]) + 1 },
            );
        },
    }
}

proof fn lemma_run_preserves_inv(s: RaceState, trace: Seq<Event>, rounds: nat)
    requires
        inv(s),
        trace_ok(s, trace, rounds),
    ensures
        inv(run(s, trace)),
        run(s, trace).threads.len() == s.threads.len(),
    decreases trace.len(),
{
    if trace.len() > 0 {
        lemma_step_preserves_inv(s, trace[0], rounds);
        lemma_run_preserves_inv(step(s, trace[0]), trace.drop_first(), rounds);
    }
}

proof fn lemma_total_done_uniform(threads: Seq<ThreadState>, rounds: nat)
    requires
        forall|t: int| 0 <= t < threads.len() ==> done_of(#[trigger] threads[t]) == rounds,
    ensures
        total_done(threads) == threads.len() * rounds,
    decreases threads.len(),
{
    if threads.len() == 0 {
        assert(threads.len() * rounds == 0) by (nonlinear_arith)
            requires
                threads.len() == 0,
        ;
    } else {
        let n: int = threads.len() as int;
        lemma_total_done_uniform(threads.drop_last(), rounds);
        assert((n - 1) * rounds + rounds == n * rounds) by (nonlinear_arith);
    }
}

proof fn lemma_init_inv(threads: nat)
    ensures
        inv(init(threads)),
        init(threads).threads.len() == threads,
    decreases threads,
{
    if threads > 0 {
        lemma_init_inv((threads - 1) as nat);
        assert(init(threads).threads.drop_last() =~= init((threads - 1) as nat).threads);
    }
}

/// Mutual exclusion at the event level: run any legal interleaving of
/// acquire and release events — `threads` threads, each acquiring, reading,
/// and writing back its read plus one on release, `rounds` completed cycles
/// each by the end — and the final counter is exactly `threads * rounds`.
/// No increment is lost, because the lock's enabledness rule means the
/// counter cannot move between a holder's read and its write-back.
pub proof fn lemma_exclusion_counts(threads: nat, rounds: nat, trace: Seq<Event>)
    requires
        trace_ok(init(threads), trace, rounds),
        forall|t: int|
            0 <= t < threads ==> done_of(#[trigger] run(init(threads), trace).threads[t])
                == rounds,
    ensures
        run(init(threads), trace).counter == threads * rounds,
{
    lemma_init_inv(threads);
    lemma_run_preserves_inv(init(threads), trace, rounds);
    lemma_total_done_uniform(run(init(threads), trace).threads, rounds);
}

} // verus!
