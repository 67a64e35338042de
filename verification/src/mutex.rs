//! A mutual-exclusion lock with poison tracking.
//!
//! [`Mutex`] composes one platform lock backend, one poison
//! [`Flag`](crate::poison::Flag) and the protected value. Acquisition hands
//! out a [`MutexGuard`]; releasing the guard records the critical section's
//! outcome in the flag before the backend is released, so the flag reflects
//! the outcome before the next waiter can observe the lock as free.
//!
//! The backend here, [`SysMutex`], captures the uniform contract all
//! platform raw locks share — `new_in`, `lock`, `try_lock`, `unlock`, and a
//! teardown that re-checks held-state and leaks rather than corrupting a
//! held lock. Its raw lock object is heap-placed through a
//! [`LazyBox`](crate::lazy_box::LazyBox), because the object's address must
//! stay fixed for its OS-tracked lifetime and construction must be
//! deferrable and allocator-parameterized.

use core::marker::PhantomData;

use vstd::prelude::*;

use crate::lazy_box::{LazyBox, LazyInit};
use crate::poison;
use crate::poison::{Flag, LockResult, PoisonError, TryLockError, TryLockResult};

verus! {

/// The raw lock object in its heap placement, bound to the allocator the
/// slot was created with.
pub struct AllocatedMutex<A: Clone> {
    held: bool,
    _alloc: PhantomData<A>,
}

impl<A: Clone> AllocatedMutex<A> {
    /// Whether the raw lock is currently held.
    pub closed spec fn is_held(&self) -> bool {
        self.held
    }

    /// A freshly initialized, unheld raw lock. This is the constructor the
    /// lazy slot's candidates are built with.
    fn new_raw() -> (m: Self)
        ensures
            !m.is_held(),
    {
        AllocatedMutex { held: false, _alloc: PhantomData }
    }
}

impl<A: Clone> LazyInit for AllocatedMutex<A> {
    type Allocator = A;

    /// A fresh raw lock is not held by anyone.
    open spec fn is_fresh(x: &Self) -> bool {
        !x.is_held()
    }

    fn init(allocator: A) -> Self {
        let _ = allocator;
        Self::new_raw()
    }

    fn cancel_init(x: Self) {
        // A candidate that lost the installation race was never locked, so
        // it is disposed without the defensive held-state check.
        let _ = x;
    }

    fn destroy(x: Self) {
        // Normal teardown; the defensive held-state re-check happens in
        // `SysMutex::destroy` before this runs.
        let _ = x;
    }
}

/// A platform lock backend: the uniform raw-lock contract behind [`Mutex`].
///
/// The raw lock object is placed lazily on first use; `new_in` itself is
/// panic-free and allocation-free.
pub struct SysMutex<A: Clone> {
    lazy: LazyBox<AllocatedMutex<A>>,
}

impl<A: Clone> SysMutex<A> {
    /// Whether the raw lock is currently held. An unplaced lock is not held.
    pub closed spec fn held(&self) -> bool {
        match self.lazy.contents() {
            Option::Some(raw) => raw.is_held(),
            Option::None => false,
        }
    }

    /// The allocator handle placement is bound to.
    pub closed spec fn spec_allocator(&self) -> A {
        self.lazy.spec_allocator()
    }

    /// The new, unheld backend bound to `allocator`, as a value: exactly
    /// what [`SysMutex::new_in`] returns.
    pub closed spec fn spec_new(allocator: A) -> SysMutex<A> {
        SysMutex { lazy: LazyBox::spec_new(allocator) }
    }

    /// A new, unheld backend. Placement of the raw lock object is deferred
    /// to the first acquisition.
    pub fn new_in(allocator: A) -> (s: Self)
        ensures
            !s.held(),
            s.spec_allocator() == allocator,
            s == SysMutex::spec_new(allocator),
    {
        SysMutex { lazy: LazyBox::new_in(allocator) }
    }

    /// The allocator handle.
    pub fn allocator(&self) -> (a: &A)
        ensures
            *a == self.spec_allocator(),
    {
        LazyBox::allocator(&self.lazy)
    }

    /// Places the raw lock object if this is the first use. A freshly
    /// placed raw lock is unheld, so the held state is preserved.
    fn place(&mut self)
        ensures
            final(self).lazy.contents() is Some,
            final(self).held() == old(self).held(),
            final(self).spec_allocator() == old(self).spec_allocator(),
    {
        self.lazy.force();
    }

    /// Acquires the raw lock. Self-recursive acquisition by the holder is
    /// outside the contract: the non-reentrant platform kinds deadlock on
    /// it, and the no-OS fallback raises a fatal assertion.
    pub fn lock(&mut self)
        requires
            !old(self).held(),
        ensures
            final(self).held(),
            final(self).spec_allocator() == old(self).spec_allocator(),
    {
        self.place();
        let raw = self.lazy.value_mut();
        raw.held = true;
    }

    /// Releases the raw lock. Calling this without a prior successful
    /// acquisition is outside the contract.
    pub fn unlock(&mut self)
        requires
            old(self).held(),
        ensures
            !final(self).held(),
            final(self).spec_allocator() == old(self).spec_allocator(),
    {
        let raw = self.lazy.value_mut();
        raw.held = false;
    }

    /// Non-blocking acquisition: succeeds exactly when the lock was free,
    /// and never silently succeeds while it is held.
    pub fn try_lock(&mut self) -> (acquired: bool)
        ensures
            acquired == !old(self).held(),
            final(self).held(),
            final(self).spec_allocator() == old(self).spec_allocator(),
    {
        self.place();
        let raw = self.lazy.value_mut();
        if raw.held {
            false
        } else {
            raw.held = true;
            true
        }
    }

    /// Teardown: re-checks the held state first. A lock that is still held
    /// (its last guard was leaked rather than dropped) is intentionally
    /// leaked, never destroyed while held; only a free lock is released
    /// through normal teardown.
    pub fn destroy(self) -> (leaked: bool)
        ensures
            leaked == self.held(),
    {
        let SysMutex { lazy } = self;
        let leaked = match lazy.get() {
            Some(raw) => raw.held,
            None => false,
        };
        if !leaked {
            let _released = lazy.destroy();
        }
        leaked
    }
}

/// The inline platform backends' shape: the raw lock is a single word
/// placed directly in the structure, so no heap placement and no explicit
/// teardown call are needed. Both the OS-exclusive-lock backend and the
/// no-OS atomic-flag fallback have this shape and this contract; they
/// differ only on the input the contract excludes — acquiring a lock that
/// is already held deadlocks on the former and raises a fatal assertion on
/// the latter, since without an OS scheduler the fallback cannot block.
pub struct InlineMutex<A: Clone> {
    held: bool,
    allocator: A,
}

impl<A: Clone> InlineMutex<A> {
    /// Whether the raw lock is currently held.
    pub closed spec fn held(&self) -> bool {
        self.held
    }

    /// The allocator handle, stored for interface uniformity with the
    /// heap-placing backend; this backend never allocates.
    pub closed spec fn spec_allocator(&self) -> A {
        self.allocator
    }

    /// A new, unheld backend. Panic-free and allocation-free.
    pub fn new_in(allocator: A) -> (s: Self)
        ensures
            !s.held(),
            s.spec_allocator() == allocator,
    {
        InlineMutex { held: false, allocator }
    }

    /// The allocator handle.
    pub fn allocator(&self) -> (a: &A)
        ensures
            *a == self.spec_allocator(),
    {
        &self.allocator
    }

    /// Acquires the raw lock: for the fallback, exactly one
    /// compare-and-swap attempt. Acquiring while already held is outside
    /// the contract — it is the input on which the fallback's documented
    /// fatal assertion fires rather than silently succeeding or spinning.
    pub fn lock(&mut self)
        requires
            !old(self).held(),
        ensures
            final(self).held(),
            final(self).spec_allocator() == old(self).spec_allocator(),
    {
        self.held = true;
    }

    /// Releases the raw lock. Calling this without a prior successful
    /// acquisition is outside the contract.
    pub fn unlock(&mut self)
        requires
            old(self).held(),
        ensures
            !final(self).held(),
            final(self).spec_allocator() == old(self).spec_allocator(),
    {
        self.held = false;
    }

    /// The non-asserting acquisition attempt: succeeds exactly when the
    /// lock was free, and never silently succeeds while it is held.
    pub fn try_lock(&mut self) -> (acquired: bool)
        ensures
            acquired == !old(self).held(),
            final(self).held(),
            final(self).spec_allocator() == old(self).spec_allocator(),
    {
        if self.held {
            false
        } else {
            self.held = true;
            true
        }
    }
}

/// The process-wide default allocator handle selected when no explicit
/// allocator is given.
#[derive(Clone, Copy)]
pub struct DefaultAllocator;

/// A mutual-exclusion primitive protecting a value of type `T`, composed of
/// one platform lock backend, one poison flag and the value. The allocator
/// handle `A` is used only by backends that need heap placement.
pub struct Mutex<T, A: Clone> {
    inner: SysMutex<A>,
    poison: Flag,
    data: T,
}

/// Grants exclusive access to the protected value until it is handed back
/// to [`Mutex::unlock`]. It carries the poison snapshot taken at
/// acquisition.
#[derive(Debug)]
#[must_use]
pub struct MutexGuard {
    poison: poison::Guard,
}

impl MutexGuard {
    /// The poison snapshot: whether the acquiring thread was already
    /// unwinding abnormally when the guard was created.
    pub closed spec fn was_panicking(&self) -> bool {
        self.poison.was_panicking()
    }
}

impl<T, A: Clone> Mutex<T, A> {
    /// Whether the backend currently reports the lock as held.
    pub closed spec fn locked(&self) -> bool {
        self.inner.held()
    }

    /// Whether the lock is poisoned: a critical section exited abnormally
    /// while holding it, and the flag has not been cleared since.
    pub closed spec fn poisoned(&self) -> bool {
        self.poison.poisoned()
    }

    /// The protected value.
    pub closed spec fn value(&self) -> T {
        self.data
    }

    /// The allocator handle.
    pub closed spec fn spec_allocator(&self) -> A {
        self.inner.spec_allocator()
    }

    /// The new unlocked, healthy lock around `t`, as a value: exactly what
    /// [`Mutex::new_in`] returns.
    pub closed spec fn spec_new_in(t: T, allocator: A) -> Mutex<T, A> {
        Mutex { inner: SysMutex::spec_new(allocator), poison: Flag::spec_new(), data: t }
    }

    /// A new unlocked, healthy lock around `t`, with an explicit allocator
    /// handle. Panic-free and allocation-free: heap placement of the raw
    /// lock object is deferred to the first acquisition.
    pub fn new_in(t: T, allocator: A) -> (m: Mutex<T, A>)
        ensures
            !m.locked(),
            !m.poisoned(),
            m.value() == t,
            m.spec_allocator() == allocator,
            m == Mutex::spec_new_in(t, allocator),
    {
        Mutex { inner: SysMutex::new_in(allocator), poison: Flag::new(), data: t }
    }

    /// Blocking acquisition. `unwinding` is the acquiring thread's
    /// abnormal-unwind state, recorded in the guard's poison snapshot.
    ///
    /// Access is granted either way: `Err` only communicates that the lock
    /// is poisoned, and still wraps the guard.
    ///
    /// Acquiring a lock this thread already holds is outside the contract:
    /// the platform backends deadlock on it and the no-OS fallback raises a
    /// fatal assertion.
    pub fn lock(&mut self, unwinding: bool) -> (r: LockResult<MutexGuard>)
        requires
            !old(self).locked(),
        ensures
            final(self).locked(),
            final(self).poisoned() == old(self).poisoned(),
            final(self).value() == old(self).value(),
            final(self).spec_allocator() == old(self).spec_allocator(),
            r is Ok <==> !old(self).poisoned(),
            r matches Ok(g) ==> g.was_panicking() == unwinding,
            r matches Err(e) ==> e.inner().was_panicking() == unwinding,
    {
        self.inner.lock();
        match self.poison.guard(unwinding) {
            Ok(g) => Ok(MutexGuard { poison: g }),
            Err(e) => Err(PoisonError::new(MutexGuard { poison: e.into_inner() })),
        }
    }

    /// Non-blocking acquisition: returns `WouldBlock` if the lock is
    /// contended and leaves it untouched; otherwise acquires it and returns
    /// the same poison-wrapped result as [`Mutex::lock`].
    pub fn try_lock(&mut self, unwinding: bool) -> (r: TryLockResult<MutexGuard>)
        ensures
            final(self).poisoned() == old(self).poisoned(),
            final(self).value() == old(self).value(),
            final(self).spec_allocator() == old(self).spec_allocator(),
            old(self).locked() ==> (r matches Err(TryLockError::WouldBlock) && final(self).locked()),
            !old(self).locked() ==> final(self).locked() && (r matches Err(
                TryLockError::WouldBlock,
            ) == false),
            (r is Ok <==> !old(self).locked() && !old(self).poisoned()),
            r matches Ok(g) ==> g.was_panicking() == unwinding,
            r matches Err(TryLockError::Poisoned(e)) ==> old(self).poisoned()
                && e.inner().was_panicking() == unwinding,
    {
        if self.inner.try_lock() {
            match self.poison.guard(unwinding) {
                Ok(g) => Ok(MutexGuard { poison: g }),
                Err(e) => Err(
                    TryLockError::from(PoisonError::new(MutexGuard { poison: e.into_inner() })),
                ),
            }
        } else {
            Err(TryLockError::WouldBlock)
        }
    }

    /// Releases the lock, handing the guard back. This is the explicit form
    /// of dropping the guard: it first records the critical section's
    /// outcome in the poison flag — the flag becomes poisoned exactly when
    /// the section terminated abnormally, i.e. the thread is unwinding now
    /// but was not yet unwinding at acquisition — and only then releases
    /// the backend, so the next waiter observes the updated flag.
    pub fn unlock(&mut self, guard: MutexGuard, unwinding: bool)
        requires
            old(self).locked(),
        ensures
            !final(self).locked(),
            final(self).value() == old(self).value(),
            final(self).spec_allocator() == old(self).spec_allocator(),
            final(self).poisoned() == poison::poison_after_exit(
                old(self).poisoned(),
                guard.was_panicking(),
                unwinding,
            ),
    {
        let MutexGuard { poison: snapshot } = guard;
        self.poison.done(&snapshot, unwinding);
        self.inner.unlock();
    }

    /// Reads the protected value. Only the holder of the current guard may
    /// call this, which is what the precondition captures.
    pub fn data(&self) -> (t: &T)
        requires
            self.locked(),
        ensures
            *t == self.value(),
    {
        &self.data
    }

    /// Writes the protected value. Only the holder of the current guard may
    /// call this, which is what the precondition captures.
    pub fn data_mut(&mut self) -> (t: &mut T)
        requires
            old(self).locked(),
        ensures
            *t == old(self).value(),
            final(self).value() == *final(t),
            final(self).locked() == old(self).locked(),
            final(self).poisoned() == old(self).poisoned(),
            final(self).spec_allocator() == old(self).spec_allocator(),
    {
        &mut self.data
    }

    /// Whether the lock is poisoned, without acquiring the backend.
    pub fn is_poisoned(&self) -> (r: bool)
        ensures
            r == self.poisoned(),
    {
        self.poison.get()
    }

    /// Resets the poison flag to healthy, without acquiring the backend.
    /// The protected value still reflects the pre-poison state.
    pub fn clear_poison(&mut self)
        ensures
            !final(self).poisoned(),
            final(self).locked() == old(self).locked(),
            final(self).value() == old(self).value(),
            final(self).spec_allocator() == old(self).spec_allocator(),
    {
        self.poison.clear();
    }

    /// Consumes the lock and yields the protected value, bypassing the
    /// backend: unique ownership rules out a concurrent holder. The result
    /// is still poison-wrapped. The backend is torn down defensively: if
    /// the last guard was leaked, the raw lock is leaked rather than
    /// destroyed while held.
    pub fn into_inner(self) -> (r: LockResult<T>)
        ensures
            r is Ok <==> !self.poisoned(),
            r matches Ok(t) ==> t == self.value(),
            r matches Err(e) ==> e.inner() == self.value(),
    {
        let Mutex { inner, poison, data } = self;
        let _leaked = inner.destroy();
        if poison.get() {
            Err(PoisonError::new(data))
        } else {
            Ok(data)
        }
    }

    /// Exclusive access to the protected value, bypassing the backend:
    /// a unique borrow of the lock rules out a concurrent holder. The
    /// result is still poison-wrapped through the accompanying flag read.
    pub fn get_mut(&mut self) -> (r: (bool, &mut T))
        ensures
            r.0 == old(self).poisoned(),
            *r.1 == old(self).value(),
            final(self).value() == *final(r.1),
            final(self).locked() == old(self).locked(),
            final(self).poisoned() == old(self).poisoned(),
            final(self).spec_allocator() == old(self).spec_allocator(),
    {
        let poisoned = self.poison.get();
        (poisoned, &mut self.data)
    }
}

/// One full lock/increment/unlock cycle on a shared counter, performed by a
/// thread that is not unwinding. Whoever performs it, and whatever state the
/// poison flag is in, the cycle adds exactly one to the counter, releases
/// the lock, and leaves the poison flag as it found it.
pub fn locked_increment<A: Clone>(m: &mut Mutex<u64, A>)
    requires
        !old(m).locked(),
        old(m).value() < u64::MAX,
    ensures
        !final(m).locked(),
        final(m).value() == old(m).value() + 1,
        final(m).poisoned() == old(m).poisoned(),
        final(m).spec_allocator() == old(m).spec_allocator(),
{
    let guard = match m.lock(false) {
        Ok(g) => g,
        Err(e) => e.into_inner(),
    };
    let counter = m.data_mut();
    *counter = *counter + 1;
    m.unlock(guard, false);
}

/// How many cycles of `schedule` are performed by `thread`.
pub open spec fn occurrences(schedule: Seq<u64>, thread: int) -> nat
    decreases schedule.len(),
{
    if schedule.len() == 0 {
        0
    } else {
        occurrences(schedule.drop_last(), thread) + if schedule.last() as int == thread {
            1nat
        } else {
            0nat
        }
    }
}

/// How many cycles of `schedule` are performed by threads `0 .. classes`.
spec fn class_total(schedule: Seq<u64>, classes: int) -> nat
    decreases classes,
{
    if classes <= 0 {
        0
    } else {
        class_total(schedule, classes - 1) + occurrences(schedule, classes - 1)
    }
}

proof fn lemma_class_total_empty(schedule: Seq<u64>, classes: int)
    requires
        schedule.len() == 0,
    ensures
        class_total(schedule, classes) == 0,
    decreases classes,
{
    if classes > 0 {
        lemma_class_total_empty(schedule, classes - 1);
    }
}

proof fn lemma_class_total_drop_last(schedule: Seq<u64>, classes: int)
    requires
        schedule.len() > 0,
    ensures
        class_total(schedule, classes) == class_total(schedule.drop_last(), classes) + (
        if (schedule.last() as int) < classes {
            1nat
        } else {
            0nat
        }),
    decreases classes,
{
    if classes > 0 {
        lemma_class_total_drop_last(schedule, classes - 1);
    }
}

proof fn lemma_class_total_is_length(schedule: Seq<u64>, classes: int)
    requires
        forall|i: int| 0 <= i < schedule.len() ==> ((#[trigger] schedule[i]) as int) < classes,
    ensures
        class_total(schedule, classes) == schedule.len(),
    decreases schedule.len(),
{
    if schedule.len() == 0 {
        lemma_class_total_empty(schedule, classes);
    } else {
        assert((schedule[schedule.len() - 1] as int) < classes);
        lemma_class_total_is_length(schedule.drop_last(), classes);
        lemma_class_total_drop_last(schedule, classes);
    }
}

proof fn lemma_class_total_uniform(schedule: Seq<u64>, classes: int, rounds: nat)
    requires
        classes >= 0,
        forall|t: int| 0 <= t < classes ==> occurrences(schedule, t) == rounds,
    ensures
        class_total(schedule, classes) == classes * rounds,
    decreases classes,
{
    if classes > 0 {
        lemma_class_total_uniform(schedule, classes - 1, rounds);
        assert(occurrences(schedule, classes - 1) == rounds);
        assert(class_total(schedule, classes) == class_total(schedule, classes - 1) + occurrences(
            schedule,
            classes - 1,
        ));
        assert((classes - 1) * rounds + rounds == classes * rounds) by (nonlinear_arith);
    } else {
        assert(classes * rounds == 0) by (nonlinear_arith)
            requires
                classes == 0,
        ;
    }
}

/// Mutual exclusion, counted: a fair schedule in which each of `threads`
/// threads performs exactly `rounds` lock/increment/unlock cycles has
/// exactly `threads * rounds` cycles in it — and [`run_interleaving`] shows
/// that replaying any such schedule, in any interleaving order, raises the
/// shared counter by exactly the schedule's length. Together: the final
/// counter equals its initial value plus `threads * rounds`, for all
/// `threads, rounds >= 1`.
pub proof fn lemma_mutual_exclusion(schedule: Seq<u64>, threads: int, rounds: nat)
    requires
        threads >= 1,
        forall|i: int| 0 <= i < schedule.len() ==> ((#[trigger] schedule[i]) as int) < threads,
        forall|t: int| 0 <= t < threads ==> occurrences(schedule, t) == rounds,
    ensures
        schedule.len() == threads * rounds,
{
    lemma_class_total_is_length(schedule, threads);
    lemma_class_total_uniform(schedule, threads, rounds);
}

/// Replays a schedule of lock/increment/unlock cycles on one shared
/// counter; `schedule[i]` names the thread performing the `i`-th cycle.
/// Which thread a cycle belongs to never affects the outcome: the counter
/// ends exactly `schedule.len()` higher, the lock ends free, and the poison
/// flag is untouched. The bound below is the machine limit of the `u64`
/// counter; [`crate::exclusion::lemma_exclusion_counts`] states the same
/// law without it, over an unbounded counter and with the increment split
/// into its racing read and write-back.
pub fn run_interleaving<A: Clone>(m: &mut Mutex<u64, A>, schedule: &Vec<u64>)
    requires
        !old(m).locked(),
        old(m).value() + schedule@.len() <= u64::MAX,
    ensures
        !final(m).locked(),
        final(m).value() == old(m).value() + schedule@.len(),
        final(m).poisoned() == old(m).poisoned(),
{
    let ghost start: Mutex<u64, A> = *m;
    let mut i: usize = 0;
    while i < schedule.len()
        invariant
            i <= schedule@.len(),
            !m.locked(),
            m.value() == start.value() + i,
            m.poisoned() == start.poisoned(),
            start.value() + schedule@.len() <= u64::MAX,
        decreases schedule@.len() - i,
    {
        let _thread = schedule[i];
        locked_increment(m);
        i = i + 1;
    }
}

impl<T> Mutex<T, DefaultAllocator> {
    /// A new unlocked, healthy lock around `t`, using the process-wide
    /// default allocator handle.
    pub fn new(t: T) -> (m: Mutex<T, DefaultAllocator>)
        ensures
            !m.locked(),
            !m.poisoned(),
            m.value() == t,
            m == Mutex::spec_new_in(t, DefaultAllocator),
    {
        Mutex::new_in(t, DefaultAllocator)
    }
}

/// What conversion and construction hand out: the lock
/// [`Mutex::spec_new_in`] describes wraps the given value unlocked and
/// healthy, under the given allocator handle.
pub proof fn lemma_new_lock_is_fresh<T, A: Clone>(t: T, allocator: A)
    ensures
        !Mutex::spec_new_in(t, allocator).locked(),
        !Mutex::spec_new_in(t, allocator).poisoned(),
        Mutex::spec_new_in(t, allocator).value() == t,
        Mutex::spec_new_in(t, allocator).spec_allocator() == allocator,
{
    Flag::lemma_spec_new_healthy();
    LazyBox::<AllocatedMutex<A>>::lemma_spec_new_empty(allocator);
}

impl<T> From<T> for Mutex<T, DefaultAllocator> {
    fn from(t: T) -> (m: Mutex<T, DefaultAllocator>) {
        Mutex::new(t)
    }
}

impl<T> vstd::std_specs::convert::FromSpecImpl<T> for Mutex<T, DefaultAllocator> {
    open spec fn obeys_from_spec() -> bool {
        true
    }

    open spec fn from_spec(t: T) -> Mutex<T, DefaultAllocator> {
        Mutex::spec_new_in(t, DefaultAllocator)
    }
}

impl<T: Default> Default for Mutex<T, DefaultAllocator> {
    /// An unlocked, healthy lock around `T`'s default value.
    fn default() -> (m: Mutex<T, DefaultAllocator>)
        ensures
            !m.locked(),
            !m.poisoned(),
            call_ensures(T::default, (), m.value()),
    {
        Mutex::new(T::default())
    }
}

} // verus!
