//! Poison tracking for critical sections.
//!
//! A [`Flag`] records whether a critical section protected by a lock was ever
//! exited abnormally. Acquiring a lock takes a [`Guard`] snapshot of the
//! current abnormal-unwind state; releasing it hands the snapshot back to the
//! flag, which becomes poisoned exactly when the failure originated inside
//! the section (the section ends in an unwind that was not already in flight
//! when it was entered).
//!
//! Poisoning only communicates risk: every poisoned result still carries the
//! guard, so the protected data remains reachable.

use vstd::prelude::*;

verus! {

/// Tracks whether a critical section guarded by the surrounding lock was
/// abandoned by an abnormal exit.
///
/// The flag itself is not a synchronization mechanism: it relies entirely on
/// the surrounding lock's ordering for cross-thread visibility.
pub struct Flag {
    failed: bool,
}

/// A snapshot, taken at acquisition, of whether the acquiring thread was
/// already unwinding abnormally. It is consumed when the guard is released.
#[derive(Clone, Copy, Debug)]
pub struct Guard {
    panicking: bool,
}

/// The error returned when a lock is acquired after a prior abnormal exit
/// while held. It wraps the guard, so the caller can still reach the data.
#[derive(Debug)]
pub struct PoisonError<T> {
    guard: T,
}

/// The outcome of a non-blocking acquisition attempt that did not succeed
/// cleanly: either the lock is poisoned (access is still granted through the
/// wrapped guard) or it is currently held elsewhere.
#[derive(Debug)]
pub enum TryLockError<T> {
    Poisoned(PoisonError<T>),
    WouldBlock,
}

/// The result of a blocking acquisition: access is granted either way, an
/// `Err` only communicates that the lock is poisoned.
pub type LockResult<G> = Result<G, PoisonError<G>>;

/// The result of a non-blocking acquisition.
pub type TryLockResult<G> = Result<G, TryLockError<G>>;

/// Whether a flag that read `failed` before a section's release reports
/// poisoned after it, given the `snapshot` taken at acquisition and whether
/// the releasing thread is `unwinding` abnormally now.
///
/// The flag transitions to poisoned exactly when the failure originated
/// inside the section: the releasing thread is unwinding now, but was not yet
/// unwinding when the snapshot was taken at acquisition.
pub open spec fn poison_after_exit(failed: bool, snapshot: bool, unwinding: bool) -> bool {
    failed || (!snapshot && unwinding)
}

/// Poison propagation and persistence: a section entered healthy and not
/// unwinding, released while unwinding, always poisons; a poisoned flag
/// stays poisoned across any further release; and an unwind that was
/// already in flight at acquisition never changes the flag.
pub proof fn lemma_poison_propagation(failed: bool, snapshot: bool, unwinding: bool)
    ensures
        poison_after_exit(false, false, true),
        failed ==> poison_after_exit(failed, snapshot, unwinding),
        snapshot ==> poison_after_exit(failed, snapshot, unwinding) == failed,
{
}

impl Flag {
    /// Whether the flag currently reports a poisoned state.
    pub closed spec fn poisoned(&self) -> bool {
        self.failed
    }

    /// The fresh, healthy flag, as a value: exactly what [`Flag::new`]
    /// returns.
    pub closed spec fn spec_new() -> Flag {
        Flag { failed: false }
    }

    /// The fresh flag reports healthy.
    pub proof fn lemma_spec_new_healthy()
        ensures
            !Flag::spec_new().poisoned(),
    {
    }

    /// A fresh, healthy flag.
    pub fn new() -> (f: Flag)
        ensures
            !f.poisoned(),
            f == Flag::spec_new(),
    {
        Flag { failed: false }
    }

    /// Checks the flag without taking a snapshot; used by accessors that
    /// bypass the lock entirely.
    pub fn borrow(&self) -> (r: LockResult<()>)
        ensures
            r is Ok <==> !self.poisoned(),
    {
        if self.get() {
            Err(PoisonError::new(()))
        } else {
            Ok(())
        }
    }

    /// Takes a snapshot of the acquiring thread's unwind state and reports
    /// the flag's state. The poison error wraps a usable snapshot even when
    /// already poisoned, so the caller can still recover the data.
    pub fn guard(&self, unwinding: bool) -> (r: LockResult<Guard>)
        ensures
            r is Ok <==> !self.poisoned(),
            r matches Ok(g) ==> g.was_panicking() == unwinding,
            r matches Err(e) ==> e.inner().was_panicking() == unwinding,
    {
        let ret = Guard { panicking: unwinding };
        if self.get() {
            Err(PoisonError::new(ret))
        } else {
            Ok(ret)
        }
    }

    /// Takes a snapshot as [`Flag::guard`] does, sampling the acquiring
    /// thread's own unwind state.
    pub fn guard_now(&self) -> (r: LockResult<Guard>)
        ensures
            r is Ok <==> !self.poisoned(),
    {
        let unwinding = unwinding_now();
        self.guard(unwinding)
    }

    /// Releases a critical section: poisons the flag if and only if the
    /// section terminated abnormally, that is, the releasing thread is
    /// unwinding now but the snapshot shows it was not already unwinding at
    /// acquisition. An in-flight unwind that merely passed through the
    /// section does not poison.
    pub fn done(&mut self, guard: &Guard, unwinding: bool)
        ensures
            final(self).poisoned() == poison_after_exit(
                old(self).poisoned(),
                guard.was_panicking(),
                unwinding,
            ),
    {
        if should_poison(guard.panicking, unwinding) {
            self.failed = true;
        }
    }

    /// Releases a critical section, sampling the releasing thread's own
    /// unwind state. The sample is environment-dependent, so only what holds
    /// of every outcome is stated: the flag never heals here, and it can only
    /// become poisoned if the section was entered while not unwinding.
    pub fn done_now(&mut self, guard: &Guard)
        ensures
            old(self).poisoned() ==> final(self).poisoned(),
            guard.was_panicking() ==> final(self).poisoned() == old(self).poisoned(),
    {
        let unwinding = unwinding_now();
        self.done(guard, unwinding);
    }

    /// Reads the flag.
    pub fn get(&self) -> (r: bool)
        ensures
            r == self.poisoned(),
    {
        self.failed
    }

    /// Resets the flag to healthy.
    pub fn clear(&mut self)
        ensures
            !final(self).poisoned(),
    {
        self.failed = false;
    }
}

impl Guard {
    /// Whether the holder's thread was already unwinding abnormally when this
    /// snapshot was taken.
    pub closed spec fn was_panicking(&self) -> bool {
        self.panicking
    }
}

/// The executable form of the poisoning decision taken at release: the
/// failure originated inside the critical section if and only if the
/// releasing thread is unwinding now but its snapshot shows it was not yet
/// unwinding at acquisition.
pub fn should_poison(snapshot: bool, unwinding: bool) -> (r: bool)
    ensures
        r == poison_after_exit(false, snapshot, unwinding),
{
    !snapshot && unwinding
}

/// Relies on `panicking::panicking`: reports whether the calling thread is
/// currently unwinding from a panic. The answer depends on the thread's
/// transient state, so nothing is promised of it.
#[verifier::external_body]
fn unwinding_now() -> bool {
    panicking::panicking()
}

impl<T> PoisonError<T> {
    /// The wrapped guard.
    pub closed spec fn inner(&self) -> T {
        self.guard
    }

    /// Wraps a guard that was acquired from a poisoned lock.
    pub fn new(guard: T) -> (e: PoisonError<T>)
        ensures
            e.inner() == guard,
    {
        PoisonError { guard }
    }

    /// Consumes the error, yielding the wrapped guard.
    pub fn into_inner(self) -> (t: T)
        ensures
            t == self.inner(),
    {
        self.guard
    }

    /// A shared reference to the wrapped guard.
    pub fn get_ref(&self) -> (t: &T)
        ensures
            *t == self.inner(),
    {
        &self.guard
    }

    /// An exclusive reference to the wrapped guard.
    pub fn get_mut(&mut self) -> (t: &mut T)
        ensures
            *t == old(self).inner(),
            final(self).inner() == *final(t),
    {
        &mut self.guard
    }

    /// The message this error displays.
    pub fn message(&self) -> (r: &'static str)
        ensures
            r@ == "poisoned lock: another task failed inside"@,
    {
        "poisoned lock: another task failed inside"
    }
}

impl<T> TryLockError<T> {
    /// The message this error displays.
    pub fn message(&self) -> (r: &'static str)
        ensures
            self is Poisoned ==> r@ == "poisoned lock: another task failed inside"@,
            self is WouldBlock ==> r@ == "try_lock failed because the operation would block"@,
    {
        match self {
            TryLockError::Poisoned(_) => "poisoned lock: another task failed inside",
            TryLockError::WouldBlock => "try_lock failed because the operation would block",
        }
    }
}

impl<T> From<PoisonError<T>> for TryLockError<T> {
    fn from(err: PoisonError<T>) -> (r: TryLockError<T>) {
        TryLockError::Poisoned(err)
    }
}

impl<T> vstd::std_specs::convert::FromSpecImpl<PoisonError<T>> for TryLockError<T> {
    open spec fn obeys_from_spec() -> bool {
        true
    }

    open spec fn from_spec(err: PoisonError<T>) -> TryLockError<T> {
        TryLockError::Poisoned(err)
    }
}

/// Applies `f` to the payload of a lock result, preserving whether the lock
/// was poisoned.
pub fn map_result<T, U, F: FnOnce(T) -> U>(result: LockResult<T>, f: F) -> (r: LockResult<U>)
    requires
        (match result {
            Ok(t) => call_requires(f, (t,)),
            Err(e) => call_requires(f, (e.inner(),)),
        }),
    ensures
        r is Ok <==> result is Ok,
        result matches Ok(t) ==> (r matches Ok(u) && call_ensures(f, (t,), u)),
        result matches Err(e) ==> (r matches Err(e2) && call_ensures(f, (e.inner(),), e2.inner())),
{
    match result {
        Ok(t) => Ok(f(t)),
        Err(e) => Err(PoisonError::new(f(e.into_inner()))),
    }
}

} // verus!
