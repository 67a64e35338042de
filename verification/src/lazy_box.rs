//! A single-assignment, race-resolved, allocator-parameterized owning slot.
//!
//! A [`LazyBox`] starts empty and is filled on first use. Many threads may
//! race to fill it: each builds its own candidate and attempts a single
//! atomic installation; exactly one candidate survives, and every loser is
//! disposed through a cancellation path distinct from normal teardown,
//! because a candidate that never won the race was never observably used.
//!
//! This module models that protocol over a plain optional slot; the atomic
//! compare-and-swap that resolves the race at run time is a refinement of
//! [`install_step`], which the proofs here quantify over.

use vstd::prelude::*;

verus! {

/// The interface a lazily placed value offers to its slot.
pub trait LazyInit: Sized {
    /// The allocator handle the constructor is bound to. It must be cheaply
    /// cloneable, since racing first-use attempts each clone it.
    type Allocator: Clone;

    /// What a freshly built candidate looks like; `init` promises it of
    /// every candidate it returns, and the slot passes the promise on to
    /// whatever it hands out of a first use.
    spec fn is_fresh(x: &Self) -> bool;

    /// Builds one fresh candidate. It may be called more than once per slot,
    /// as multiple threads may race to fill it concurrently; all but one of
    /// the candidates are passed to `cancel_init` right after.
    fn init(allocator: Self::Allocator) -> (r: Self)
        ensures
            Self::is_fresh(&r),
    ;

    /// Disposes a surplus candidate that lost the installation race. The
    /// loser was never observably used, so this path may skip the defensive
    /// checks that normal teardown must perform.
    fn cancel_init(x: Self);

    /// Normal teardown of the one candidate that survived.
    fn destroy(x: Self);
}

/// A single-assignment owning slot: at most one live instance of `T` for the
/// slot's own lifetime, plus a cloned allocator handle for deferred
/// construction.
pub struct LazyBox<T: LazyInit> {
    value: Option<T>,
    allocator: T::Allocator,
}

/// One installation attempt on a single-assignment slot: an empty slot
/// adopts the candidate and the attempt wins; a filled slot is left as it
/// is and the attempt loses, leaving the candidate to be cancelled.
pub open spec fn install_step<T>(slot: Option<T>, candidate: T) -> (Option<T>, bool) {
    match slot {
        Option::None => (Option::Some(candidate), true),
        Option::Some(_) => (slot, false),
    }
}

/// The slot contents and the number of winning attempts after a sequence of
/// installation attempts, one per racing candidate, in arrival order.
pub open spec fn race_outcome<T>(slot: Option<T>, candidates: Seq<T>) -> (Option<T>, nat)
    decreases candidates.len(),
{
    if candidates.len() == 0 {
        (slot, 0)
    } else {
        let (after, won) = install_step(slot, candidates[0]);
        let (fin, wins) = race_outcome(after, candidates.drop_first());
        (fin, wins + if won { 1nat } else { 0nat })
    }
}

/// A filled slot never changes again and no further attempt wins.
proof fn lemma_race_on_filled<T>(witness: T, candidates: Seq<T>)
    ensures
        race_outcome(Option::Some(witness), candidates) == (Option::Some(witness), 0nat),
    decreases candidates.len(),
{
    if candidates.len() > 0 {
        lemma_race_on_filled(witness, candidates.drop_first());
    }
}

/// Single-winner law: when `K >= 1` candidates race to fill an empty slot,
/// exactly one attempt wins — the first to arrive — and its candidate is the
/// one the slot retains. Every other attempt loses, so cancellation runs
/// exactly `K - 1` times, and normal teardown later runs exactly once, on
/// the single survivor.
pub proof fn lemma_single_winner<T>(candidates: Seq<T>)
    requires
        candidates.len() >= 1,
    ensures
        race_outcome(Option::None::<T>, candidates).0 == Option::Some(candidates[0]),
        race_outcome(Option::None::<T>, candidates).1 == 1nat,
{
    lemma_race_on_filled(candidates[0], candidates.drop_first());
}

impl<T: LazyInit> LazyBox<T> {
    /// What the slot currently owns.
    pub closed spec fn contents(&self) -> Option<T> {
        self.value
    }

    /// The allocator handle the slot was created with.
    pub closed spec fn spec_allocator(&self) -> T::Allocator {
        self.allocator
    }

    /// The empty slot bound to `allocator`, as a value: exactly what
    /// [`LazyBox::new_in`] returns.
    pub closed spec fn spec_new(allocator: T::Allocator) -> LazyBox<T> {
        LazyBox { value: None, allocator }
    }

    /// The empty slot holds nothing and keeps its allocator handle.
    pub proof fn lemma_spec_new_empty(allocator: T::Allocator)
        ensures
            LazyBox::<T>::spec_new(allocator).contents() is None,
            LazyBox::<T>::spec_new(allocator).spec_allocator() == allocator,
    {
    }

    /// An empty slot. This performs no allocation: placement is deferred to
    /// the first use.
    pub fn new_in(allocator: T::Allocator) -> (lb: Self)
        ensures
            lb.contents() is None,
            lb.spec_allocator() == allocator,
            lb == LazyBox::<T>::spec_new(allocator),
    {
        Self { value: None, allocator }
    }

    /// The allocator handle.
    pub fn allocator(lb: &LazyBox<T>) -> (a: &T::Allocator)
        ensures
            *a == lb.spec_allocator(),
    {
        &lb.allocator
    }

    /// One thread's installation attempt with the candidate it built: the
    /// run-time refinement of [`install_step`]. A losing candidate is
    /// disposed through the cancellation path before the attempt returns.
    pub fn install(&mut self, candidate: T) -> (won: bool)
        ensures
            (final(self).contents(), won) == install_step(old(self).contents(), candidate),
            final(self).spec_allocator() == old(self).spec_allocator(),
    {
        if self.value.is_none() {
            self.value = Some(candidate);
            true
        } else {
            T::cancel_init(candidate);
            false
        }
    }

    /// Fills the slot if it is still empty, building the candidate with the
    /// constructor bound to the cloned allocator handle. A first use ends
    /// with a fresh candidate installed, as `init` promises.
    pub fn force(&mut self)
        ensures
            final(self).contents() is Some,
            final(self).spec_allocator() == old(self).spec_allocator(),
            old(self).contents() is Some ==> *final(self) == *old(self),
            old(self).contents() is None ==> (final(self).contents() matches Some(v)
                && T::is_fresh(&v)),
    {
        if self.value.is_none() {
            let allocator = self.allocator.clone();
            let candidate = T::init(allocator);
            let _won = self.install(candidate);
        }
    }

    /// The current live instance, if the slot has been filled.
    pub fn get(&self) -> (r: Option<&T>)
        ensures
            r is Some <==> self.contents() is Some,
            r matches Some(v) ==> self.contents() == Some(*v),
    {
        match &self.value {
            Some(v) => Some(v),
            None => None,
        }
    }

    /// Exclusive access to the live instance.
    pub fn value_mut(&mut self) -> (r: &mut T)
        requires
            old(self).contents() is Some,
        ensures
            old(self).contents() == Some(*r),
            final(self).contents() == Some(*final(r)),
            final(self).spec_allocator() == old(self).spec_allocator(),
    {
        match &mut self.value {
            Some(v) => v,
            None => vstd::pervasive::unreached(),
        }
    }

    /// Releases the single retained instance, if any, through normal
    /// teardown exactly once, and reports whether teardown ran: it does if
    /// and only if the slot was ever filled. An empty slot disposes of
    /// nothing.
    pub fn destroy(self) -> (released: bool)
        ensures
            released == (self.contents() is Some),
    {
        let LazyBox { value, allocator: _ } = self;
        match value {
            Some(v) => {
                T::destroy(v);
                true
            },
            None => false,
        }
    }
}

} // verus!
