//! The embeddable counter.

use vstd::prelude::*;
use core::cmp::Ordering;
use crate::ref_counter_api::Sealed;

verus! {

/// An embeddable strong-only reference counter: one integer, stored inside
/// the value that it counts the owners of.
///
/// A counter says nothing about the value that holds it: any two counters
/// compare equal, and the clone of a counter is a fresh one.
#[derive(Debug)]
pub struct TipToe {
    refcount: usize,
}

impl TipToe {
    /// The counter that holds `count`.
    pub closed spec fn holding(count: usize) -> TipToe {
        TipToe { refcount: count }
    }

    /// A counter is nothing but the value it holds.
    pub broadcast proof fn counter_is_its_value(self)
        ensures
            TipToe::holding(#[trigger] self.value()) == self,
    {
    }

    /// The counter that holds a value holds that value.
    pub broadcast proof fn holding_holds(count: usize)
        ensures
            #[trigger] TipToe::holding(count).value() == count,
    {
    }

    /// Creates a counter with no owners.
    #[must_use]
    pub fn new() -> (counter: Self)
        ensures
            counter.value() == 0,
    {
        TipToe { refcount: 0 }
    }
}

impl Sealed for TipToe {
    closed spec fn value(&self) -> usize {
        self.refcount
    }

    fn refcount(&self) -> (count: usize) {
        self.refcount
    }

    fn refcount_ptr(&mut self) -> (count: &mut usize) {
        &mut self.refcount
    }
}

impl Default for TipToe {
    fn default() -> (counter: Self)
        ensures
            counter.value() == 0,
    {
        TipToe::new()
    }
}

impl Clone for TipToe {
    fn clone(&self) -> (counter: Self)
        ensures
            counter.value() == 0,
    {
        TipToe::new()
    }
}

impl PartialEq for TipToe {
    fn eq(&self, other: &Self) -> (equal: bool) {
        true
    }
}

impl Eq for TipToe {

}

impl vstd::std_specs::cmp::PartialEqSpecImpl for TipToe {
    open spec fn obeys_eq_spec() -> bool {
        true
    }

    open spec fn eq_spec(&self, other: &Self) -> bool {
        true
    }
}

impl PartialOrd for TipToe {
    fn partial_cmp(&self, other: &Self) -> (order: Option<Ordering>) {
        Some(Ordering::Equal)
    }
}

impl vstd::std_specs::cmp::PartialOrdSpecImpl for TipToe {
    open spec fn obeys_partial_cmp_spec() -> bool {
        true
    }

    open spec fn partial_cmp_spec(&self, other: &Self) -> Option<Ordering> {
        Some(Ordering::Equal)
    }
}

impl core::hash::Hash for TipToe {
    fn hash<H: core::hash::Hasher>(&self, state: &mut H) {
    }
}

/// Enables intrusive reference counting for a structure: the structure holds
/// a [`TipToe`] and shows where.
///
/// The counter is a part of the value like a field of it. Reading the counter
/// has no effect, and writing it changes nothing else of the value; the three
/// laws below say so. An implementation proves them, and the handles of this
/// crate rely on them.
pub trait TipToed: Sized {
    /// The embedded counter.
    spec fn counter(&self) -> TipToe;

    /// The same value with `counter` in the place of its own counter.
    spec fn with_counter(self, counter: TipToe) -> Self;

    /// The counter that was put in is the counter that is found.
    proof fn counter_put_is_found(self, counter: TipToe)
        ensures
            self.with_counter(counter).counter() == counter,
    ;

    /// Putting a value's own counter in changes nothing.
    proof fn own_counter_changes_nothing(self)
        ensures
            self.with_counter(self.counter()) == self,
    ;

    /// Of two counters put in one after the other, the first leaves no trace.
    proof fn last_counter_wins(self, first: TipToe, second: TipToe)
        ensures
            self.with_counter(first).with_counter(second) == self.with_counter(second),
    ;

    /// Gets a reference to the instance's reference counter.
    fn tip_toe(&self) -> (counter: &TipToe)
        ensures
            *counter == self.counter(),
    ;

    /// Lends the instance's reference counter out for a change. Nothing but
    /// the counter changes with it.
    fn tip_toe_mut(&mut self) -> (counter: &mut TipToe)
        ensures
            *counter == old(self).counter(),
            *final(self) == old(self).with_counter(*final(counter)),
    ;
}

/// The number that the embedded counter of `payload` holds.
pub open spec fn count_of<T: TipToed>(payload: T) -> usize {
    payload.counter().value()
}

/// The same payload with its embedded counter holding `count`.
pub open spec fn recounted<T: TipToed>(payload: T, count: usize) -> T {
    payload.with_counter(TipToe::holding(count))
}

/// Putting a counter into a payload gives the payload the count that the
/// counter holds.
pub broadcast proof fn with_counter_is_recounted<T: TipToed>(payload: T, counter: TipToe)
    ensures
        #[trigger] payload.with_counter(counter) == recounted(payload, counter.value()),
{
    broadcast use TipToe::counter_is_its_value;

}

/// A payload that was given a count has that count.
pub broadcast proof fn count_of_recounted<T: TipToed>(payload: T, count: usize)
    ensures
        count_of(#[trigger] recounted(payload, count)) == count,
{
    broadcast use TipToe::holding_holds;

    payload.counter_put_is_found(TipToe::holding(count));
}

/// Giving a payload the count it has changes nothing.
pub broadcast proof fn recounted_to_own_count<T: TipToed>(payload: T, count: usize)
    ensures
        count == count_of(payload) ==> #[trigger] recounted(payload, count) == payload,
{
    broadcast use TipToe::counter_is_its_value;

    payload.own_counter_changes_nothing();
}

/// Of two counts given one after the other, the first leaves no trace.
pub broadcast proof fn recounted_twice<T: TipToed>(payload: T, first: usize, second: usize)
    ensures
        #[trigger] recounted(recounted(payload, first), second) == recounted(payload, second),
{
    payload.last_counter_wins(TipToe::holding(first), TipToe::holding(second));
}

/// What holds of a counter as a part of its payload.
pub broadcast group group_count_laws {
    with_counter_is_recounted,
    count_of_recounted,
    recounted_to_own_count,
    recounted_twice,
}

/// Like `Clone`, for values that hold a counter: the duplicate is a value of
/// its own, which no handle owns yet.
///
/// A duplicate is made only to be put behind a handle at once, the way its
/// source is behind one. It is not to be observed or dropped before that.
pub trait ManagedClone: TipToed {
    /// Duplicates the value. The counter of the duplicate counts no owners.
    fn managed_clone(&self) -> (duplicate: Self)
        ensures
            count_of(duplicate) == 0,
    ;

    /// Overwrites the value with a duplicate of `source`.
    fn managed_clone_from(&mut self, source: &Self)
        ensures
            call_ensures(Self::managed_clone, (source,), *final(self)),
            count_of(*final(self)) == 0,
    {
        *self = source.managed_clone();
    }
}

} // verus!
