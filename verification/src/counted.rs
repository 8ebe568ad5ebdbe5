//! A ready-made payload: a value with a counter beside it.

use vstd::prelude::*;
use vstd::std_specs::cmp::{PartialEqSpec, PartialEqSpecImpl, PartialOrdSpec, PartialOrdSpecImpl};
use core::cmp::Ordering;
use crate::identity::{Identified, TypeId};
use crate::ref_counter_api::Sealed;
use crate::tip_toe::{recounted, ManagedClone, TipToe, TipToed};

verus! {

/// A value together with the counter of the handles that share it.
pub struct Counted<V> {
    tip_toe: TipToe,
    value: V,
}

impl<V> View for Counted<V> {
    type V = V;

    closed spec fn view(&self) -> V {
        self.value
    }
}

impl<V> Counted<V> {
    /// Puts a fresh counter beside `value`.
    pub fn new(value: V) -> (counted: Self)
        ensures
            counted@ == value,
            counted.counter().value() == 0,
    {
        Counted { tip_toe: TipToe::new(), value }
    }

    /// Borrows the value.
    pub fn get(&self) -> (value: &V)
        ensures
            *value == self@,
    {
        &self.value
    }

    /// Puts `value` in the place of the value, and leaves the counter alone.
    pub fn set(&mut self, value: V)
        ensures
            final(self)@ == value,
            final(self).counter() == old(self).counter(),
    {
        self.value = value;
    }

    /// Gives the value up, without its counter.
    pub fn into_inner(self) -> (value: V)
        ensures
            value == self@,
    {
        self.value
    }

    /// A change of the count leaves the value alone.
    pub broadcast proof fn recounted_keeps_value(self, count: usize)
        ensures
            (#[trigger] recounted(self, count))@ == self@,
    {
    }
}

impl<V> TipToed for Counted<V> {
    closed spec fn counter(&self) -> TipToe {
        self.tip_toe
    }

    closed spec fn with_counter(self, counter: TipToe) -> Self {
        Counted { tip_toe: counter, value: self.value }
    }

    proof fn counter_put_is_found(self, counter: TipToe) {
    }

    proof fn own_counter_changes_nothing(self) {
    }

    proof fn last_counter_wins(self, first: TipToe, second: TipToe) {
    }

    fn tip_toe(&self) -> (counter: &TipToe) {
        &self.tip_toe
    }

    fn tip_toe_mut(&mut self) -> (counter: &mut TipToe) {
        &mut self.tip_toe
    }
}

impl<V: Clone> Clone for Counted<V> {
    /// The clone holds a clone of the value, beside a fresh counter.
    fn clone(&self) -> (duplicate: Self)
        ensures
            cloned(self@, duplicate@),
            duplicate.counter().value() == 0,
    {
        Counted { tip_toe: self.tip_toe.clone(), value: self.value.clone() }
    }
}

impl<V: Clone> ManagedClone for Counted<V> {
    /// The duplicate holds a clone of the value, beside a fresh counter.
    fn managed_clone(&self) -> (duplicate: Self)
        ensures
            cloned(self@, duplicate@),
    {
        self.clone()
    }
}

/// Counted values compare as their values do: the counters have no say.
impl<V: PartialEq> PartialEq for Counted<V> {
    fn eq(&self, other: &Self) -> (equal: bool) {
        self.value == other.value
    }
}

impl<V: PartialEq> PartialEqSpecImpl for Counted<V> {
    open spec fn obeys_eq_spec() -> bool {
        V::obeys_eq_spec()
    }

    open spec fn eq_spec(&self, other: &Self) -> bool {
        self@.eq_spec(&other@)
    }
}

/// Counted values are ordered as their values are.
impl<V: PartialOrd> PartialOrd for Counted<V> {
    fn partial_cmp(&self, other: &Self) -> (order: Option<Ordering>) {
        self.value.partial_cmp(&other.value)
    }
}

impl<V: PartialOrd> PartialOrdSpecImpl for Counted<V> {
    open spec fn obeys_partial_cmp_spec() -> bool {
        V::obeys_partial_cmp_spec()
    }

    open spec fn partial_cmp_spec(&self, other: &Self) -> Option<Ordering> {
        self@.partial_cmp_spec(&other@)
    }
}

impl<V: Identified> Identified for Counted<V> {
    /// A counted value is of the type that its value is of.
    open spec fn identity(&self) -> TypeId {
        self@.identity()
    }

    fn type_id(&self) -> (id: TypeId) {
        self.value.type_id()
    }
}

} // verus!
