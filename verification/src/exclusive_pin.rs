//! Exclusive access to a reference-counted value.

use vstd::prelude::*;
use crate::ref_counter_api::Exclusivity;
use crate::tip_toe::{recounted, TipToe, TipToed};

verus! {

broadcast use TipToe::counter_is_its_value;

/// A mutable reference to a counted value, together with the token that
/// keeps further handles from being made while the reference is out.
///
/// The borrow ends with [`ExclusivePin::release`], which puts the count that
/// the token displaced back into the value.
#[must_use]
pub struct ExclusivePin<'a, T> {
    /// The value that is borrowed.
    pub reference: &'a mut T,
    /// The token of the borrow.
    pub exclusivity: Exclusivity,
}

impl<'a, T> ExclusivePin<'a, T> {
    /// Joins a token and the reference to the value that it guards.
    pub fn new(exclusivity: Exclusivity, reference: &'a mut T) -> (pin: Self)
        ensures
            pin.exclusivity == exclusivity,
            *pin.reference == *old(reference),
            *final(pin.reference) == *final(reference),
    {
        ExclusivePin { reference, exclusivity }
    }
}

impl<'a, T: TipToed> ExclusivePin<'a, T> {
    /// Ends the borrow. The value is left as the borrower made it, with the
    /// count that the token displaced in its counter.
    pub fn release(self)
        ensures
            *final(self.reference) == recounted(
                *old(self.reference),
                self.exclusivity.displaced(),
            ),
    {
        let ExclusivePin { reference, exclusivity } = self;
        exclusivity.release(reference.tip_toe_mut());
    }
}

} // verus!
