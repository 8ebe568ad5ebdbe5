//! Pinned handles.

use vstd::prelude::*;

verus! {

/// A pointer whose value is promised to stay where it is until it is dropped.
///
/// The wrapper changes nothing about the pointer it holds; it records the
/// promise in the type. Its view is the view of the pointer.
pub struct Pin<P> {
    pointer: P,
}

impl<P: View> View for Pin<P> {
    type V = P::V;

    closed spec fn view(&self) -> P::V {
        self.pointer@
    }
}

impl<P> Pin<P> {
    /// The pointer inside the wrapper.
    pub closed spec fn inner(&self) -> P {
        self.pointer
    }

    /// The wrapper around `pointer`.
    pub closed spec fn holding(pointer: P) -> Self {
        Pin { pointer }
    }

    /// Pins `pointer`.
    pub fn new(pointer: P) -> (pinned: Self)
        ensures
            pinned == Self::holding(pointer),
    {
        Pin { pointer }
    }

    /// Takes the pointer out of the wrapper.
    pub fn into_inner(pinned: Self) -> (pointer: P)
        ensures
            pointer == pinned.inner(),
    {
        pinned.pointer
    }

    /// Borrows the pointer inside the wrapper.
    pub fn get_ref(&self) -> (pointer: &P)
        ensures
            *pointer == self.inner(),
    {
        &self.pointer
    }

    /// Puts `pointer` in the place of the pointer inside the wrapper, and
    /// returns the one that was there.
    pub fn replace(&mut self, pointer: P) -> (replaced: P)
        ensures
            replaced == old(self).inner(),
            final(self).inner() == pointer,
    {
        let mut pointer = pointer;
        core::mem::swap(&mut self.pointer, &mut pointer);
        pointer
    }
}

/// A pinned pointer is nothing but the pointer it holds.
pub broadcast proof fn pinned_is_its_pointer<P>(one: Pin<P>, other: Pin<P>)
    ensures
        #![trigger one.inner(), other.inner()]
        one.inner() == other.inner() ==> one == other,
{
}

/// The pointer inside the wrapper around a pointer is that pointer.
pub broadcast proof fn inner_of_holding<P>(pointer: P)
    ensures
        (#[trigger] Pin::holding(pointer)).inner() == pointer,
{
}

/// The view of a pinned pointer is the view of the pointer.
pub broadcast proof fn view_of_pinned<P: View>(pinned: Pin<P>)
    ensures
        #[trigger] pinned@ == pinned.inner()@,
{
}

/// What holds of a pinned pointer and the pointer inside it.
pub broadcast group group_pin_laws {
    pinned_is_its_pointer,
    inner_of_holding,
    view_of_pinned,
}

} // verus!
