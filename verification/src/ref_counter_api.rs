//! The counter protocol for intrusive reference-counting containers.
//!
//! One integer serves two purposes. In the shared range it is the number of
//! handles that own the counted value. From [`EXCLUSIVITY_MARKER`] up it says
//! that the value is borrowed exclusively, and that no further owner may be
//! added until the borrow ends.
//!
//! Every operation is one read-modify-write step, or two of them. The
//! functions whose names begin with `after_` hold the decision that follows a
//! step; they look only at the value that the step observed, so they decide
//! the same way when steps of several owners interleave.

use vstd::prelude::*;

verus! {

/// The least counter value at which a further owner is refused: half of the
/// representable range. An owner count that large cannot be honest, and
/// counting on from there would end in a wrapped counter.
pub const SHARE_LIMIT: usize = usize::MAX / 2;

/// Counter values from here up mark an exclusive borrow. The marker sits at
/// three quarters of the representable range, which leaves room above it for
/// increments that race with the borrow.
pub const EXCLUSIVITY_MARKER: usize = usize::MAX - (usize::MAX - usize::MAX / 2) / 2;

/// A counter value that stands for a number of owners.
pub open spec fn is_shared(count: usize) -> bool {
    1 <= count < EXCLUSIVITY_MARKER
}

/// How grave a [`Breach`] is.
#[derive(Clone, Copy, Debug, PartialEq, Eq, Structural)]
pub enum Severity {
    /// The caller broke the rules of use; the counter itself is intact.
    ContractViolation,
    /// The counter can no longer be trusted; the process must not go on.
    Fatal,
}

/// What stands in the way of counting a further owner.
#[derive(Clone, Copy, Debug, PartialEq, Eq, Structural)]
pub enum Breach {
    /// A further owner was asked for while the value was borrowed exclusively.
    DuringExclusivity,
    /// The number of owners has reached [`SHARE_LIMIT`].
    TooManyOwners,
    /// The counter holds a value that no correct use leads to.
    Corrupted,
}

impl Breach {
    /// Only an attempt to share during an exclusive borrow leaves the counter
    /// in a state from which the program may go on.
    pub open spec fn spec_severity(self) -> Severity {
        match self {
            Breach::DuringExclusivity => Severity::ContractViolation,
            Breach::TooManyOwners => Severity::Fatal,
            Breach::Corrupted => Severity::Fatal,
        }
    }

    #[verifier::when_used_as_spec(spec_severity)]
    pub fn severity(self) -> (severity: Severity)
        ensures
            severity == self.spec_severity(),
    {
        match self {
            Breach::DuringExclusivity => Severity::ContractViolation,
            Breach::TooManyOwners => Severity::Fatal,
            Breach::Corrupted => Severity::Fatal,
        }
    }
}

/// An action to take after decrementing the reference count.
#[derive(Clone, Copy, Debug, PartialEq, Eq, Structural)]
pub enum DecrementFollowup {
    /// There are further owners: the value is left as it is.
    LeakIt,
    /// No owner is left: the value is to be dropped, or moved out.
    DropOrMoveIt,
}

/// What is to be done once a counter has been incremented.
#[derive(Clone, Copy, Debug, PartialEq, Eq, Structural)]
pub enum IncrementFollowup {
    /// The new owner is counted.
    Proceed,
    /// The increment met an exclusive borrow and has to be taken back.
    Revert,
    /// The increment went beyond [`SHARE_LIMIT`]: the breach is
    /// [`Breach::TooManyOwners`].
    GiveUp,
}

/// The decision that follows an increment, as a function of the value that
/// the counter held before it.
pub open spec fn increment_followup(old_count: usize) -> IncrementFollowup {
    if old_count < SHARE_LIMIT {
        IncrementFollowup::Proceed
    } else if old_count < EXCLUSIVITY_MARKER {
        IncrementFollowup::GiveUp
    } else {
        IncrementFollowup::Revert
    }
}

/// The breach that a reverted increment reports, as a function of the value
/// that the counter held just before the increment was taken back. Above the
/// marker the borrow is still in place. At or below it the marker was taken
/// away in between, and nothing is known of the counter any more.
pub open spec fn revert_breach(seen: usize) -> Breach {
    if seen > EXCLUSIVITY_MARKER {
        Breach::DuringExclusivity
    } else {
        Breach::Corrupted
    }
}

/// The decision that follows a decrement, as a function of the value that the
/// counter held before it.
pub open spec fn decrement_followup(old_count: usize) -> DecrementFollowup {
    if old_count == 1 {
        DecrementFollowup::DropOrMoveIt
    } else {
        DecrementFollowup::LeakIt
    }
}

/// The successor of a counter value, from the greatest value back to zero.
pub open spec fn wrapping_succ(count: usize) -> usize {
    if count == usize::MAX {
        0
    } else {
        (count + 1) as usize
    }
}

/// The predecessor of a counter value, from zero back to the greatest value.
pub open spec fn wrapping_pred(count: usize) -> usize {
    if count == 0 {
        usize::MAX
    } else {
        (count - 1) as usize
    }
}

/// Decides what follows an increment that found `old_count` in the counter.
pub fn after_increment(old_count: usize) -> (followup: IncrementFollowup)
    ensures
        followup == increment_followup(old_count),
{
    if old_count >= SHARE_LIMIT {
        if old_count >= EXCLUSIVITY_MARKER {
            IncrementFollowup::Revert
        } else {
            IncrementFollowup::GiveUp
        }
    } else {
        IncrementFollowup::Proceed
    }
}

/// Names the breach of an increment that was taken back when the counter held
/// `seen`.
pub fn after_revert(seen: usize) -> (breach: Breach)
    ensures
        breach == revert_breach(seen),
{
    if seen > EXCLUSIVITY_MARKER {
        Breach::DuringExclusivity
    } else {
        Breach::Corrupted
    }
}

/// Decides what follows a decrement that found `old_count` in the counter.
pub fn after_decrement(old_count: usize) -> (followup: DecrementFollowup)
    ensures
        followup == decrement_followup(old_count),
{
    if old_count == 1 {
        DecrementFollowup::DropOrMoveIt
    } else {
        DecrementFollowup::LeakIt
    }
}

/// Decides whether a counter that was found to hold `count` may be borrowed
/// exclusively: it may where it counts exactly one owner.
pub fn may_acquire(count: usize) -> (sole: bool)
    ensures
        sole == (count == 1),
{
    count == 1
}

/// Access to the integer of a reference counter. The counter types of this
/// crate implement it; the protocol in [`RefCounterExt`] is written against it.
pub trait Sealed {
    /// The value that the counter holds.
    spec fn value(&self) -> usize;

    /// Reads the counter.
    fn refcount(&self) -> (count: usize)
        ensures
            count == self.value(),
    ;

    /// Lends the counter's integer out for a read-modify-write step.
    fn refcount_ptr(&mut self) -> (count: &mut usize)
        ensures
            *count == old(self).value(),
            final(self).value() == *final(count),
    ;
}

/// Common trait of the embeddable reference counter types.
pub trait RefCounter: Sealed {

}

impl<T> RefCounter for T where T: Sealed {

}

/// A token for the exclusive borrow of a reference-counted value. While it is
/// out, the counter holds [`EXCLUSIVITY_MARKER`] and every attempt to add an
/// owner is refused. The token keeps the value that the marker displaced.
///
/// A token does not know where its counter lives: it is released into the
/// counter that it was acquired from. A token that is never released leaves
/// the value borrowed for good.
pub struct Exclusivity {
    displaced_refcount: usize,
}

impl Exclusivity {
    /// The counter value that the marker displaced.
    pub closed spec fn displaced(&self) -> usize {
        self.displaced_refcount
    }

    /// Puts the marker into `counter` and keeps what it held.
    fn new<T: ?Sized + Sealed>(counter: &mut T) -> (token: Self)
        ensures
            token.displaced() == old(counter).value(),
            final(counter).value() == EXCLUSIVITY_MARKER,
    {
        let count = counter.refcount_ptr();
        let displaced_refcount: usize = *count;
        *count = EXCLUSIVITY_MARKER;
        Exclusivity { displaced_refcount }
    }

    /// Reads the counter value that the marker displaced.
    pub fn displaced_refcount(&self) -> (count: usize)
        ensures
            count == self.displaced(),
    {
        self.displaced_refcount
    }

    /// Ends the borrow: writes the displaced value back into `counter`,
    /// whatever the counter holds by now.
    pub fn release<T: ?Sized + Sealed>(self, counter: &mut T)
        ensures
            final(counter).value() == self.displaced(),
    {
        let count = counter.refcount_ptr();
        *count = self.displaced_refcount;
    }
}

/// Common reference-count manipulation methods.
pub trait RefCounterExt: RefCounter {
    /// Counts one more owner.
    ///
    /// The counter must be below [`SHARE_LIMIT`]. At the limit and above it
    /// no owner is counted: what is to happen there is for
    /// [`after_increment`] and [`after_revert`] to decide, and ends the
    /// caller.
    fn increment(&mut self)
        requires
            old(self).value() < SHARE_LIMIT,
        ensures
            final(self).value() == old(self).value() + 1,
    {
        let _ = self.fetch_add();
    }

    /// Counts one owner less, and says whether that was the last one. The
    /// counter wraps round where it held zero.
    fn decrement(&mut self) -> (followup: DecrementFollowup)
        ensures
            followup == decrement_followup(old(self).value()),
            final(self).value() == wrapping_pred(old(self).value()),
    {
        let old_count = self.fetch_sub();
        after_decrement(old_count)
    }

    /// As [`decrement`](RefCounterExt::decrement), for owners that all live in
    /// one thread of control.
    fn decrement_relaxed(&mut self) -> (followup: DecrementFollowup)
        ensures
            followup == decrement_followup(old(self).value()),
            final(self).value() == wrapping_pred(old(self).value()),
    {
        let old_count = self.fetch_sub();
        after_decrement(old_count)
    }

    /// Borrows the counted value exclusively if it has exactly one owner. The
    /// counter then holds the marker until the token is released.
    fn acquire(&mut self) -> (token: Option<Exclusivity>)
        ensures
            token.is_some() <==> old(self).value() == 1,
            token matches Some(t) ==> t.displaced() == 1,
            final(self).value() == if old(self).value() == 1 {
                EXCLUSIVITY_MARKER
            } else {
                old(self).value()
            },
    {
        if may_acquire(self.refcount()) {
            Some(Exclusivity::new(self))
        } else {
            None
        }
    }

    /// As [`acquire`](RefCounterExt::acquire), for owners that all live in one
    /// thread of control.
    fn acquire_relaxed(&mut self) -> (token: Option<Exclusivity>)
        ensures
            token.is_some() <==> old(self).value() == 1,
            token matches Some(t) ==> t.displaced() == 1,
            final(self).value() == if old(self).value() == 1 {
                EXCLUSIVITY_MARKER
            } else {
                old(self).value()
            },
    {
        if may_acquire(self.refcount()) {
            Some(Exclusivity::new(self))
        } else {
            None
        }
    }

    /// Adds one to the counter, wrapping round, and returns what it held.
    fn fetch_add(&mut self) -> (old_count: usize)
        ensures
            old_count == old(self).value(),
            final(self).value() == wrapping_succ(old_count),
    {
        let count = self.refcount_ptr();
        let old_count: usize = *count;
        *count = old_count.wrapping_add(1);
        old_count
    }

    /// Takes one from the counter, wrapping round, and returns what it held.
    fn fetch_sub(&mut self) -> (old_count: usize)
        ensures
            old_count == old(self).value(),
            final(self).value() == wrapping_pred(old_count),
    {
        let count = self.refcount_ptr();
        let old_count: usize = *count;
        *count = old_count.wrapping_sub(1);
        old_count
    }
}

impl<T> RefCounterExt for T where T: RefCounter {

}

} // verus!
