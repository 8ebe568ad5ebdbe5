//! The counted handle.

use vstd::prelude::*;
use vstd::std_specs::cmp::PartialEqSpec;
use vstd::std_specs::cmp::PartialOrdSpec;
use core::cmp::Ordering;
use core::marker::PhantomData;
use std::borrow::Cow;
use tap::Pipe;
use crate::exclusive_pin::ExclusivePin;
use crate::heap::Heap;
use crate::identity::{Identified, TypeId};
use crate::pin::{group_pin_laws, Pin};
use crate::ref_counter_api::{
    wrapping_pred, DecrementFollowup, RefCounterExt, Sealed, EXCLUSIVITY_MARKER, SHARE_LIMIT,
};
use crate::tip_toe::{count_of, group_count_laws, recounted, ManagedClone, TipToed};

verus! {

broadcast use {group_count_laws, group_pin_laws};

/// `tap::Pipe::pipe`: hands `value` to `func` and returns what `func` returns.
/// The contract says that and no more: the result is one that `func` may
/// return for `value`.
#[verifier::external_body]
fn pipe<A, R, F: FnOnce(A) -> R>(value: A, func: F) -> (result: R)
    requires
        call_requires(func, (value,)),
    ensures
        call_ensures(func, (value,), result),
{
    value.pipe(func)
}

/// A reference-counted handle to a value in a [`Heap`]. The count of the
/// handles lives in the value itself.
///
/// A handle is nothing but the address of its value: its view. It is made by
/// [`Arc::new`] or [`Arc::clone`], which count it, and it ends in
/// [`Arc::drop`], which takes it off the count again. A handle that is merely
/// forgotten stays counted, and its value stays alive.
pub struct Arc<T: TipToed> {
    pointer: usize,
    _payload: PhantomData<T>,
}

impl<T: TipToed> View for Arc<T> {
    type V = usize;

    closed spec fn view(&self) -> usize {
        self.pointer
    }
}

/// The heap that `heap` becomes when the counter of the value at `address`
/// is set to `count`.
pub open spec fn with_count_at<T: TipToed>(heap: Map<usize, T>, address: usize, count: usize) -> Map<
    usize,
    T,
> {
    heap.insert(address, recounted(heap[address], count))
}

/// The heap that `heap` becomes when `value` is put behind a new handle at
/// `address`: the value lives there, with one owner more than it came with.
pub open spec fn after_new<T: TipToed>(heap: Map<usize, T>, address: usize, value: T) -> Map<
    usize,
    T,
> {
    heap.insert(address, recounted(value, (count_of(value) + 1) as usize))
}

/// The heap that `heap` becomes when a handle to the value at `address` is
/// cloned: the value has one owner more.
pub open spec fn after_clone<T: TipToed>(heap: Map<usize, T>, address: usize) -> Map<usize, T> {
    with_count_at(heap, address, (count_of(heap[address]) + 1) as usize)
}

/// The heap that `heap` becomes when a handle to the value at `address` is
/// dropped: the value is gone where the handle was its last, and has one
/// owner less where it was not.
pub open spec fn after_drop<T: TipToed>(heap: Map<usize, T>, address: usize) -> Map<usize, T> {
    if count_of(heap[address]) == 1 {
        heap.remove(address)
    } else {
        with_count_at(heap, address, wrapping_pred(count_of(heap[address])))
    }
}

impl<T: TipToed> Arc<T> {
    /// Moves `value` into `heap` and returns the one handle to it. The
    /// counter of the value goes up by one, to 1 where it was fresh.
    #[must_use]
    pub fn new(value: T, heap: &mut Heap<T>) -> (this: Self)
        requires
            count_of(value) < SHARE_LIMIT,
        ensures
            !old(heap).is_live(this@),
            forall|below: usize| below < this@ ==> old(heap).is_live(below),
            final(heap)@ == after_new(old(heap)@, this@, value),
    {
        let mut value = value;
        value.tip_toe_mut().increment();
        let pointer = heap.allocate(value);
        Arc { pointer, _payload: PhantomData }
    }

    /// Makes another handle to the same value. The counter of the value goes
    /// up by one.
    ///
    /// The counter must be below [`SHARE_LIMIT`]: no handle is made of a
    /// value that has that many owners, or that is borrowed exclusively.
    pub fn clone(&self, heap: &mut Heap<T>) -> (duplicate: Self)
        requires
            old(heap).is_live(self@),
            count_of(old(heap)@[self@]) < SHARE_LIMIT,
        ensures
            duplicate == *self,
            final(heap)@ == after_clone(old(heap)@, self@),
    {
        heap.get_mut(self.pointer).tip_toe_mut().increment();
        Arc { pointer: self.pointer, _payload: PhantomData }
    }

    /// Gives the handle up. The counter of the value goes down by one; the
    /// value is dropped, and its address freed, where this was its last
    /// handle.
    pub fn drop(self, heap: &mut Heap<T>)
        requires
            old(heap).is_live(self@),
        ensures
            final(heap)@ == after_drop(old(heap)@, self@),
    {
        match heap.get_mut(self.pointer).tip_toe_mut().decrement() {
            DecrementFollowup::LeakIt => (),
            DecrementFollowup::DropOrMoveIt => {
                let _ = heap.deallocate(self.pointer);
            },
        }
    }

    /// Unwraps the address that the handle holds. The handle stays counted.
    #[must_use]
    pub fn leak(this: Self) -> (pointer: usize)
        ensures
            pointer == this@,
    {
        this.pointer
    }

    /// Makes a handle from the address of a value. The handle is not counted:
    /// it takes the place of one that was given up by [`Arc::leak`].
    #[must_use]
    pub fn from_raw(raw_value: usize) -> (this: Self)
        ensures
            this@ == raw_value,
    {
        Arc { pointer: raw_value, _payload: PhantomData }
    }

    /// Reads the address that the handle holds.
    pub fn as_ptr(&self) -> (pointer: usize)
        ensures
            pointer == self@,
    {
        self.pointer
    }

    /// Checks whether two handles point to the same value.
    #[must_use]
    pub fn ptr_eq(this: &Self, other: &Self) -> (same: bool)
        ensures
            same == (this@ == other@),
    {
        this.pointer == other.pointer
    }

    /// Moves the value out of its box into `heap` and returns the one handle
    /// to it.
    #[must_use]
    pub fn from_box(box_: Box<T>, heap: &mut Heap<T>) -> (this: Self)
        requires
            count_of(*box_) < SHARE_LIMIT,
        ensures
            !old(heap).is_live(this@),
            forall|below: usize| below < this@ ==> old(heap).is_live(below),
            final(heap)@ == after_new(old(heap)@, this@, *box_),
    {
        Self::new(*box_, heap)
    }

    /// Puts a value behind a handle of its own: the value itself where `cow`
    /// owns it, and a duplicate of it where `cow` has it on loan.
    #[must_use]
    pub fn from_cow<'a>(cow: Cow<'a, T>, heap: &mut Heap<T>) -> (this: Self) where
        T: ManagedClone + Clone,

        requires
            cow matches Cow::Owned(owned) ==> count_of(owned) < SHARE_LIMIT,
        ensures
            !old(heap).is_live(this@),
            forall|below: usize| below < this@ ==> old(heap).is_live(below),
            match cow {
                Cow::Owned(owned) => final(heap)@ == after_new(old(heap)@, this@, owned),
                Cow::Borrowed(borrowed) => exists|duplicate: T|
                    {
                        &&& call_ensures(T::managed_clone, (borrowed,), duplicate)
                        &&& final(heap)@ == #[trigger] after_new(old(heap)@, this@, duplicate)
                    },
            },
    {
        match cow {
            Cow::Borrowed(borrowed) => Self::new(borrowed.managed_clone(), heap),
            Cow::Owned(owned) => Self::new(owned, heap),
        }
    }

    /// Moves `value` into `heap` and returns the one handle to it, pinned.
    #[must_use]
    pub fn pin(value: T, heap: &mut Heap<T>) -> (this: Pin<Self>)
        requires
            count_of(value) < SHARE_LIMIT,
        ensures
            !old(heap).is_live(this@),
            forall|below: usize| below < this@ ==> old(heap).is_live(below),
            final(heap)@ == after_new(old(heap)@, this@, value),
    {
        Pin::new(Self::new(value, heap))
    }

    /// Takes the value out of `heap` if `this` is the only handle to it. The
    /// value comes back with a counter that counts no owners, and its address
    /// is free again. A handle that is not the only one is handed back, and
    /// nothing changes.
    pub fn try_unwrap(this: Self, heap: &mut Heap<T>) -> (unwrapped: Result<T, Self>)
        requires
            old(heap).is_live(this@),
        ensures
            count_of(old(heap)@[this@]) == 1 ==> unwrapped == Ok::<T, Self>(
                recounted(old(heap)@[this@], 0),
            ) && final(heap)@ == old(heap)@.remove(this@),
            count_of(old(heap)@[this@]) != 1 ==> unwrapped == Err::<T, Self>(this) && final(heap)@
                == old(heap)@,
    {
        let counter = heap.get_mut(this.pointer).tip_toe_mut();
        match counter.acquire() {
            None => Err(this),
            Some(exclusivity) => {
                exclusivity.release(counter);
                let mut value = heap.deallocate(this.pointer);
                let _ = value.tip_toe_mut().decrement_relaxed();
                Ok(value)
            },
        }
    }

    /// As [`Arc::try_unwrap`], for a pinned handle.
    pub fn try_unpin(this: Pin<Self>, heap: &mut Heap<T>) -> (unwrapped: Result<T, Pin<Self>>)
        requires
            old(heap).is_live(this@),
        ensures
            count_of(old(heap)@[this@]) == 1 ==> unwrapped == Ok::<T, Pin<Self>>(
                recounted(old(heap)@[this@], 0),
            ) && final(heap)@ == old(heap)@.remove(this@),
            count_of(old(heap)@[this@]) != 1 ==> unwrapped == Err::<T, Pin<Self>>(this)
                && final(heap)@ == old(heap)@,
    {
        match Self::try_unwrap(Pin::into_inner(this), heap) {
            Ok(value) => Ok(value),
            Err(handle) => Err(Pin::new(handle)),
        }
    }

    /// Makes a pinned handle from the address of a value. The handle is not
    /// counted: it takes the place of one that was given up by
    /// [`Arc::leak_pinned`].
    #[must_use]
    pub fn pinned_from_raw(raw_value: usize) -> (this: Pin<Self>)
        ensures
            this@ == raw_value,
    {
        pipe(Arc { pointer: raw_value, _payload: PhantomData }, Pin::new)
    }

    /// Takes the address of a value for a handle to it, without counting the
    /// handle. The handle stands for a borrowed one: it may be cloned, and is
    /// not to be dropped.
    #[must_use]
    pub fn borrow_from_inner_ref(inner: usize) -> (this: Self)
        ensures
            this@ == inner,
    {
        Arc { pointer: inner, _payload: PhantomData }
    }

    /// As [`Arc::borrow_from_inner_ref`], for a pinned handle.
    #[must_use]
    pub fn borrow_pin_from_inner_ref(inner: usize) -> (this: Pin<Self>)
        ensures
            this@ == inner,
    {
        Pin::new(Arc { pointer: inner, _payload: PhantomData })
    }

    /// Unwraps the address that the pinned handle holds. The handle stays
    /// counted.
    #[must_use]
    pub fn leak_pinned(this: Pin<Self>) -> (pointer: usize)
        ensures
            pointer == this@,
    {
        let this = Pin::into_inner(this);
        this.pointer
    }

    /// Borrows the value exclusively if `this` is the only handle to it.
    /// While the borrow lasts the counter of the value holds the marker, and
    /// no further handle can be made.
    #[must_use]
    pub fn get_mut<'a>(this: &'a mut Pin<Self>, heap: &'a mut Heap<T>) -> (pin: Option<
        ExclusivePin<'a, T>,
    >)
        requires
            old(heap).is_live(old(this)@),
        ensures
            *final(this) == *old(this),
            pin.is_some() <==> count_of(old(heap)@[old(this)@]) == 1,
            match pin {
                Some(pin) => {
                    &&& pin.exclusivity.displaced() == 1
                    &&& *pin.reference == recounted(old(heap)@[old(this)@], EXCLUSIVITY_MARKER)
                    &&& final(heap)@ == old(heap)@.insert(old(this)@, *final(pin.reference))
                },
                None => final(heap)@ == old(heap)@,
            },
    {
        let reference = heap.get_mut(this.get_ref().pointer);
        match reference.tip_toe_mut().acquire() {
            Some(exclusivity) => Some(ExclusivePin::new(exclusivity, reference)),
            None => None,
        }
    }

    /// Puts `duplicate` into `heap` and behind `this`, gives up the handle
    /// that `this` was, and borrows `duplicate` exclusively.
    pub fn make_mut_from<'a>(this: &'a mut Pin<Self>, duplicate: T, heap: &'a mut Heap<T>) -> (pin:
        ExclusivePin<'a, T>)
        requires
            old(heap).is_live(old(this)@),
            count_of(duplicate) == 0,
        ensures
            !old(heap).is_live(final(this)@),
            forall|below: usize| below < final(this)@ ==> old(heap).is_live(below),
            pin.exclusivity.displaced() == 1,
            *pin.reference == recounted(duplicate, EXCLUSIVITY_MARKER),
            final(heap)@ == after_drop(old(heap)@, old(this)@).insert(
                final(this)@,
                *final(pin.reference),
            ),
    {
        let replaced = this.replace(Self::new(duplicate, heap));
        replaced.drop(heap);
        let pointer = this.get_ref().pointer;
        let reference = heap.get_mut(pointer);
        let exclusivity = reference.tip_toe_mut().acquire().unwrap();
        ExclusivePin::new(exclusivity, reference)
    }

    /// Borrows the value exclusively, whether or not `this` is the only
    /// handle to it.
    ///
    /// Where `this` is the only handle, the value itself is borrowed and
    /// `this` stays as it is. Where it is not, the value is duplicated, the
    /// duplicate is put into `heap` and behind `this`, and the duplicate is
    /// what is borrowed; the value that `this` shared has one owner less.
    pub fn make_mut<'a>(this: &'a mut Pin<Self>, heap: &'a mut Heap<T>) -> (pin: ExclusivePin<
        'a,
        T,
    >) where T: ManagedClone
        requires
            old(heap).is_live(old(this)@),
        ensures
            pin.exclusivity.displaced() == 1,
            count_of(old(heap)@[old(this)@]) == 1 ==> {
                &&& *final(this) == *old(this)
                &&& *pin.reference == recounted(old(heap)@[old(this)@], EXCLUSIVITY_MARKER)
                &&& final(heap)@ == old(heap)@.insert(old(this)@, *final(pin.reference))
            },
            count_of(old(heap)@[old(this)@]) != 1 ==> {
                &&& !old(heap).is_live(final(this)@)
                &&& forall|below: usize| below < final(this)@ ==> old(heap).is_live(below)
                &&& exists|duplicate: T|
                    {
                        &&& call_ensures(
                            T::managed_clone,
                            (&old(heap)@[old(this)@],),
                            duplicate,
                        )
                        &&& #[trigger] recounted(duplicate, EXCLUSIVITY_MARKER) == *pin.reference
                    }
                &&& final(heap)@ == after_drop(old(heap)@, old(this)@).insert(
                    final(this)@,
                    *final(pin.reference),
                )
            },
    {
        let pointer = this.get_ref().pointer;
        let counter = heap.get_mut(pointer).tip_toe_mut();
        let acquired = counter.acquire();
        match acquired {
            Some(exclusivity) => ExclusivePin::new(exclusivity, heap.get_mut(pointer)),
            None => {
                assert(heap@ == old(heap)@);
                let duplicate = heap.get(pointer).managed_clone();
                Self::make_mut_from(this, duplicate, heap)
            },
        }
    }

    /// Points `self` to the value of `source`, unless it points there
    /// already. The new handle is made as by [`Arc::clone`], and the handle
    /// that `self` was is dropped.
    pub fn clone_from(&mut self, source: &Self, heap: &mut Heap<T>)
        requires
            old(heap).is_live(old(self)@),
            old(heap).is_live(source@),
            old(self)@ != source@ ==> count_of(old(heap)@[source@]) < SHARE_LIMIT,
        ensures
            *final(self) == *source,
            final(heap)@ == if old(self)@ == source@ {
                old(heap)@
            } else {
                after_drop(after_clone(old(heap)@, source@), old(self)@)
            },
    {
        if !Self::ptr_eq(self, source) {
            let mut replaced = source.clone(heap);
            core::mem::swap(self, &mut replaced);
            replaced.drop(heap);
        }
    }

    /// Compares the values that two handles point to.
    pub fn payload_eq(&self, other: &Self, heap: &Heap<T>) -> (equal: bool) where T: PartialEq
        requires
            heap.is_live(self@),
            heap.is_live(other@),
        ensures
            T::obeys_eq_spec() ==> equal == heap@[self@].eq_spec(&heap@[other@]),
    {
        *heap.get(self.pointer) == *heap.get(other.pointer)
    }

    /// Orders the values that two handles point to.
    pub fn payload_partial_cmp(&self, other: &Self, heap: &Heap<T>) -> (order: Option<
        Ordering,
    >) where T: PartialOrd
        requires
            heap.is_live(self@),
            heap.is_live(other@),
        ensures
            T::obeys_partial_cmp_spec() ==> order == heap@[self@].partial_cmp_spec(
                &heap@[other@],
            ),
    {
        heap.get(self.pointer).partial_cmp(heap.get(other.pointer))
    }

    /// Checks that the value is of the concrete type `target`, and hands the
    /// handle back as one to a value of that type. A handle to a value of
    /// another type is handed back as it came. Neither the value nor its
    /// count is touched.
    pub fn downcast(this: Self, target: TypeId, heap: &Heap<T>) -> (cast: Result<Arc<T>, Self>)
        where T: Identified
        requires
            heap.is_live(this@),
        ensures
            cast == if heap@[this@].identity() == target {
                Ok::<Arc<T>, Self>(this)
            } else {
                Err::<Arc<T>, Self>(this)
            },
    {
        if heap.get(this.pointer).type_id() == target {
            Ok(Self::from_raw(Self::leak(this)))
        } else {
            Err(this)
        }
    }

    /// As [`Arc::downcast`], for a pinned handle.
    pub fn downcast_pinned(this: Pin<Self>, target: TypeId, heap: &Heap<T>) -> (cast: Result<
        Pin<Arc<T>>,
        Pin<Self>,
    >) where T: Identified
        requires
            heap.is_live(this@),
        ensures
            cast == if heap@[this@].identity() == target {
                Ok::<Pin<Arc<T>>, Pin<Self>>(this)
            } else {
                Err::<Pin<Arc<T>>, Pin<Self>>(this)
            },
    {
        if heap.get(this.get_ref().pointer).type_id() == target {
            Ok(Self::pinned_from_raw(Self::leak_pinned(this)))
        } else {
            Err(this)
        }
    }

    /// Borrows the value that the handle points to.
    pub fn as_ref<'a>(&self, heap: &'a Heap<T>) -> (value: &'a T)
        requires
            heap.is_live(self@),
        ensures
            *value == heap@[self@],
    {
        heap.get(self.pointer)
    }
}

impl<T: TipToed> From<Pin<Arc<T>>> for Arc<T> {
    fn from(pinned: Pin<Arc<T>>) -> (unpinned: Self) {
        Pin::into_inner(pinned)
    }
}

impl<T: TipToed> vstd::std_specs::convert::FromSpecImpl<Pin<Arc<T>>> for Arc<T> {
    open spec fn obeys_from_spec() -> bool {
        true
    }

    open spec fn from_spec(pinned: Pin<Arc<T>>) -> Self {
        pinned.inner()
    }
}

impl<T: TipToed> From<Arc<T>> for Pin<Arc<T>> {
    fn from(unpinned: Arc<T>) -> (pinned: Self) {
        Pin::new(unpinned)
    }
}

impl<T: TipToed> vstd::std_specs::convert::FromSpecImpl<Arc<T>> for Pin<Arc<T>> {
    open spec fn obeys_from_spec() -> bool {
        true
    }

    open spec fn from_spec(unpinned: Arc<T>) -> Self {
        Pin::holding(unpinned)
    }
}

} // verus!
