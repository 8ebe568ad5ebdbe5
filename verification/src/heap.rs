//! The memory that reference-counted values live in.
//!
//! A [`Heap`] owns every value that was put into it and not taken out again.
//! A value stays at the address it was given for as long as it lives: nothing
//! moves it, and no other value gets its address before it is gone.

use vstd::prelude::*;

verus! {

/// Storage for values of one type, each at an address of its own.
///
/// The view of a heap is the map from the addresses in use to the values that
/// live there.
pub struct Heap<T> {
    slots: Vec<Option<T>>,
}

impl<T> View for Heap<T> {
    type V = Map<usize, T>;

    closed spec fn view(&self) -> Map<usize, T> {
        Map::new(
            |address: usize| address < self.slots@.len() && self.slots@[address as int] is Some,
            |address: usize| self.slots@[address as int]->0,
        )
    }
}

impl<T> Heap<T> {
    /// A value lives at `address`.
    #[verifier::inline]
    pub open spec fn is_live(&self, address: usize) -> bool {
        self@.dom().contains(address)
    }

    /// Creates a heap in which no value lives.
    pub fn new() -> (heap: Self)
        ensures
            heap@ == Map::<usize, T>::empty(),
    {
        let heap = Heap { slots: Vec::new() };
        assert(heap@ =~= Map::<usize, T>::empty());
        heap
    }

    /// Says whether a value lives at `address`.
    pub fn holds(&self, address: usize) -> (live: bool)
        ensures
            live == self.is_live(address),
    {
        address < self.slots.len() && self.slots[address].is_some()
    }

    /// Puts `value` into the heap, at the least address that is not in use.
    pub fn allocate(&mut self, value: T) -> (address: usize)
        ensures
            !old(self).is_live(address),
            forall|below: usize| below < address ==> old(self).is_live(below),
            final(self)@ == old(self)@.insert(address, value),
    {
        let mut address: usize = 0;
        while address < self.slots.len() && self.slots[address].is_some()
            invariant
                address <= self.slots@.len(),
                forall|below: usize| below < address ==> self.is_live(below),
                *self == *old(self),
            decreases self.slots@.len() - address,
        {
            address = address + 1;
        }
        if address < self.slots.len() {
            self.slots[address] = Some(value);
        } else {
            self.slots.push(Some(value));
        }
        assert(final(self)@ =~= old(self)@.insert(address, value));
        address
    }

    /// Takes the value at `address` out of the heap. The address is free
    /// again afterwards.
    pub fn deallocate(&mut self, address: usize) -> (value: T)
        requires
            old(self).is_live(address),
        ensures
            value == old(self)@[address],
            final(self)@ == old(self)@.remove(address),
    {
        let value = self.slots[address].take().unwrap();
        assert(final(self)@ =~= old(self)@.remove(address));
        value
    }

    /// Borrows the value at `address`.
    pub fn get(&self, address: usize) -> (value: &T)
        requires
            self.is_live(address),
        ensures
            *value == self@[address],
    {
        self.slots[address].as_ref().unwrap()
    }

    /// Borrows the value at `address` for a change. Whatever the borrower
    /// leaves there is what lives at `address` afterwards; no other address
    /// is touched.
    pub fn get_mut(&mut self, address: usize) -> (value: &mut T)
        requires
            old(self).is_live(address),
        ensures
            *value == old(self)@[address],
            final(self)@ == old(self)@.insert(address, *final(value)),
    {
        self.slots[address].as_mut().unwrap()
    }
}

} // verus!
