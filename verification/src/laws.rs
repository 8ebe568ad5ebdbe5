//! What holds of the handle operations taken together.

use vstd::prelude::*;
use crate::ref_counter_api::{is_shared, EXCLUSIVITY_MARKER, SHARE_LIMIT};
use crate::sync::{after_clone, after_drop, after_new, with_count_at};
use crate::tip_toe::{count_of, group_count_laws, TipToed};

verus! {

broadcast use group_count_laws;

/// A value with a fresh counter that is put behind a handle, and whose handle
/// is dropped at once, is gone again: its address is free, and every other
/// value is as it was.
pub proof fn new_then_drop_frees<T: TipToed>(heap: Map<usize, T>, address: usize, value: T)
    requires
        !heap.dom().contains(address),
        count_of(value) == 0,
    ensures
        after_drop(after_new(heap, address, value), address) == heap,
{
    assert(after_drop(after_new(heap, address, value), address) =~= heap);
}

/// A value that comes with owners already counted outlives the drop of the
/// handle that it was put behind.
pub proof fn new_then_drop_leaks<T: TipToed>(heap: Map<usize, T>, address: usize, value: T)
    requires
        0 < count_of(value) < SHARE_LIMIT,
    ensures
        after_drop(after_new(heap, address, value), address) == heap.insert(address, value),
{
    assert(after_drop(after_new(heap, address, value), address) =~= heap.insert(address, value));
}

/// Cloning a handle and dropping the clone leaves the heap as it was: the
/// value is there, with the count it had.
pub proof fn clone_then_drop_restores<T: TipToed>(heap: Map<usize, T>, address: usize)
    requires
        heap.dom().contains(address),
        is_shared(count_of(heap[address])),
        count_of(heap[address]) < SHARE_LIMIT,
    ensures
        after_drop(after_clone(heap, address), address) == heap,
{
    assert(after_drop(after_clone(heap, address), address) =~= heap);
}

/// Two values that are put behind handles one after the other live at
/// different addresses.
pub proof fn new_twice_differs<T: TipToed>(
    heap: Map<usize, T>,
    first: usize,
    first_value: T,
    second: usize,
)
    requires
        !after_new(heap, first, first_value).dom().contains(second),
    ensures
        first != second,
{
}

/// One thing that is done with a handle.
pub enum Use {
    /// The handle is cloned: there is one handle more.
    Clone,
    /// The handle is dropped: there is one handle less.
    Drop,
}

/// The number of handles to a value after `uses`, where there were `handles`
/// of them before.
pub open spec fn handles_after(handles: int, uses: Seq<Use>) -> int
    decreases uses.len(),
{
    if uses.len() == 0 {
        handles
    } else {
        match uses.last() {
            Use::Clone => handles_after(handles, uses.drop_last()) + 1,
            Use::Drop => handles_after(handles, uses.drop_last()) - 1,
        }
    }
}

/// Every one of `uses` is made of a handle that is there, and no clone is
/// made once the handles have reached the share limit.
pub open spec fn in_order(handles: int, uses: Seq<Use>) -> bool {
    forall|done: int|
        0 <= done < uses.len() ==> {
            let before = #[trigger] handles_after(handles, uses.take(done));
            match uses[done] {
                Use::Clone => 1 <= before < SHARE_LIMIT,
                Use::Drop => 1 <= before,
            }
        }
}

/// The heap that `heap` becomes by `uses` of handles to the value at
/// `address`.
pub open spec fn heap_after<T: TipToed>(heap: Map<usize, T>, address: usize, uses: Seq<Use>) -> Map<
    usize,
    T,
>
    decreases uses.len(),
{
    if uses.len() == 0 {
        heap
    } else {
        match uses.last() {
            Use::Clone => after_clone(heap_after(heap, address, uses.drop_last()), address),
            Use::Drop => after_drop(heap_after(heap, address, uses.drop_last()), address),
        }
    }
}

/// The counter of a value is the number of its handles. Whatever is done
/// with the handles, in whatever order, the counter goes along; and the value
/// is gone exactly when its last handle is.
pub proof fn count_is_number_of_handles<T: TipToed>(
    heap: Map<usize, T>,
    address: usize,
    uses: Seq<Use>,
)
    requires
        heap.dom().contains(address),
        is_shared(count_of(heap[address])),
        in_order(count_of(heap[address]) as int, uses),
    ensures
        0 <= handles_after(count_of(heap[address]) as int, uses) < EXCLUSIVITY_MARKER,
        handles_after(count_of(heap[address]) as int, uses) == 0 ==> heap_after(
            heap,
            address,
            uses,
        ) == heap.remove(address),
        handles_after(count_of(heap[address]) as int, uses) > 0 ==> heap_after(
            heap,
            address,
            uses,
        ) == with_count_at(
            heap,
            address,
            handles_after(count_of(heap[address]) as int, uses) as usize,
        ),
    decreases uses.len(),
{
    let count = count_of(heap[address]) as int;
    if uses.len() == 0 {
        assert(heap_after(heap, address, uses) =~= with_count_at(heap, address, count as usize));
    } else {
        let earlier = uses.drop_last();
        assert forall|done: int| 0 <= done < earlier.len() implies {
            let before = #[trigger] handles_after(count, earlier.take(done));
            match earlier[done] {
                Use::Clone => 1 <= before < SHARE_LIMIT,
                Use::Drop => 1 <= before,
            }
        } by {
            assert(earlier.take(done) == uses.take(done));
        }
        count_is_number_of_handles(heap, address, earlier);
        assert(uses.take(uses.len() - 1) == earlier);
        let before = handles_after(count, earlier);
        let so_far = heap_after(heap, address, earlier);
        assert(so_far == with_count_at(heap, address, before as usize));
        match uses.last() {
            Use::Clone => {
                assert(after_clone(so_far, address) =~= with_count_at(
                    heap,
                    address,
                    (before + 1) as usize,
                ));
            },
            Use::Drop => {
                if before == 1 {
                    assert(after_drop(so_far, address) =~= heap.remove(address));
                } else {
                    assert(after_drop(so_far, address) =~= with_count_at(
                        heap,
                        address,
                        (before - 1) as usize,
                    ));
                }
            },
        }
    }
}

} // verus!
