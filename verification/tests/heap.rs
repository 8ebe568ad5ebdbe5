use tiptoe::Heap;

#[test]
fn a_new_heap_holds_nothing() {
    let heap: Heap<u32> = Heap::new();
    assert!(!heap.holds(0));
    assert!(!heap.holds(1));
    assert!(!heap.holds(usize::MAX));
}

#[test]
fn allocate_takes_the_least_free_address() {
    let mut heap = Heap::new();
    assert_eq!(heap.allocate(10u32), 0);
    assert_eq!(heap.allocate(11u32), 1);
    assert_eq!(heap.allocate(12u32), 2);
    assert_eq!(*heap.get(0), 10);
    assert_eq!(*heap.get(1), 11);
    assert_eq!(*heap.get(2), 12);
}

#[test]
fn deallocate_frees_the_address_and_returns_the_value() {
    let mut heap = Heap::new();
    let first = heap.allocate(String::from("first"));
    let second = heap.allocate(String::from("second"));
    let third = heap.allocate(String::from("third"));
    assert_eq!(heap.deallocate(second), "second");
    assert!(heap.holds(first));
    assert!(!heap.holds(second));
    assert!(heap.holds(third));
    assert_eq!(heap.get(first), "first");
    assert_eq!(heap.get(third), "third");
}

#[test]
fn a_freed_address_is_used_again() {
    let mut heap = Heap::new();
    let first = heap.allocate(1u8);
    let second = heap.allocate(2u8);
    let third = heap.allocate(3u8);
    heap.deallocate(first);
    heap.deallocate(second);
    assert_eq!(heap.allocate(4u8), first);
    assert_eq!(heap.allocate(5u8), second);
    assert_eq!(heap.allocate(6u8), third + 1);
    assert_eq!(*heap.get(first), 4);
    assert_eq!(*heap.get(second), 5);
    assert_eq!(*heap.get(third), 3);
}

#[test]
fn a_value_stays_where_it_is() {
    let mut heap = Heap::new();
    let address = heap.allocate(vec![1u8, 2, 3]);
    for filler in 0..100u8 {
        heap.allocate(vec![filler]);
    }
    heap.deallocate(50);
    heap.allocate(vec![]);
    assert_eq!(*heap.get(address), vec![1u8, 2, 3]);
}

#[test]
fn get_mut_changes_the_value_in_place() {
    let mut heap = Heap::new();
    let first = heap.allocate(1u64);
    let second = heap.allocate(2u64);
    *heap.get_mut(first) += 40;
    assert_eq!(*heap.get(first), 41);
    assert_eq!(*heap.get(second), 2);
}
