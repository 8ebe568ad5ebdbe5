use tiptoe::{Arc, Counted, Heap, Pin};

#[test]
fn drop_through_shared_from_ref() {
    let mut heap = Heap::new();
    let a = Arc::pin(Counted::new(Box::new(0usize)), &mut heap);
    let inner = Arc::leak_pinned(a);
    let a: Pin<Arc<Counted<Box<usize>>>> = Arc::pinned_from_raw(inner);
    let b = Arc::<Counted<Box<usize>>>::borrow_pin_from_inner_ref(inner)
        .get_ref()
        .clone(&mut heap);
    Pin::into_inner(a).drop(&mut heap);
    assert!(heap.holds(inner));
    b.drop(&mut heap);
    assert!(!heap.holds(inner));
}
