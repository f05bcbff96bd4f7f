use sync::arc::{Arc, ArcHeap, Weak};

#[test]
fn test_arc() {
    // Two owners of one payload; the payload outlives the first
    // release and is read through either handle.
    let mut heap = ArcHeap::new();
    let x = Arc::new(&mut heap, "hello");
    let y = x.clone(&mut heap);
    assert_eq!(*x.borrow(&heap), "hello");
    assert_eq!(*y.borrow(&heap), "hello");
    x.release(&mut heap);
    assert_eq!(*y.borrow(&heap), "hello");
    y.release(&mut heap);
}

#[test]
fn test_arc2() {
    // Two weak observers: both upgrade while an owner remains, and
    // once the owners are gone — the payload destroyed, exactly once —
    // no upgrade succeeds again.
    let mut heap = ArcHeap::new();
    let x = Arc::new(&mut heap, "hello");
    let y = x.downgrade(&mut heap);
    let z = x.downgrade(&mut heap);

    let upgraded = y.upgrade(&mut heap).expect("an owner remains");
    assert_eq!(*upgraded.borrow(&heap), "hello");
    upgraded.release(&mut heap);
    y.release(&mut heap);

    let again = z.upgrade(&mut heap);
    assert!(again.is_some());
    again.unwrap().release(&mut heap);

    x.release(&mut heap);
    assert!(z.upgrade(&mut heap).is_none());
    z.release(&mut heap);
}

#[test]
fn test_arc_unique_and_get_mut() {
    // Exclusive in-place access succeeds only for the sole handle of
    // any kind.
    let mut heap = ArcHeap::new();
    let x = Arc::new(&mut heap, 5u32);
    assert!(x.is_unique(&mut heap));
    *x.get_mut(&mut heap) = 6;
    assert_eq!(*x.borrow(&heap), 6);

    let w = x.downgrade(&mut heap);
    assert!(!x.is_unique(&mut heap)); // an observer exists
    w.release(&mut heap);

    let y = x.clone(&mut heap);
    assert!(!x.is_unique(&mut heap)); // another owner exists
    y.release(&mut heap);

    assert!(x.is_unique(&mut heap));
    x.release(&mut heap);
}

#[test]
fn test_arc_weak_outlives_payload() {
    // A weak handle keeps the cell's storage, never the payload.
    let mut heap = ArcHeap::new();
    let x = Arc::new(&mut heap, vec![1, 2, 3]);
    let w = x.downgrade(&mut heap);
    let w2 = w.clone(&mut heap);
    x.release(&mut heap);
    assert!(w.upgrade(&mut heap).is_none());
    assert!(w2.upgrade(&mut heap).is_none());
    w.release(&mut heap);
    w2.release(&mut heap);
}
