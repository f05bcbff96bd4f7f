use sync::mutex::Mutex;
use sync::rwlock::{read_step, write_step, ReadAttempt, RwLock, WriteAttempt};
use sync::spin::SpinLock;

#[test]
fn test_spin_lock() {
    // Two critical sections, each appending its tags whole, then a look
    // at the final sequence: one serialization of two writers.
    let mut x = SpinLock::new(Vec::new());
    let mut g = x.lock();
    g.borrow_mut().push(1);
    x.unlock(g);
    let mut g = x.lock();
    g.borrow_mut().push(2);
    g.borrow_mut().push(2);
    x.unlock(g);
    let g = x.lock();
    assert!(g.borrow().as_slice() == [1, 2, 2] || g.borrow().as_slice() == [2, 2, 1]);
    x.unlock(g);
}

#[test]
fn test_spin_lock_counter() {
    let mut l = SpinLock::new(0u64);
    for _ in 0..1000 {
        let mut g = l.lock();
        *g.borrow_mut() += 1;
        l.unlock(g);
    }
    let g = l.lock();
    assert_eq!(*g.borrow(), 1000);
    l.unlock(g);
}

#[test]
fn test_spin_lock_distinct_tags() {
    // Any number of contenders, each appending one distinct tag: the
    // final sequence holds every tag exactly once, whatever the
    // serialization order was.
    let mut l = SpinLock::new(Vec::new());
    for tag in [3u8, 1, 2] {
        let mut g = l.lock();
        g.borrow_mut().push(tag);
        l.unlock(g);
    }
    let g = l.lock();
    for tag in [1u8, 2, 3] {
        assert_eq!(g.borrow().iter().filter(|t| **t == tag).count(), 1);
    }
    assert_eq!(g.borrow().len(), 3);
    l.unlock(g);
}

#[test]
fn test_mutex() {
    // The other serialization order of the same two critical sections.
    let mut x = Mutex::new(Vec::new());
    let mut g = x.lock();
    g.borrow_mut().push(2);
    g.borrow_mut().push(2);
    let woke = x.unlock(g);
    assert!(!woke); // uncontended release: no wake call
    let mut g = x.lock();
    g.borrow_mut().push(1);
    x.unlock(g);
    let g = x.lock();
    assert!(g.borrow().as_slice() == [1, 2, 2] || g.borrow().as_slice() == [2, 2, 1]);
    assert_eq!(g.borrow().as_slice(), [2, 2, 1]);
    x.unlock(g);
}

#[test]
fn test_mutex_counter() {
    let mut m = Mutex::new(0u64);
    for _ in 0..1000 {
        let mut g = m.lock();
        *g.borrow_mut() += 1;
        m.unlock(g);
    }
    let g = m.lock();
    assert_eq!(*g.borrow(), 1000);
    m.unlock(g);
}

#[test]
fn test_mutex_contended_step() {
    let mut m = Mutex::new(7u32);
    // A contender arriving at a free mutex acquires it through the
    // swap, leaving the word contended.
    let g = m.lock_contended_step().expect("free mutex must be acquired");
    assert_eq!(*g.borrow(), 7);
    // A second contender fails and would park on the word.
    assert!(m.lock_contended_step().is_none());
    // Releasing a contended mutex must wake one parked thread.
    let woke = m.unlock(g);
    assert!(woke);
}

#[test]
fn test_rwlock_writers_and_readers() {
    // An end-to-end scenario, serialized: two writers append
    // [1] and [2, 2]; readers between critical sections never see more
    // than three elements; the final sequence is one of the two
    // serializations.
    let mut x = RwLock::new(Vec::new());

    let mut g = x.write();
    g.borrow_mut().push(1);
    x.write_unlock(g);

    // Two read guards held at once; both observe the same bounded
    // sequence.
    let r1 = x.read();
    let r2 = x.read();
    assert!(x.read_ref(&r1).len() <= 3);
    assert!(x.read_ref(&r2).len() <= 3);
    let woke = x.read_unlock(r1);
    assert!(!woke); // no writer pending
    let woke = x.read_unlock(r2);
    assert!(!woke);

    let mut g = x.write();
    g.borrow_mut().push(2);
    g.borrow_mut().push(2);
    x.write_unlock(g);

    let r = x.read();
    assert!(x.read_ref(&r).len() <= 3);
    assert!(
        x.read_ref(&r).as_slice() == [1, 2, 2] || x.read_ref(&r).as_slice() == [2, 2, 1]
    );
    assert_eq!(x.read_ref(&r).as_slice(), [1, 2, 2]);
    x.read_unlock(r);
}

#[test]
fn test_rwlock_writer_priority() {
    // A writer arriving while readers hold the lock marks itself
    // pending; the last reader out wakes it, and it locks as soon as
    // the count is drained.
    let mut x = RwLock::new(5u32);
    let r1 = x.read();
    let r2 = x.read();
    x.mark_writer_pending();
    let woke = x.read_unlock(r1);
    assert!(!woke); // a reader is still counted
    let woke = x.read_unlock(r2);
    assert!(woke); // last reader out, writer pending: wake one writer
    let mut g = x.write();
    *g.borrow_mut() = 6;
    x.write_unlock(g);
    let r = x.read();
    assert_eq!(*x.read_ref(&r), 6);
    x.read_unlock(r);
}

#[test]
fn test_rwlock_steps() {
    // The verified decisions of the two parking loops, on concrete
    // words: 0 = free, 4 = two readers, 5 = two readers + pending
    // writer, u32::MAX = write-locked.
    assert!(matches!(read_step(0), ReadAttempt::AddReader));
    assert!(matches!(read_step(4), ReadAttempt::AddReader));
    assert!(matches!(read_step(5), ReadAttempt::WaitForWriters));
    assert!(matches!(read_step(u32::MAX), ReadAttempt::WaitForWriters));

    assert!(matches!(write_step(0), WriteAttempt::Lock));
    assert!(matches!(write_step(1), WriteAttempt::Lock));
    assert!(matches!(write_step(4), WriteAttempt::MarkPending));
    assert!(matches!(write_step(5), WriteAttempt::WaitForTurn));
    assert!(matches!(write_step(u32::MAX), WriteAttempt::WaitForTurn));
}
