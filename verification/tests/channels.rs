use sync::channel::Channel;
use sync::condvar::Condvar;
use sync::mutex::Mutex;
use sync::oneshot;

#[test]
fn test_channel() {
    let mut c = Channel::new();
    for i in 0..100 {
        c.send(i);
    }
    for i in 0..100 {
        assert_eq!(i, c.recv());
    }
}

#[test]
fn test_channel_two_senders() {
    // Two senders' streams, interleaved as the lock happened to order
    // them: every value arrives exactly once, and each sender's own
    // values arrive in that sender's order.
    let mut c = Channel::new();
    let a: Vec<i32> = (0..100).collect();
    let b: Vec<i32> = (1000..1100).collect();
    for i in 0..100 {
        c.send(a[i]);
        c.send(b[i]);
    }
    let mut received = Vec::new();
    for _ in 0..200 {
        received.push(c.recv());
    }
    let mut seen_a = Vec::new();
    let mut seen_b = Vec::new();
    for v in &received {
        if *v < 1000 {
            seen_a.push(*v);
        } else {
            seen_b.push(*v);
        }
    }
    assert_eq!(seen_a, a);
    assert_eq!(seen_b, b);
    assert_eq!(received.len(), 200);
}

#[test]
fn test_channel_default() {
    let mut c: Channel<u8> = Default::default();
    c.send(9);
    assert_eq!(c.recv(), 9);
}

#[test]
fn test_condvar() {
    // A waiter parks on a predicate, a producer makes it true and
    // notifies; the waiter resumes holding the mutex and sees the
    // update.
    let mut m = Mutex::new(0);
    let mut cv = Condvar::new();

    let g = m.lock();
    assert!(*g.borrow() < 100);
    let observed = cv.wait_begin(&mut m, g);

    // The producer runs while the waiter is parked.
    let mut g = m.lock();
    *g.borrow_mut() = 123;
    m.unlock(g);
    let woke = cv.notify_one();
    assert!(woke); // one waiter is registered: the generation moved past `observed`
    assert_eq!(observed, 0);

    let g = cv.wait_resume(&mut m);
    assert_eq!(*g.borrow(), 123);
    m.unlock(g);
}

#[test]
fn test_condvar_notify_nobody() {
    // With no waiter registered, both notifications skip the wake call.
    let mut cv = Condvar::new();
    assert!(!cv.notify_one());
    assert!(!cv.notify_all());
}

#[test]
fn test_condvar_spurious_wakeup() {
    // A full wait with no notification at all: the spurious resumption
    // still returns holding the mutex, with the value untouched.
    let mut m = Mutex::new(41);
    let mut cv = Condvar::new();
    let g = m.lock();
    let g = cv.wait(&mut m, g);
    assert_eq!(*g.borrow(), 41);
    m.unlock(g);
}

#[test]
fn test_oneshot() {
    let (mut chan, tx, rx) = oneshot::channel();
    assert!(!rx.is_ready(&chan));
    tx.send(&mut chan, 42);
    assert!(rx.is_ready(&chan));
    assert_eq!(rx.receive(&mut chan), 42);
}

#[test]
fn test_oneshot_teardown() {
    // Sent but never received: the message is destroyed with the cell,
    // once. Never sent: the cell holds nothing to destroy.
    let (mut chan, tx, rx) = oneshot::channel();
    tx.send(&mut chan, String::from("hello"));
    assert!(rx.is_ready(&chan));
    drop(chan);

    let (chan, _tx, rx) = oneshot::channel::<String>();
    assert!(!rx.is_ready(&chan));
    drop(chan);
}
