//! An unbounded multi-producer blocking queue, composed from the
//! library's mutex and condition variable.
//!
//! An ordered queue sits behind a [`Mutex`]; a [`Condvar`] announces
//! availability. A sender appends under the lock and notifies one
//! waiter exactly when its insertion made the queue non-empty — while
//! the queue is already non-empty further sends skip the wake call. A
//! receiver waits, under the lock and in a predicate loop absorbing
//! spurious wakeups, for the queue to be non-empty, then pops the head.
//! Delivery is first-in first-out across all producers, in the total
//! order the lock puts on the critical sections; what that order means
//! for concurrent senders is [`lemma_two_senders_fifo`].

use std::collections::VecDeque;
use vstd::prelude::*;

use crate::condvar::Condvar;
use crate::mutex::{Mutex, MUTEX_UNLOCKED};

verus! {

/// An unbounded first-in first-out channel carrying values of type `T`.
pub struct Channel<T> {
    queue: Mutex<VecDeque<T>>,
    item_ready: Condvar,
}

impl<T> Channel<T> {
    /// The messages sent and not yet received, oldest first.
    pub closed spec fn items(&self) -> Seq<T> {
        self.queue.stored().unwrap()@
    }

    /// Between operations the lock is at rest: free, with the queue in
    /// it.
    pub closed spec fn wf(&self) -> bool {
        &&& self.queue.wf()
        &&& self.queue.state() == MUTEX_UNLOCKED
    }

    /// A fresh, empty channel.
    pub fn new() -> (c: Self)
        ensures
            c.wf(),
            c.items() == Seq::<T>::empty(),
    {
        let c = Channel { queue: Mutex::new(VecDeque::new()), item_ready: Condvar::new() };
        proof {
            assert(c.items() =~= Seq::<T>::empty());
        }
        c
    }

    /// Append `value` to the tail, under the lock. When the insertion
    /// is what made the queue non-empty, notify one waiter; otherwise
    /// no waiter is starving for this value and the wake call is
    /// skipped.
    pub fn send(&mut self, value: T)
        requires
            old(self).wf(),
        ensures
            final(self).wf(),
            final(self).items() == old(self).items().push(value),
    {
        let mut guard = self.queue.lock();
        let q = guard.borrow_mut();
        q.push_back(value);
        let became_nonempty = q.len() == 1;
        if became_nonempty {
            let _woke = self.item_ready.notify_one();
        }
        let _woke = self.queue.unlock(guard);
    }

    /// Pop the head, under the lock. A receiver that finds the queue
    /// empty waits on `item_ready` and re-checks, around every spurious
    /// wakeup, until a sender has filled it; the model has no sender to
    /// fill it mid-wait, so the queue must be non-empty here.
    pub fn recv(&mut self) -> (v: T)
        requires
            old(self).wf(),
            old(self).items().len() > 0,
        ensures
            final(self).wf(),
            v == old(self).items()[0],
            final(self).items() == old(self).items().subrange(1, old(self).items().len() as int),
    {
        let mut guard = self.queue.lock();
        // Here the receiver would loop on `item_ready`, re-checking
        // "queue non-empty" around every spurious wakeup; with the
        // queue already filled, the predicate holds at the first check.
        let q = guard.borrow_mut();
        let head = q.pop_front();
        let v = head.unwrap();
        let _woke = self.queue.unlock(guard);
        v
    }
}

impl<T> Default for Channel<T> {
    /// An empty channel, exactly as [`Channel::new`] makes one.
    fn default() -> (c: Self)
        ensures
            c.wf(),
            c.items() == Seq::<T>::empty(),
    {
        Channel::new()
    }
}

/// `s` is `a` and `b` merged: each element of `s` comes from exactly
/// one of the two, taken in order, until both run out.
pub open spec fn is_interleaving<T>(s: Seq<T>, a: Seq<T>, b: Seq<T>) -> bool
    decreases s.len(),
{
    if a.len() == 0 {
        s == b
    } else if b.len() == 0 {
        s == a
    } else {
        s.len() > 0 && ({
            ||| (s.first() == a.first() && is_interleaving(s.drop_first(), a.drop_first(), b))
            ||| (s.first() == b.first() && is_interleaving(s.drop_first(), a, b.drop_first()))
        })
    }
}

/// `a` appears within `s`, in order, possibly with other elements in
/// between.
pub open spec fn is_subsequence_of<T>(a: Seq<T>, s: Seq<T>) -> bool
    decreases s.len(),
{
    if a.len() == 0 {
        true
    } else if s.len() == 0 {
        false
    } else {
        ||| (s.first() == a.first() && is_subsequence_of(a.drop_first(), s.drop_first()))
        ||| is_subsequence_of(a, s.drop_first())
    }
}

/// Every sequence is a subsequence of itself.
pub proof fn lemma_subsequence_refl<T>(s: Seq<T>)
    ensures
        is_subsequence_of(s, s),
    decreases s.len(),
{
    if s.len() > 0 {
        lemma_subsequence_refl(s.drop_first());
    }
}

/// An interleaving is exactly as long as its two sources together, and
/// carries exactly their elements: its multiset is the sum of theirs.
pub proof fn lemma_interleaving_multiset<T>(s: Seq<T>, a: Seq<T>, b: Seq<T>)
    requires
        is_interleaving(s, a, b),
    ensures
        s.len() == a.len() + b.len(),
        s.to_multiset() == a.to_multiset().add(b.to_multiset()),
    decreases s.len(),
{
    broadcast use vstd::seq_lib::group_to_multiset_ensures;
    broadcast use vstd::multiset::group_multiset_axioms;

    if a.len() == 0 {
        assert(a.to_multiset().len() == 0);
        assert(s.to_multiset() =~= a.to_multiset().add(b.to_multiset()));
    } else if b.len() == 0 {
        assert(b.to_multiset().len() == 0);
        assert(s.to_multiset() =~= a.to_multiset().add(b.to_multiset()));
    } else {
        let f = s.first();
        assert(s.remove(0) =~= s.drop_first());
        assert(s.contains(f));
        assert(s.drop_first().to_multiset() == s.to_multiset().remove(f));
        if f == a.first() && is_interleaving(s.drop_first(), a.drop_first(), b) {
            lemma_interleaving_multiset(s.drop_first(), a.drop_first(), b);
            assert(a.remove(0) =~= a.drop_first());
            assert(a.contains(f));
            assert(a.drop_first().to_multiset() == a.to_multiset().remove(f));
            assert forall|x: T|
                s.to_multiset().count(x) == #[trigger] a.to_multiset().add(
                    b.to_multiset(),
                ).count(x) by {
                assert(s.to_multiset().count(f) > 0);
                assert(a.to_multiset().count(f) > 0);
                assert(s.to_multiset().remove(f).count(x) == a.to_multiset().remove(f).count(x)
                    + b.to_multiset().count(x));
            }
            assert(s.to_multiset() =~= a.to_multiset().add(b.to_multiset()));
        } else {
            lemma_interleaving_multiset(s.drop_first(), a, b.drop_first());
            assert(b.remove(0) =~= b.drop_first());
            assert(b.contains(f));
            assert(b.drop_first().to_multiset() == b.to_multiset().remove(f));
            assert forall|x: T|
                s.to_multiset().count(x) == #[trigger] a.to_multiset().add(
                    b.to_multiset(),
                ).count(x) by {
                assert(s.to_multiset().count(f) > 0);
                assert(b.to_multiset().count(f) > 0);
                assert(s.to_multiset().remove(f).count(x) == a.to_multiset().count(x)
                    + b.to_multiset().remove(f).count(x));
            }
            assert(s.to_multiset() =~= a.to_multiset().add(b.to_multiset()));
        }
    }
}

/// Each source of an interleaving appears in it as a subsequence, in
/// its own order.
pub proof fn lemma_interleaving_subsequences<T>(s: Seq<T>, a: Seq<T>, b: Seq<T>)
    requires
        is_interleaving(s, a, b),
    ensures
        is_subsequence_of(a, s),
        is_subsequence_of(b, s),
    decreases s.len(),
{
    if a.len() == 0 {
        lemma_subsequence_refl(b);
        assert(is_subsequence_of(a, s));
    } else if b.len() == 0 {
        lemma_subsequence_refl(a);
    } else {
        if s.first() == a.first() && is_interleaving(s.drop_first(), a.drop_first(), b) {
            lemma_interleaving_subsequences(s.drop_first(), a.drop_first(), b);
        } else {
            lemma_interleaving_subsequences(s.drop_first(), a, b.drop_first());
        }
    }
}

/// Two concurrent senders, each sending its own stream of values no
/// other sender sends, and a first-in first-out queue between them and
/// one receiver: the receive stream is the send stream, which is some
/// interleaving of the two sources — so every value from both streams
/// is received exactly once, and each sender's own values arrive in
/// the order that sender sent them.
pub proof fn lemma_two_senders_fifo<T>(s: Seq<T>, a: Seq<T>, b: Seq<T>)
    requires
        is_interleaving(s, a, b),
        a.no_duplicates(),
        b.no_duplicates(),
        forall|t: T| !(a.contains(t) && #[trigger] b.contains(t)),
    ensures
        s.len() == a.len() + b.len(),
        is_subsequence_of(a, s),
        is_subsequence_of(b, s),
        forall|t: T|
            #[trigger] s.to_multiset().count(t) == 1 <==> (a.contains(t) || b.contains(t)),
{
    broadcast use vstd::seq_lib::group_to_multiset_ensures;

    lemma_interleaving_multiset(s, a, b);
    lemma_interleaving_subsequences(s, a, b);
    a.lemma_multiset_has_no_duplicates();
    b.lemma_multiset_has_no_duplicates();
    assert forall|t: T|
        #[trigger] s.to_multiset().count(t) == 1 <==> (a.contains(t) || b.contains(t)) by {
        assert(s.to_multiset().count(t) == a.to_multiset().count(t) + b.to_multiset().count(t));
    }
}

} // verus!
