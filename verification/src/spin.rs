//! Busy-wait mutual exclusion on a boolean flag.
//!
//! The lock word is a single boolean. Acquisition is an atomic swap to
//! `true` with acquire ordering, repeated while the previous value was
//! already `true`; release is a store of `false` with release ordering.
//! The model keeps the flag as a plain boolean together with the
//! protected value: the value sits in the lock while the flag is clear,
//! and moves into the guard for exactly the span in which the flag is
//! set. A thread that finds the flag set spins; in this model such a
//! call would never return, so `lock` asks for a clear flag instead.

use vstd::prelude::*;

verus! {

/// A busy-wait mutual-exclusion lock protecting a value of type `T`.
pub struct SpinLock<T> {
    locked: bool,
    value: Option<T>,
}

/// Exclusive access token for a [`SpinLock`]: it owns the protected
/// value for exactly as long as the lock word is set.
pub struct SpinLockGuard<T> {
    value: T,
}

impl<T> SpinLockGuard<T> {
    /// The value the guard grants exclusive access to.
    pub closed spec fn value(&self) -> T {
        self.value
    }

    /// Shared access to the protected value.
    pub fn borrow(&self) -> (r: &T)
        ensures
            *r == self.value(),
    {
        &self.value
    }

    /// Exclusive access to the protected value.
    pub fn borrow_mut(&mut self) -> (r: &mut T)
        ensures
            *r == old(self).value(),
            final(self).value() == *final(r),
    {
        &mut self.value
    }
}

impl<T> SpinLock<T> {
    /// Whether the lock word is set.
    pub closed spec fn is_locked(&self) -> bool {
        self.locked
    }

    /// The value resting in the lock; `None` exactly while a guard is out.
    pub closed spec fn stored(&self) -> Option<T> {
        self.value
    }

    /// The flag is set exactly while the value is out with a guard.
    pub closed spec fn wf(&self) -> bool {
        self.locked <==> self.value is None
    }

    /// A fresh, unlocked lock holding `value`.
    pub fn new(value: T) -> (s: Self)
        ensures
            s.wf(),
            !s.is_locked(),
            s.stored() == Some(value),
    {
        SpinLock { locked: false, value: Some(value) }
    }

    /// Acquire the lock: swap the flag to set and take the value.
    ///
    /// A set flag would make the caller spin until some other holder
    /// clears it; the model has no other holder, so the flag must be
    /// clear here.
    pub fn lock(&mut self) -> (g: SpinLockGuard<T>)
        requires
            old(self).wf(),
            !old(self).is_locked(),
        ensures
            final(self).wf(),
            final(self).is_locked(),
            Some(g.value()) == old(self).stored(),
    {
        self.locked = true;
        let v = self.value.take();
        SpinLockGuard { value: v.unwrap() }
    }

    /// Release the lock: put the value back and clear the flag.
    pub fn unlock(&mut self, guard: SpinLockGuard<T>)
        requires
            old(self).wf(),
            old(self).is_locked(),
        ensures
            final(self).wf(),
            !final(self).is_locked(),
            final(self).stored() == Some(guard.value()),
    {
        let SpinLockGuard { value } = guard;
        self.value = Some(value);
        self.locked = false;
    }
}

/// Critical sections serialize: when each of any number of contenders
/// appends one distinct tag under a lock, the tags land whole, one
/// after another, in some order `order`. Whatever that order is — any
/// permutation of the distinct tags — the final sequence holds every
/// tag exactly once, and nothing else.
pub proof fn lemma_serialized_appends<T>(tags: Seq<T>, order: Seq<T>)
    requires
        tags.no_duplicates(),
        order.to_multiset() == tags.to_multiset(),
    ensures
        forall|t: T| tags.contains(t) ==> order.to_multiset().count(t) == 1,
        forall|t: T| !tags.contains(t) ==> order.to_multiset().count(t) == 0,
        order.no_duplicates(),
        order.len() == tags.len(),
{
    broadcast use vstd::seq_lib::group_to_multiset_ensures;

    tags.to_multiset_ensures();
    order.to_multiset_ensures();
    tags.lemma_multiset_has_no_duplicates();
    order.lemma_multiset_has_no_duplicates_conv();
}

} // verus!
