//! Blocking mutual exclusion on a three-valued state word.
//!
//! The word is `MUTEX_UNLOCKED`, `MUTEX_LOCKED` (held, nobody parked) or
//! `MUTEX_CONTENDED` (held, somebody may be parked on the word).
//! Acquisition first tries an acquire compare-exchange
//! `MUTEX_UNLOCKED -> MUTEX_LOCKED`; only when that fails does a thread
//! swap the word to `MUTEX_CONTENDED` and park on it, so the uncontended
//! path makes no wait or wake call at all. Release swaps the word back
//! to `MUTEX_UNLOCKED` and wakes one parked thread exactly when the
//! value replaced was `MUTEX_CONTENDED`.
//!
//! The model keeps the word as a plain integer next to the protected
//! value: the value rests in the mutex while the word is
//! `MUTEX_UNLOCKED` and moves into the guard while the word is held. A
//! caller that finds the word held would park until another holder moves
//! it, so [`Mutex::lock`] asks for a free word; the contended swap is
//! [`Mutex::lock_contended_step`], one bounded step of the parking loop,
//! for a runtime that drives many threads against real atomics.

use vstd::prelude::*;

verus! {

/// The mutex is free.
pub const MUTEX_UNLOCKED: u32 = 0;

/// The mutex is held and no thread is parked on the word.
pub const MUTEX_LOCKED: u32 = 1;

/// The mutex is held and one or more threads may be parked on the word.
pub const MUTEX_CONTENDED: u32 = 2;

/// A blocking mutual-exclusion lock protecting a value of type `T`.
pub struct Mutex<T> {
    state: u32,
    value: Option<T>,
}

/// Exclusive access token for a [`Mutex`]: it owns the protected value
/// for exactly as long as the state word is held.
pub struct MutexGuard<T> {
    value: T,
}

impl<T> MutexGuard<T> {
    /// The value the guard grants exclusive access to.
    pub closed spec fn value(&self) -> T {
        self.value
    }

    /// Shared access to the protected value.
    pub fn borrow(&self) -> (r: &T)
        ensures
            *r == self.value(),
    {
        &self.value
    }

    /// Exclusive access to the protected value.
    pub fn borrow_mut(&mut self) -> (r: &mut T)
        ensures
            *r == old(self).value(),
            final(self).value() == *final(r),
    {
        &mut self.value
    }
}

impl<T> Mutex<T> {
    /// The state word.
    pub closed spec fn state(&self) -> u32 {
        self.state
    }

    /// The value resting in the mutex; `None` exactly while it is held.
    pub closed spec fn stored(&self) -> Option<T> {
        self.value
    }

    /// The word takes one of its three values, and the value is out
    /// with a guard exactly while the word says the mutex is held.
    pub closed spec fn wf(&self) -> bool {
        &&& self.state <= MUTEX_CONTENDED
        &&& (self.value is Some <==> self.state == MUTEX_UNLOCKED)
    }

    /// A fresh, unlocked mutex holding `value`.
    pub fn new(value: T) -> (m: Self)
        ensures
            m.wf(),
            m.state() == MUTEX_UNLOCKED,
            m.stored() == Some(value),
    {
        Mutex { state: MUTEX_UNLOCKED, value: Some(value) }
    }

    /// Acquire the mutex on the fast path: the acquire compare-exchange
    /// `MUTEX_UNLOCKED -> MUTEX_LOCKED` succeeds, no wait call is made,
    /// and the word ends `MUTEX_LOCKED`, not `MUTEX_CONTENDED` — so the
    /// matching release will not issue a wake either.
    ///
    /// A held word would send the caller into the parking loop (see
    /// [`Self::lock_contended_step`]) until another holder releases; the
    /// model has no other holder, so the word must be free here.
    pub fn lock(&mut self) -> (g: MutexGuard<T>)
        requires
            old(self).wf(),
            old(self).state() == MUTEX_UNLOCKED,
        ensures
            final(self).wf(),
            final(self).state() == MUTEX_LOCKED,
            Some(g.value()) == old(self).stored(),
    {
        self.state = MUTEX_LOCKED;
        let v = self.value.take();
        MutexGuard { value: v.unwrap() }
    }

    /// One step of the contended acquisition loop: atomically swap the
    /// word to `MUTEX_CONTENDED`. If the value replaced was
    /// `MUTEX_UNLOCKED` the caller has acquired the mutex and gets the
    /// guard; otherwise it must park until the word moves away from
    /// `MUTEX_CONTENDED` and then take this step again.
    pub fn lock_contended_step(&mut self) -> (r: Option<MutexGuard<T>>)
        requires
            old(self).wf(),
        ensures
            final(self).wf(),
            final(self).state() == MUTEX_CONTENDED,
            r is Some <==> old(self).state() == MUTEX_UNLOCKED,
            r is Some ==> Some(r.unwrap().value()) == old(self).stored(),
    {
        let previous = self.state;
        self.state = MUTEX_CONTENDED;
        if previous == MUTEX_UNLOCKED {
            let v = self.value.take();
            Some(MutexGuard { value: v.unwrap() })
        } else {
            None
        }
    }

    /// Release the mutex: swap the word to `MUTEX_UNLOCKED` with release
    /// ordering and put the value back. The result says whether a wake
    /// of one parked thread was issued, which happens exactly when the
    /// value replaced was `MUTEX_CONTENDED` — an uncontended release
    /// makes no wake call.
    pub fn unlock(&mut self, guard: MutexGuard<T>) -> (woke: bool)
        requires
            old(self).wf(),
            old(self).state() != MUTEX_UNLOCKED,
        ensures
            final(self).wf(),
            final(self).state() == MUTEX_UNLOCKED,
            final(self).stored() == Some(guard.value()),
            woke <==> old(self).state() == MUTEX_CONTENDED,
    {
        let previous = self.state;
        self.state = MUTEX_UNLOCKED;
        let MutexGuard { value } = guard;
        self.value = Some(value);
        previous == MUTEX_CONTENDED
    }
}

} // verus!
