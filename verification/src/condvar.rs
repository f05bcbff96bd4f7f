//! Condition-variable signalling over a mutex, a generation counter and
//! a waiter count.
//!
//! A waiter registers itself, records the current generation, releases
//! the mutex guard, parks on the generation word while it still equals
//! the recorded value, deregisters and re-acquires the mutex. A notifier
//! advances the generation and wakes one or all parked threads — unless
//! the waiter count is zero, in which case it skips the wake call
//! entirely. Because the generation is read before the mutex is
//! released, and every notify advances it, a notify that lands between
//! the predicate check and the park makes the parked load compare
//! unequal, so the wakeup cannot be lost ([`lemma_notify_not_lost`]).
//! Spurious wakeups are allowed: callers re-check their predicate in a
//! loop around `wait`.
//!
//! The model splits the blocking protocol at the park: `wait_begin`
//! registers, observes the generation and releases the mutex;
//! `wait_resume` deregisters and re-acquires it. [`Condvar::wait`] is
//! their composition — the execution in which the park returns at once,
//! the only one a single thread can see — and returns, like every
//! resumption, with the mutex held.

use vstd::prelude::*;

use crate::mutex::{Mutex, MutexGuard, MUTEX_UNLOCKED, MUTEX_LOCKED};

verus! {

/// The generation counter after one notification: an increment that
/// wraps around, as the machine word does.
pub open spec fn next_generation(c: u32) -> u32 {
    if c == u32::MAX {
        0
    } else {
        (c + 1) as u32
    }
}

/// Advancing the generation always moves the word, so a parked load
/// that recorded the old generation compares unequal and the waiter is
/// released: a notification is never lost on a registered waiter.
pub proof fn lemma_notify_not_lost(observed: u32)
    ensures
        next_generation(observed) != observed,
{
}

/// A condition variable: a generation counter to park on and a count of
/// registered waiters.
pub struct Condvar {
    counter: u32,
    num_waiters: usize,
}

impl Condvar {
    /// The generation counter.
    pub closed spec fn generation(&self) -> u32 {
        self.counter
    }

    /// How many waiters are registered between `wait_begin` and
    /// `wait_resume`.
    pub closed spec fn waiters(&self) -> usize {
        self.num_waiters
    }

    /// A fresh condition variable with no waiters.
    pub fn new() -> (cv: Self)
        ensures
            cv.generation() == 0,
            cv.waiters() == 0,
    {
        Condvar { counter: 0, num_waiters: 0 }
    }

    /// Notify one waiter: advance the generation and wake one parked
    /// thread. When nobody is registered the call does nothing at all,
    /// sparing the pointless wake syscall; the result says whether a
    /// wake was issued.
    pub fn notify_one(&mut self) -> (woke: bool)
        ensures
            woke <==> old(self).waiters() > 0,
            woke ==> final(self).generation() == next_generation(old(self).generation()),
            woke ==> final(self).generation() != old(self).generation(),
            !woke ==> final(self).generation() == old(self).generation(),
            final(self).waiters() == old(self).waiters(),
    {
        if self.num_waiters > 0 {
            self.counter = if self.counter == u32::MAX {
                0
            } else {
                self.counter + 1
            };
            true
        } else {
            false
        }
    }

    /// Notify every waiter: advance the generation and wake all parked
    /// threads, skipping the wake syscall when nobody is registered.
    pub fn notify_all(&mut self) -> (woke: bool)
        ensures
            woke <==> old(self).waiters() > 0,
            woke ==> final(self).generation() == next_generation(old(self).generation()),
            woke ==> final(self).generation() != old(self).generation(),
            !woke ==> final(self).generation() == old(self).generation(),
            final(self).waiters() == old(self).waiters(),
    {
        if self.num_waiters > 0 {
            self.counter = if self.counter == u32::MAX {
                0
            } else {
                self.counter + 1
            };
            true
        } else {
            false
        }
    }

    /// First half of a wait: register as a waiter, record the current
    /// generation, then release the mutex. The caller parks on the
    /// generation word while it still equals the returned value.
    pub fn wait_begin<T>(&mut self, mutex: &mut Mutex<T>, guard: MutexGuard<T>) -> (observed: u32)
        requires
            old(self).waiters() < usize::MAX,
            old(mutex).wf(),
            old(mutex).state() != MUTEX_UNLOCKED,
        ensures
            observed == old(self).generation(),
            final(self).generation() == old(self).generation(),
            final(self).waiters() == old(self).waiters() + 1,
            final(mutex).wf(),
            final(mutex).state() == MUTEX_UNLOCKED,
            final(mutex).stored() == Some(guard.value()),
    {
        self.num_waiters = self.num_waiters + 1;
        let observed = self.counter;
        let _woke = mutex.unlock(guard);
        observed
    }

    /// Second half of a wait, taken after the park returns (on a
    /// notification or spuriously): deregister and re-acquire the
    /// mutex. A wait never returns without holding the mutex.
    pub fn wait_resume<T>(&mut self, mutex: &mut Mutex<T>) -> (g: MutexGuard<T>)
        requires
            old(self).waiters() > 0,
            old(mutex).wf(),
            old(mutex).state() == MUTEX_UNLOCKED,
        ensures
            final(self).generation() == old(self).generation(),
            final(self).waiters() == old(self).waiters() - 1,
            final(mutex).wf(),
            final(mutex).state() == MUTEX_LOCKED,
            Some(g.value()) == old(mutex).stored(),
    {
        self.num_waiters = self.num_waiters - 1;
        mutex.lock()
    }

    /// Wait for a notification: register, record the generation,
    /// release the mutex, park on the generation word, deregister and
    /// re-acquire the mutex. The park may end spuriously, so callers
    /// loop re-checking their predicate. This model execution is the
    /// immediate resumption; whatever ends the park, the wait returns
    /// holding the mutex, with the waiter count back where it was.
    pub fn wait<T>(&mut self, mutex: &mut Mutex<T>, guard: MutexGuard<T>) -> (g: MutexGuard<T>)
        requires
            old(self).waiters() < usize::MAX,
            old(mutex).wf(),
            old(mutex).state() != MUTEX_UNLOCKED,
        ensures
            final(self).generation() == old(self).generation(),
            final(self).waiters() == old(self).waiters(),
            final(mutex).wf(),
            final(mutex).state() == MUTEX_LOCKED,
            g.value() == guard.value(),
    {
        let _observed = self.wait_begin(mutex, guard);
        // The park on the generation word ends here: nothing in this
        // execution advanced the generation, a spurious wakeup.
        self.wait_resume(mutex)
    }
}

} // verus!
