//! A reader-writer lock with writer-starvation avoidance.
//!
//! One state word carries the whole occupancy: the sentinel
//! `RWLOCK_WRITE_LOCKED` (the all-ones word) means one writer holds the
//! lock; any other value packs the reader count in its upper bits (each
//! reader weighs two) and a writer-pending flag in bit zero. A second
//! word, the writer-wake generation, is bumped whenever a writer should
//! look again, exactly like a condition variable's counter.
//!
//! Arriving readers park while the pending flag is set, which is what
//! keeps a waiting writer from starving under a stream of new readers;
//! readers already counted simply finish. An arriving writer takes the
//! lock at once when the word is at most one (no readers — the pending
//! flag alone does not hold it off), otherwise sets the pending flag and
//! parks on the writer-wake generation. The last reader leaving a word
//! with the pending flag bumps that generation and wakes one writer; a
//! releasing writer resets the word, bumps the generation, wakes one
//! writer and all parked readers.
//!
//! The model keeps both words as plain integers next to the protected
//! value. Steps that would park ask, in their preconditions, for the
//! word that lets them proceed; [`read_step`] and [`write_step`] are the
//! verified decisions of the parking loops for a runtime that drives
//! real atomics. Shared access keeps the value in the lock and hands out
//! read tokens; exclusive access moves the value into the write guard
//! for exactly the span of the sentinel word.

use core::marker::PhantomData;
use vstd::prelude::*;

use crate::condvar::next_generation;

verus! {

/// State-word sentinel: a writer holds the lock.
pub const RWLOCK_WRITE_LOCKED: u32 = u32::MAX;

/// Does the word say a writer holds the lock?
pub open spec fn write_locked(x: u32) -> bool {
    x == RWLOCK_WRITE_LOCKED
}

/// Does the word say a writer is waiting? (The sentinel is odd, but a
/// holding writer is no longer a pending one.)
pub open spec fn writer_pending(x: u32) -> bool {
    !write_locked(x) && x % 2 == 1
}

/// How many readers the word counts; a write-locked word counts none.
pub open spec fn readers_of(x: u32) -> nat {
    if write_locked(x) {
        0
    } else {
        (x / 2) as nat
    }
}

/// At every instant the word encodes one writer and no readers, or no
/// writer and any number of readers — never both: the sentinel is the
/// only word with a writer, and it counts zero readers.
pub proof fn lemma_holders_never_mixed(x: u32)
    ensures
        !(write_locked(x) && readers_of(x) > 0),
        write_locked(x) ==> readers_of(x) == 0,
        readers_of(x) > 0 ==> !write_locked(x),
{
}

/// What an arriving reader does with the word it observed.
pub enum ReadAttempt {
    /// No writer is pending: try the acquire compare-exchange that adds
    /// this reader to the count.
    AddReader,
    /// A writer is pending or holds the lock: park until the word moves,
    /// then look again.
    WaitForWriters,
}

/// What an arriving writer does with the word it observed.
pub enum WriteAttempt {
    /// No readers and no holding writer: try the acquire
    /// compare-exchange to the write-locked sentinel.
    Lock,
    /// Readers are counted and no writer is pending yet: try the relaxed
    /// compare-exchange that sets the pending flag, shutting out new
    /// readers.
    MarkPending,
    /// Readers must drain or a writer must leave: park on the
    /// writer-wake generation, then look again.
    WaitForTurn,
}

/// The decision an arriving reader takes on an observed word: readers
/// yield to a pending or holding writer, and join otherwise.
pub fn read_step(x: u32) -> (a: ReadAttempt)
    ensures
        a is AddReader <==> !writer_pending(x) && !write_locked(x),
        a is WaitForWriters <==> writer_pending(x) || write_locked(x),
{
    if x % 2 == 1 {
        ReadAttempt::WaitForWriters
    } else {
        ReadAttempt::AddReader
    }
}

/// The decision an arriving writer takes on an observed word: it locks
/// as soon as no reader is counted, marks itself pending while readers
/// are, and otherwise waits its turn.
pub fn write_step(x: u32) -> (a: WriteAttempt)
    ensures
        a is Lock <==> readers_of(x) == 0 && !write_locked(x),
        a is MarkPending <==> readers_of(x) > 0 && !writer_pending(x) && !write_locked(x),
        a is WaitForTurn <==> write_locked(x) || (readers_of(x) > 0 && writer_pending(x)),
{
    if x <= 1 {
        WriteAttempt::Lock
    } else if x % 2 == 0 {
        WriteAttempt::MarkPending
    } else {
        WriteAttempt::WaitForTurn
    }
}

/// A reader-writer lock protecting a value of type `T`.
pub struct RwLock<T> {
    state: u32,
    writer_wake_counter: u32,
    value: Option<T>,
}

/// Shared access token for a [`RwLock`]: it stands for one unit of the
/// reader count. The value stays in the lock, readable through
/// [`RwLock::read_ref`], and never mutably while any reader is counted.
pub struct ReadGuard<T> {
    marker: PhantomData<T>,
}

/// Exclusive access token for a [`RwLock`]: it owns the protected value
/// for exactly as long as the word is the write-locked sentinel.
pub struct WriteGuard<T> {
    value: T,
}

impl<T> WriteGuard<T> {
    /// The value the guard grants exclusive access to.
    pub closed spec fn value(&self) -> T {
        self.value
    }

    /// Shared access to the protected value.
    pub fn borrow(&self) -> (r: &T)
        ensures
            *r == self.value(),
    {
        &self.value
    }

    /// Exclusive access to the protected value.
    pub fn borrow_mut(&mut self) -> (r: &mut T)
        ensures
            *r == old(self).value(),
            final(self).value() == *final(r),
    {
        &mut self.value
    }
}

impl<T> RwLock<T> {
    /// The state word.
    pub closed spec fn state(&self) -> u32 {
        self.state
    }

    /// The writer-wake generation.
    pub closed spec fn wake_generation(&self) -> u32 {
        self.writer_wake_counter
    }

    /// The value resting in the lock; `None` exactly while a writer
    /// holds it.
    pub closed spec fn stored(&self) -> Option<T> {
        self.value
    }

    /// The value is out with a write guard exactly while the word is the
    /// write-locked sentinel.
    pub closed spec fn wf(&self) -> bool {
        self.value is Some <==> !write_locked(self.state)
    }

    /// A fresh, unlocked lock holding `value`.
    pub fn new(value: T) -> (l: Self)
        ensures
            l.wf(),
            l.state() == 0,
            l.wake_generation() == 0,
            l.stored() == Some(value),
    {
        RwLock { state: 0, writer_wake_counter: 0, value: Some(value) }
    }

    /// Acquire shared access: the acquire compare-exchange that raises
    /// the reader count by one unit (two on the word). A pending writer
    /// would park the caller until the word moves (see [`read_step`]);
    /// the model has no one to move it, so the word must carry no
    /// pending writer here. A word within two units of the sentinel
    /// means an unreckonable number of readers already — fatal misuse,
    /// asserted fatally at runtime and excluded here.
    pub fn read(&mut self) -> (g: ReadGuard<T>)
        requires
            old(self).wf(),
            !writer_pending(old(self).state()),
            !write_locked(old(self).state()),
            old(self).state() <= u32::MAX - 3,
        ensures
            final(self).wf(),
            final(self).state() == old(self).state() + 2,
            readers_of(final(self).state()) == readers_of(old(self).state()) + 1,
            !write_locked(final(self).state()),
            !writer_pending(final(self).state()),
            final(self).wake_generation() == old(self).wake_generation(),
            final(self).stored() == old(self).stored(),
    {
        self.state = self.state + 2;
        ReadGuard { marker: PhantomData }
    }

    /// Shared access to the protected value, for a holder of a read
    /// token: the word counts at least one reader, so no writer holds
    /// the lock and the value is at rest in it.
    pub fn read_ref(&self, reader: &ReadGuard<T>) -> (r: &T)
        requires
            self.wf(),
            readers_of(self.state()) > 0,
        ensures
            Some(*r) == self.stored(),
    {
        let _held = reader;
        match &self.value {
            Some(v) => v,
            None => unreached(),
        }
    }

    /// Release shared access: drop the reader count by one unit with a
    /// release-ordered subtraction. When the leaver was the last reader
    /// counted and a writer is pending — the word was exactly one reader
    /// plus the pending flag — bump the writer-wake generation and wake
    /// one writer; the result says whether that happened.
    pub fn read_unlock(&mut self, guard: ReadGuard<T>) -> (woke: bool)
        requires
            old(self).wf(),
            readers_of(old(self).state()) > 0,
        ensures
            final(self).wf(),
            final(self).state() == old(self).state() - 2,
            readers_of(final(self).state()) == readers_of(old(self).state()) - 1,
            writer_pending(final(self).state()) == writer_pending(old(self).state()),
            final(self).stored() == old(self).stored(),
            woke <==> (readers_of(old(self).state()) == 1 && writer_pending(old(self).state())),
            woke ==> final(self).wake_generation() == next_generation(old(self).wake_generation()),
            !woke ==> final(self).wake_generation() == old(self).wake_generation(),
    {
        let _released = guard;
        let previous = self.state;
        self.state = self.state - 2;
        if previous == 3 {
            self.writer_wake_counter = if self.writer_wake_counter == u32::MAX {
                0
            } else {
                self.writer_wake_counter + 1
            };
            true
        } else {
            false
        }
    }

    /// Set the writer-pending flag: the relaxed compare-exchange a
    /// writer uses to shut out new readers while it waits for the
    /// counted ones to drain (see [`write_step`]).
    pub fn mark_writer_pending(&mut self)
        requires
            old(self).wf(),
            readers_of(old(self).state()) > 0,
            !writer_pending(old(self).state()),
            !write_locked(old(self).state()),
            old(self).state() <= u32::MAX - 3,
        ensures
            final(self).wf(),
            final(self).state() == old(self).state() + 1,
            writer_pending(final(self).state()),
            readers_of(final(self).state()) == readers_of(old(self).state()),
            final(self).wake_generation() == old(self).wake_generation(),
            final(self).stored() == old(self).stored(),
    {
        self.state = self.state + 1;
    }

    /// Acquire exclusive access: the acquire compare-exchange from a
    /// word of at most one — no readers counted, at most this writer's
    /// own pending flag — to the write-locked sentinel, taking the value
    /// out. A word above one would park the caller on the writer-wake
    /// generation (see [`write_step`]); the model has no one to bump it,
    /// so the word must already be drained here. No reader is ever
    /// counted while the sentinel stands.
    pub fn write(&mut self) -> (g: WriteGuard<T>)
        requires
            old(self).wf(),
            old(self).state() <= 1,
        ensures
            final(self).wf(),
            final(self).state() == RWLOCK_WRITE_LOCKED,
            write_locked(final(self).state()),
            readers_of(final(self).state()) == 0,
            final(self).wake_generation() == old(self).wake_generation(),
            Some(g.value()) == old(self).stored(),
    {
        self.state = RWLOCK_WRITE_LOCKED;
        let v = self.value.take();
        WriteGuard { value: v.unwrap() }
    }

    /// Release exclusive access: reset the word with release ordering,
    /// put the value back, bump the writer-wake generation, wake one
    /// waiting writer and all parked readers.
    pub fn write_unlock(&mut self, guard: WriteGuard<T>)
        requires
            old(self).wf(),
            write_locked(old(self).state()),
        ensures
            final(self).wf(),
            final(self).state() == 0,
            readers_of(final(self).state()) == 0,
            !writer_pending(final(self).state()),
            final(self).wake_generation() == next_generation(old(self).wake_generation()),
            final(self).stored() == Some(guard.value()),
    {
        self.state = 0;
        self.writer_wake_counter = if self.writer_wake_counter == u32::MAX {
            0
        } else {
            self.writer_wake_counter + 1
        };
        let WriteGuard { value } = guard;
        self.value = Some(value);
    }
}

} // verus!
