//! Single-use, lock-light handoff of exactly one value.
//!
//! One cell holds an uninitialized-until-written slot and a ready flag.
//! The sender writes the slot with no synchronization of its own, then
//! publishes it with a release-ordered store of the flag; the receiver
//! may poll the flag (a relaxed load, advisory only) and reads the slot
//! out. Sending and receiving each consume their handle, so each
//! happens at most once. Reading the slot before the write is visible
//! is a caller contract violation, not a runtime-checked error: the
//! caller supplies the happens-before edge (polling the ready flag, or
//! an external handshake such as joining the sending thread), and
//! [`Receiver::receive`] makes that obligation a precondition. On teardown, a sent but never received message is
//! destroyed with the cell, exactly once; an unsent slot holds nothing
//! to destroy.

use core::marker::PhantomData;
use vstd::prelude::*;

verus! {

/// The shared cell of a oneshot channel: the message slot and the
/// ready flag that publishes it.
pub struct Channel<T> {
    slot: Option<T>,
    ready: bool,
}

/// The sending side; consumed by [`Sender::send`], so a message is
/// sent at most once.
pub struct Sender<T> {
    marker: PhantomData<T>,
}

/// The receiving side; consumed by [`Receiver::receive`], so the
/// message is read out at most once.
pub struct Receiver<T> {
    marker: PhantomData<T>,
}

impl<T> Channel<T> {
    /// Whether the ready flag is set.
    pub closed spec fn is_ready(&self) -> bool {
        self.ready
    }

    /// The message in the slot, if one has been written and not yet
    /// read out.
    pub closed spec fn message(&self) -> Option<T> {
        self.slot
    }

    /// The flag is set exactly while a published message sits in the
    /// slot.
    pub closed spec fn wf(&self) -> bool {
        self.ready <==> self.slot is Some
    }
}

/// A fresh oneshot channel: an empty cell, its sender and its
/// receiver, the only two handles that will ever touch it.
pub fn channel<T>() -> (r: (Channel<T>, Sender<T>, Receiver<T>))
    ensures
        r.0.wf(),
        !r.0.is_ready(),
        r.0.message() is None,
{
    (
        Channel { slot: None, ready: false },
        Sender { marker: PhantomData },
        Receiver { marker: PhantomData },
    )
}

impl<T> Sender<T> {
    /// Write `message` into the slot, then publish it with a
    /// release-ordered store of the ready flag. Consuming the sender
    /// makes this the only write the slot ever sees.
    pub fn send(self, chan: &mut Channel<T>, message: T)
        requires
            old(chan).wf(),
            !old(chan).is_ready(),
        ensures
            final(chan).wf(),
            final(chan).is_ready(),
            final(chan).message() == Some(message),
    {
        chan.slot = Some(message);
        chan.ready = true;
    }
}

impl<T> Receiver<T> {
    /// A relaxed load of the ready flag: a best-effort poll, advisory
    /// only, that tells the receiver whether `receive` may go ahead.
    pub fn is_ready(&self, chan: &Channel<T>) -> (b: bool)
        ensures
            b == chan.is_ready(),
    {
        chan.ready
    }

    /// Read the message out of the slot. The slot must already hold
    /// the published message — calling before the send is visible is a
    /// contract violation the implementation does not check, so the
    /// flag observed true stands as the precondition here. Consuming
    /// the receiver makes this the only read, and the message will not
    /// be destroyed again on teardown.
    pub fn receive(self, chan: &mut Channel<T>) -> (m: T)
        requires
            old(chan).wf(),
            old(chan).is_ready(),
        ensures
            final(chan).wf(),
            !final(chan).is_ready(),
            final(chan).message() is None,
            Some(m) == old(chan).message(),
    {
        let m = chan.slot.take();
        chan.ready = false;
        m.unwrap()
    }
}

} // verus!
