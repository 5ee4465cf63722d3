//! The two kinds of handle and the function that makes a channel.
//!
//! A handle reaches the shared state only through the lock, and what it
//! finds there depends on what other threads did before. The contracts of the
//! handles therefore state what holds whatever was found. What each step does
//! to the state it finds is stated, exactly, by the functions of `Inner`.
use crate::model::{ChannelState, Snapshot};
use crate::state::Inner;
use crate::sync::{lock, notify, protected, share, wait_until_ready};
use std::collections::VecDeque;
use std::sync::{Arc, Condvar, Mutex};
use vstd::prelude::*;

verus! {

/// The error of a send that found the receiver gone.
#[derive(Clone, Copy, Debug, PartialEq, Eq, Structural)]
pub struct ChannelClosed;

impl ChannelClosed {
    /// The error in words.
    pub fn message(&self) -> (text: &'static str)
        ensures
            text@ == "Channel is closed"@,
    {
        "Channel is closed"
    }
}

/// What all handles of one channel own together: the state behind its lock,
/// and the condition variable on which the receiver sleeps.
#[verifier::reject_recursive_types(T)]
pub struct Shared<T> {
    inner: Mutex<Inner<T>>,
    // Kept outside the lock, so that a thread can signal after it has given
    // the lock up, and the woken receiver finds the lock free.
    available: Condvar,
}

/// A sending handle. It can be cloned, and each clone counts as one sender
/// until it is dropped.
#[verifier::reject_recursive_types(T)]
pub struct Sender<T> {
    shared: Arc<Shared<T>>,
}

/// The receiving handle. There is one for each channel.
#[verifier::reject_recursive_types(T)]
pub struct Reciever<T> {
    shared: Arc<Shared<T>>,
    // Values taken from the shared queue and not yet handed out. Only the
    // receiver touches them, so they are read without the lock.
    buffer: VecDeque<T>,
}

impl<T> Sender<T> {
    /// The shared part of the channel that this handle belongs to.
    pub closed spec fn shared_state(&self) -> Shared<T> {
        *self.shared
    }

    /// `outcome` is what a send answers on the shared state `seen`: success
    /// while the receiver is present, the error once it is gone.
    pub open spec fn answers(seen: ChannelState<T>, outcome: Result<(), ChannelClosed>) -> bool {
        outcome == if seen.active {
            Ok::<(), ChannelClosed>(())
        } else {
            Err::<(), ChannelClosed>(ChannelClosed)
        }
    }

    /// Sends `data` to the receiver.
    ///
    /// The value goes behind all pending ones and a sleeping receiver is
    /// woken, after the lock has been given up. If the receiver is gone the
    /// value is dropped, again after the lock has been given up, and the
    /// error is returned.
    ///
    /// The outcome is the answer to the shared state that was found under
    /// the lock, whichever that was. `Inner::enqueue` states what becomes of
    /// that state.
    pub fn send(&self, data: T) -> (outcome: Result<(), ChannelClosed>)
        ensures
            exists|seen: ChannelState<T>| Self::answers(seen, outcome),
    {
        let ghost seen;
        // The guard lives to the end of this block: the lock is free again
        // before the receiver is woken or a rejected value is dropped.
        let queued = {
            let mut guard = lock(&self.shared.inner);
            let inner = protected(&mut guard);
            proof {
                seen = inner@;
            }
            inner.enqueue(data)
        };
        let outcome = match queued {
            Ok(()) => {
                notify(&self.shared.available);
                Ok(())
            },
            Err(_) => Err(ChannelClosed),
        };
        assert(Self::answers(seen, outcome));
        outcome
    }
}

impl<T> Clone for Sender<T> {
    /// A second sender for the same channel, counted under the lock.
    ///
    /// The count stays where it is at `usize::MAX`. No program gets there:
    /// every sender holds one of the shared pointers, of which there are never
    /// more than `isize::MAX`.
    fn clone(&self) -> (twin: Self)
        ensures
            twin.shared_state() == self.shared_state(),
    {
        let mut guard = lock(&self.shared.inner);
        let inner = protected(&mut guard);
        if inner.senders() < usize::MAX {
            inner.add_sender();
        }
        Sender { shared: share(&self.shared) }
    }
}

impl<T> Drop for Sender<T> {
    /// Counts this sender out and, if it was the last, wakes the receiver so
    /// that it can see that nothing more will come. The handle itself stays
    /// as it is; `Inner::remove_sender` states what becomes of the shared
    /// state.
    fn drop(&mut self)
        ensures
            final(self).shared_state() == old(self).shared_state(),
        opens_invariants none
        no_unwind
    {
        let mut guard = lock(&self.shared.inner);
        let inner = protected(&mut guard);
        if inner.senders() > 0 {
            let last = inner.remove_sender();
            if last {
                notify(&self.shared.available);
            }
        }
    }
}

impl<T> Reciever<T> {
    /// The shared part of the channel that this handle belongs to.
    pub closed spec fn shared_state(&self) -> Shared<T> {
        *self.shared
    }

    /// The values that this handle has taken from the shared queue and not
    /// yet handed out, oldest first.
    pub closed spec fn buffered(&self) -> Seq<T> {
        self.buffer@
    }

    /// `item` and the buffer of `after` are what the model's receive yields
    /// on the buffer of this handle together with the shared state `seen`.
    pub open spec fn receives(self, seen: ChannelState<T>, item: Option<T>, after: Self) -> bool {
        let snapshot = Snapshot { shared: seen, buffer: self.buffered() };
        &&& item == snapshot.recv_result()
        &&& after.buffered() == snapshot.after_recv().buffer
    }

    /// Number of values that wait in this handle's buffer.
    pub fn buffered_len(&self) -> (n: usize)
        ensures
            n == self.buffered().len(),
    {
        self.buffer.len()
    }

    /// Receives the next value, sleeping until there is one, or `None` once
    /// nothing is pending and the last sender is gone.
    ///
    /// A buffered value is handed out without the lock. With an empty buffer
    /// the receiver takes the lock, sleeps while `Inner::must_wait` holds,
    /// and then makes one `Inner::take_next`.
    ///
    /// With a value in the buffer the contract fixes the outcome. Otherwise
    /// the outcome is that of the model's receive on the shared state that
    /// was found under the lock, whichever that was.
    pub fn recv(&mut self) -> (item: Option<T>)
        ensures
            final(self).shared_state() == old(self).shared_state(),
            old(self).buffered().len() > 0 ==> {
                &&& item == Some(old(self).buffered()[0])
                &&& final(self).buffered() == old(self).buffered().skip(1)
            },
            exists|seen: ChannelState<T>| old(self).receives(seen, item, *final(self)),
            item is None ==> final(self).buffered().len() == 0,
    {
        let buffered = self.buffer.pop_front();
        if buffered.is_some() {
            assert(old(self).receives(ChannelState::initial(), buffered, *self));
            return buffered;
        }
        let guard = lock(&self.shared.inner);
        let mut guard = wait_until_ready(&self.shared.available, guard);
        let inner = protected(&mut guard);
        let ghost seen = inner@;
        let item = inner.take_next(&mut self.buffer);
        assert(old(self).receives(seen, item, *self));
        item
    }

    /// The same as `recv`, under the name that a stream of values goes by.
    pub fn next(&mut self) -> (item: Option<T>)
        ensures
            final(self).shared_state() == old(self).shared_state(),
            old(self).buffered().len() > 0 ==> {
                &&& item == Some(old(self).buffered()[0])
                &&& final(self).buffered() == old(self).buffered().skip(1)
            },
            exists|seen: ChannelState<T>| old(self).receives(seen, item, *final(self)),
            item is None ==> final(self).buffered().len() == 0,
    {
        self.recv()
    }
}

impl<T> Drop for Reciever<T> {
    /// Marks the channel as closed, so that every later send is turned away.
    /// No thread ever sleeps waiting for the receiver, so none is woken. The
    /// handle itself stays as it is, its buffer included; `Inner::close`
    /// states what becomes of the shared state.
    fn drop(&mut self)
        ensures
            final(self).shared_state() == old(self).shared_state(),
            final(self).buffered() == old(self).buffered(),
        opens_invariants none
        no_unwind
    {
        let mut guard = lock(&self.shared.inner);
        protected(&mut guard).close();
    }
}

/// Makes a channel and returns its first sender and its receiver.
pub fn channel<T>() -> (handles: (Sender<T>, Reciever<T>))
    ensures
        handles.0.shared_state() == handles.1.shared_state(),
        handles.1.buffered() == Seq::<T>::empty(),
{
    let shared = Arc::new(Shared { inner: Mutex::new(Inner::new()), available: Condvar::new() });
    let sender = Sender { shared: share(&shared) };
    let receiver = Reciever { shared, buffer: VecDeque::new() };
    (sender, receiver)
}

} // verus!
