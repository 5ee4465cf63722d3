//! The data behind the lock and the steps taken on it.
//!
//! Each function here is the whole of one critical section. None of them
//! blocks, locks or runs a destructor of a queued value, so they can be
//! verified as ordinary sequential code over `ChannelState`.
use crate::model::ChannelState;
use std::collections::VecDeque;
use vstd::prelude::*;

verus! {

/// The queue, the count of live senders and the receiver's flag.
pub struct Inner<T> {
    queue: VecDeque<T>,
    senders_count: usize,
    is_channel_still_active: bool,
}

impl<T> View for Inner<T> {
    type V = ChannelState<T>;

    closed spec fn view(&self) -> ChannelState<T> {
        ChannelState {
            queue: self.queue@,
            senders: self.senders_count as nat,
            active: self.is_channel_still_active,
        }
    }
}

impl<T> Inner<T> {
    /// The state of a fresh channel.
    pub fn new() -> (inner: Self)
        ensures
            inner@ == ChannelState::<T>::initial(),
    {
        Inner { queue: VecDeque::new(), senders_count: 1, is_channel_still_active: true }
    }

    /// Number of pending values.
    pub fn queue_len(&self) -> (n: usize)
        ensures
            n == self@.queue.len(),
    {
        self.queue.len()
    }

    /// Number of live senders.
    pub fn senders(&self) -> (n: usize)
        ensures
            n == self@.senders,
        opens_invariants none
        no_unwind
    {
        self.senders_count
    }

    /// Whether the receiver is still present.
    pub fn is_active(&self) -> (active: bool)
        ensures
            active == self@.active,
    {
        self.is_channel_still_active
    }

    /// Counts one more sender.
    pub fn add_sender(&mut self)
        requires
            old(self)@.senders < usize::MAX,
        ensures
            final(self)@ == old(self)@.add_sender(),
    {
        self.senders_count = self.senders_count + 1;
    }

    /// Counts one sender fewer and tells whether it was the last one, in
    /// which case a sleeping receiver has to be woken.
    pub fn remove_sender(&mut self) -> (last: bool)
        requires
            old(self)@.senders > 0,
        ensures
            final(self)@ == old(self)@.remove_sender(),
            last == (final(self)@.senders == 0),
        opens_invariants none
        no_unwind
    {
        self.senders_count = self.senders_count - 1;
        self.senders_count == 0
    }

    /// Marks the receiver as gone. From now on every send is turned away.
    pub fn close(&mut self)
        ensures
            final(self)@ == old(self)@.close(),
        opens_invariants none
        no_unwind
    {
        self.is_channel_still_active = false;
    }

    /// Appends `data` behind the pending values, or hands it back untouched
    /// if the receiver is gone.
    pub fn enqueue(&mut self, data: T) -> (outcome: Result<(), T>)
        ensures
            final(self)@ == old(self)@.send(data),
            outcome == if old(self)@.active {
                Ok::<(), T>(())
            } else {
                Err::<(), T>(data)
            },
    {
        if !self.is_channel_still_active {
            return Err(data);
        }
        self.queue.push_back(data);
        Ok(())
    }

    /// Whether the receiver has to go to sleep on this state.
    pub fn must_wait(&self) -> (wait: bool)
        ensures
            wait == self@.must_wait(),
    {
        self.queue.len() == 0 && self.senders_count > 0
    }

    /// Takes the oldest pending value. If more are pending, the rest moves
    /// into `buffer` in one exchange, so that the receiver can serve them
    /// without the lock.
    ///
    /// The exchange puts what `buffer` held into the queue. The receiver
    /// comes here with an empty buffer only, which is what keeps the values
    /// in order.
    pub fn take_next(&mut self, buffer: &mut VecDeque<T>) -> (item: Option<T>)
        ensures
            item == old(self)@.deliver(old(buffer)@).item,
            final(self)@ == old(self)@.deliver(old(buffer)@).state,
            final(buffer)@ == old(self)@.deliver(old(buffer)@).buffer,
    {
        let item = self.queue.pop_front();
        if item.is_some() && self.queue.len() > 0 {
            std::mem::swap(&mut self.queue, buffer);
        }
        item
    }
}

} // verus!
