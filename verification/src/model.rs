//! The channel as mathematics.
//!
//! `ChannelState` is what the lock protects, seen as a plain value: the
//! pending values in arrival order, the number of live senders and the flag
//! that the receiver clears when it goes away. Every critical section of the
//! executable code is one of the transitions defined here, and the contracts
//! of the executable functions are stated over them.
//!
//! `Snapshot` adds the receiver's private buffer, which gives the whole
//! channel at one instant. The lock puts all critical sections into one total
//! order, so a run of the channel is a sequence of `Event`s applied to a
//! snapshot one after another.
use vstd::prelude::*;

verus! {

/// What the lock protects.
#[verifier::ext_equal]
pub struct ChannelState<T> {
    /// Values that were sent and not yet taken by the receiver, oldest first.
    pub queue: Seq<T>,
    /// Number of live senders.
    pub senders: nat,
    /// True until the receiver goes away.
    pub active: bool,
}

/// What one visit of the receiver to the shared queue yields.
#[verifier::ext_equal]
pub struct Delivery<T> {
    /// The value handed to the caller, if the queue held one.
    pub item: Option<T>,
    /// The shared state after the visit.
    pub state: ChannelState<T>,
    /// The receiver's buffer after the visit.
    pub buffer: Seq<T>,
}

impl<T> ChannelState<T> {
    /// The state of a channel that was just made: nothing pending, one
    /// sender, the receiver present.
    pub open spec fn initial() -> Self {
        ChannelState { queue: Seq::empty(), senders: 1, active: true }
    }

    /// A send puts the value behind all pending ones while the receiver is
    /// present, and changes nothing once it is gone.
    pub open spec fn send(self, value: T) -> Self {
        if self.active {
            ChannelState { queue: self.queue.push(value), ..self }
        } else {
            self
        }
    }

    /// One more sender is alive.
    pub open spec fn add_sender(self) -> Self {
        ChannelState { senders: self.senders + 1, ..self }
    }

    /// One sender fewer is alive.
    pub open spec fn remove_sender(self) -> Self
        recommends
            self.senders > 0,
    {
        ChannelState { senders: (self.senders - 1) as nat, ..self }
    }

    /// The receiver has gone away.
    pub open spec fn close(self) -> Self {
        ChannelState { active: false, ..self }
    }

    /// The receiver has to sleep: nothing is pending, yet a sender is alive
    /// that may still send.
    pub open spec fn must_wait(self) -> bool {
        self.queue.len() == 0 && self.senders > 0
    }

    /// The receiver's visit to the shared queue with `buffer` in hand.
    ///
    /// The oldest pending value is taken. If more are pending, the whole rest
    /// changes places with the buffer; otherwise the buffer stays as it is.
    /// An empty queue yields nothing and changes nothing.
    pub open spec fn deliver(self, buffer: Seq<T>) -> Delivery<T> {
        if self.queue.len() == 0 {
            Delivery { item: None, state: self, buffer }
        } else if self.queue.len() == 1 {
            Delivery {
                item: Some(self.queue[0]),
                state: ChannelState { queue: Seq::empty(), ..self },
                buffer,
            }
        } else {
            Delivery {
                item: Some(self.queue[0]),
                state: ChannelState { queue: buffer, ..self },
                buffer: self.queue.skip(1),
            }
        }
    }
}

/// The whole channel at one instant: the shared state and the receiver's
/// private buffer.
#[verifier::ext_equal]
pub struct Snapshot<T> {
    /// What the lock protects.
    pub shared: ChannelState<T>,
    /// What the receiver has taken from the queue and not yet handed out.
    pub buffer: Seq<T>,
}

/// One completed operation on a handle. The lock orders all of them.
pub enum Event<T> {
    /// `Sender::send`, whose critical section is `Inner::enqueue`.
    Send(T),
    /// `Sender::clone`, whose critical section is `Inner::add_sender`.
    CloneSender,
    /// The drop of a `Sender`, whose critical section is
    /// `Inner::remove_sender`.
    DropSender,
    /// `Reciever::recv`, which serves from the buffer or else makes one
    /// `Inner::take_next` under the lock.
    Recv,
    /// The drop of the `Reciever`, whose critical section is `Inner::close`.
    DropReceiver,
}

impl<T> Snapshot<T> {
    /// A channel that was just made.
    pub open spec fn initial() -> Self {
        Snapshot { shared: ChannelState::initial(), buffer: Seq::empty() }
    }

    /// Every value that was accepted and not yet handed out, oldest first:
    /// the buffer holds what left the queue earlier.
    pub open spec fn pending(self) -> Seq<T> {
        self.buffer + self.shared.queue
    }

    /// The two snapshots hold the same pending values, the same number of
    /// senders and the same flag. They may differ in how the pending values
    /// are split between buffer and queue.
    pub open spec fn alike(self, other: Self) -> bool {
        &&& self.pending() == other.pending()
        &&& self.shared.senders == other.shared.senders
        &&& self.shared.active == other.shared.active
    }

    /// A receive would sleep here: nothing is buffered and the shared state
    /// asks for waiting.
    pub open spec fn blocked(self) -> bool {
        self.buffer.len() == 0 && self.shared.must_wait()
    }

    /// Nothing is pending and no sender is left.
    pub open spec fn exhausted(self) -> bool {
        self.pending().len() == 0 && self.shared.senders == 0
    }

    /// What a receive returns here, provided it does not sleep.
    pub open spec fn recv_result(self) -> Option<T> {
        if self.buffer.len() > 0 {
            Some(self.buffer[0])
        } else {
            self.shared.deliver(self.buffer).item
        }
    }

    /// The channel after a receive. A receive that would sleep has not
    /// completed: it leaves the channel as it is.
    pub open spec fn after_recv(self) -> Self {
        if self.buffer.len() > 0 {
            Snapshot { buffer: self.buffer.skip(1), ..self }
        } else if self.shared.must_wait() {
            self
        } else {
            let visit = self.shared.deliver(self.buffer);
            Snapshot { shared: visit.state, buffer: visit.buffer }
        }
    }

    /// Whether the handle that the event needs exists: a sender for what
    /// senders do, the receiver for what the receiver does.
    pub open spec fn enabled(self, event: Event<T>) -> bool {
        match event {
            Event::Send(_) | Event::CloneSender | Event::DropSender => self.shared.senders > 0,
            Event::Recv | Event::DropReceiver => self.shared.active,
        }
    }

    /// The channel after one event.
    pub open spec fn after(self, event: Event<T>) -> Self {
        match event {
            Event::Send(value) => Snapshot { shared: self.shared.send(value), ..self },
            Event::CloneSender => Snapshot { shared: self.shared.add_sender(), ..self },
            Event::DropSender => Snapshot { shared: self.shared.remove_sender(), ..self },
            Event::Recv => self.after_recv(),
            Event::DropReceiver => Snapshot { shared: self.shared.close(), ..self },
        }
    }

    /// The value that the event puts into the channel: the one of a send that
    /// is not turned away.
    pub open spec fn accepted(self, event: Event<T>) -> Seq<T> {
        match event {
            Event::Send(value) if self.shared.active => seq![value],
            _ => Seq::empty(),
        }
    }

    /// The value that the event hands to the receiver's caller: the one of a
    /// receive that neither sleeps nor reports the end.
    pub open spec fn received(self, event: Event<T>) -> Seq<T> {
        match event {
            Event::Recv if !self.blocked() && self.recv_result() is Some => seq![
                self.recv_result().unwrap(),
            ],
            _ => Seq::empty(),
        }
    }

    /// Whether the handle signals the condition variable at the end of the
    /// event: a sender does after a send that was accepted, and when it is
    /// dropped as the last one.
    pub open spec fn signals(self, event: Event<T>) -> bool {
        match event {
            Event::Send(_) => self.shared.active,
            Event::DropSender => self.shared.senders == 1,
            _ => false,
        }
    }

    /// Every event of the trace finds the handle it needs.
    pub open spec fn valid(self, trace: Seq<Event<T>>) -> bool
        decreases trace.len(),
    {
        trace.len() == 0 || (self.enabled(trace[0]) && self.after(trace[0]).valid(trace.skip(1)))
    }

    /// The channel after all events of the trace, in order.
    pub open spec fn run(self, trace: Seq<Event<T>>) -> Self
        decreases trace.len(),
    {
        if trace.len() == 0 {
            self
        } else {
            self.after(trace[0]).run(trace.skip(1))
        }
    }

    /// The values that the sends of the trace put into the channel, in order.
    pub open spec fn accepted_by(self, trace: Seq<Event<T>>) -> Seq<T>
        decreases trace.len(),
    {
        if trace.len() == 0 {
            Seq::empty()
        } else {
            self.accepted(trace[0]) + self.after(trace[0]).accepted_by(trace.skip(1))
        }
    }

    /// The values that the receives of the trace handed out, in order.
    pub open spec fn received_by(self, trace: Seq<Event<T>>) -> Seq<T>
        decreases trace.len(),
    {
        if trace.len() == 0 {
            Seq::empty()
        } else {
            self.received(trace[0]) + self.after(trace[0]).received_by(trace.skip(1))
        }
    }
}

} // verus!
