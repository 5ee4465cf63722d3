//! What holds of every run of the channel.
//!
//! The laws are proved of the model in `model`. They carry over to the
//! executable channel because each critical section is one verified step of
//! `Inner`, whose contract is a transition of the model, because the lock
//! lets no two critical sections overlap, and because outside the lock the
//! receiver touches nothing but its own buffer.
use crate::model::{ChannelState, Event, Snapshot};
use vstd::prelude::*;

verus! {

/// One event changes what is pending in two ways only: an accepted value goes
/// to the back, a received value leaves from the front.
pub proof fn event_keeps_order<T>(before: Snapshot<T>, event: Event<T>)
    ensures
        before.pending() + before.accepted(event) == before.received(event) + before.after(
            event,
        ).pending(),
{
}

/// First in, first out. Along any trace, what was pending at the start
/// followed by what the sends put in is what the receives handed out followed
/// by what is pending at the end. So the receiver sees the accepted values in
/// the order in which the sends took the lock, whatever the senders and
/// however their sends interleave.
pub proof fn fifo_order<T>(start: Snapshot<T>, trace: Seq<Event<T>>)
    ensures
        start.pending() + start.accepted_by(trace) == start.received_by(trace) + start.run(
            trace,
        ).pending(),
        start.pending().len() == 0 ==> start.received_by(trace).is_prefix_of(
            start.accepted_by(trace),
        ),
    decreases trace.len(),
{
    if trace.len() > 0 {
        let next = start.after(trace[0]);
        let rest = trace.skip(1);
        event_keeps_order(start, trace[0]);
        fifo_order(next, rest);
        // Both sides of the claim are the three parts below, joined in
        // two ways.
        assert((start.received(trace[0]) + next.pending()) + next.accepted_by(rest)
            =~= start.received(trace[0]) + (next.pending() + next.accepted_by(rest)));
    }
}

/// Each sender's values arrive in the order in which it sent them. With
/// `from_sender` true of the values of one sender, the values of that sender
/// that were received are the first of those that it got accepted, in the
/// same order.
pub proof fn each_sender_in_call_order<T>(
    trace: Seq<Event<T>>,
    from_sender: spec_fn(T) -> bool,
)
    ensures
        Snapshot::<T>::initial().received_by(trace).filter(from_sender).is_prefix_of(
            Snapshot::<T>::initial().accepted_by(trace).filter(from_sender),
        ),
{
    let start = Snapshot::<T>::initial();
    let received = start.received_by(trace);
    let left = start.run(trace).pending();
    fifo_order(start, trace);
    Seq::filter_distributes_over_add(received, left, from_sender);
}

/// Once no sender is left, none comes back: only a sender can be cloned.
pub proof fn senders_stay_gone<T>(start: Snapshot<T>, trace: Seq<Event<T>>)
    requires
        start.shared.senders == 0,
        start.valid(trace),
    ensures
        start.run(trace).shared.senders == 0,
        start.accepted_by(trace) == Seq::<T>::empty(),
    decreases trace.len(),
{
    if trace.len() > 0 {
        senders_stay_gone(start.after(trace[0]), trace.skip(1));
    }
}

/// Exhaustion. Once the last sender is gone and nothing is pending, a
/// receive returns at once with `None` and changes nothing, and this stays so
/// whatever happens afterwards.
pub proof fn exhausted_stays_exhausted<T>(start: Snapshot<T>, trace: Seq<Event<T>>)
    requires
        start.exhausted(),
        start.valid(trace),
    ensures
        start.run(trace).exhausted(),
        !start.run(trace).blocked(),
        start.run(trace).recv_result() is None,
        start.run(trace).after_recv() == start.run(trace),
        start.received_by(trace) == Seq::<T>::empty(),
    decreases trace.len(),
{
    if trace.len() > 0 {
        exhausted_stays_exhausted(start.after(trace[0]), trace.skip(1));
    }
}

/// Exhaustion, the other way round. A receive that does not sleep reports
/// the end only when nothing is pending and no sender is alive, and then it
/// changes nothing. So `None` is never returned while a value waits or a
/// sender could still send.
pub proof fn end_means_exhausted<T>(here: Snapshot<T>)
    requires
        !here.blocked(),
        here.recv_result() is None,
    ensures
        here.exhausted(),
        here.after_recv() == here,
{
}

/// The same of the visit to the shared queue that the receiver makes after
/// waiting: on a state that does not ask for waiting, nothing is taken
/// exactly when nothing is queued and no sender is alive, and then neither
/// the state nor the buffer changes.
pub proof fn empty_visit_means_no_senders<T>(state: ChannelState<T>, buffer: Seq<T>)
    requires
        !state.must_wait(),
    ensures
        state.deliver(buffer).item is None <==> state.queue.len() == 0 && state.senders == 0,
        state.deliver(buffer).item is None ==> state.deliver(buffer).state == state
            && state.deliver(buffer).buffer == buffer,
{
}

/// Closing is final and rejects every send. Once the receiver is gone the
/// channel stays closed along any trace, no send puts a value in, and what
/// was pending is all there ever will be.
pub proof fn closed_rejects_sends<T>(start: Snapshot<T>, trace: Seq<Event<T>>)
    requires
        !start.shared.active,
    ensures
        !start.run(trace).shared.active,
        start.accepted_by(trace) == Seq::<T>::empty(),
        start.received_by(trace) + start.run(trace).pending() == start.pending(),
        forall|value: T| #[trigger] start.after(Event::Send(value)) == start,
    decreases trace.len(),
{
    if trace.len() > 0 {
        closed_rejects_sends(start.after(trace[0]), trace.skip(1));
    }
    fifo_order(start, trace);
}

/// Buffer transparency, one step. Two snapshots that hold the same pending
/// values, however these are split between buffer and queue, answer every
/// event alike and hold the same pending values afterwards.
pub proof fn buffer_is_transparent_to<T>(one: Snapshot<T>, other: Snapshot<T>, event: Event<T>)
    requires
        one.alike(other),
    ensures
        one.blocked() == other.blocked(),
        one.recv_result() == other.recv_result(),
        one.accepted(event) == other.accepted(event),
        one.received(event) == other.received(event),
        one.after(event).alike(other.after(event)),
{
    // A receive hands out the first pending value, wherever it sits.
    if one.pending().len() > 0 {
        assert(one.recv_result() == Some(one.pending()[0]));
        assert(other.recv_result() == Some(other.pending()[0]));
        assert(one.after_recv().pending() =~= one.pending().skip(1));
        assert(other.after_recv().pending() =~= other.pending().skip(1));
    }
    // An accepted value goes behind all pending ones.
    match event {
        Event::Send(value) => {
            if one.shared.active {
                assert(one.after(event).pending() =~= one.pending().push(value));
                assert(other.after(event).pending() =~= other.pending().push(value));
            }
        },
        _ => {},
    }
}

/// Buffer transparency. Whether values wait in the shared queue or in the
/// receiver's buffer makes no difference to what any trace receives.
pub proof fn buffer_is_transparent<T>(one: Snapshot<T>, other: Snapshot<T>, trace: Seq<Event<T>>)
    requires
        one.alike(other),
    ensures
        one.received_by(trace) == other.received_by(trace),
        one.accepted_by(trace) == other.accepted_by(trace),
        one.run(trace).alike(other.run(trace)),
    decreases trace.len(),
{
    if trace.len() > 0 {
        buffer_is_transparent_to(one, other, trace[0]);
        buffer_is_transparent(one.after(trace[0]), other.after(trace[0]), trace.skip(1));
    }
}

/// Draining one value at a time and draining after a burst come to the same:
/// two traces on a new channel that get the same values accepted and leave
/// nothing pending hand out the same values in the same order.
pub proof fn drained_traces_agree<T>(one: Seq<Event<T>>, other: Seq<Event<T>>)
    requires
        Snapshot::<T>::initial().accepted_by(one) == Snapshot::<T>::initial().accepted_by(other),
        Snapshot::<T>::initial().run(one).pending().len() == 0,
        Snapshot::<T>::initial().run(other).pending().len() == 0,
    ensures
        Snapshot::<T>::initial().received_by(one) == Snapshot::<T>::initial().received_by(other),
        Snapshot::<T>::initial().received_by(one) == Snapshot::<T>::initial().accepted_by(one),
{
    let start = Snapshot::<T>::initial();
    fifo_order(start, one);
    fifo_order(start, other);
}

/// No wake-up is missed and none is idle. An event that ends the need to
/// sleep is one after which the handle signals, and after every signal there
/// is a value to take or the end to report.
pub proof fn signals_match_progress<T>(before: Snapshot<T>, event: Event<T>)
    ensures
        before.blocked() && !before.after(event).blocked() ==> before.signals(event),
        before.signals(event) ==> !before.after(event).shared.must_wait(),
{
}

} // verus!
