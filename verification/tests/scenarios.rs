use mpsc_channel::{channel, ChannelClosed, Reciever, Sender};
use std::cell::Cell;
use std::rc::Rc;

#[test]
fn two_sends_arrive_in_order() {
    let (tx, mut rx) = channel();
    assert_eq!(tx.send(5), Ok(()));
    assert_eq!(tx.send(10), Ok(()));
    assert_eq!(rx.recv(), Some(5));
    assert_eq!(rx.recv(), Some(10));
}

#[test]
fn two_senders_then_end_of_stream() {
    let (tx, mut rx) = channel();
    let tx2 = tx.clone();
    assert_eq!(tx.send(5), Ok(()));
    assert_eq!(tx2.send(5), Ok(()));
    drop(tx);
    drop(tx2);
    assert_eq!(rx.recv(), Some(5));
    assert_eq!(rx.recv(), Some(5));
    assert_eq!(rx.recv(), None);
}

#[test]
fn dropped_sender_ends_the_stream() {
    let (tx, mut rx): (Sender<i32>, Reciever<i32>) = channel();
    drop(tx);
    assert_eq!(rx.recv(), None);
}

#[test]
fn send_after_receiver_is_gone_fails() {
    let (tx, rx): (Sender<i32>, Reciever<i32>) = channel();
    drop(rx);
    assert_eq!(tx.send(5), Err(ChannelClosed));
}

#[test]
fn burst_is_served_from_the_buffer() {
    let (tx, mut rx) = channel();
    assert_eq!(tx.send(5), Ok(()));
    assert_eq!(tx.send(10), Ok(()));
    assert_eq!(tx.send(15), Ok(()));
    assert_eq!(rx.buffered_len(), 0);
    assert_eq!(rx.next(), Some(5));
    // One visit to the shared queue has moved the rest into the buffer.
    assert_eq!(rx.buffered_len(), 2);
    assert_eq!(rx.next(), Some(10));
    assert_eq!(rx.buffered_len(), 1);
    assert_eq!(rx.next(), Some(15));
    assert_eq!(rx.buffered_len(), 0);
}

#[test]
fn single_value_leaves_the_buffer_empty() {
    let (tx, mut rx) = channel();
    assert_eq!(tx.send(1u8), Ok(()));
    assert_eq!(rx.recv(), Some(1));
    assert_eq!(rx.buffered_len(), 0);
}

#[test]
fn interleaved_senders_keep_the_order_of_their_sends() {
    let (tx, mut rx) = channel();
    let tx2 = tx.clone();
    assert_eq!(tx.send((1, 'a')), Ok(()));
    assert_eq!(tx2.send((2, 'a')), Ok(()));
    assert_eq!(tx2.send((2, 'b')), Ok(()));
    assert_eq!(tx.send((1, 'b')), Ok(()));
    assert_eq!(rx.recv(), Some((1, 'a')));
    assert_eq!(tx.send((1, 'c')), Ok(()));
    assert_eq!(rx.recv(), Some((2, 'a')));
    assert_eq!(rx.recv(), Some((2, 'b')));
    assert_eq!(rx.recv(), Some((1, 'b')));
    assert_eq!(rx.recv(), Some((1, 'c')));
}

#[test]
fn values_sent_while_the_buffer_is_in_use_come_after_it() {
    let (tx, mut rx) = channel();
    for n in 0..4 {
        assert_eq!(tx.send(n), Ok(()));
    }
    assert_eq!(rx.recv(), Some(0));
    assert_eq!(rx.buffered_len(), 3);
    assert_eq!(tx.send(4), Ok(()));
    assert_eq!(tx.send(5), Ok(()));
    assert_eq!(rx.buffered_len(), 3);
    for n in 1..6 {
        assert_eq!(rx.recv(), Some(n));
    }
}

#[test]
fn exhausted_channel_keeps_returning_none() {
    let (tx, mut rx) = channel();
    let tx2 = tx.clone();
    assert_eq!(tx2.send("a"), Ok(()));
    drop(tx2);
    drop(tx);
    assert_eq!(rx.recv(), Some("a"));
    for _ in 0..5 {
        assert_eq!(rx.recv(), None);
        assert_eq!(rx.next(), None);
    }
}

#[test]
fn pending_values_outlive_their_senders() {
    let (tx, mut rx) = channel();
    assert_eq!(tx.send(1), Ok(()));
    assert_eq!(tx.send(2), Ok(()));
    drop(tx);
    assert_eq!(rx.recv(), Some(1));
    assert_eq!(rx.recv(), Some(2));
    assert_eq!(rx.recv(), None);
}

#[test]
fn one_live_sender_is_enough_to_send() {
    let (tx, mut rx) = channel();
    let tx2 = tx.clone();
    let tx3 = tx2.clone();
    drop(tx);
    drop(tx2);
    assert_eq!(tx3.send(9), Ok(()));
    assert_eq!(rx.recv(), Some(9));
    drop(tx3);
    assert_eq!(rx.recv(), None);
}

#[test]
fn closed_channel_rejects_every_sender_for_good() {
    let (tx, rx) = channel();
    let tx2 = tx.clone();
    assert_eq!(tx.send(1), Ok(()));
    drop(rx);
    for n in 0..3 {
        assert_eq!(tx.send(n), Err(ChannelClosed));
        assert_eq!(tx2.send(n), Err(ChannelClosed));
    }
    let tx3 = tx2.clone();
    assert_eq!(tx3.send(7), Err(ChannelClosed));
}

#[test]
fn draining_one_by_one_equals_draining_after_a_burst() {
    let values = [3, 1, 4, 1, 5, 9, 2, 6];

    let (tx, mut rx) = channel();
    let mut one_by_one = Vec::new();
    for v in values {
        assert_eq!(tx.send(v), Ok(()));
        one_by_one.push(rx.recv());
        assert_eq!(rx.buffered_len(), 0);
    }

    let (tx, mut rx) = channel();
    for v in values {
        assert_eq!(tx.send(v), Ok(()));
    }
    let mut after_burst = Vec::new();
    for _ in values {
        after_burst.push(rx.recv());
    }

    assert_eq!(one_by_one, after_burst);
    assert_eq!(after_burst, values.map(Some).to_vec());
}

#[test]
fn error_reads_channel_is_closed() {
    assert_eq!(ChannelClosed.message(), "Channel is closed");
}

/// Counts how often it is dropped.
struct Tally(Rc<Cell<u32>>);

impl Drop for Tally {
    fn drop(&mut self) {
        self.0.set(self.0.get() + 1);
    }
}

#[test]
fn rejected_value_is_dropped() {
    let drops = Rc::new(Cell::new(0));
    let (tx, rx) = channel();
    drop(rx);
    assert!(tx.send(Tally(drops.clone())).is_err());
    assert_eq!(drops.get(), 1);
}

#[test]
fn received_value_is_handed_over_not_dropped() {
    let drops = Rc::new(Cell::new(0));
    let (tx, mut rx) = channel();
    assert!(tx.send(Tally(drops.clone())).is_ok());
    assert!(tx.send(Tally(drops.clone())).is_ok());
    let first = rx.recv();
    assert!(first.is_some());
    assert_eq!(drops.get(), 0);
    drop(first);
    assert_eq!(drops.get(), 1);
    // The second value sits in the buffer and goes with the receiver.
    drop(rx);
    assert_eq!(drops.get(), 2);
}

/// A message that carries a sender of the channel it travels on.
struct Reply(#[allow(dead_code)] Sender<Reply>);

#[test]
fn rejected_value_is_dropped_outside_the_lock() {
    let (tx, rx) = channel();
    drop(rx);
    // Dropping the rejected message drops the sender inside it, which takes
    // the lock. This returns only if `send` has given the lock up before.
    assert!(tx.send(Reply(tx.clone())).is_err());
}
