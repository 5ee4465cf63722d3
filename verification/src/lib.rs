//! A multi-producer, single-consumer channel built from a mutex and a
//! condition variable.
//!
//! Any number of `Sender`s put values into one shared, unbounded queue, and
//! the one `Reciever` takes them out in the order in which they went in. It
//! sleeps while the queue is empty and a sender is alive, and reports the end
//! once the last sender is gone.
//!
//! - `model` describes the channel as mathematics: the state behind the
//!   lock, the receiver's buffer, and what each operation does to them.
//! - `state` holds the data behind the lock and the verified steps on it,
//!   one for each critical section.
//! - `channel` holds the handles, which take the lock and make those steps.
//! - `laws` proves what holds of every run: first in, first out; the end of
//!   the stream is final; a closed channel rejects every send; the
//!   receiver's buffer cannot be observed.
pub mod channel;
pub mod laws;
pub mod model;
pub mod state;
mod sync;

pub use channel::{channel, ChannelClosed, Reciever, Sender};
