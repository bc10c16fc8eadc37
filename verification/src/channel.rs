//! Trusted boundary to crossbeam's channels, which carry requests, responses
//! and gateway jobs between the pipeline's threads. Channels are shared
//! mutable state: nothing is promised of what travels through them, only the
//! shapes of the operations — a send that fails returns the value, a receive
//! distinguishes an empty queue from a closed one.

use vstd::prelude::*;

verus! {

#[verifier::external_type_specification]
#[verifier::external_body]
#[verifier::reject_recursive_types(T)]
pub struct ExSender<T>(crossbeam::channel::Sender<T>);

#[verifier::external_type_specification]
#[verifier::external_body]
#[verifier::reject_recursive_types(T)]
pub struct ExReceiver<T>(crossbeam::channel::Receiver<T>);

/// What a non-blocking receive found.
pub enum TryRecv<T> {
    /// A value was waiting.
    Got(T),
    /// Nothing is waiting, but senders remain.
    Empty,
    /// The channel is closed and drained.
    Closed,
}

/// Relies on `crossbeam::channel::unbounded`.
#[verifier::external_body]
pub fn ch_unbounded<T>() -> (crossbeam::channel::Sender<T>, crossbeam::channel::Receiver<T>) {
    crossbeam::channel::unbounded()
}

/// Relies on `crossbeam::channel::bounded`: the channel holds at most `cap`
/// values, and a blocking send on a full channel waits for room.
#[verifier::external_body]
pub fn ch_bounded<T>(cap: usize) -> (crossbeam::channel::Sender<T>, crossbeam::channel::Receiver<
    T,
>) {
    crossbeam::channel::bounded(cap)
}

/// Relies on `crossbeam::channel::Sender::send`: blocks while the channel is
/// full, and hands the value back if every receiver is gone.
#[verifier::external_body]
pub fn ch_send<T>(tx: &crossbeam::channel::Sender<T>, value: T) -> (r: Result<(), T>) {
    tx.send(value).map_err(|e| e.into_inner())
}

/// Relies on `crossbeam::channel::Receiver::recv`: blocks until a value
/// arrives, and reports nothing once the channel is closed and drained.
#[verifier::external_body]
pub fn ch_recv<T>(rx: &crossbeam::channel::Receiver<T>) -> (r: Option<T>) {
    rx.recv().ok()
}

/// Relies on `crossbeam::channel::Receiver::try_recv`: never blocks, telling
/// an empty channel from a closed one.
#[verifier::external_body]
pub fn ch_try_recv<T>(rx: &crossbeam::channel::Receiver<T>) -> (r: TryRecv<T>) {
    match rx.try_recv() {
        Ok(v) => TryRecv::Got(v),
        Err(crossbeam::channel::TryRecvError::Empty) => TryRecv::Empty,
        Err(crossbeam::channel::TryRecvError::Disconnected) => TryRecv::Closed,
    }
}

/// Relies on `crossbeam::channel::Sender`'s `Clone`: another handle to the
/// same channel.
#[verifier::external_body]
pub fn ch_sender_clone<T>(tx: &crossbeam::channel::Sender<T>) -> crossbeam::channel::Sender<T> {
    tx.clone()
}

/// Relies on `crossbeam::channel::Receiver`'s `Clone`: another handle to the
/// same channel.
#[verifier::external_body]
pub fn ch_receiver_clone<T>(rx: &crossbeam::channel::Receiver<T>) -> crossbeam::channel::Receiver<
    T,
> {
    rx.clone()
}

} // verus!
