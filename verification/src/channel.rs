use vstd::prelude::*;
use std::sync::mpsc::{Receiver, Sender, TryRecvError};

verus! {

/// The outcome of polling a channel without blocking: a pending
/// value, nothing pending right now, or a channel whose senders are
/// all gone.
#[derive(Debug)]
pub enum Polled<T> {
    Event(T),
    Empty,
    Closed,
}

/// How many queued messages one tick drains from a channel at most;
/// anything beyond stays queued for the next tick.
pub const DRAIN_LIMIT: usize = 1048576;

/// Declares std::sync::mpsc::Sender as an opaque type so channel
/// endpoints can live in fields and signatures.
#[verifier::external_type_specification]
#[verifier::external_body]
#[verifier::reject_recursive_types(T)]
pub struct ExSender<T>(Sender<T>);

/// Declares std::sync::mpsc::Receiver as an opaque type so channel
/// endpoints can live in fields and signatures.
#[verifier::external_type_specification]
#[verifier::external_body]
#[verifier::reject_recursive_types(T)]
pub struct ExReceiver<T>(Receiver<T>);

/// Relies on std::sync::mpsc::channel: returns the sending and
/// receiving endpoints of a fresh unbounded FIFO channel.
#[verifier::external_body]
pub(crate) fn channel_pair<T>() -> (Sender<T>, Receiver<T>) {
    std::sync::mpsc::channel()
}

/// Relies on std::sync::mpsc::Sender::send: queues the value for the
/// receiver. A send to a channel whose receiver is gone only returns
/// an error; every send here is fire-and-forget, so that error is
/// dropped.
#[verifier::external_body]
pub(crate) fn send_value<T>(s: &Sender<T>, t: T) {
    let _ = s.send(t);
}

/// Relies on std::sync::mpsc::Receiver::recv: blocks until a value
/// arrives; `None` once the channel is empty and every sender is
/// gone.
#[verifier::external_body]
pub(crate) fn recv_value<T>(r: &Receiver<T>) -> Option<T> {
    match r.recv() {
        Ok(v) => Some(v),
        Err(_) => None,
    }
}

/// Relies on std::sync::mpsc::Receiver::try_recv: never blocks, and
/// tells a pending value, an empty channel and a closed one apart.
#[verifier::external_body]
pub(crate) fn try_recv_value<T>(r: &Receiver<T>) -> Polled<T> {
    match r.try_recv() {
        Ok(v) => Polled::Event(v),
        Err(TryRecvError::Empty) => Polled::Empty,
        Err(TryRecvError::Disconnected) => Polled::Closed,
    }
}

} // verus!
