//! The channels between a client and its connection task, as far as a client
//! uses them.
//!
//! Other tasks hold the far ends of these channels, so what a call answers
//! depends on more than its arguments. An answer is therefore only recorded:
//! either by naming the answers that a handle has given so far, or by relating
//! the arguments of a call to what came back.
//!
//! What is named belongs to one handle. A message offered through a shared
//! sender, and a signal sent through another handle on the close channel, leave
//! no trace in it. The namespaces of a contract confine them instead: an offer
//! needs its [`offer_mark`], and making a handle needs all namespaces. A function
//! that opens none, or only the mark of one message, is thereby kept from any
//! other offer, and a message that cannot be copied from being offered again
//! once it was taken.

use vstd::prelude::*;

use bytes::Bytes;
use tokio::sync::{broadcast, mpsc};

use crate::client::{InternalAsyncMessage, InternalSyncMessage};

verus! {

/// A shared, immutable byte buffer.
#[verifier::external_type_specification]
#[verifier::external_body]
pub struct ExBytes(bytes::Bytes);

/// The sending half of a bounded queue.
#[verifier::external_type_specification]
#[verifier::external_body]
#[verifier::reject_recursive_types(T)]
pub struct ExMpscSender<T>(tokio::sync::mpsc::Sender<T>);

/// The receiving half of a bounded queue.
#[verifier::external_type_specification]
#[verifier::external_body]
#[verifier::reject_recursive_types(T)]
pub struct ExMpscReceiver<T>(tokio::sync::mpsc::Receiver<T>);

/// The sending half of a broadcast channel.
#[verifier::external_type_specification]
#[verifier::external_body]
#[verifier::reject_recursive_types(T)]
pub struct ExBroadcastSender<T>(tokio::sync::broadcast::Sender<T>);

/// The receiving half of a broadcast channel.
#[verifier::external_type_specification]
#[verifier::external_body]
#[verifier::reject_recursive_types(T)]
pub struct ExBroadcastReceiver<T>(tokio::sync::broadcast::Receiver<T>);

/// Why a queue did not take a message; the message comes back.
#[derive(Debug)]
pub enum SendRefusal<T> {
    /// The queue holds as many messages as it can.
    Full(T),
    /// The receiving half is gone.
    Closed(T),
}

/// Why a queue had no message to give.
#[derive(Debug, Clone, Copy, PartialEq, Eq, Structural)]
pub enum ReceiveRefusal {
    /// The queue is empty for now.
    Empty,
    /// The queue is empty and every sending half is gone.
    Disconnected,
}

/// The bytes that a buffer holds.
pub uninterp spec fn contents(buffer: Bytes) -> Seq<u8>;

/// The answers that a payload queue has given so far to attempts to take a
/// payload, oldest first.
pub uninterp spec fn payload_answers(receiver: mpsc::Receiver<Bytes>) -> Seq<
    Result<Bytes, ReceiveRefusal>,
>;

/// The answers that the queue of the connection task has given so far to
/// attempts to take a message, oldest first.
pub uninterp spec fn message_answers(receiver: mpsc::Receiver<InternalAsyncMessage>) -> Seq<
    Result<InternalAsyncMessage, ReceiveRefusal>,
>;

/// The answers that a handle on the close channel has given so far to the
/// signals sent through it, oldest first.
pub uninterp spec fn close_answers(sender: broadcast::Sender<()>) -> Seq<Result<usize, ()>>;

/// The mark of an offer of `message`. Offering a message is confined by the
/// namespaces of a contract: an offer needs the mark of its message, and a
/// function whose contract lists marks can offer no other messages, nor call
/// anything that could.
pub closed spec fn offer_mark<T>(message: T) -> int {
    arbitrary::<spec_fn(T) -> int>()(message)
}

/// `bytes::Bytes::from(Vec<u8>)`: the buffer holds the bytes of the vector.
pub assume_specification[ <Bytes as From<Vec<u8>>>::from ](vec: Vec<u8>) -> (res: Bytes)
    ensures
        contents(res) == vec@,
;

/// `tokio::sync::broadcast::Sender::subscribe`: a receiver for what is sent
/// from then on. The two are opaque, so nothing is claimed of them. It panics
/// if the channel already has a quarter of `usize::MAX` receivers; how many it
/// has cannot be seen from a handle, so that case is not ruled out by a clause.
pub assume_specification<T>[ broadcast::Sender::<T>::subscribe ](
    sender: &broadcast::Sender<T>,
) -> (res: broadcast::Receiver<T>)
;

/// `tokio::sync::mpsc::channel`, for payloads. It panics without room for a
/// message, and on more room than its semaphore can count. The new queue has
/// not been asked for anything.
#[verifier::external_body]
pub(crate) fn payload_channel(buffer: usize) -> (res: (mpsc::Sender<Bytes>, mpsc::Receiver<Bytes>))
    requires
        0 < buffer <= usize::MAX / 8,
    ensures
        payload_answers(res.1).len() == 0,
{
    mpsc::channel(buffer)
}

/// `tokio::sync::mpsc::channel`, for messages of the connection task. It panics
/// without room for a message, and on more room than its semaphore can count.
/// The new queue has not been asked for anything.
#[verifier::external_body]
pub(crate) fn message_channel(buffer: usize) -> (res: (
    mpsc::Sender<InternalAsyncMessage>,
    mpsc::Receiver<InternalAsyncMessage>,
))
    requires
        0 < buffer <= usize::MAX / 8,
    ensures
        message_answers(res.1).len() == 0,
{
    mpsc::channel(buffer)
}

/// `tokio::sync::mpsc::channel`, for requests of the client. It panics without
/// room for a message, and on more room than its semaphore can count. The two
/// halves are opaque, so nothing is claimed of them.
#[verifier::external_body]
pub(crate) fn request_channel(buffer: usize) -> (res: (
    mpsc::Sender<InternalSyncMessage>,
    mpsc::Receiver<InternalSyncMessage>,
))
    requires
        0 < buffer <= usize::MAX / 8,
{
    mpsc::channel(buffer)
}

/// `tokio::sync::broadcast::channel`, for signals that carry nothing. It
/// panics without room for a signal, and on more room than can be laid out in
/// memory. Nothing has been sent through the new handle.
#[verifier::external_body]
pub(crate) fn close_channel(capacity: usize) -> (res: (
    broadcast::Sender<()>,
    broadcast::Receiver<()>,
))
    requires
        0 < capacity <= usize::MAX / 1024,
    ensures
        close_answers(res.0).len() == 0,
{
    broadcast::channel(capacity)
}

/// `tokio::sync::broadcast::Sender::clone`: another handle on the same channel,
/// through which nothing has been sent. Which channel a handle belongs to
/// cannot be seen, so that is not claimed.
#[verifier::external_body]
pub(crate) fn another_close_sender(sender: &broadcast::Sender<()>) -> (res: broadcast::Sender<()>)
    ensures
        close_answers(res).len() == 0,
{
    sender.clone()
}

/// `tokio::sync::mpsc::Sender::try_send`: the queue takes the message, or
/// hands that very message back. Which of these happens rests on what the other
/// holders of the channel do.
#[verifier::external_body]
pub(crate) fn try_send<T>(sender: &mpsc::Sender<T>, message: T) -> (res: Result<
    (),
    SendRefusal<T>,
>)
    ensures
        res matches Err(SendRefusal::Full(m)) ==> m == message,
        res matches Err(SendRefusal::Closed(m)) ==> m == message,
    opens_invariants [offer_mark(message)]
{
    match sender.try_send(message) {
        Ok(()) => Ok(()),
        Err(mpsc::error::TrySendError::Full(m)) => Err(SendRefusal::Full(m)),
        Err(mpsc::error::TrySendError::Closed(m)) => Err(SendRefusal::Closed(m)),
    }
}

/// `tokio::sync::mpsc::Receiver::try_recv` on a payload queue: the answer
/// joins those given before. A queue that once reported that its senders are
/// gone never has another payload.
#[verifier::external_body]
pub(crate) fn try_recv_payload(receiver: &mut mpsc::Receiver<Bytes>) -> (res: Result<
    Bytes,
    ReceiveRefusal,
>)
    ensures
        payload_answers(*final(receiver)) == payload_answers(*old(receiver)).push(res),
        payload_answers(*old(receiver)).contains(Err(ReceiveRefusal::Disconnected)) ==> (
        res matches Err(ReceiveRefusal::Disconnected)),
    opens_invariants none
{
    match receiver.try_recv() {
        Ok(payload) => Ok(payload),
        Err(mpsc::error::TryRecvError::Empty) => Err(ReceiveRefusal::Empty),
        Err(mpsc::error::TryRecvError::Disconnected) => Err(ReceiveRefusal::Disconnected),
    }
}

/// `tokio::sync::mpsc::Receiver::try_recv` on the queue of the connection
/// task: the answer joins those given before. A queue that once reported that
/// its senders are gone never has another message.
#[verifier::external_body]
pub(crate) fn try_recv_message(
    receiver: &mut mpsc::Receiver<InternalAsyncMessage>,
) -> (res: Result<InternalAsyncMessage, ReceiveRefusal>)
    ensures
        message_answers(*final(receiver)) == message_answers(*old(receiver)).push(res),
        message_answers(*old(receiver)).contains(Err(ReceiveRefusal::Disconnected)) ==> (
        res matches Err(ReceiveRefusal::Disconnected)),
    opens_invariants none
{
    match receiver.try_recv() {
        Ok(message) => Ok(message),
        Err(mpsc::error::TryRecvError::Empty) => Err(ReceiveRefusal::Empty),
        Err(mpsc::error::TryRecvError::Disconnected) => Err(ReceiveRefusal::Disconnected),
    }
}

/// `tokio::sync::broadcast::Sender::send` with nothing to carry: the answer
/// joins those given before on this handle. It is the number of receivers at
/// the time, which is not zero, or an error if there is none.
#[verifier::external_body]
pub(crate) fn send_close(sender: &mut broadcast::Sender<()>) -> (res: Result<usize, ()>)
    ensures
        close_answers(*final(sender)) == close_answers(*old(sender)).push(res),
        res matches Ok(receivers) ==> receivers > 0,
    opens_invariants none
{
    match sender.send(()) {
        Ok(receivers) => Ok(receivers),
        Err(broadcast::error::SendError(())) => Err(()),
    }
}

} // verus!
