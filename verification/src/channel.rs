//! The queue between the recording loop and the writing loop.
//!
//! The queue is a bounded channel: a send onto a full queue blocks the
//! producer until the consumer has made room, so that no message is ever
//! dropped, and a receive on an empty queue blocks the consumer. Either
//! side learns that the other has gone away through `QueueDisconnected`.

use crossbeam::channel::{Receiver, RecvError, SendError, Sender};
use vstd::prelude::*;
use crate::channel_messages::RecorderToWriterChannelMessage;
use crate::config::MAX_QUEUE_DEPTH;
use crate::error::RecorderError;

verus! {

/// The sending half of a channel, as `crossbeam` defines it. Nothing is
/// known of what it holds.
#[verifier::external_type_specification]
#[verifier::external_body]
#[verifier::reject_recursive_types(T)]
pub struct ExSender<T>(Sender<T>);

/// The receiving half of a channel, as `crossbeam` defines it. Nothing is
/// known of what it holds.
#[verifier::external_type_specification]
#[verifier::external_body]
#[verifier::reject_recursive_types(T)]
pub struct ExReceiver<T>(Receiver<T>);

/// The error of a send on a channel without receivers, as `crossbeam`
/// defines it. It carries the message that could not be sent.
#[verifier::external_type_specification]
#[verifier::external_body]
#[verifier::reject_recursive_types(T)]
pub struct ExSendError<T>(SendError<T>);

/// The error of a receive on an empty channel without senders, as
/// `crossbeam` defines it.
#[verifier::external_type_specification]
#[verifier::external_body]
pub struct ExRecvError(RecvError);

/// Calls `crossbeam::channel::bounded`, which creates a channel holding
/// at most `depth` messages. The call panics for a capacity too large to
/// set the channel up, which the bound on `depth` rules out, and a depth
/// of zero is kept out because it would make every send wait for a
/// receive. Nothing is claimed of the two halves.
#[verifier::external_body]
fn bounded_channel(depth: usize) -> (halves: (
    Sender<RecorderToWriterChannelMessage>,
    Receiver<RecorderToWriterChannelMessage>,
))
    requires
        0 < depth <= MAX_QUEUE_DEPTH,
{
    crossbeam::channel::bounded(depth)
}

/// Calls `Sender::send`, which blocks until the message is in the channel
/// or the channel is disconnected. Which of the two happens depends on the
/// other thread, so nothing is claimed of the result.
#[verifier::external_body]
fn channel_send(
    sender: &Sender<RecorderToWriterChannelMessage>,
    message: RecorderToWriterChannelMessage,
) -> (sent: Result<(), SendError<RecorderToWriterChannelMessage>>) {
    sender.send(message)
}

/// Calls `Receiver::recv`, which blocks until a message arrives or the
/// channel is empty and disconnected. Which message arrives depends on the
/// other thread, so nothing is claimed of the result.
#[verifier::external_body]
fn channel_recv(receiver: &Receiver<RecorderToWriterChannelMessage>) -> (received: Result<
    RecorderToWriterChannelMessage,
    RecvError,
>) {
    receiver.recv()
}

/// What a send amounts to for the recording loop: done, or the queue is
/// disconnected. The message that could not be sent is given up.
pub fn send_outcome(sent: Result<(), SendError<RecorderToWriterChannelMessage>>) -> (r: Result<
    (),
    RecorderError,
>)
    ensures
        sent is Ok ==> r is Ok,
        sent is Err ==> r == Err::<(), RecorderError>(RecorderError::QueueDisconnected),
{
    match sent {
        Ok(()) => Ok(()),
        Err(_) => Err(RecorderError::QueueDisconnected),
    }
}

/// What a receive amounts to for the writing loop: the message, or the
/// queue is disconnected.
pub fn receive_outcome(received: Result<RecorderToWriterChannelMessage, RecvError>) -> (r: Result<
    RecorderToWriterChannelMessage,
    RecorderError,
>)
    ensures
        received matches Ok(message) ==> r == Ok::<RecorderToWriterChannelMessage, RecorderError>(
            message,
        ),
        received is Err ==> r == Err::<RecorderToWriterChannelMessage, RecorderError>(
            RecorderError::QueueDisconnected,
        ),
{
    match received {
        Ok(message) => Ok(message),
        Err(_) => Err(RecorderError::QueueDisconnected),
    }
}

/// Whether a queue of `depth` messages can be opened.
pub open spec fn depth_allowed(depth: usize) -> bool {
    0 < depth <= MAX_QUEUE_DEPTH
}

/// Opens the queue between the two loops with room for `depth` messages,
/// or reports `InvalidConfig` for a depth of zero or beyond the deepest
/// queue allowed.
pub fn open_channel(depth: usize) -> (r: Result<
    (Sender<RecorderToWriterChannelMessage>, Receiver<RecorderToWriterChannelMessage>),
    RecorderError,
>)
    ensures
        depth_allowed(depth) ==> r is Ok,
        !depth_allowed(depth) ==> r is Err && r->Err_0 == RecorderError::InvalidConfig,
{
    if depth == 0 || depth > MAX_QUEUE_DEPTH {
        Err(RecorderError::InvalidConfig)
    } else {
        Ok(bounded_channel(depth))
    }
}

/// Puts `message` on the queue, waiting for room if the queue is full.
/// Fails only when the writing loop has gone away.
pub fn send_message(
    sender: &Sender<RecorderToWriterChannelMessage>,
    message: RecorderToWriterChannelMessage,
) -> (r: Result<(), RecorderError>)
    ensures
        r is Err ==> r == Err::<(), RecorderError>(RecorderError::QueueDisconnected),
{
    send_outcome(channel_send(sender, message))
}

/// Takes the next message from the queue, waiting for one if the queue is
/// empty. Fails only when the queue is empty and the recording loop has
/// gone away.
pub fn receive_message(receiver: &Receiver<RecorderToWriterChannelMessage>) -> (r: Result<
    RecorderToWriterChannelMessage,
    RecorderError,
>)
    ensures
        r is Err ==> r->Err_0 == RecorderError::QueueDisconnected,
{
    receive_outcome(channel_recv(receiver))
}

} // verus!
