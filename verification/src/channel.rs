//! The channel operations that never wait, over `futures::channel::mpsc`.
//!
//! A channel end is shared with whoever holds the other end, so whether a send
//! is accepted, and whether a look finds a message, depends on what the other
//! side has done. Nothing is assumed about that; the callers are verified for
//! every outcome. What an end knows by itself is little: a receiver, whether
//! it has already seen the end of its channel; a sender, whether it has let go
//! of its channel. Both are final.

use crate::event::UiEvent;
use futures::channel::mpsc::{TryRecvError, TrySendError, UnboundedReceiver, UnboundedSender};
use futures::stream::FusedStream;
use vstd::prelude::*;

verus! {

/// `futures::channel::mpsc::UnboundedSender`, the sending end of an unbounded
/// channel. Opaque: nothing is known of a value but its type.
#[verifier::external_type_specification]
#[verifier::external_body]
#[verifier::reject_recursive_types(T)]
pub struct ExUnboundedSender<T>(UnboundedSender<T>);

/// `futures::channel::mpsc::UnboundedReceiver`, the receiving end of an
/// unbounded channel. Opaque.
#[verifier::external_type_specification]
#[verifier::external_body]
#[verifier::reject_recursive_types(T)]
pub struct ExUnboundedReceiver<T>(UnboundedReceiver<T>);

/// `futures::channel::mpsc::TrySendError`, the error of a send that did not
/// queue its message. Opaque.
#[verifier::external_type_specification]
#[verifier::external_body]
#[verifier::reject_recursive_types(T)]
pub struct ExTrySendError<T>(TrySendError<T>);

/// What `FusedStream::is_terminated` returns for a receiver: whether it has
/// let go of its channel, which it does when it finds the channel closed and
/// empty. Only the receiver's own calls change this.
pub uninterp spec fn receiver_ended(receiver: UnboundedReceiver<UiEvent>) -> bool;

/// Whether a sender has let go of its channel: it holds none any more, which
/// is how `UnboundedSender::disconnect` leaves it. Only the sender's own
/// `disconnect` changes this.
pub uninterp spec fn sender_released(sender: UnboundedSender<UiEvent>) -> bool;

/// What `UnboundedSender::is_connected_to` returns: whether the sender and the
/// receiver hold the same channel.
pub uninterp spec fn connected(
    sender: UnboundedSender<UiEvent>,
    receiver: UnboundedReceiver<UiEvent>,
) -> bool;

/// `futures::channel::mpsc::unbounded`: makes a channel and hands out its two
/// ends. Both new ends hold the channel, the same one.
#[verifier::external_body]
pub(crate) fn new_channel() -> (ends: (UnboundedSender<UiEvent>, UnboundedReceiver<UiEvent>))
    ensures
        !sender_released(ends.0),
        !receiver_ended(ends.1),
        connected(ends.0, ends.1),
{
    futures::channel::mpsc::unbounded()
}

/// `UnboundedSender::unbounded_send`: queues `message` or hands it back inside
/// the error, without waiting. A sender that has let go of its channel has
/// nowhere to queue. For any other sender the outcome depends on the
/// receiving side, and nothing is claimed of it. (The call panics only when
/// the channel already holds `usize::MAX / 2` messages, more than memory can.)
#[verifier::external_body]
fn queue_message(sender: &UnboundedSender<UiEvent>, message: UiEvent) -> (sent: Result<
    (),
    TrySendError<UiEvent>,
>)
    ensures
        sender_released(*sender) ==> sent is Err,
{
    sender.unbounded_send(message)
}

/// `UnboundedSender::disconnect`: the sender lets go of its channel, which
/// closes the channel once no other sender holds it.
#[verifier::external_body]
pub(crate) fn release_sender(sender: &mut UnboundedSender<UiEvent>)
    ensures
        sender_released(*final(sender)),
{
    sender.disconnect()
}

/// `FusedStream::is_terminated` on a receiver.
#[verifier::external_body]
pub(crate) fn has_ended(receiver: &UnboundedReceiver<UiEvent>) -> (ended: bool)
    ensures
        ended == receiver_ended(*receiver),
{
    receiver.is_terminated()
}

/// `UnboundedReceiver::try_recv`, with its three outcomes as a `Polled`: the
/// message, `TryRecvError::Empty` or `TryRecvError::Closed`. The call does not
/// wait. Which outcome it has depends on the sending side. Claimed is only
/// that the receiver lets go of its channel exactly when the call finds it
/// closed.
#[verifier::external_body]
fn poll_receiver(receiver: &mut UnboundedReceiver<UiEvent>) -> (polled: Polled)
    ensures
        receiver_ended(*final(receiver)) <==> polled is Closed,
{
    match receiver.try_recv() {
        Ok(message) => Polled::Ready(message),
        Err(TryRecvError::Empty) => Polled::Empty,
        Err(TryRecvError::Closed) => Polled::Closed,
    }
}

/// The receiving side is gone: a message that is sent now would never be read.
#[derive(Clone, Copy, Debug, PartialEq, Eq, Structural)]
pub struct ChannelClosed;

/// What one look into a channel found.
#[derive(Clone, Copy, Debug, PartialEq, Eq, Structural)]
pub enum Polled {
    /// Nothing is queued, but the channel is still open.
    Empty,
    /// The oldest queued message, now taken out.
    Ready(UiEvent),
    /// Nothing is queued and every sender is gone: nothing will ever come.
    Closed,
}

/// Turns the channel's own answer to a send into the library's: a message
/// that was not queued means that the receiving side is gone, since an
/// unbounded channel is never full.
pub fn report_send<T>(sent: Result<(), TrySendError<T>>) -> (outcome: Result<(), ChannelClosed>)
    ensures
        outcome is Ok <==> sent is Ok,
{
    match sent {
        Ok(_) => Ok(()),
        Err(_) => Err(ChannelClosed),
    }
}

/// Sends `message` without waiting. `Err(ChannelClosed)` means that the
/// message was not queued. A sender that has let go of its channel is always
/// refused; for any other, the outcome depends on the receiving side alone.
pub fn send(sender: &UnboundedSender<UiEvent>, message: UiEvent) -> (outcome: Result<
    (),
    ChannelClosed,
>)
    ensures
        sender_released(*sender) ==> outcome is Err,
{
    report_send(queue_message(sender, message))
}

/// Looks into the channel once, without waiting, and takes out the oldest
/// message if there is one.
///
/// `Closed` is final: a receiver that has found its channel closed is not
/// asked again, and every later look returns `Closed`.
pub fn try_receive(receiver: &mut UnboundedReceiver<UiEvent>) -> (polled: Polled)
    ensures
        receiver_ended(*old(receiver)) ==> polled is Closed && *final(receiver) == *old(receiver),
        receiver_ended(*final(receiver)) <==> polled is Closed,
{
    if has_ended(receiver) {
        Polled::Closed
    } else {
        poll_receiver(receiver)
    }
}

} // verus!
