//! Reply channels and the errors of remote dispatch.
//!
//! A message that expects a response travels to the run loop together with the
//! sending end of a one-shot reply channel; the caller keeps the receiving end
//! as a [`PendingReply`].  The channel itself comes from the `oneshot` crate
//! and is opaque here: the contracts of the trusted wrappers below state only
//! what that crate's documentation promises of every outcome.

use vstd::prelude::*;

verus! {

/// Why a dispatch through the mailbox failed.
#[derive(Clone, Copy, PartialEq, Eq, Structural, Debug)]
pub enum DispatchError {
    /// The bounded mailbox had no room and the send policy was to fail fast.
    MailboxFull,
    /// The mailbox was closed: the defined shutdown signal.
    MailboxClosed,
    /// The reply channel was dropped before a response was sent; fatal for
    /// this one call only.
    ReplyDropped,
    /// The restricted construction-time view was asked for a message whose
    /// handler is not built yet.
    HandlerUnavailable,
}

#[verifier::external_type_specification]
#[verifier::external_body]
#[verifier::reject_recursive_types(T)]
pub struct ExOneshotSender<T>(oneshot::Sender<T>);

#[verifier::external_type_specification]
#[verifier::external_body]
#[verifier::reject_recursive_types(T)]
pub struct ExOneshotReceiver<T>(oneshot::Receiver<T>);

/// Relies on oneshot::channel: returns the two ends of a fresh one-shot
/// channel.  Which value the receiver yields depends on what is later sent,
/// so nothing is stated here.
#[verifier::external_body]
pub(crate) fn reply_channel<T>() -> (oneshot::Sender<T>, oneshot::Receiver<T>) {
    oneshot::channel()
}

/// Relies on oneshot::Sender::send: delivers the message unless the receiver
/// was already dropped, in which case the message comes back inside the error.
/// Whether the receiver is still alive depends on the other side, so only the
/// returned-message fact is stated.
#[verifier::external_body]
pub(crate) fn reply_send<T>(tx: oneshot::Sender<T>, value: T) -> (r: Result<(), T>)
    ensures
        r matches Err(v) ==> v == value,
{
    match tx.send(value) {
        Ok(()) => Ok(()),
        Err(e) => Err(e.into_inner()),
    }
}

/// Relies on oneshot::Receiver::recv: blocks until the sender sends a value
/// (returned as `Some`) or is dropped without sending (`None`).  Which of the
/// two happens depends on the sender's side.
#[verifier::external_body]
pub(crate) fn reply_recv<T>(rx: oneshot::Receiver<T>) -> (r: Option<T>) {
    match rx.recv() {
        Ok(v) => Some(v),
        Err(_) => None,
    }
}

#[verifier::external_type_specification]
#[verifier::external_body]
#[verifier::reject_recursive_types(T)]
pub struct ExChannelSender<T>(smol::channel::Sender<T>);

#[verifier::external_type_specification]
#[verifier::external_body]
#[verifier::reject_recursive_types(T)]
pub struct ExChannelReceiver<T>(smol::channel::Receiver<T>);

/// The outcome of a non-blocking enqueue onto the mailbox.
pub enum SendOutcome<T> {
    /// The message was enqueued.
    Sent,
    /// The mailbox was full; the message comes back to the caller.
    Full(T),
    /// The mailbox was closed; the message comes back to the caller.
    Closed(T),
}

/// The outcome of a non-blocking poll of the mailbox.
pub enum TryRecvOutcome<T> {
    /// A message was waiting.
    Message(T),
    /// Nothing is waiting, but the mailbox is still open.
    Empty,
    /// The mailbox is closed and drained.
    Closed,
}

/// The outcome of a blocking receive from the mailbox.
pub enum RecvOutcome<T> {
    /// The next message, in the order it was sent.
    Message(T),
    /// The mailbox is closed and drained.
    Closed,
}

/// Relies on smol::channel::bounded: returns the sending and receiving ends
/// of a fresh bounded channel of the given capacity.  What the receiver
/// yields depends on what is later sent, so nothing is stated here.
#[verifier::external_body]
pub(crate) fn channel_bounded<T>(cap: usize) -> (smol::channel::Sender<T>, smol::channel::Receiver<
    T,
>)
    requires
        cap >= 1,
{
    smol::channel::bounded(cap)
}

/// Relies on smol::channel::Sender::clone: another sending end of the same
/// channel.  Sameness of channel is not representable here, so nothing more
/// is stated.
#[verifier::external_body]
pub(crate) fn channel_sender_clone<T>(tx: &smol::channel::Sender<T>) -> smol::channel::Sender<T> {
    tx.clone()
}

/// Relies on smol::channel::Sender::try_send: enqueues unless the channel is
/// full or closed; in either failure the message itself comes back inside
/// the error, which is all that is stated.
#[verifier::external_body]
pub(crate) fn channel_try_send<T>(tx: &smol::channel::Sender<T>, msg: T) -> (r: SendOutcome<T>)
    ensures
        r matches SendOutcome::Full(m) ==> m == msg,
        r matches SendOutcome::Closed(m) ==> m == msg,
{
    match tx.try_send(msg) {
        Ok(()) => SendOutcome::Sent,
        Err(smol::channel::TrySendError::Full(m)) => SendOutcome::Full(m),
        Err(smol::channel::TrySendError::Closed(m)) => SendOutcome::Closed(m),
    }
}

/// Relies on smol::channel::Sender::send_blocking: waits for room, enqueues,
/// and fails only when the channel is closed, returning the message inside
/// the error, which is all that is stated.
#[verifier::external_body]
pub(crate) fn channel_send_blocking<T>(tx: &smol::channel::Sender<T>, msg: T) -> (r: Result<(), T>)
    ensures
        r matches Err(m) ==> m == msg,
{
    match tx.send_blocking(msg) {
        Ok(()) => Ok(()),
        Err(smol::channel::SendError(m)) => Err(m),
    }
}

/// Relies on smol::channel::Sender::close: closes the channel; queued
/// messages can still be received.  Returns whether this call was the one
/// that closed it.
#[verifier::external_body]
pub(crate) fn channel_close<T>(tx: &smol::channel::Sender<T>) -> (r: bool) {
    tx.close()
}

/// Relies on smol::channel::Receiver::try_recv: pops the next message if one
/// is waiting; otherwise reports the channel empty, or closed once it is
/// both closed and drained.  Which of the three happens depends on the
/// senders, so nothing is stated.
#[verifier::external_body]
pub(crate) fn channel_try_recv<T>(rx: &smol::channel::Receiver<T>) -> (r: TryRecvOutcome<T>) {
    match rx.try_recv() {
        Ok(m) => TryRecvOutcome::Message(m),
        Err(smol::channel::TryRecvError::Empty) => TryRecvOutcome::Empty,
        Err(smol::channel::TryRecvError::Closed) => TryRecvOutcome::Closed,
    }
}

/// Relies on smol::channel::Receiver::recv_blocking: blocks until a message
/// arrives, and reports closure only once the channel is closed and drained.
/// Which of the two happens depends on the senders, so nothing is stated.
#[verifier::external_body]
pub(crate) fn channel_recv_blocking<T>(rx: &smol::channel::Receiver<T>) -> (r: RecvOutcome<T>) {
    match rx.recv_blocking() {
        Ok(m) => RecvOutcome::Message(m),
        Err(smol::channel::RecvError) => RecvOutcome::Closed,
    }
}

/// The caller's end of a one-shot reply channel: a response that has been
/// requested but not necessarily produced yet.
#[verifier::reject_recursive_types(T)]
pub struct PendingReply<T> {
    rx: oneshot::Receiver<T>,
}

impl<T> PendingReply<T> {
    /// Wraps the receiving end of a reply channel.
    pub(crate) fn new(rx: oneshot::Receiver<T>) -> PendingReply<T> {
        PendingReply { rx }
    }

    /// Blocks until the run loop answers.  Fails only when the reply channel
    /// was dropped unanswered, the fatal fault for this one call.
    pub fn wait(self) -> (r: Result<T, DispatchError>)
        ensures
            r is Err ==> r == Err::<T, DispatchError>(DispatchError::ReplyDropped),
    {
        match reply_recv(self.rx) {
            Some(v) => Ok(v),
            None => Err(DispatchError::ReplyDropped),
        }
    }

    /// Hands out the underlying receiver, for embedders that prefer to await
    /// it instead of blocking.
    pub fn into_receiver(self) -> oneshot::Receiver<T> {
        self.rx
    }
}

/// A response that is either already at hand (direct dispatch) or still owed
/// by the run loop (dispatch through the mailbox).
#[verifier::reject_recursive_types(T)]
pub enum Deferred<T> {
    /// The bound handler already ran; this is its response.
    Ready(T),
    /// The response will arrive on this reply channel once the run loop has
    /// dispatched the message.
    Pending(PendingReply<T>),
}

} // verus!
