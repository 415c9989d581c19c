//! Typed packets with their reply slots, the envelope capability that a
//! mailbox works with, and the two planes of channels that reach one actor.
use vstd::prelude::*;

use tokio::sync::{mpsc, oneshot};

use crate::channels::{clone_sender, deliver, Delivery};
use tokio::time::error::Elapsed;
use crate::errors::PuppeterError;
use crate::lifecycle::ServiceCommand;

verus! {

/// A value that can be sent to an actor.
pub trait Message: Send + 'static {

}

impl Message for ServiceCommand {

}

/// The single-use slot through which one response, or the error that took
/// its place, reaches the caller that waits for it.
pub type ReplyAddress<T> = oneshot::Sender<Result<T, PuppeterError>>;

/// A reply slot that may be absent.
pub type MaybeReplyAddress<T> = Option<ReplyAddress<T>>;

/// What became of an attempt to answer through a reply slot.
#[derive(Debug, Clone, Copy, PartialEq, Eq, Structural)]
pub enum ReplyOutcome {
    /// There was no slot: nobody waits for an answer.
    NoReplySlot,
    /// The answer was handed to the waiting side.
    Delivered,
    /// The waiting side had already given up; the answer was discarded.
    ReceiverGone,
}

/// A unit of work that a mailbox holds: it can tell the caller, if one is
/// waiting, that its message will not be handled.
pub trait Envelope {
    /// Whether a caller still waits for an answer to this envelope.
    spec fn awaits_reply(&self) -> bool;

    /// The error last handed to the waiting caller in place of a response.
    spec fn error_sent(&self) -> Option<PuppeterError>;

    /// Delivers `err` to the waiting caller in place of a response, and
    /// gives up the reply slot.
    fn reply_error(&mut self, err: PuppeterError) -> (r: ReplyOutcome)
        ensures
            !final(self).awaits_reply(),
            !old(self).awaits_reply() <==> r == ReplyOutcome::NoReplySlot,
            old(self).awaits_reply() ==> final(self).error_sent() == Some(err),
            !old(self).awaits_reply() ==> final(self).error_sent() == old(self).error_sent(),
    ;
}

/// One message `M` for an actor, with an optional slot for its response `R`.
/// The message is taken out exactly once, and the slot answered at most once.
#[verifier::reject_recursive_types(R)]
pub struct Packet<M, R> {
    message: Option<M>,
    reply_address: Option<ReplyAddress<R>>,
    delivery: Delivery<Result<R, PuppeterError>>,
}

impl<M, R> Packet<M, R> {
    /// The message, while it has not been taken out.
    pub closed spec fn message(&self) -> Option<M> {
        self.message
    }

    /// The reply slot, while it has not been answered or taken out.
    pub closed spec fn reply_slot(&self) -> Option<ReplyAddress<R>> {
        self.reply_address
    }

    /// Whether the packet still holds a reply slot.
    pub open spec fn expects_reply(&self) -> bool {
        self.reply_slot() is Some
    }

    /// The slot that this packet answered and what it handed to it, if it
    /// answered at all.
    pub closed spec fn answered(&self) -> Option<(ReplyAddress<R>, Result<R, PuppeterError>)> {
        self.delivery@
    }

    /// A packet that nobody waits on.
    pub fn without_reply(message: M) -> (r: Self)
        ensures
            r.message() == Some(message),
            r.reply_slot() is None,
            r.answered() is None,
    {
        Packet { message: Some(message), reply_address: None, delivery: Delivery::new() }
    }

    /// A packet whose response goes to `reply_address`.
    pub fn with_reply(message: M, reply_address: ReplyAddress<R>) -> (r: Self)
        ensures
            r.message() == Some(message),
            r.reply_slot() == Some(reply_address),
            r.answered() is None,
    {
        Packet {
            message: Some(message),
            reply_address: Some(reply_address),
            delivery: Delivery::new(),
        }
    }

    /// Takes the message out; a second call finds nothing.
    pub fn take_message(&mut self) -> (r: Option<M>)
        ensures
            r == old(self).message(),
            final(self).message() is None,
            final(self).reply_slot() == old(self).reply_slot(),
            final(self).answered() == old(self).answered(),
    {
        self.message.take()
    }

    /// Takes the reply slot out, to answer it elsewhere.
    pub fn take_reply_address(&mut self) -> (r: MaybeReplyAddress<R>)
        ensures
            r == old(self).reply_slot(),
            final(self).reply_slot() is None,
            final(self).message() == old(self).message(),
            final(self).answered() == old(self).answered(),
    {
        self.reply_address.take()
    }

    /// Answers the waiting caller with the handler's response, if a slot is
    /// there; without one nothing is sent.
    pub fn reply(&mut self, response: R) -> (r: ReplyOutcome)
        ensures
            final(self).reply_slot() is None,
            final(self).message() == old(self).message(),
            !old(self).expects_reply() <==> r == ReplyOutcome::NoReplySlot,
            old(self).reply_slot() matches Some(slot) ==> final(self).answered() == Some(
                (slot, Ok::<R, PuppeterError>(response)),
            ),
            old(self).reply_slot() is None ==> final(self).answered() == old(self).answered(),
    {
        answer(self.reply_address.take(), Ok(response), &mut self.delivery)
    }
}

impl<M, R> Envelope for Packet<M, R> {
    open spec fn awaits_reply(&self) -> bool {
        self.expects_reply()
    }

    open spec fn error_sent(&self) -> Option<PuppeterError> {
        match self.answered() {
            Some((_, Err(e))) => Some(e),
            _ => None,
        }
    }

    fn reply_error(&mut self, err: PuppeterError) -> (r: ReplyOutcome) {
        answer(self.reply_address.take(), Err(err), &mut self.delivery)
    }
}

/// Sends `result` into `slot` where there is one, and records what was sent.
pub fn answer<T>(
    slot: MaybeReplyAddress<T>,
    result: Result<T, PuppeterError>,
    record: &mut Delivery<Result<T, PuppeterError>>,
) -> (r: ReplyOutcome)
    ensures
        slot is None <==> r == ReplyOutcome::NoReplySlot,
        slot matches Some(s) ==> final(record)@ == Some((s, result)),
        slot is None ==> final(record)@ == old(record)@,
{
    match slot {
        None => ReplyOutcome::NoReplySlot,
        Some(s) => match deliver(s, result, record) {
            Ok(()) => ReplyOutcome::Delivered,
            Err(_) => ReplyOutcome::ReceiverGone,
        },
    }
}

/// What the waiting side of an ask makes of what came through its slot: the
/// answer as it was sent, or a receive failure where the slot was dropped
/// without a value.
pub open spec fn spec_reply_result<T>(
    received: Result<Result<T, PuppeterError>, oneshot::error::RecvError>,
) -> Result<T, PuppeterError> {
    match received {
        Ok(answer) => answer,
        Err(_) => Err(PuppeterError::MessageResponseReceiveError),
    }
}

/// An answer that went through a reply slot comes out on the waiting side as
/// it was sent, a response or an error alike; a slot dropped unanswered comes
/// out as a receive failure, never as a response.
pub proof fn lemma_reply_round_trip<T>(
    sent: Result<T, PuppeterError>,
    dropped: oneshot::error::RecvError,
)
    ensures
        spec_reply_result(Ok::<Result<T, PuppeterError>, oneshot::error::RecvError>(sent)) == sent,
        spec_reply_result(Err::<Result<T, PuppeterError>, oneshot::error::RecvError>(dropped))
            == Err::<T, PuppeterError>(PuppeterError::MessageResponseReceiveError),
{
}

/// Turns what came through a reply slot into the caller's result.
pub fn resolve_reply<T>(received: Result<Result<T, PuppeterError>, oneshot::error::RecvError>) -> (r:
    Result<T, PuppeterError>)
    ensures
        r == spec_reply_result(received),
{
    match received {
        Ok(Ok(response)) => Ok(response),
        Ok(Err(err)) => Err(err),
        Err(_) => Err(PuppeterError::MessageResponseReceiveError),
    }
}

/// Turns what came through a reply slot raced against a timer into the
/// caller's result: a timeout where the timer won.
pub fn resolve_timed_reply<T>(
    received: Result<Result<Result<T, PuppeterError>, oneshot::error::RecvError>, Elapsed>,
) -> (r: Result<T, PuppeterError>)
    ensures
        r == match received {
            Ok(arrived) => spec_reply_result(arrived),
            Err(_) => Err(PuppeterError::ResponseTimeout),
        },
{
    match received {
        Ok(arrived) => resolve_reply(arrived),
        Err(_) => Err(PuppeterError::ResponseTimeout),
    }
}

/// Turns the outcome of pushing onto a mailbox channel into the caller's
/// result: a send failure where the mailbox is gone.
pub fn resolve_send<T>(sent: Result<(), mpsc::error::SendError<T>>) -> (r: Result<(), PuppeterError>)
    ensures
        sent is Ok ==> r == Ok::<(), PuppeterError>(()),
        sent is Err ==> r == Err::<(), PuppeterError>(PuppeterError::MessageSendError),
{
    match sent {
        Ok(()) => Ok(()),
        Err(_) => Err(PuppeterError::MessageSendError),
    }
}

/// The producing end of the data plane of one actor; cheap to clone.
#[verifier::reject_recursive_types(E)]
pub struct Postman<E> {
    tx: mpsc::Sender<E>,
}

impl<E> Postman<E> {
    pub fn new(tx: mpsc::Sender<E>) -> (r: Self) {
        Postman { tx }
    }

    /// The channel handle that envelopes are pushed onto.
    pub fn sender(&self) -> (r: &mpsc::Sender<E>) {
        &self.tx
    }
}

impl<E> Clone for Postman<E> {
    fn clone(&self) -> (r: Self) {
        Postman { tx: clone_sender(&self.tx) }
    }
}

/// The consuming end of the data plane of one actor; owned by exactly one task.
#[verifier::reject_recursive_types(E)]
pub struct Mailbox<E> {
    rx: mpsc::Receiver<E>,
}

impl<E> Mailbox<E> {
    pub fn new(rx: mpsc::Receiver<E>) -> (r: Self) {
        Mailbox { rx }
    }

    /// The channel handle that envelopes are popped from.
    pub fn receiver(&mut self) -> (r: &mut mpsc::Receiver<E>) {
        &mut self.rx
    }
}

/// One control command with the slot for its acknowledgement.
pub struct ServicePacket {
    pub cmd: ServiceCommand,
    pub reply_address: ReplyAddress<()>,
}

impl ServicePacket {
    /// Acknowledges the command to its sender with `result`, and records
    /// that acknowledgement in `record`.
    pub fn acknowledge(self, result: Result<(), PuppeterError>, record: &mut Delivery<
        Result<(), PuppeterError>,
    >) -> (r: ReplyOutcome)
        ensures
            r != ReplyOutcome::NoReplySlot,
            final(record)@ == Some((self.reply_address, result)),
    {
        answer(Some(self.reply_address), result, record)
    }
}

/// The producing end of the control plane of one actor.
pub struct ServicePostman {
    tx: mpsc::Sender<ServicePacket>,
}

impl ServicePostman {
    pub fn new(tx: mpsc::Sender<ServicePacket>) -> (r: Self) {
        ServicePostman { tx }
    }

    /// The channel handle that commands are pushed onto.
    pub fn sender(&self) -> (r: &mpsc::Sender<ServicePacket>) {
        &self.tx
    }
}

impl Clone for ServicePostman {
    fn clone(&self) -> (r: Self) {
        ServicePostman { tx: clone_sender(&self.tx) }
    }
}

/// The consuming end of the control plane of one actor.
pub struct ServiceMailbox {
    rx: mpsc::Receiver<ServicePacket>,
}

impl ServiceMailbox {
    pub fn new(rx: mpsc::Receiver<ServicePacket>) -> (r: Self) {
        ServiceMailbox { rx }
    }

    /// The channel handle that commands are popped from.
    pub fn receiver(&mut self) -> (r: &mut mpsc::Receiver<ServicePacket>) {
        &mut self.rx
    }
}

} // verus!
