//! The channel types of tokio that the runtime carries, and the few calls
//! into them that the verified code makes.
use vstd::prelude::*;

use tokio::sync::{mpsc, oneshot, watch};

use crate::lifecycle::LifecycleStatus;

verus! {

#[verifier::external_type_specification]
#[verifier::external_body]
#[verifier::reject_recursive_types(T)]
pub struct ExOneshotSender<T>(oneshot::Sender<T>);

#[verifier::external_type_specification]
#[verifier::external_body]
pub struct ExOneshotRecvError(oneshot::error::RecvError);

#[verifier::external_type_specification]
#[verifier::external_body]
pub struct ExElapsed(tokio::time::error::Elapsed);

#[verifier::external_type_specification]
#[verifier::external_body]
#[verifier::reject_recursive_types(T)]
pub struct ExMpscSender<T>(mpsc::Sender<T>);

#[verifier::external_type_specification]
#[verifier::external_body]
#[verifier::reject_recursive_types(T)]
pub struct ExMpscReceiver<T>(mpsc::Receiver<T>);

#[verifier::external_type_specification]
#[verifier::external_body]
#[verifier::reject_recursive_types(T)]
pub struct ExMpscSendError<T>(mpsc::error::SendError<T>);

#[verifier::external_type_specification]
#[verifier::external_body]
#[verifier::reject_recursive_types(T)]
pub struct ExWatchSender<T>(watch::Sender<T>);

#[verifier::external_type_specification]
#[verifier::external_body]
#[verifier::reject_recursive_types(T)]
pub struct ExWatchReceiver<T>(watch::Receiver<T>);

/// A record of the value handed to a reply slot, with the slot it went to.
/// Only `deliver` sets it.
#[verifier::reject_recursive_types(T)]
pub struct Delivery<T> {
    sent: Ghost<Option<(oneshot::Sender<T>, T)>>,
}

impl<T> Delivery<T> {
    /// The slot and the value last handed to it, if any.
    pub closed spec fn view(&self) -> Option<(oneshot::Sender<T>, T)> {
        self.sent@
    }

    /// A record of nothing sent yet.
    pub fn new() -> (r: Self)
        ensures
            r@ is None,
    {
        let ghost nothing = None;
        Delivery { sent: Ghost(nothing) }
    }
}

/// Relies on `tokio::sync::oneshot::Sender::send`: it never waits, it hands
/// `value` to the receiving half of `slot`, and an `Err` hands back the very
/// value that could not be delivered because the receiving half is gone.
#[verifier::external_body]
pub(crate) fn deliver<T>(slot: oneshot::Sender<T>, value: T, record: &mut Delivery<T>) -> (r:
    Result<(), T>)
    ensures
        final(record)@ == Some((slot, value)),
        r matches Err(v) ==> v == value,
{
    slot.send(value)
}

/// The statuses handed to a broadcast, oldest first. Only `publish_status`
/// extends it.
pub struct Published {
    values: Ghost<Seq<LifecycleStatus>>,
}

impl Published {
    pub closed spec fn view(&self) -> Seq<LifecycleStatus> {
        self.values@
    }

    /// A record of nothing published yet.
    pub fn new() -> (r: Self)
        ensures
            r@ == Seq::<LifecycleStatus>::empty(),
    {
        let ghost nothing = Seq::empty();
        Published { values: Ghost(nothing) }
    }
}

/// Relies on `tokio::sync::watch::Sender::send_replace`: it stores `s` as the
/// current value for every receiver, whether or not any is left, and hands
/// back the value that it replaced. It does not unwind: the lock recovers
/// from poisoning, and the swap that it runs under the lock cannot panic.
#[verifier::external_body]
pub(crate) fn publish_status(
    tx: &watch::Sender<LifecycleStatus>,
    s: LifecycleStatus,
    record: &mut Published,
) -> (r: LifecycleStatus)
    ensures
        final(record)@ == old(record)@.push(s),
    no_unwind
{
    tx.send_replace(s)
}

/// Relies on `tokio::sync::watch::Receiver::borrow`: the most recently
/// published status, which other parties may change at any time.
#[verifier::external_body]
pub(crate) fn latest_status(rx: &watch::Receiver<LifecycleStatus>) -> (r: LifecycleStatus) {
    *rx.borrow()
}

/// Relies on `Clone` for `tokio::sync::watch::Receiver`: a new cursor over
/// the same broadcast slot.
#[verifier::external_body]
pub(crate) fn subscribe_status(rx: &watch::Receiver<LifecycleStatus>) -> (r: watch::Receiver<
    LifecycleStatus,
>) {
    rx.clone()
}

/// Relies on `Clone` for `tokio::sync::mpsc::Sender`: another producer
/// handle on the same channel.
#[verifier::external_body]
pub(crate) fn clone_sender<T>(tx: &mpsc::Sender<T>) -> (r: mpsc::Sender<T>) {
    tx.clone()
}

} // verus!
