//! How a mailbox routes each envelope it pops: by the actor's status, and by
//! the execution variant fixed for the actor's type.
use vstd::prelude::*;

use crate::errors::PuppeterError;
use crate::lifecycle::{spec_accepts_messages, LifecycleStatus};
use crate::message::{Envelope, ReplyOutcome};

verus! {

/// The dispatch strategy of an actor type.
#[derive(Debug, Clone, Copy, PartialEq, Eq, Structural)]
pub enum ExecutionVariant {
    /// The handler runs on the mailbox task, against the live state; the next
    /// envelope waits until it returns.
    Sequential,
    /// The handler runs on a task of its own, against a snapshot of the state.
    Concurrent,
    /// The handler runs on a worker-pool thread, against a snapshot of the state.
    Parallel,
}

/// Where the handler of one envelope runs, or why it does not.
#[derive(Debug, Clone, Copy, PartialEq, Eq, Structural)]
pub enum Route {
    /// On the mailbox task, against the live state.
    InPlace,
    /// On a spawned task, against a clone of the state.
    SnapshotTask,
    /// On a worker-pool thread, against a clone of the state.
    SnapshotPool,
    /// Not at all: the caller gets this error in place of a response.
    Refuse(PuppeterError),
}

/// The route of an envelope popped in status `s` by an actor of variant `v`.
pub open spec fn spec_route(s: LifecycleStatus, v: ExecutionVariant) -> Route {
    if !spec_accepts_messages(s) {
        Route::Refuse(PuppeterError::ActorUnavailable { status: s })
    } else {
        match v {
            ExecutionVariant::Sequential => Route::InPlace,
            ExecutionVariant::Concurrent => Route::SnapshotTask,
            ExecutionVariant::Parallel => Route::SnapshotPool,
        }
    }
}

/// Whether a handler run on this route can change the actor's canonical state.
pub open spec fn spec_mutates_live_state(r: Route) -> bool {
    r == Route::InPlace
}

impl Route {
    /// Whether a handler run on this route can change the actor's canonical state.
    pub fn mutates_live_state(&self) -> (r: bool)
        ensures
            r == spec_mutates_live_state(*self),
    {
        match self {
            Route::InPlace => true,
            _ => false,
        }
    }
}

/// Decides where the handler of an envelope popped in status `s` runs.
pub fn route(s: LifecycleStatus, v: ExecutionVariant) -> (r: Route)
    ensures
        r == spec_route(s, v),
{
    if !s.accepts_messages() {
        Route::Refuse(PuppeterError::ActorUnavailable { status: s })
    } else {
        match v {
            ExecutionVariant::Sequential => Route::InPlace,
            ExecutionVariant::Concurrent => Route::SnapshotTask,
            ExecutionVariant::Parallel => Route::SnapshotPool,
        }
    }
}

/// Routes `envelope`; where it is refused, its waiting caller gets the error
/// at once and the envelope's reply slot is spent.
pub fn route_envelope<E: Envelope>(envelope: &mut E, s: LifecycleStatus, v: ExecutionVariant) -> (r: (
    Route,
    ReplyOutcome,
))
    ensures
        r.0 == spec_route(s, v),
        r.0 is Refuse ==> !final(envelope).awaits_reply() && (r.1 == ReplyOutcome::NoReplySlot
            <==> !old(envelope).awaits_reply()),
        !(r.0 is Refuse) ==> *final(envelope) == *old(envelope) && r.1
            == ReplyOutcome::NoReplySlot,
{
    let r = route(s, v);
    match r {
        Route::Refuse(err) => {
            let outcome = envelope.reply_error(err);
            (r, outcome)
        },
        _ => (r, ReplyOutcome::NoReplySlot),
    }
}

} // verus!

verus! {

/// Only handlers of the sequential variant can change an actor's canonical
/// state; the others work on a snapshot.
pub proof fn lemma_only_sequential_mutates(s: LifecycleStatus, v: ExecutionVariant)
    ensures
        spec_mutates_live_state(spec_route(s, v)) ==> v == ExecutionVariant::Sequential,
        spec_accepts_messages(s) && v == ExecutionVariant::Sequential ==> spec_mutates_live_state(
            spec_route(s, v),
        ),
{
}

} // verus!
