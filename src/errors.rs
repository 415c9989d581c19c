use vstd::prelude::*;

use crate::lifecycle::LifecycleStatus;

verus! {

/// The failures that the runtime reports to the caller that started an operation.
#[derive(Debug, Clone, Copy, PartialEq, Eq, Structural)]
pub enum PuppeterError {
    /// The target mailbox is gone: the channel is closed.
    MessageSendError,
    /// The reply slot was dropped without a value.
    MessageResponseReceiveError,
    /// The caller's wait budget ran out; the handler may still be running.
    ResponseTimeout,
    /// A lifecycle command that is not valid from the current status.
    InvalidTransition { from: LifecycleStatus },
    /// The actor no longer processes messages in this status.
    ActorUnavailable { status: LifecycleStatus },
}

} // verus!
