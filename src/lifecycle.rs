use vstd::prelude::*;

use crate::errors::PuppeterError;

verus! {

/// The current lifecycle state of one actor. The reason of a failure is kept
/// beside it, by the actor's control plane.
#[derive(Debug, Clone, Copy, PartialEq, Eq, Structural)]
pub enum LifecycleStatus {
    Created,
    Active,
    Restarting,
    Stopping,
    Stopped,
    Failed,
}

/// A control directive, delivered on the control plane of one actor.
#[derive(Debug, Clone)]
pub enum ServiceCommand {
    InitiateStart,
    InitiateStop,
    RequestRestart,
    ForceTermination,
    ReportFailure(Option<String>),
}

/// The status that `cmd` moves `s` to, or `None` where the command is
/// rejected in `s`.
pub open spec fn next_status(s: LifecycleStatus, cmd: ServiceCommand) -> Option<LifecycleStatus> {
    match cmd {
        ServiceCommand::InitiateStart => match s {
            LifecycleStatus::Created | LifecycleStatus::Restarting => Some(LifecycleStatus::Active),
            _ => None,
        },
        ServiceCommand::RequestRestart => match s {
            LifecycleStatus::Active | LifecycleStatus::Failed => Some(LifecycleStatus::Restarting),
            _ => None,
        },
        ServiceCommand::InitiateStop => match s {
            LifecycleStatus::Stopping | LifecycleStatus::Stopped => None,
            _ => Some(LifecycleStatus::Stopping),
        },
        ServiceCommand::ForceTermination => match s {
            LifecycleStatus::Stopped => None,
            _ => Some(LifecycleStatus::Stopped),
        },
        ServiceCommand::ReportFailure(_) => match s {
            LifecycleStatus::Stopped => None,
            _ => Some(LifecycleStatus::Failed),
        },
    }
}

/// Whether an actor in status `s` still runs the handlers of its messages.
pub open spec fn spec_accepts_messages(s: LifecycleStatus) -> bool {
    s == LifecycleStatus::Created || s == LifecycleStatus::Active || s
        == LifecycleStatus::Restarting
}

impl LifecycleStatus {
    /// Whether no command leads out of this status.
    pub fn is_terminal(&self) -> (r: bool)
        ensures
            r == (*self == LifecycleStatus::Stopped),
    {
        match self {
            LifecycleStatus::Stopped => true,
            _ => false,
        }
    }

    /// Whether an actor in this status still runs the handlers of its messages.
    pub fn accepts_messages(&self) -> (r: bool)
        ensures
            r == spec_accepts_messages(*self),
    {
        match self {
            LifecycleStatus::Created | LifecycleStatus::Active | LifecycleStatus::Restarting => true,
            _ => false,
        }
    }

    /// The status that `cmd` moves this one to, or the rejection.
    pub fn apply(&self, cmd: &ServiceCommand) -> (r: Result<LifecycleStatus, PuppeterError>)
        ensures
            match next_status(*self, *cmd) {
                Some(n) => r == Ok::<LifecycleStatus, PuppeterError>(n),
                None => r == Err::<LifecycleStatus, PuppeterError>(
                    PuppeterError::InvalidTransition { from: *self },
                ),
            },
    {
        let s = *self;
        let next = match cmd {
            ServiceCommand::InitiateStart => match s {
                LifecycleStatus::Created | LifecycleStatus::Restarting => Some(
                    LifecycleStatus::Active,
                ),
                _ => None,
            },
            ServiceCommand::RequestRestart => match s {
                LifecycleStatus::Active | LifecycleStatus::Failed => Some(
                    LifecycleStatus::Restarting,
                ),
                _ => None,
            },
            ServiceCommand::InitiateStop => match s {
                LifecycleStatus::Stopping | LifecycleStatus::Stopped => None,
                _ => Some(LifecycleStatus::Stopping),
            },
            ServiceCommand::ForceTermination => match s {
                LifecycleStatus::Stopped => None,
                _ => Some(LifecycleStatus::Stopped),
            },
            ServiceCommand::ReportFailure(_) => match s {
                LifecycleStatus::Stopped => None,
                _ => Some(LifecycleStatus::Failed),
            },
        };
        match next {
            Some(n) => Ok(n),
            None => Err(PuppeterError::InvalidTransition { from: s }),
        }
    }
}

} // verus!
