//! The control plane of one actor: each command moves the lifecycle status at
//! most once, is acknowledged to its sender, and every accepted move is
//! published on the status broadcast.
use vstd::prelude::*;

use tokio::sync::watch;

use crate::channels::{publish_status, Delivery, Published};
use crate::errors::PuppeterError;
use crate::lifecycle::{next_status, LifecycleStatus, ServiceCommand};
use crate::message::{answer, ReplyAddress, ReplyOutcome, ServicePacket};

verus! {

/// What the control loop does after one command or event.
#[derive(Debug, Clone, Copy)]
pub struct ControlStep {
    /// The status after the step.
    pub status: LifecycleStatus,
    /// The acknowledgement owed to the command's sender.
    pub ack: Result<(), PuppeterError>,
    /// The value to publish on the status broadcast, if any.
    pub publish: Option<LifecycleStatus>,
    /// Whether the data plane is to be drained now.
    pub drain_mailbox: bool,
    /// Whether the actor's loops are to end.
    pub exit: bool,
}

/// The step that `cmd` causes in status `s`.
pub open spec fn spec_control_step(s: LifecycleStatus, cmd: ServiceCommand) -> ControlStep {
    match next_status(s, cmd) {
        Some(n) => ControlStep {
            status: n,
            ack: Ok(()),
            publish: Some(n),
            drain_mailbox: n == LifecycleStatus::Stopping,
            exit: n == LifecycleStatus::Stopped,
        },
        None => ControlStep {
            status: s,
            ack: Err(PuppeterError::InvalidTransition { from: s }),
            publish: None,
            drain_mailbox: false,
            exit: false,
        },
    }
}

/// The step that ends a stop once the data plane has been drained.
pub open spec fn spec_drained_step(s: LifecycleStatus) -> ControlStep {
    if s == LifecycleStatus::Stopping {
        ControlStep {
            status: LifecycleStatus::Stopped,
            ack: Ok(()),
            publish: Some(LifecycleStatus::Stopped),
            drain_mailbox: false,
            exit: true,
        }
    } else {
        ControlStep {
            status: s,
            ack: Err(PuppeterError::InvalidTransition { from: s }),
            publish: None,
            drain_mailbox: false,
            exit: false,
        }
    }
}

/// Decides what the control loop does with `cmd` in status `s`.
pub fn control_step(s: LifecycleStatus, cmd: &ServiceCommand) -> (r: ControlStep)
    ensures
        r == spec_control_step(s, *cmd),
{
    match s.apply(cmd) {
        Ok(n) => {
            let drain_mailbox = match n {
                LifecycleStatus::Stopping => true,
                _ => false,
            };
            let exit = n.is_terminal();
            ControlStep { status: n, ack: Ok(()), publish: Some(n), drain_mailbox, exit }
        },
        Err(e) => ControlStep {
            status: s,
            ack: Err(e),
            publish: None,
            drain_mailbox: false,
            exit: false,
        },
    }
}

/// Decides what the control loop does once the data plane has been drained.
pub fn drained_step(s: LifecycleStatus) -> (r: ControlStep)
    ensures
        r == spec_drained_step(s),
{
    match s {
        LifecycleStatus::Stopping => ControlStep {
            status: LifecycleStatus::Stopped,
            ack: Ok(()),
            publish: Some(LifecycleStatus::Stopped),
            drain_mailbox: false,
            exit: true,
        },
        _ => ControlStep {
            status: s,
            ack: Err(PuppeterError::InvalidTransition { from: s }),
            publish: None,
            drain_mailbox: false,
            exit: false,
        },
    }
}

/// The reason that an actor holds after `cmd` in status `s`, where it held
/// `reason` before: the detail of an accepted failure report, none after any
/// other accepted command, and the old one after a rejected command.
pub open spec fn spec_failure_after(
    reason: Option<String>,
    s: LifecycleStatus,
    cmd: ServiceCommand,
) -> Option<String> {
    match next_status(s, cmd) {
        None => reason,
        Some(_) => match cmd {
            ServiceCommand::ReportFailure(detail) => detail,
            _ => None,
        },
    }
}

/// The status of one actor together with the statuses handed to its broadcast.
struct StatusRecord {
    status: LifecycleStatus,
    published: Published,
}

impl StatusRecord {
    fn advance(&mut self, tx: &watch::Sender<LifecycleStatus>, s: LifecycleStatus)
        ensures
            final(self).status == s,
            final(self).published@ == old(self).published@.push(s),
        no_unwind
    {
        publish_status(tx, s, &mut self.published);
        self.status = s;
    }
}

/// The state that the control loop of one actor owns: the canonical status,
/// the reason of a failure, and the writing end of its broadcast, which only
/// this loop writes. The value last handed to the broadcast is always the
/// canonical status.
pub struct ControlPlane {
    current: StatusRecord,
    failure: Option<String>,
    status_tx: watch::Sender<LifecycleStatus>,
    last_ack: Delivery<Result<(), PuppeterError>>,
}

impl ControlPlane {
    /// The canonical status.
    pub closed spec fn view(&self) -> LifecycleStatus {
        self.current.status
    }

    /// The detail of the failure report that put the actor in its failed status.
    pub closed spec fn spec_failure(&self) -> Option<String> {
        self.failure
    }

    /// Every status that this plane has handed to the broadcast, oldest first.
    pub closed spec fn published(&self) -> Seq<LifecycleStatus> {
        self.current.published@
    }

    /// The slot of the last command acknowledged, and what it was answered.
    pub closed spec fn last_ack(&self) -> Option<(ReplyAddress<()>, Result<(), PuppeterError>)> {
        self.last_ack@
    }

    #[verifier::type_invariant]
    spec fn last_published_is_status(&self) -> bool {
        self.current.published@.len() > 0 && self.current.published@.last()
            == self.current.status
    }

    /// Takes over the broadcast and publishes `initial` on it.
    pub fn new(status_tx: watch::Sender<LifecycleStatus>, initial: LifecycleStatus) -> (r: Self)
        ensures
            r@ == initial,
            r.published() == seq![initial],
            r.spec_failure() is None,
            r.last_ack() is None,
    {
        let mut published = Published::new();
        publish_status(&status_tx, initial, &mut published);
        ControlPlane {
            current: StatusRecord { status: initial, published },
            failure: None,
            status_tx,
            last_ack: Delivery::new(),
        }
    }

    /// The canonical status, which is also the value last published.
    pub fn status(&self) -> (r: LifecycleStatus)
        ensures
            r == self@,
            self.published().len() > 0,
            self.published().last() == r,
    {
        proof {
            use_type_invariant(self);
        }
        self.current.status
    }

    /// The detail of the failure report that put the actor in its failed status.
    pub fn failure(&self) -> (r: &Option<String>)
        ensures
            *r == self.spec_failure(),
    {
        &self.failure
    }

    /// Applies one command, publishes the new status where the command was
    /// accepted, keeps the detail of an accepted failure report, and
    /// acknowledges the command to its sender.
    pub fn handle_command(&mut self, packet: ServicePacket) -> (r: (ControlStep, ReplyOutcome))
        ensures
            r.0 == spec_control_step(old(self)@, packet.cmd),
            final(self)@ == r.0.status,
            final(self).published() == if r.0.publish is Some {
                old(self).published().push(r.0.status)
            } else {
                old(self).published()
            },
            final(self).spec_failure() == spec_failure_after(
                old(self).spec_failure(),
                old(self)@,
                packet.cmd,
            ),
            final(self).last_ack() == Some((packet.reply_address, r.0.ack)),
            r.1 != ReplyOutcome::NoReplySlot,
    {
        proof {
            use_type_invariant(&*self);
        }
        let ServicePacket { cmd, reply_address } = packet;
        let step = control_step(self.current.status, &cmd);
        if let Some(s) = step.publish {
            self.current.advance(&self.status_tx, s);
            self.failure = match cmd {
                ServiceCommand::ReportFailure(detail) => detail,
                _ => None,
            };
        }
        let mut ack = Delivery::new();
        let outcome = answer(Some(reply_address), step.ack, &mut ack);
        self.last_ack = ack;
        (step, outcome)
    }

    /// Ends a stop once the data plane has been drained.
    pub fn finish_stop(&mut self) -> (r: ControlStep)
        ensures
            r == spec_drained_step(old(self)@),
            final(self)@ == r.status,
            final(self).published() == if r.publish is Some {
                old(self).published().push(r.status)
            } else {
                old(self).published()
            },
            final(self).spec_failure() == old(self).spec_failure(),
            final(self).last_ack() == old(self).last_ack(),
    {
        proof {
            use_type_invariant(&*self);
        }
        let step = drained_step(self.current.status);
        if let Some(s) = step.publish {
            self.current.advance(&self.status_tx, s);
        }
        step
    }
}

} // verus!

verus! {

/// The status after the commands `cmds` have been applied in turn from `s`.
pub open spec fn status_after(s: LifecycleStatus, cmds: Seq<ServiceCommand>) -> LifecycleStatus
    decreases cmds.len(),
{
    if cmds.len() == 0 {
        s
    } else {
        status_after(spec_control_step(s, cmds[0]).status, cmds.drop_first())
    }
}

/// The last value that applying `cmds` in turn from `s` publishes, if any.
pub open spec fn last_published(s: LifecycleStatus, cmds: Seq<ServiceCommand>) -> Option<
    LifecycleStatus,
>
    decreases cmds.len(),
{
    if cmds.len() == 0 {
        None
    } else {
        let step = spec_control_step(s, cmds[0]);
        match last_published(step.status, cmds.drop_first()) {
            Some(x) => Some(x),
            None => step.publish,
        }
    }
}

/// The broadcast holds the latest status, not a log: after any run of
/// commands, the value left on it is the status that the actor ends in, and a
/// run that changed the status has published something.
pub proof fn lemma_broadcast_holds_final_status(s: LifecycleStatus, cmds: Seq<ServiceCommand>)
    ensures
        last_published(s, cmds) matches Some(x) ==> x == status_after(s, cmds),
        status_after(s, cmds) != s ==> last_published(s, cmds) is Some,
    decreases cmds.len(),
{
    if cmds.len() > 0 {
        let step = spec_control_step(s, cmds[0]);
        lemma_broadcast_holds_final_status(step.status, cmds.drop_first());
    }
}

/// A stop, once accepted, moves the actor to stopping and asks for the data
/// plane to be drained; every envelope popped from then on is refused with an
/// error to its caller; a second stop is answered with a rejection, not left
/// waiting; and the end of the drain completes the stop.
pub proof fn lemma_stop_refuses_new_work(s: LifecycleStatus, v: crate::dispatch::ExecutionVariant)
    requires
        next_status(s, ServiceCommand::InitiateStop) is Some,
    ensures
        spec_control_step(s, ServiceCommand::InitiateStop).status == LifecycleStatus::Stopping,
        spec_control_step(s, ServiceCommand::InitiateStop).drain_mailbox,
        crate::dispatch::spec_route(LifecycleStatus::Stopping, v) is Refuse,
        spec_control_step(LifecycleStatus::Stopping, ServiceCommand::InitiateStop).ack is Err,
        spec_drained_step(LifecycleStatus::Stopping).status == LifecycleStatus::Stopped,
        spec_drained_step(LifecycleStatus::Stopping).exit,
{
}

} // verus!
