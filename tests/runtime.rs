use std::sync::atomic::{AtomicBool, Ordering};
use std::sync::Arc;
use std::time::Duration;

use puppeter::address::{Address, Pid};
use puppeter::channels::Delivery;
use puppeter::control::{control_step, drained_step, ControlPlane};
use puppeter::dispatch::{route, route_envelope, ExecutionVariant, Route};
use puppeter::errors::PuppeterError;
use puppeter::lifecycle::{LifecycleStatus, ServiceCommand};
use puppeter::message::{
    answer, resolve_reply, resolve_send, resolve_timed_reply, Envelope, Mailbox, Packet, Postman,
    ReplyOutcome, ServicePacket,
};
use tokio::sync::{mpsc, oneshot, watch};

fn runtime() -> tokio::runtime::Runtime {
    tokio::runtime::Builder::new_multi_thread()
        .worker_threads(2)
        .enable_time()
        .build()
        .unwrap()
}

#[test]
fn start_moves_created_to_active() {
    assert_eq!(
        LifecycleStatus::Created.apply(&ServiceCommand::InitiateStart),
        Ok(LifecycleStatus::Active)
    );
    assert_eq!(
        LifecycleStatus::Restarting.apply(&ServiceCommand::InitiateStart),
        Ok(LifecycleStatus::Active)
    );
}

#[test]
fn stop_twice_is_rejected() {
    let s = LifecycleStatus::Active.apply(&ServiceCommand::InitiateStop).unwrap();
    assert_eq!(s, LifecycleStatus::Stopping);
    assert_eq!(
        s.apply(&ServiceCommand::InitiateStop),
        Err(PuppeterError::InvalidTransition { from: LifecycleStatus::Stopping })
    );
    assert_eq!(
        LifecycleStatus::Stopped.apply(&ServiceCommand::InitiateStop),
        Err(PuppeterError::InvalidTransition { from: LifecycleStatus::Stopped })
    );
}

#[test]
fn restart_and_failure_transitions() {
    assert_eq!(
        LifecycleStatus::Active.apply(&ServiceCommand::RequestRestart),
        Ok(LifecycleStatus::Restarting)
    );
    assert_eq!(
        LifecycleStatus::Created.apply(&ServiceCommand::RequestRestart),
        Err(PuppeterError::InvalidTransition { from: LifecycleStatus::Created })
    );
    assert_eq!(
        LifecycleStatus::Stopping.apply(&ServiceCommand::ReportFailure(Some("disk".to_string()))),
        Ok(LifecycleStatus::Failed)
    );
    assert_eq!(
        LifecycleStatus::Failed.apply(&ServiceCommand::ReportFailure(None)),
        Ok(LifecycleStatus::Failed)
    );
    assert_eq!(
        LifecycleStatus::Stopped.apply(&ServiceCommand::ReportFailure(None)),
        Err(PuppeterError::InvalidTransition { from: LifecycleStatus::Stopped })
    );
    assert_eq!(
        LifecycleStatus::Failed.apply(&ServiceCommand::RequestRestart),
        Ok(LifecycleStatus::Restarting)
    );
    assert_eq!(
        LifecycleStatus::Created.apply(&ServiceCommand::ForceTermination),
        Ok(LifecycleStatus::Stopped)
    );
    assert!(LifecycleStatus::Stopped.is_terminal());
    assert!(!LifecycleStatus::Failed.is_terminal());
}

#[test]
fn control_step_stop_drains_and_force_exits() {
    let step = control_step(LifecycleStatus::Active, &ServiceCommand::InitiateStop);
    assert_eq!(step.status, LifecycleStatus::Stopping);
    assert_eq!(step.ack, Ok(()));
    assert_eq!(step.publish, Some(LifecycleStatus::Stopping));
    assert!(step.drain_mailbox);
    assert!(!step.exit);

    let done = drained_step(step.status);
    assert_eq!(done.status, LifecycleStatus::Stopped);
    assert!(done.exit);

    let force = control_step(LifecycleStatus::Active, &ServiceCommand::ForceTermination);
    assert_eq!(force.status, LifecycleStatus::Stopped);
    assert!(force.exit);
    assert!(!force.drain_mailbox);

    let rejected = control_step(LifecycleStatus::Stopped, &ServiceCommand::InitiateStart);
    assert_eq!(rejected.status, LifecycleStatus::Stopped);
    assert_eq!(rejected.publish, None);
    assert_eq!(
        rejected.ack,
        Err(PuppeterError::InvalidTransition { from: LifecycleStatus::Stopped })
    );
    let idle = drained_step(LifecycleStatus::Active);
    assert_eq!(idle.status, LifecycleStatus::Active);
    assert!(!idle.exit);
}

fn command(cmd: ServiceCommand) -> (ServicePacket, oneshot::Receiver<Result<(), PuppeterError>>) {
    let (tx, rx) = oneshot::channel();
    (ServicePacket { cmd, reply_address: tx }, rx)
}

#[test]
fn broadcast_shows_latest_status_only() {
    let (tx, rx) = watch::channel(LifecycleStatus::Stopped);
    let mut early = rx.clone();
    let mut plane = ControlPlane::new(tx, LifecycleStatus::Created);
    assert_eq!(plane.status(), LifecycleStatus::Created);
    early.borrow_and_update();

    for cmd in [ServiceCommand::InitiateStart, ServiceCommand::RequestRestart, ServiceCommand::InitiateStart] {
        let (packet, mut ack) = command(cmd);
        let (_, outcome) = plane.handle_command(packet);
        assert_eq!(outcome, ReplyOutcome::Delivered);
        assert_eq!(ack.try_recv().unwrap(), Ok(()));
    }
    let late = rx.clone();
    assert!(early.has_changed().unwrap());
    assert_eq!(*early.borrow_and_update(), LifecycleStatus::Active);
    assert!(!early.has_changed().unwrap());
    assert_eq!(*late.borrow(), LifecycleStatus::Active);
    assert_eq!(plane.status(), LifecycleStatus::Active);
}

#[test]
fn rejected_command_is_acknowledged_and_not_published() {
    let (tx, mut rx) = watch::channel(LifecycleStatus::Created);
    let mut plane = ControlPlane::new(tx, LifecycleStatus::Created);
    rx.borrow_and_update();
    let (packet, mut ack) = command(ServiceCommand::RequestRestart);
    let (step, _) = plane.handle_command(packet);
    assert_eq!(step.publish, None);
    assert_eq!(
        ack.try_recv().unwrap(),
        Err(PuppeterError::InvalidTransition { from: LifecycleStatus::Created })
    );
    assert!(!rx.has_changed().unwrap());
    assert_eq!(plane.status(), LifecycleStatus::Created);
}

#[test]
fn stop_then_drain_finishes_stop() {
    let (tx, rx) = watch::channel(LifecycleStatus::Active);
    let mut plane = ControlPlane::new(tx, LifecycleStatus::Active);
    let (packet, mut ack) = command(ServiceCommand::InitiateStop);
    let (step, _) = plane.handle_command(packet);
    assert!(step.drain_mailbox);
    assert_eq!(ack.try_recv().unwrap(), Ok(()));
    assert_eq!(*rx.borrow(), LifecycleStatus::Stopping);
    let done = plane.finish_stop();
    assert!(done.exit);
    assert_eq!(*rx.borrow(), LifecycleStatus::Stopped);
}

#[test]
fn packet_with_reply_round_trip() {
    let (tx, mut rx) = oneshot::channel::<Result<u32, PuppeterError>>();
    let mut packet: Packet<u32, u32> = Packet::with_reply(20, tx);
    let m = packet.take_message().unwrap();
    assert_eq!(packet.take_message(), None);
    assert_eq!(packet.reply(m + 22), ReplyOutcome::Delivered);
    assert_eq!(resolve_reply(rx.try_recv().map_err(|_| unreachable!())), Ok(42));
}

#[test]
fn packet_without_reply_sends_nothing() {
    let mut packet: Packet<&str, u32> = Packet::without_reply("ping");
    assert_eq!(packet.take_message(), Some("ping"));
    assert_eq!(packet.reply(7), ReplyOutcome::NoReplySlot);
    assert_eq!(packet.reply_error(PuppeterError::ResponseTimeout), ReplyOutcome::NoReplySlot);
}

#[test]
fn reply_after_caller_gave_up_is_discarded() {
    let (tx, rx) = oneshot::channel::<Result<u32, PuppeterError>>();
    drop(rx);
    let mut packet: Packet<u32, u32> = Packet::with_reply(1, tx);
    assert_eq!(packet.reply(2), ReplyOutcome::ReceiverGone);
    assert_eq!(packet.reply(3), ReplyOutcome::NoReplySlot);
}

#[test]
fn reply_error_reaches_caller() {
    let (tx, rx) = oneshot::channel::<Result<u32, PuppeterError>>();
    let mut packet: Packet<u32, u32> = Packet::with_reply(1, tx);
    assert_eq!(packet.reply_error(PuppeterError::MessageSendError), ReplyOutcome::Delivered);
    assert_eq!(resolve_reply(rx.blocking_recv()), Err(PuppeterError::MessageSendError));
}

#[test]
fn take_reply_address_leaves_no_slot() {
    let (tx, rx) = oneshot::channel::<Result<u32, PuppeterError>>();
    let mut packet: Packet<u32, u32> = Packet::with_reply(1, tx);
    let slot = packet.take_reply_address();
    assert_eq!(packet.reply(5), ReplyOutcome::NoReplySlot);
    assert_eq!(answer(slot, Ok(9), &mut Delivery::new()), ReplyOutcome::Delivered);
    assert_eq!(resolve_reply(rx.blocking_recv()), Ok(9));
}

#[test]
fn ask_on_gone_actor_is_receive_failure() {
    let (tx, rx) = oneshot::channel::<Result<u32, PuppeterError>>();
    let packet: Packet<u32, u32> = Packet::with_reply(1, tx);
    drop(packet);
    assert_eq!(
        resolve_reply(rx.blocking_recv()),
        Err(PuppeterError::MessageResponseReceiveError)
    );
}

#[test]
fn ask_with_timeout_times_out_and_handler_finishes() {
    let rt = runtime();
    let finished = Arc::new(AtomicBool::new(false));
    let (tx, rx) = oneshot::channel::<Result<u32, PuppeterError>>();
    let mut packet: Packet<u32, u32> = Packet::with_reply(5, tx);
    let flag = finished.clone();
    let handler = rt.spawn(async move {
        tokio::time::sleep(Duration::from_millis(200)).await;
        let m = packet.take_message().unwrap();
        let outcome = packet.reply(m * 2);
        flag.store(true, Ordering::SeqCst);
        outcome
    });
    let result = rt.block_on(async { tokio::time::timeout(Duration::from_millis(20), rx).await });
    assert_eq!(resolve_timed_reply(result), Err(PuppeterError::ResponseTimeout));
    assert!(!finished.load(Ordering::SeqCst));
    let outcome = rt.block_on(handler).unwrap();
    assert!(finished.load(Ordering::SeqCst));
    assert_eq!(outcome, ReplyOutcome::ReceiverGone);
}

#[test]
fn timed_reply_in_time_is_the_response() {
    let rt = runtime();
    let (tx, rx) = oneshot::channel::<Result<u32, PuppeterError>>();
    let mut packet: Packet<u32, u32> = Packet::with_reply(5, tx);
    assert_eq!(packet.reply(11), ReplyOutcome::Delivered);
    let result = rt.block_on(async { tokio::time::timeout(Duration::from_secs(5), rx).await });
    assert_eq!(resolve_timed_reply(result), Ok(11));
}

#[test]
fn send_to_closed_mailbox_fails() {
    let rt = runtime();
    let (tx, rx) = mpsc::channel::<Packet<u32, u32>>(4);
    let postman = Postman::new(tx);
    let sent = rt.block_on(postman.sender().send(Packet::without_reply(1)));
    assert_eq!(resolve_send(sent), Ok(()));
    drop(rx);
    let sent = rt.block_on(postman.clone().sender().send(Packet::without_reply(2)));
    assert_eq!(resolve_send(sent), Err(PuppeterError::MessageSendError));
}

#[test]
fn sequential_mailbox_is_fifo() {
    let rt = runtime();
    let (tx, rx) = mpsc::channel::<Packet<u32, u32>>(8);
    let postman = Postman::new(tx);
    let mut mailbox = Mailbox::new(rx);
    let producer = rt.spawn(async move {
        for i in 0..20u32 {
            resolve_send(postman.sender().send(Packet::without_reply(i)).await).unwrap();
            if i % 4 == 3 {
                tokio::task::yield_now().await;
            }
        }
    });
    let seen = rt.block_on(async {
        let mut seen = Vec::new();
        while let Some(mut packet) = mailbox.receiver().recv().await {
            let (r, _) = route_envelope(&mut packet, LifecycleStatus::Active, ExecutionVariant::Sequential);
            assert_eq!(r, Route::InPlace);
            seen.push(packet.take_message().unwrap());
        }
        seen
    });
    rt.block_on(producer).unwrap();
    assert_eq!(seen, (0..20u32).collect::<Vec<_>>());
}

#[test]
fn concurrent_handlers_all_complete() {
    let rt = runtime();
    let n = 16u32;
    let mut receivers = Vec::new();
    let mut started = Vec::new();
    for i in 0..n {
        let (tx, rx) = oneshot::channel::<Result<u32, PuppeterError>>();
        receivers.push(rx);
        let mut packet: Packet<u32, u32> = Packet::with_reply(i, tx);
        let (r, _) = route_envelope(&mut packet, LifecycleStatus::Active, ExecutionVariant::Concurrent);
        assert_eq!(r, Route::SnapshotTask);
        assert!(!r.mutates_live_state());
        started.push(i);
        rt.spawn(async move {
            let m = packet.take_message().unwrap();
            tokio::time::sleep(Duration::from_millis(u64::from((n - m) % 5))).await;
            packet.reply(m * 10);
        });
    }
    assert_eq!(started, (0..n).collect::<Vec<_>>());
    let answers: Vec<u32> = rt.block_on(async {
        let mut out = Vec::new();
        for rx in receivers {
            out.push(resolve_reply(rx.await).unwrap());
        }
        out
    });
    assert_eq!(answers.len(), n as usize);
    assert_eq!(answers, (0..n).map(|i| i * 10).collect::<Vec<_>>());
}

#[test]
fn stopping_actor_refuses_envelopes() {
    let (tx, rx) = oneshot::channel::<Result<u32, PuppeterError>>();
    let mut packet: Packet<u32, u32> = Packet::with_reply(1, tx);
    let (r, outcome) = route_envelope(&mut packet, LifecycleStatus::Stopping, ExecutionVariant::Sequential);
    assert_eq!(r, Route::Refuse(PuppeterError::ActorUnavailable { status: LifecycleStatus::Stopping }));
    assert_eq!(outcome, ReplyOutcome::Delivered);
    assert_eq!(
        resolve_reply(rx.blocking_recv()),
        Err(PuppeterError::ActorUnavailable { status: LifecycleStatus::Stopping })
    );
}

#[test]
fn routes_by_variant() {
    assert_eq!(route(LifecycleStatus::Active, ExecutionVariant::Sequential), Route::InPlace);
    assert_eq!(route(LifecycleStatus::Created, ExecutionVariant::Concurrent), Route::SnapshotTask);
    assert_eq!(route(LifecycleStatus::Restarting, ExecutionVariant::Parallel), Route::SnapshotPool);
    assert_eq!(
        route(LifecycleStatus::Failed, ExecutionVariant::Parallel),
        Route::Refuse(PuppeterError::ActorUnavailable { status: LifecycleStatus::Failed })
    );
    assert!(Route::InPlace.mutates_live_state());
    assert!(!Route::SnapshotPool.mutates_live_state());
}

#[test]
fn address_reads_status_and_clones_share_channels() {
    let (status_tx, status_rx) = watch::channel(LifecycleStatus::Created);
    let (tx, mut rx) = mpsc::channel::<Packet<u32, u32>>(4);
    let address = Address::new(Pid::new(7), status_rx, Postman::new(tx));
    assert_eq!(address.pid.id(), 7);
    assert_eq!(address.get_status(), LifecycleStatus::Created);
    let copy = address.clone();
    let mut sub = copy.status_subscribe();
    status_tx.send_replace(LifecycleStatus::Active);
    assert_eq!(address.get_status(), LifecycleStatus::Active);
    assert_eq!(copy.get_status(), LifecycleStatus::Active);
    assert!(sub.has_changed().unwrap());
    assert_eq!(*sub.borrow_and_update(), LifecycleStatus::Active);
    copy.postman().sender().try_send(Packet::without_reply(3)).map_err(|_| ()).unwrap();
    assert_eq!(rx.try_recv().map_err(|_| ()).unwrap().take_message(), Some(3));
    assert_eq!(copy.pid, Pid::new(7));
    assert_eq!(copy.describe(), "Address(7)");
    let big = Address::new(Pid::new(4096), status_tx.subscribe(), copy.postman().clone());
    assert_eq!(big.describe(), "Address(4096)");
}

#[test]
fn failure_reason_is_kept_until_the_actor_leaves_failed() {
    let (tx, rx) = watch::channel(LifecycleStatus::Created);
    let mut plane = ControlPlane::new(tx, LifecycleStatus::Active);
    assert_eq!(plane.failure(), &None);

    let (packet, mut ack) = command(ServiceCommand::ReportFailure(Some("disk".to_string())));
    plane.handle_command(packet);
    assert_eq!(ack.try_recv().unwrap(), Ok(()));
    assert_eq!(plane.status(), LifecycleStatus::Failed);
    assert_eq!(plane.failure(), &Some("disk".to_string()));

    let (packet, mut ack) = command(ServiceCommand::ReportFailure(Some("net".to_string())));
    plane.handle_command(packet);
    assert_eq!(ack.try_recv().unwrap(), Ok(()));
    assert_eq!(*rx.borrow(), LifecycleStatus::Failed);
    assert_eq!(plane.failure(), &Some("net".to_string()));

    let (packet, mut ack) = command(ServiceCommand::InitiateStart);
    plane.handle_command(packet);
    assert!(ack.try_recv().unwrap().is_err());
    assert_eq!(plane.failure(), &Some("net".to_string()));

    let (packet, _ack) = command(ServiceCommand::RequestRestart);
    plane.handle_command(packet);
    assert_eq!(plane.status(), LifecycleStatus::Restarting);
    assert_eq!(plane.failure(), &None);
}
