use netidx_excel::dispatch::{
    marshal_sink, unmarshal_sink, worker_step, EventSinkHandle, IRTDUpdateEventWrap, PumpEvent,
    WorkerAction, WorkerEvent, WorkerPhase, RETRY_BACKOFF_MS,
};

#[test]
fn a_burst_coalesces_into_one_delivery() {
    let mut q = IRTDUpdateEventWrap::new();
    let evts = vec![
        PumpEvent::Notify,
        PumpEvent::Notify,
        PumpEvent::Notify,
        PumpEvent::Notify,
        PumpEvent::Notify,
        PumpEvent::Drain,
    ];
    assert_eq!(q.run_pump(&evts), 1);
}

#[test]
fn interleaved_drains_deliver_between_one_and_n() {
    let mut q = IRTDUpdateEventWrap::new();
    let evts = vec![
        PumpEvent::Notify,
        PumpEvent::Drain,
        PumpEvent::Notify,
        PumpEvent::Notify,
        PumpEvent::Drain,
    ];
    let delivered = q.run_pump(&evts);
    assert_eq!(delivered, 2);
    assert!(1 <= delivered && delivered <= 3);
}

#[test]
fn draining_an_idle_queue_delivers_nothing() {
    let mut q = IRTDUpdateEventWrap::new();
    assert_eq!(q.run_pump(&vec![PumpEvent::Drain, PumpEvent::Drain]), 0);
}

#[test]
fn notify_then_drain_directly() {
    let mut q = IRTDUpdateEventWrap::new();
    q.update_notify();
    q.update_notify();
    assert!(q.worker_drain());
    assert!(!q.worker_drain());
}

#[test]
fn worker_transition_table() {
    assert_eq!(
        worker_step(WorkerPhase::Waiting, WorkerEvent::SignalReady),
        (WorkerPhase::Delivering, WorkerAction::CoalesceAndInvoke)
    );
    assert_eq!(
        worker_step(WorkerPhase::Waiting, WorkerEvent::ChannelClosed),
        (WorkerPhase::Done, WorkerAction::TearDown)
    );
    assert_eq!(
        worker_step(WorkerPhase::Delivering, WorkerEvent::InvokeFailed),
        (WorkerPhase::Delivering, WorkerAction::RetryAfterBackoff)
    );
    assert_eq!(
        worker_step(WorkerPhase::Delivering, WorkerEvent::InvokeOk),
        (WorkerPhase::Waiting, WorkerAction::WaitForSignal)
    );
    assert_eq!(
        worker_step(WorkerPhase::Done, WorkerEvent::SignalReady),
        (WorkerPhase::Done, WorkerAction::TearDown)
    );
    assert_eq!(RETRY_BACKOFF_MS, 250);
}

#[test]
fn token_round_trip_preserves_the_handle() {
    let h = EventSinkHandle { id: 42 };
    let t = marshal_sink(h);
    let h2 = unmarshal_sink(t);
    assert_eq!(h2.id, 42);
}
