//! The cross-thread notification pump.
//!
//! The host's event sink may only be invoked from the thread that owns it,
//! so the sink handle is marshaled into a single-use portable token, carried
//! to the one dedicated worker thread, and consumed there. Notifications
//! arriving from any thread only raise a pending signal; the worker drains
//! every pending signal at once and delivers one coalesced callback, and
//! retries a failed delivery after a fixed backoff until it succeeds.
//!
//! This module holds the verified decision core: the signal-queue model with
//! its coalescing bound, the worker's transition table, and the single-use
//! token protocol. The thread, the channel and the host callback themselves
//! are the unverified rim's, which drives these decisions.
use vstd::prelude::*;

verus! {

/// A thread-affine reference to the host's event sink. Deliberately
/// neither copyable nor clonable: it moves, once, into the marshal step.
pub struct EventSinkHandle {
    pub id: u64,
}

/// The portable, single-use stand-in for a sink handle. Consuming it is
/// the only way back to a handle, so it is unmarshaled at most once.
pub struct SinkToken {
    pub id: u64,
}

/// Marshals the thread-confined handle into its portable token, consuming
/// the handle: after this the original thread holds nothing to call.
pub fn marshal_sink(h: EventSinkHandle) -> (t: SinkToken)
    ensures
        t.id == h.id,
{
    SinkToken { id: h.id }
}

/// Unmarshals the token on the worker thread, consuming it: the same token
/// can never be redeemed twice.
pub fn unmarshal_sink(t: SinkToken) -> (h: EventSinkHandle)
    ensures
        h.id == t.id,
{
    EventSinkHandle { id: t.id }
}

/// The fixed delay before a failed callback delivery is retried.
pub const RETRY_BACKOFF_MS: u64 = 250;

/// The signal queue between notifiers and the worker: its one observable
/// property is whether a signal is pending; the count only serves the
/// coalescing bound and saturates rather than blocking a producer.
pub struct IRTDUpdateEventWrap {
    pending: u64,
}

/// One event of a pump history, as the model replays it.
#[derive(Clone, Copy, Debug, PartialEq, Eq, Structural)]
pub enum PumpEvent {
    /// A producer raised the signal.
    Notify,
    /// The worker woke, drained everything pending, and — if anything was —
    /// delivered one callback (retrying under the hood until it succeeded).
    Drain,
}

pub open spec fn spec_notify(pending: nat) -> nat {
    if pending < u64::MAX {
        pending + 1
    } else {
        pending
    }
}

/// Replays a history: the pending count it leaves and the number of
/// delivered callbacks.
pub open spec fn spec_run_pump(pending: nat, evts: Seq<PumpEvent>) -> (nat, nat)
    decreases evts.len(),
{
    if evts.len() == 0 {
        (pending, 0)
    } else {
        match evts[0] {
            PumpEvent::Notify => spec_run_pump(spec_notify(pending), evts.skip(1)),
            PumpEvent::Drain => {
                let rest = spec_run_pump(0, evts.skip(1));
                (
                    rest.0,
                    rest.1 + if pending > 0 {
                        1nat
                    } else {
                        0nat
                    },
                )
            },
        }
    }
}

pub open spec fn spec_notify_count(evts: Seq<PumpEvent>) -> nat
    decreases evts.len(),
{
    if evts.len() == 0 {
        0
    } else {
        (if evts[0] is Notify {
            1nat
        } else {
            0nat
        }) + spec_notify_count(evts.skip(1))
    }
}

/// The coalescing bound, upper half: however notifications and worker
/// wake-ups interleave, the worker never delivers more callbacks than
/// notifications were raised.
pub proof fn lemma_pump_upper(pending: nat, evts: Seq<PumpEvent>)
    ensures
        spec_run_pump(pending, evts).1 + spec_run_pump(pending, evts).0 <= pending
            + spec_notify_count(evts),
    decreases evts.len(),
{
    if evts.len() > 0 {
        match evts[0] {
            PumpEvent::Notify => {
                lemma_pump_upper(spec_notify(pending), evts.skip(1));
            },
            PumpEvent::Drain => {
                lemma_pump_upper(0, evts.skip(1));
            },
        }
    }
}

/// The coalescing bound, lower half: once at least one notification has
/// been raised, draining at the end delivers at least one callback — a
/// burst is coalesced, never lost.
pub proof fn lemma_pump_lower(pending: nat, evts: Seq<PumpEvent>)
    requires
        pending + spec_notify_count(evts) >= 1,
    ensures
        spec_run_pump(pending, evts.push(PumpEvent::Drain)).1 >= 1,
    decreases evts.len(),
{
    if evts.len() == 0 {
        assert(evts.push(PumpEvent::Drain)[0] is Drain);
        assert(evts.push(PumpEvent::Drain).skip(1) =~= Seq::<PumpEvent>::empty());
    } else {
        let whole = evts.push(PumpEvent::Drain);
        assert(whole[0] == evts[0]);
        assert(whole.skip(1) =~= evts.skip(1).push(PumpEvent::Drain));
        match evts[0] {
            PumpEvent::Notify => {
                lemma_pump_lower(spec_notify(pending), evts.skip(1));
            },
            PumpEvent::Drain => {
                if pending == 0 {
                    lemma_pump_lower(0, evts.skip(1));
                }
            },
        }
    }
}

/// The coalescing guarantee of one burst: N notifications (N at least 1)
/// interleaved with any worker activity, followed by the worker's final
/// drain, produce between 1 and N delivered callbacks.
pub proof fn lemma_coalescing(evts: Seq<PumpEvent>)
    requires
        spec_notify_count(evts) >= 1,
    ensures
        1 <= spec_run_pump(0, evts.push(PumpEvent::Drain)).1 <= spec_notify_count(evts),
{
    lemma_pump_lower(0, evts);
    lemma_pump_upper(0, evts.push(PumpEvent::Drain));
    lemma_notify_count_push_drain(evts);
}

proof fn lemma_notify_count_push_drain(evts: Seq<PumpEvent>)
    ensures
        spec_notify_count(evts.push(PumpEvent::Drain)) == spec_notify_count(evts),
    decreases evts.len(),
{
    if evts.len() == 0 {
        assert(evts.push(PumpEvent::Drain).skip(1) =~= Seq::<PumpEvent>::empty());
        assert(spec_notify_count(Seq::<PumpEvent>::empty()) == 0);
        assert(spec_notify_count(evts.push(PumpEvent::Drain)) == 0);
    } else {
        assert(evts.push(PumpEvent::Drain).skip(1) =~= evts.skip(1).push(PumpEvent::Drain));
        lemma_notify_count_push_drain(evts.skip(1));
        assert(evts.push(PumpEvent::Drain)[0] == evts[0]);
    }
}

impl IRTDUpdateEventWrap {
    pub closed spec fn spec_pending(self) -> nat {
        self.pending as nat
    }

    /// A fresh dispatcher-side queue with nothing pending. Marshaling the
    /// sink and spawning the one worker thread is the rim's part.
    pub fn new() -> (r: Self)
        ensures
            r.spec_pending() == 0,
    {
        IRTDUpdateEventWrap { pending: 0 }
    }

    /// Raises the signal. Callable from any thread, never blocks, never
    /// reports failure; a saturated counter still means "pending".
    pub fn update_notify(&mut self)
        ensures
            final(self).spec_pending() == spec_notify(old(self).spec_pending()),
            final(self).spec_pending() >= 1,
    {
        if self.pending < u64::MAX {
            self.pending = self.pending + 1;
        }
    }

    /// The worker's wake-up: drains every pending signal at once and says
    /// whether a (single, coalesced) callback delivery is due.
    pub fn worker_drain(&mut self) -> (invoke: bool)
        ensures
            final(self).spec_pending() == 0,
            invoke == (old(self).spec_pending() > 0),
    {
        let had = self.pending > 0;
        self.pending = 0;
        had
    }

    /// Replays a history of notifications and worker wake-ups against the
    /// live queue, counting delivered callbacks, exactly as the model does.
    pub fn run_pump(&mut self, evts: &Vec<PumpEvent>) -> (delivered: u64)
        requires
            evts@.len() < 0x1_0000_0000,
        ensures
            final(self).spec_pending() == spec_run_pump(old(self).spec_pending(), evts@).0,
            delivered == spec_run_pump(old(self).spec_pending(), evts@).1,
    {
        let mut delivered: u64 = 0;
        let mut i: usize = 0;
        proof {
            assert(evts@.skip(0) =~= evts@);
        }
        while i < evts.len()
            invariant
                i <= evts@.len(),
                evts@.len() < 0x1_0000_0000,
                delivered <= i,
                spec_run_pump(old(self).spec_pending(), evts@).0 == spec_run_pump(
                    self.spec_pending(),
                    evts@.skip(i as int),
                ).0,
                spec_run_pump(old(self).spec_pending(), evts@).1 == delivered + spec_run_pump(
                    self.spec_pending(),
                    evts@.skip(i as int),
                ).1,
            decreases evts@.len() - i,
        {
            let ghost rem = evts@.skip(i as int);
            proof {
                assert(rem[0] == evts@[i as int]);
                assert(rem.skip(1) =~= evts@.skip(i + 1));
            }
            match evts[i] {
                PumpEvent::Notify => {
                    self.update_notify();
                },
                PumpEvent::Drain => {
                    if self.worker_drain() {
                        delivered = delivered + 1;
                    }
                },
            }
            i = i + 1;
        }
        proof {
            assert(evts@.skip(i as int) =~= Seq::<PumpEvent>::empty());
            assert(spec_run_pump(self.spec_pending(), Seq::<PumpEvent>::empty()) == (
                self.spec_pending(),
                0nat,
            ));
        }
        delivered
    }

}

/// The worker thread's phase between events.
#[derive(Clone, Copy, Debug, PartialEq, Eq, Structural)]
pub enum WorkerPhase {
    /// Blocked until a signal is pending.
    Waiting,
    /// A coalesced notification is owed to the sink and not yet delivered.
    Delivering,
    /// The signal channel closed; the worker tears down and exits.
    Done,
}

/// What the rim reports to the worker's decision core.
#[derive(Clone, Copy, Debug, PartialEq, Eq, Structural)]
pub enum WorkerEvent {
    /// At least one signal is pending.
    SignalReady,
    /// Every sender is gone; no signal can ever arrive again.
    ChannelClosed,
    /// The sink accepted the callback.
    InvokeOk,
    /// The sink refused the callback.
    InvokeFailed,
}

/// What the worker must do next.
#[derive(Clone, Copy, Debug, PartialEq, Eq, Structural)]
pub enum WorkerAction {
    /// Block on the signal queue.
    WaitForSignal,
    /// Drain every pending signal and invoke the callback once.
    CoalesceAndInvoke,
    /// Sleep for the fixed backoff, then invoke the same callback again.
    RetryAfterBackoff,
    /// Tear down the thread's execution context and exit.
    TearDown,
}

pub open spec fn spec_worker_step(phase: WorkerPhase, event: WorkerEvent) -> (
    WorkerPhase,
    WorkerAction,
) {
    match (phase, event) {
        (WorkerPhase::Waiting, WorkerEvent::SignalReady) => (
            WorkerPhase::Delivering,
            WorkerAction::CoalesceAndInvoke,
        ),
        (WorkerPhase::Waiting, WorkerEvent::ChannelClosed) => (
            WorkerPhase::Done,
            WorkerAction::TearDown,
        ),
        (WorkerPhase::Waiting, _) => (WorkerPhase::Waiting, WorkerAction::WaitForSignal),
        (WorkerPhase::Delivering, WorkerEvent::InvokeOk) => (
            WorkerPhase::Waiting,
            WorkerAction::WaitForSignal,
        ),
        (WorkerPhase::Delivering, _) => (WorkerPhase::Delivering, WorkerAction::RetryAfterBackoff),
        (WorkerPhase::Done, _) => (WorkerPhase::Done, WorkerAction::TearDown),
    }
}

/// The worker's transition table: a pending signal turns into exactly one
/// coalesced delivery attempt; a failed delivery is retried after the fixed
/// backoff and never dropped; a closed channel ends the worker. A failed
/// marshal step never reaches this table — the rim exits the worker before
/// its loop starts, since no valid handle exists to retry with.
pub fn worker_step(phase: WorkerPhase, event: WorkerEvent) -> (r: (WorkerPhase, WorkerAction))
    ensures
        r == spec_worker_step(phase, event),
        phase == WorkerPhase::Delivering && event == WorkerEvent::InvokeFailed ==> r.0
            == WorkerPhase::Delivering && r.1 == WorkerAction::RetryAfterBackoff,
        event == WorkerEvent::ChannelClosed && phase != WorkerPhase::Delivering ==> r.0
            == WorkerPhase::Done,
{
    match (phase, event) {
        (WorkerPhase::Waiting, WorkerEvent::SignalReady) => (
            WorkerPhase::Delivering,
            WorkerAction::CoalesceAndInvoke,
        ),
        (WorkerPhase::Waiting, WorkerEvent::ChannelClosed) => (
            WorkerPhase::Done,
            WorkerAction::TearDown,
        ),
        (WorkerPhase::Waiting, _) => (WorkerPhase::Waiting, WorkerAction::WaitForSignal),
        (WorkerPhase::Delivering, WorkerEvent::InvokeOk) => (
            WorkerPhase::Waiting,
            WorkerAction::WaitForSignal,
        ),
        (WorkerPhase::Delivering, _) => (WorkerPhase::Delivering, WorkerAction::RetryAfterBackoff),
        (WorkerPhase::Done, _) => (WorkerPhase::Done, WorkerAction::TearDown),
    }
}

} // verus!
