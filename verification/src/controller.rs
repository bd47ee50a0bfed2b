//! The global slot and its reentrancy guard.
//!
//! A [`Controller`] is the single slot that tracks the active run: empty when
//! no run is active, otherwise holding the [`RunContext`] of the current one.
//! Install and uninstall are compare-and-set steps — install succeeds only on
//! an empty slot, uninstall only on an occupied one — which makes "one active
//! run at a time" an enforced invariant rather than a convention. Control
//! events reach the run's channel only through the slot, so a termination
//! event delivered while no run is active is a provable no-op.

use vstd::prelude::*;

use crate::channel::{ChannelView, StateChannel};
use crate::daemon::State;
use crate::error::DaemonError;

verus! {

/// What a termination event achieved.
#[derive(Debug, Clone, Copy, PartialEq, Eq, Structural)]
pub enum StopDelivery {
    /// This event took the producer and sent `Stop`.
    Delivered,
    /// A previous event already sent `Stop`; this one was a no-op.
    AlreadyStopped,
    /// No run is active; the event was ignored.
    NoActiveRun,
}

/// The abstract content of a run context: whether the worker routine is
/// still unconsumed, and the channel of the run.
#[verifier::ext_equal]
pub struct ContextView {
    pub worker_pending: bool,
    pub channel: ChannelView,
}

impl ContextView {
    /// A context just built: the worker not yet consumed, the channel fresh.
    pub open spec fn fresh() -> ContextView {
        ContextView { worker_pending: true, channel: ChannelView::fresh() }
    }

    pub open spec fn wf(self) -> bool {
        self.channel.wf()
    }
}

/// The abstract content of the global slot: empty, or the context of the
/// active run.
#[verifier::ext_equal]
pub struct ControllerView {
    pub slot: Option<ContextView>,
}

impl ControllerView {
    pub open spec fn wf(self) -> bool {
        self.slot is Some ==> self.slot->0.wf()
    }

    /// Install is a compare-and-set: it fills an empty slot and leaves an
    /// occupied one untouched.
    pub open spec fn after_install(self, ctx: ContextView) -> ControllerView {
        if self.slot is None {
            ControllerView { slot: Some(ctx) }
        } else {
            self
        }
    }

    /// Install succeeds exactly on an empty slot; an occupied one is a
    /// reentrancy violation.
    pub open spec fn install_result(self) -> Result<(), DaemonError> {
        if self.slot is None {
            Ok(())
        } else {
            Err(DaemonError::AlreadyRunning)
        }
    }

    /// Uninstall clears the slot.
    pub open spec fn after_uninstall(self) -> ControllerView {
        ControllerView { slot: None }
    }

    /// Uninstall succeeds exactly on an occupied slot: clearing an empty one
    /// is a mismatch of the compare-and-set.
    pub open spec fn uninstall_result(self) -> Result<(), DaemonError> {
        if self.slot is Some {
            Ok(())
        } else {
            Err(DaemonError::SlotMismatch)
        }
    }

    /// Consuming the worker routine: pending becomes false, once.
    pub open spec fn after_take_worker(self) -> ControllerView {
        if self.slot is Some && self.slot->0.worker_pending {
            ControllerView {
                slot: Some(ContextView { worker_pending: false, ..self.slot->0 }),
            }
        } else {
            self
        }
    }

    /// The worker routine is handed out exactly once per run.
    pub open spec fn take_worker_result(self) -> Result<(), DaemonError> {
        if self.slot is Some && self.slot->0.worker_pending {
            Ok(())
        } else {
            Err(DaemonError::WorkerMissing)
        }
    }

    /// A termination event goes through the slot to the channel's take-once
    /// producer; with no run active it changes nothing.
    pub open spec fn after_stop(self) -> ControllerView {
        if self.slot is Some {
            ControllerView {
                slot: Some(ContextView { channel: self.slot->0.channel.after_stop(), ..self.slot->0 }),
            }
        } else {
            self
        }
    }

    /// What a termination event achieves, by slot and producer state.
    pub open spec fn stop_outcome(self) -> StopDelivery {
        if self.slot is None {
            StopDelivery::NoActiveRun
        } else if self.slot->0.channel.sender_alive {
            StopDelivery::Delivered
        } else {
            StopDelivery::AlreadyStopped
        }
    }

    /// The worker's receive step, through the slot.
    pub open spec fn after_recv(self) -> ControllerView {
        if self.slot is Some {
            ControllerView {
                slot: Some(ContextView { channel: self.slot->0.channel.after_recv(), ..self.slot->0 }),
            }
        } else {
            self
        }
    }

    /// What the worker receives: the front of the active run's queue, or
    /// `None` with no run active or nothing pending.
    pub open spec fn recv_result(self) -> Option<State> {
        if self.slot is Some {
            self.slot->0.channel.recv_result()
        } else {
            None
        }
    }
}

/// The per-run state: ownership of the worker routine (consumed exactly
/// once) and the state channel whose producer the first termination event
/// takes.
pub struct RunContext {
    worker_pending: bool,
    channel: StateChannel,
}

impl View for RunContext {
    type V = ContextView;

    closed spec fn view(&self) -> ContextView {
        ContextView { worker_pending: self.worker_pending, channel: self.channel@ }
    }
}

impl RunContext {
    /// Builds the context of a fresh run: its channel already carries
    /// `Start`, and the worker routine has not been consumed.
    pub fn new() -> (ctx: RunContext)
        ensures
            ctx@ == ContextView::fresh(),
            ctx@.wf(),
    {
        let ctx = RunContext { worker_pending: true, channel: StateChannel::new() };
        proof {
            assert(ctx@ =~= ContextView::fresh());
        }
        ctx
    }
}

/// The global slot: at most one run context, and the lock-free sequential
/// core of every operation on it.
pub struct Controller {
    slot: Option<RunContext>,
}

impl View for Controller {
    type V = ControllerView;

    closed spec fn view(&self) -> ControllerView {
        ControllerView {
            slot: match self.slot {
                Some(ref ctx) => Some(ctx@),
                None => None,
            },
        }
    }
}

impl Controller {
    /// A controller with an empty slot: no run active.
    pub fn new() -> (c: Controller)
        ensures
            c@ == (ControllerView { slot: None }),
            c@.wf(),
    {
        Controller { slot: None }
    }

    /// Claims the slot for a run: succeeds exactly when the slot is empty,
    /// and fails fast with `AlreadyRunning` — leaving the active run
    /// untouched — otherwise.
    pub fn install(&mut self, ctx: RunContext) -> (r: Result<(), DaemonError>)
        requires
            old(self)@.wf(),
            ctx@.wf(),
        ensures
            final(self)@ == old(self)@.after_install(ctx@),
            final(self)@.wf(),
            r == old(self)@.install_result(),
    {
        match self.slot {
            None => {
                self.slot = Some(ctx);
                Ok(())
            },
            Some(_) => Err(DaemonError::AlreadyRunning),
        }
    }

    /// Releases the slot at teardown: succeeds exactly when a run is
    /// installed; the context is dropped with its channel.
    pub fn uninstall(&mut self) -> (r: Result<(), DaemonError>)
        requires
            old(self)@.wf(),
        ensures
            final(self)@ == old(self)@.after_uninstall(),
            final(self)@.wf(),
            r == old(self)@.uninstall_result(),
    {
        match self.slot.take() {
            Some(_) => Ok(()),
            None => Err(DaemonError::SlotMismatch),
        }
    }

    /// Hands the worker routine out, exactly once per run: a second request
    /// — or one with no run active — reports it missing.
    pub fn take_worker(&mut self) -> (r: Result<(), DaemonError>)
        requires
            old(self)@.wf(),
        ensures
            final(self)@ == old(self)@.after_take_worker(),
            final(self)@.wf(),
            r == old(self)@.take_worker_result(),
    {
        match &mut self.slot {
            Some(ctx) => {
                if ctx.worker_pending {
                    ctx.worker_pending = false;
                    proof {
                        assert(self@ =~= old(self)@.after_take_worker());
                    }
                    Ok(())
                } else {
                    Err(DaemonError::WorkerMissing)
                }
            },
            None => Err(DaemonError::WorkerMissing),
        }
    }

    /// Delivers a termination event to the active run, through the take-once
    /// producer: the first event sends `Stop`, a repeated one is a safe
    /// no-op, and with no run active nothing happens at all.
    pub fn deliver_stop(&mut self) -> (r: StopDelivery)
        requires
            old(self)@.wf(),
        ensures
            final(self)@ == old(self)@.after_stop(),
            final(self)@.wf(),
            r == old(self)@.stop_outcome(),
    {
        match &mut self.slot {
            Some(ctx) => {
                let delivered = ctx.channel.deliver_stop();
                proof {
                    assert(self@ =~= old(self)@.after_stop());
                }
                if delivered {
                    StopDelivery::Delivered
                } else {
                    StopDelivery::AlreadyStopped
                }
            },
            None => StopDelivery::NoActiveRun,
        }
    }

    /// The worker's receive step: the next state of the active run, or
    /// `None` with nothing pending or no run active.
    pub fn recv(&mut self) -> (r: Option<State>)
        requires
            old(self)@.wf(),
        ensures
            final(self)@ == old(self)@.after_recv(),
            final(self)@.wf(),
            r == old(self)@.recv_result(),
    {
        match &mut self.slot {
            Some(ctx) => {
                let r = ctx.channel.recv();
                proof {
                    assert(self@ =~= old(self)@.after_recv());
                }
                r
            },
            None => None,
        }
    }
}

/// Two runs claiming the slot: the first install fills the empty slot, and
/// the second is rejected with `AlreadyRunning` while the first run's
/// context stays exactly as it was.
pub proof fn lemma_second_install_rejected(v: ControllerView, c1: ContextView, c2: ContextView)
    requires
        v.slot is None,
    ensures
        v.after_install(c1).slot == Some(c1),
        v.after_install(c1).install_result() == Err::<(), DaemonError>(DaemonError::AlreadyRunning),
        v.after_install(c1).after_install(c2) == v.after_install(c1),
{
}

/// Once a slot has been released, the next install succeeds: a completed
/// run never leaves the slot stuck.
pub proof fn lemma_released_slot_accepts_install(v: ControllerView, c: ContextView)
    requires
        v.slot is None,
    ensures
        v.install_result() == Ok::<(), DaemonError>(()),
        v.after_install(c).slot == Some(c),
{
}

/// Two termination events back-to-back: at most the first delivers `Stop`,
/// and the second leaves the controller exactly as the first left it.
pub proof fn lemma_second_termination_is_noop(v: ControllerView)
    requires
        v.wf(),
    ensures
        v.after_stop().after_stop() == v.after_stop(),
        v.after_stop().stop_outcome() != StopDelivery::Delivered,
        v.stop_outcome() == StopDelivery::Delivered ==> v.after_stop().stop_outcome()
            == StopDelivery::AlreadyStopped,
{
    if v.slot is Some {
        crate::channel::lemma_second_stop_is_noop(v.slot->0.channel);
        assert(v.after_stop().after_stop() =~= v.after_stop());
    }
}

} // verus!
