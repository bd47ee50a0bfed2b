//! The public surface of the lifecycle controller: the lifecycle states, the
//! daemon identity, and the runner entry point.

use vstd::prelude::*;

use crate::channel::ChannelView;
use crate::controller::{ContextView, Controller, ControllerView, RunContext};
use crate::error::DaemonError;

verus! {

/// A lifecycle transition delivered to the worker routine.
///
/// `Start` is always the first value a worker observes. `Stop` is terminal:
/// it is delivered at most once and no value follows it. `Reload` has a
/// defined representation but no control-event source currently produces it;
/// it is reserved.
#[derive(Debug, Clone, Copy, PartialEq, Eq, Structural)]
pub enum State {
    Start,
    Reload,
    Stop,
}

/// The identity of the daemon.
///
/// The name is used by the Windows backend to register with the Service
/// Control Manager; a platform that registers a named service requires it to
/// be non-empty.
pub struct Daemon {
    /// Daemon name
    pub name: String,
}

/// The controller state handed to the worker routine: the slot claimed by a
/// fresh context whose worker has just been consumed, and whose channel
/// carries exactly the queued `Start`.
pub open spec fn run_start_view() -> ControllerView {
    ControllerView {
        slot: Some(ContextView { worker_pending: false, channel: ChannelView::fresh() }),
    }
}

/// What a worker routine must leave behind: a well-formed controller whose
/// slot still holds the run. A worker only consumes the channel and fields
/// control events; it does not release the slot — teardown is the
/// controller's own step.
pub open spec fn run_live(v: ControllerView) -> bool {
    v.wf() && v.slot is Some
}

/// The install/execute/uninstall protocol around one run.
pub trait DaemonRunner {
    /// Runs one daemon lifecycle: builds the channel with `Start` queued,
    /// claims the slot, hands the controller to the worker routine, and
    /// releases the slot once the worker returns.
    ///
    /// With another run active, the slot claim fails fast: the call returns
    /// `AlreadyRunning` without the worker being invoked and without
    /// affecting the active run. Otherwise the worker is invoked exactly
    /// once, and the slot is released whatever state the worker leaves the
    /// channel in.
    fn run<F: FnOnce(Controller) -> Controller>(&self, ctrl: Controller, f: F) -> (res: (
        Controller,
        Result<(), DaemonError>,
    ))
        requires
            ctrl@.wf(),
            ctrl@.slot is None ==> (forall|ci: Controller|
                ci@ == run_start_view() ==> #[trigger] call_requires(f, (ci,))),
            forall|ci: Controller, co: Controller|
                ci@ == run_start_view() && #[trigger] call_ensures(f, (ci,), co) ==> run_live(co@),
        ensures
            res.0@.wf(),
            ctrl@.slot is Some ==> res.0@ == ctrl@ && res.1 == Err::<(), DaemonError>(
                DaemonError::AlreadyRunning,
            ),
            ctrl@.slot is None ==> {
                &&& res.1 == Ok::<(), DaemonError>(())
                &&& res.0@.slot is None
                &&& exists|ci: Controller, co: Controller|
                    ci@ == run_start_view() && #[trigger] call_ensures(f, (ci,), co)
            },
    ;
}

impl DaemonRunner for Daemon {
    fn run<F: FnOnce(Controller) -> Controller>(&self, ctrl: Controller, f: F) -> (res: (
        Controller,
        Result<(), DaemonError>,
    )) {
        let mut c = ctrl;
        let ctx = RunContext::new();
        match c.install(ctx) {
            Ok(()) => {},
            Err(e) => {
                return (c, Err(e));
            },
        }
        let took = c.take_worker();
        proof {
            assert(took is Ok);
            assert(c@ =~= run_start_view());
        }
        let mut after = f(c);
        let released = after.uninstall();
        proof {
            assert(released is Ok);
        }
        (after, Ok(()))
    }
}

} // verus!
