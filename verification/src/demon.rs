//! A reduced variant of the controller surface whose runner reports errors
//! as plain text instead of the typed [`DaemonError`](crate::error::DaemonError)
//! taxonomy. No controller in this crate implements it; it is kept for
//! callers that want the lifecycle contract with string errors.

use vstd::prelude::*;

use crate::controller::Controller;
use crate::daemon::{run_live, run_start_view};
use crate::error::DaemonError;

verus! {

/// A lifecycle transition delivered to the worker routine; the same
/// three-valued signal as [`crate::daemon::State`].
#[derive(Debug, Clone, Copy, PartialEq, Eq, Structural)]
pub enum State {
    Start,
    Reload,
    Stop,
}

/// The identity of the demon.
pub struct Demon {
    /// Demon name
    pub name: String,
}

/// The install/execute/uninstall protocol around one run, with plain-text
/// errors.
pub trait DemonRunner {
    /// Runs one lifecycle exactly as
    /// [`DaemonRunner::run`](crate::daemon::DaemonRunner::run) does, but a
    /// rejected slot claim is reported as the reentrancy-violation message
    /// rather than as a typed error.
    fn run<F: FnOnce(Controller) -> Controller>(&self, ctrl: Controller, f: F) -> (res: (
        Controller,
        Result<(), String>,
    ))
        requires
            ctrl@.wf(),
            ctrl@.slot is None ==> (forall|ci: Controller|
                ci@ == run_start_view() ==> #[trigger] call_requires(f, (ci,))),
            forall|ci: Controller, co: Controller|
                ci@ == run_start_view() && #[trigger] call_ensures(f, (ci,), co) ==> run_live(co@),
        ensures
            res.0@.wf(),
            ctrl@.slot is Some ==> res.0@ == ctrl@ && (res.1 matches Err(msg) && msg@
                == DaemonError::AlreadyRunning.message_spec()),
            ctrl@.slot is None ==> {
                &&& res.1 == Ok::<(), String>(())
                &&& res.0@.slot is None
                &&& exists|ci: Controller, co: Controller|
                    ci@ == run_start_view() && #[trigger] call_ensures(f, (ci,), co)
            },
    ;
}

} // verus!
