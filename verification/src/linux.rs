//! The POSIX backend's decision logic.
//!
//! Termination requests arrive as process signals; the handler runs in
//! signal-handler context and must tolerate being invoked with no run
//! installed and being invoked twice. Registering the dispositions with the
//! operating system is the caller's step; which signals to register, and what
//! a delivery does to the run, is decided here.

use vstd::prelude::*;

use crate::controller::Controller;

verus! {

/// The POSIX interrupt signal.
pub const SIGINT: i32 = 2;

/// The POSIX termination signal.
pub const SIGTERM: i32 = 15;

/// The signals whose delivery requests termination of the run: at minimum
/// the interrupt and terminate signals.
pub fn termination_signals() -> (v: Vec<i32>)
    ensures
        v@ == seq![SIGINT, SIGTERM],
{
    let mut v: Vec<i32> = Vec::new();
    v.push(SIGINT);
    v.push(SIGTERM);
    proof {
        assert(v@ =~= seq![SIGINT, SIGTERM]);
    }
    v
}

/// The handler body for a termination signal: deliver `Stop` to the active
/// run through the take-once producer. Safe when no run is installed (the
/// event is ignored) and when a previous event already delivered (a no-op);
/// the signal number plays no further role, since the disposition is
/// installed only for termination signals.
pub fn signal_handler(ctrl: &mut Controller, _sig: i32)
    requires
        old(ctrl)@.wf(),
    ensures
        final(ctrl)@ == old(ctrl)@.after_stop(),
        final(ctrl)@.wf(),
{
    let _ = ctrl.deliver_stop();
}

} // verus!
