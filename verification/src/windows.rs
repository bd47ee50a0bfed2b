//! The Windows backend's decision logic.
//!
//! A Windows build has two mutually exclusive modes, selected by attempting
//! to register with the Service Control Manager's dispatcher: service mode,
//! in which a service control handler fields STOP and SHUTDOWN control codes
//! and the service reports its status while the worker runs, and console
//! mode, in which a console control handler fields console events.
//! Performing the actual API calls is the caller's step; everything those
//! calls need decided — the mode, the status values, the handler responses,
//! the wide-string service name — is decided here, and both modes deliver
//! `Stop` through the same take-once protocol as the POSIX handler.

use vstd::prelude::*;

use crate::controller::{Controller, StopDelivery};
use crate::error::DaemonError;
use vstd::string::StrSliceExecFns;

verus! {

/// The service runs in its own process.
pub const SERVICE_WIN32_OWN_PROCESS: u32 = 0x10;

/// The service accepts the STOP control code.
pub const SERVICE_ACCEPT_STOP: u32 = 0x1;

/// The service accepts the SHUTDOWN control code.
pub const SERVICE_ACCEPT_SHUTDOWN: u32 = 0x4;

/// Reported status: the service has stopped.
pub const SERVICE_STOPPED: u32 = 0x1;

/// Reported status: the service is starting.
pub const SERVICE_START_PENDING: u32 = 0x2;

/// Reported status: the service is stopping.
pub const SERVICE_STOP_PENDING: u32 = 0x3;

/// Reported status: the service is running.
pub const SERVICE_RUNNING: u32 = 0x4;

/// Control code: the Service Control Manager requests a stop.
pub const SERVICE_CONTROL_STOP: u32 = 0x1;

/// Control code: the machine is shutting down.
pub const SERVICE_CONTROL_SHUTDOWN: u32 = 0x5;

/// The dispatcher's error code for a process not launched as a service.
pub const ERROR_FAILED_SERVICE_CONTROLLER_CONNECT: u32 = 1063;

/// A service status report: the plain-value image of what the service
/// reports to the Service Control Manager.
#[derive(Debug, Clone, Copy, PartialEq, Eq, Structural)]
pub struct ServiceStatus {
    pub service_type: u32,
    pub current_state: u32,
    pub controls_accepted: u32,
    pub win32_exit_code: u32,
    pub service_specific_exit_code: u32,
    pub check_point: u32,
    pub wait_hint: u32,
}

/// Builds the status report for the given state: an own-process service
/// accepting STOP and SHUTDOWN, with every exit and progress field zero.
pub fn create_service_status(current_state: u32) -> (s: ServiceStatus)
    ensures
        s == (ServiceStatus {
            service_type: SERVICE_WIN32_OWN_PROCESS,
            current_state,
            controls_accepted: SERVICE_ACCEPT_STOP | SERVICE_ACCEPT_SHUTDOWN,
            win32_exit_code: 0,
            service_specific_exit_code: 0,
            check_point: 0,
            wait_hint: 0,
        }),
{
    ServiceStatus {
        service_type: SERVICE_WIN32_OWN_PROCESS,
        current_state,
        controls_accepted: SERVICE_ACCEPT_STOP | SERVICE_ACCEPT_SHUTDOWN,
        win32_exit_code: 0,
        service_specific_exit_code: 0,
        check_point: 0,
        wait_hint: 0,
    }
}

/// A service name's wide character: the code point truncated to 16 bits.
pub open spec fn wide_char(c: char) -> u16 {
    ((c as u32) % 0x10000) as u16
}

/// The registration key of a named service: each character truncated to a
/// wide character, with a terminating NUL.
pub open spec fn wide_name(s: Seq<char>) -> Seq<u16> {
    s.map_values(|c: char| wide_char(c)).push(0u16)
}

/// Encodes the daemon's name for service registration.
pub fn service_name(name: &str) -> (r: Vec<u16>)
    ensures
        r@ == wide_name(name@),
{
    let n: usize = name.unicode_len();
    let mut out: Vec<u16> = Vec::new();
    let mut i: usize = 0;
    while i < n
        invariant
            n == name@.len(),
            i <= n,
            out@.len() == i,
            forall|j: int| 0 <= j < i ==> out@[j] == wide_char(name@[j]),
        decreases n - i,
    {
        let c = name.get_char(i);
        let w: u16 = ((c as u32) % 0x10000) as u16;
        out.push(w);
        i += 1;
    }
    out.push(0);
    proof {
        assert(out@ =~= wide_name(name@));
    }
    out
}

/// How a run proceeds after the attempt to register with the service
/// dispatcher.
#[derive(Debug, Clone, Copy, PartialEq, Eq, Structural)]
pub enum DispatchOutcome {
    /// The dispatcher accepted registration; the run completed in service
    /// mode on the dispatcher's thread.
    RanAsService,
    /// The process was not launched by the Service Control Manager; the run
    /// falls back to console mode.
    RunInConsole,
    /// The dispatcher rejected registration for some other reason; the run
    /// aborts.
    Unavailable,
}

/// Selects the execution mode from the dispatcher's answer: acceptance means
/// the run already completed as a service; a rejection because the process
/// was not launched by the Service Control Manager selects console mode; any
/// other rejection is a dispatcher fault.
pub fn dispatch_outcome(accepted: bool, last_error: u32) -> (r: DispatchOutcome)
    ensures
        r == (if accepted {
            DispatchOutcome::RanAsService
        } else if last_error == ERROR_FAILED_SERVICE_CONTROLLER_CONNECT {
            DispatchOutcome::RunInConsole
        } else {
            DispatchOutcome::Unavailable
        }),
{
    if accepted {
        DispatchOutcome::RanAsService
    } else if last_error == ERROR_FAILED_SERVICE_CONTROLLER_CONNECT {
        DispatchOutcome::RunInConsole
    } else {
        DispatchOutcome::Unavailable
    }
}

/// One step of the service-mode entry point.
#[derive(Debug, Clone, Copy, PartialEq, Eq, Structural)]
pub enum ServiceAction {
    /// Register the service control handler under the daemon's name.
    RegisterHandler,
    /// Report the given status to the Service Control Manager.
    Report(u32),
    /// Execute the worker routine synchronously.
    RunWorker,
}

/// The service-mode entry point's plan: with a run installed, register the
/// control handler, report START_PENDING then RUNNING, execute the worker,
/// and report STOPPED; with no run installed, do nothing.
pub fn service_main_plan(installed: bool) -> (plan: Vec<ServiceAction>)
    ensures
        installed ==> plan@ == seq![
            ServiceAction::RegisterHandler,
            ServiceAction::Report(SERVICE_START_PENDING),
            ServiceAction::Report(SERVICE_RUNNING),
            ServiceAction::RunWorker,
            ServiceAction::Report(SERVICE_STOPPED),
        ],
        !installed ==> plan@ == Seq::<ServiceAction>::empty(),
{
    let mut plan: Vec<ServiceAction> = Vec::new();
    if installed {
        plan.push(ServiceAction::RegisterHandler);
        plan.push(ServiceAction::Report(SERVICE_START_PENDING));
        plan.push(ServiceAction::Report(SERVICE_RUNNING));
        plan.push(ServiceAction::RunWorker);
        plan.push(ServiceAction::Report(SERVICE_STOPPED));
        proof {
            assert(plan@ =~= seq![
                ServiceAction::RegisterHandler,
                ServiceAction::Report(SERVICE_START_PENDING),
                ServiceAction::Report(SERVICE_RUNNING),
                ServiceAction::RunWorker,
                ServiceAction::Report(SERVICE_STOPPED),
            ]);
        }
    } else {
        proof {
            assert(plan@ =~= Seq::<ServiceAction>::empty());
        }
    }
    plan
}

/// The service control handler body: a STOP or SHUTDOWN control code goes to
/// the take-once producer, and exactly the delivery that succeeds is
/// preceded by a STOP_PENDING report; any other code — or a repeated
/// delivery, or no active run — reports nothing and changes nothing.
pub fn service_handler(ctrl: &mut Controller, control: u32) -> (report: Option<u32>)
    requires
        old(ctrl)@.wf(),
    ensures
        final(ctrl)@.wf(),
        (control == SERVICE_CONTROL_STOP || control == SERVICE_CONTROL_SHUTDOWN) ==> {
            &&& final(ctrl)@ == old(ctrl)@.after_stop()
            &&& report == (if old(ctrl)@.stop_outcome() == StopDelivery::Delivered {
                Some(SERVICE_STOP_PENDING)
            } else {
                None::<u32>
            })
        },
        !(control == SERVICE_CONTROL_STOP || control == SERVICE_CONTROL_SHUTDOWN) ==> {
            &&& final(ctrl)@ == old(ctrl)@
            &&& report is None
        },
{
    if control == SERVICE_CONTROL_STOP || control == SERVICE_CONTROL_SHUTDOWN {
        match ctrl.deliver_stop() {
            StopDelivery::Delivered => Some(SERVICE_STOP_PENDING),
            _ => None,
        }
    } else {
        None
    }
}

/// The console control handler body: every console event delivers `Stop`
/// through the take-once producer, and the handler reports to the operating
/// system whether a run was there to field it. A repeated delivery is a safe
/// no-op still reported as handled.
pub fn console_handler(ctrl: &mut Controller, _event: u32) -> (handled: bool)
    requires
        old(ctrl)@.wf(),
    ensures
        final(ctrl)@ == old(ctrl)@.after_stop(),
        final(ctrl)@.wf(),
        handled == (old(ctrl)@.slot is Some),
{
    match ctrl.deliver_stop() {
        StopDelivery::NoActiveRun => false,
        _ => true,
    }
}

/// Which end of the hook bracket around the worker an outcome belongs to.
#[derive(Debug, Clone, Copy, PartialEq, Eq, Structural)]
pub enum HookPhase {
    /// Registering the control hooks, before the worker starts.
    Install,
    /// Removing the control hooks, after the worker has returned.
    Remove,
}

/// The failure semantics of the hook bracket: a rejected installation aborts
/// the run before the worker starts, and a rejected removal after the worker
/// has run is surfaced as well; both carry the OS diagnostic text.
pub fn hook_result(phase: HookPhase, ok: bool, detail: String) -> (r: Result<(), DaemonError>)
    ensures
        ok ==> r == Ok::<(), DaemonError>(()),
        (!ok && phase == HookPhase::Install) ==> r == Err::<(), DaemonError>(
            DaemonError::HookInstallFailed(detail),
        ),
        (!ok && phase == HookPhase::Remove) ==> r == Err::<(), DaemonError>(
            DaemonError::HookRemoveFailed(detail),
        ),
{
    if ok {
        Ok(())
    } else {
        match phase {
            HookPhase::Install => Err(DaemonError::HookInstallFailed(detail)),
            HookPhase::Remove => Err(DaemonError::HookRemoveFailed(detail)),
        }
    }
}

} // verus!
