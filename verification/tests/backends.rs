use daemon::controller::{Controller, RunContext, StopDelivery};
use daemon::daemon::State;
use daemon::error::DaemonError;
use daemon::linux;
use daemon::windows;
use daemon::windows::{DispatchOutcome, HookPhase, ServiceAction};

#[test]
fn termination_signals_are_interrupt_and_terminate() {
    assert_eq!(linux::termination_signals(), vec![2, 15]);
    assert_eq!(linux::SIGINT, 2);
    assert_eq!(linux::SIGTERM, 15);
}

#[test]
fn signal_handler_delivers_stop_through_the_slot() {
    let mut ctrl = Controller::new();
    // with no run installed the signal is ignored
    linux::signal_handler(&mut ctrl, linux::SIGTERM);
    assert_eq!(ctrl.recv(), None);

    assert_eq!(ctrl.install(RunContext::new()), Ok(()));
    linux::signal_handler(&mut ctrl, linux::SIGINT);
    // a second signal right behind the first is a safe no-op
    linux::signal_handler(&mut ctrl, linux::SIGTERM);
    assert_eq!(ctrl.recv(), Some(State::Start));
    assert_eq!(ctrl.recv(), Some(State::Stop));
    assert_eq!(ctrl.recv(), None);
}

#[test]
fn service_status_reports_own_process_accepting_stop() {
    let s = windows::create_service_status(windows::SERVICE_RUNNING);
    assert_eq!(s.service_type, 0x10);
    assert_eq!(s.current_state, 4);
    assert_eq!(s.controls_accepted, 0x1 | 0x4);
    assert_eq!(s.win32_exit_code, 0);
    assert_eq!(s.service_specific_exit_code, 0);
    assert_eq!(s.check_point, 0);
    assert_eq!(s.wait_hint, 0);
}

#[test]
fn service_name_is_wide_and_nul_terminated() {
    assert_eq!(windows::service_name("ex"), vec![101u16, 120u16, 0u16]);
    assert_eq!(windows::service_name(""), vec![0u16]);
    // a code point above the wide range is truncated to its low 16 bits
    assert_eq!(windows::service_name("\u{1F600}"), vec![0xF600u16, 0u16]);
}

#[test]
fn dispatcher_answer_selects_the_mode() {
    assert_eq!(windows::dispatch_outcome(true, 0), DispatchOutcome::RanAsService);
    assert_eq!(
        windows::dispatch_outcome(false, windows::ERROR_FAILED_SERVICE_CONTROLLER_CONNECT),
        DispatchOutcome::RunInConsole
    );
    assert_eq!(windows::dispatch_outcome(false, 5), DispatchOutcome::Unavailable);
}

#[test]
fn service_main_runs_worker_between_status_reports() {
    assert_eq!(
        windows::service_main_plan(true),
        vec![
            ServiceAction::RegisterHandler,
            ServiceAction::Report(windows::SERVICE_START_PENDING),
            ServiceAction::Report(windows::SERVICE_RUNNING),
            ServiceAction::RunWorker,
            ServiceAction::Report(windows::SERVICE_STOPPED),
        ]
    );
    assert_eq!(windows::service_main_plan(false), vec![]);
}

#[test]
fn service_handler_stops_on_stop_and_shutdown_only() {
    let mut ctrl = Controller::new();
    assert_eq!(ctrl.install(RunContext::new()), Ok(()));

    // an unrelated control code changes nothing
    assert_eq!(windows::service_handler(&mut ctrl, 99), None);
    // the first stop request reports STOP_PENDING and delivers
    assert_eq!(
        windows::service_handler(&mut ctrl, windows::SERVICE_CONTROL_STOP),
        Some(windows::SERVICE_STOP_PENDING)
    );
    // a shutdown right behind it finds the producer gone and reports nothing
    assert_eq!(
        windows::service_handler(&mut ctrl, windows::SERVICE_CONTROL_SHUTDOWN),
        None
    );
    assert_eq!(ctrl.recv(), Some(State::Start));
    assert_eq!(ctrl.recv(), Some(State::Stop));
    assert_eq!(ctrl.recv(), None);
}

#[test]
fn console_handler_reports_whether_a_run_fielded_the_event() {
    let mut ctrl = Controller::new();
    assert!(!windows::console_handler(&mut ctrl, 0));

    assert_eq!(ctrl.install(RunContext::new()), Ok(()));
    assert!(windows::console_handler(&mut ctrl, 0));
    // the repeated event is a no-op but still handled
    assert!(windows::console_handler(&mut ctrl, 1));
    assert_eq!(ctrl.deliver_stop(), StopDelivery::AlreadyStopped);
    assert_eq!(ctrl.recv(), Some(State::Start));
    assert_eq!(ctrl.recv(), Some(State::Stop));
    assert_eq!(ctrl.recv(), None);
}

#[test]
fn hook_bracket_failures_carry_the_diagnostic() {
    assert_eq!(
        windows::hook_result(HookPhase::Install, true, String::new()),
        Ok(())
    );
    assert_eq!(
        windows::hook_result(HookPhase::Install, false, "denied".to_string()),
        Err(DaemonError::HookInstallFailed("denied".to_string()))
    );
    assert_eq!(
        windows::hook_result(HookPhase::Remove, false, "denied".to_string()),
        Err(DaemonError::HookRemoveFailed("denied".to_string()))
    );
}
