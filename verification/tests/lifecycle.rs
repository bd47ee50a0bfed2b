use daemon::channel::StateChannel;
use daemon::controller::{Controller, RunContext, StopDelivery};
use daemon::daemon::{Daemon, DaemonRunner, State};
use daemon::error::DaemonError;
use daemon::singleton::SingletonHolder;
use std::sync::{Arc, Mutex};

#[test]
fn smoke_test() {
    let simple = SingletonHolder::new(Arc::new(Mutex::new(0u32)));
    match simple.lock() {
        Ok(_) => {}
        Err(_) => {}
    };
}

#[test]
fn holder_clones_share_the_value() {
    let holder = SingletonHolder::new(Arc::new(Mutex::new(1u32)));
    let other = holder.clone();
    *other.lock().unwrap() = 5;
    assert_eq!(*holder.lock().unwrap(), 5);
}

#[test]
fn channel_first_value_is_start() {
    let mut c = StateChannel::new();
    assert!(!c.is_closed());
    assert_eq!(c.recv(), Some(State::Start));
    assert_eq!(c.recv(), None);
    assert!(!c.is_closed());
}

#[test]
fn channel_send_enqueues_in_order() {
    let mut c = StateChannel::new();
    assert_eq!(c.send(State::Reload), Ok(()));
    assert_eq!(c.recv(), Some(State::Start));
    assert_eq!(c.recv(), Some(State::Reload));
    assert_eq!(c.recv(), None);
}

#[test]
fn channel_send_after_stop_reports_closed() {
    let mut c = StateChannel::new();
    assert!(c.deliver_stop());
    assert_eq!(c.send(State::Reload), Err(DaemonError::ChannelClosed));
    assert_eq!(c.recv(), Some(State::Start));
    assert_eq!(c.recv(), Some(State::Stop));
    assert_eq!(c.recv(), None);
    assert!(c.is_closed());
}

#[test]
fn channel_second_stop_is_noop() {
    let mut c = StateChannel::new();
    assert!(c.deliver_stop());
    assert!(!c.deliver_stop());
    assert_eq!(c.recv(), Some(State::Start));
    assert_eq!(c.recv(), Some(State::Stop));
    assert_eq!(c.recv(), None);
}

#[test]
fn install_is_compare_and_set() {
    let mut ctrl = Controller::new();
    assert_eq!(ctrl.install(RunContext::new()), Ok(()));
    assert_eq!(ctrl.install(RunContext::new()), Err(DaemonError::AlreadyRunning));
    assert_eq!(ctrl.uninstall(), Ok(()));
    assert_eq!(ctrl.uninstall(), Err(DaemonError::SlotMismatch));
    assert_eq!(ctrl.install(RunContext::new()), Ok(()));
}

#[test]
fn worker_is_taken_exactly_once() {
    let mut ctrl = Controller::new();
    assert_eq!(ctrl.take_worker(), Err(DaemonError::WorkerMissing));
    assert_eq!(ctrl.install(RunContext::new()), Ok(()));
    assert_eq!(ctrl.take_worker(), Ok(()));
    assert_eq!(ctrl.take_worker(), Err(DaemonError::WorkerMissing));
}

#[test]
fn termination_with_no_active_run_is_ignored() {
    let mut ctrl = Controller::new();
    assert_eq!(ctrl.deliver_stop(), StopDelivery::NoActiveRun);
    assert_eq!(ctrl.recv(), None);
}

#[test]
fn run_worker_reads_one_value() {
    let d = Daemon { name: "example".to_string() };
    let mut observed: Vec<State> = Vec::new();
    let (after, r) = d.run(Controller::new(), |mut c: Controller| {
        observed.push(c.recv().unwrap());
        c
    });
    assert_eq!(r, Ok(()));
    assert_eq!(observed, vec![State::Start]);
    drop(after);
}

#[test]
fn run_worker_consumes_until_closure_with_stop() {
    let d = Daemon { name: "example".to_string() };
    let mut observed: Vec<State> = Vec::new();
    let (_, r) = d.run(Controller::new(), |mut c: Controller| {
        loop {
            match c.recv() {
                Some(s) => {
                    observed.push(s);
                    if s == State::Start {
                        // a termination event arrives while the worker is
                        // consuming
                        assert_eq!(c.deliver_stop(), StopDelivery::Delivered);
                    }
                }
                None => break,
            }
        }
        c
    });
    assert_eq!(r, Ok(()));
    assert_eq!(observed, vec![State::Start, State::Stop]);
}

#[test]
fn second_run_while_active_gets_already_running() {
    let d = Daemon { name: "example".to_string() };
    let mut observed: Vec<State> = Vec::new();
    let (_, r) = d.run(Controller::new(), |mut c: Controller| {
        observed.push(c.recv().unwrap());
        let second = Daemon { name: "example".to_string() };
        let (c_back, r2) = second.run(c, |inner: Controller| inner);
        assert_eq!(r2, Err(DaemonError::AlreadyRunning));
        c_back
    });
    assert_eq!(r, Ok(()));
    assert_eq!(observed, vec![State::Start]);
}

#[test]
fn double_termination_delivers_stop_once() {
    let d = Daemon { name: "example".to_string() };
    let mut observed: Vec<State> = Vec::new();
    let (_, r) = d.run(Controller::new(), |mut c: Controller| {
        observed.push(c.recv().unwrap());
        assert_eq!(c.deliver_stop(), StopDelivery::Delivered);
        assert_eq!(c.deliver_stop(), StopDelivery::AlreadyStopped);
        loop {
            match c.recv() {
                Some(s) => observed.push(s),
                None => break,
            }
        }
        c
    });
    assert_eq!(r, Ok(()));
    assert_eq!(observed, vec![State::Start, State::Stop]);
}

#[test]
fn immediate_worker_still_releases_the_slot() {
    let d = Daemon { name: "example".to_string() };
    let (after, r) = d.run(Controller::new(), |c: Controller| c);
    assert_eq!(r, Ok(()));
    // the slot was released: a subsequent run installs and completes
    let mut observed: Vec<State> = Vec::new();
    let (_, r2) = d.run(after, |mut c: Controller| {
        observed.push(c.recv().unwrap());
        c
    });
    assert_eq!(r2, Ok(()));
    assert_eq!(observed, vec![State::Start]);
}

#[test]
fn demon_surface_carries_the_same_states() {
    let d = daemon::demon::Demon {
        name: "example".to_string(),
    };
    assert_eq!(d.name, "example");
    assert_ne!(daemon::demon::State::Reload, daemon::demon::State::Stop);
    assert_eq!(daemon::demon::State::Start, daemon::demon::State::Start);
}

#[test]
fn error_messages_name_the_condition() {
    assert_eq!(
        DaemonError::AlreadyRunning.message(),
        "reentrancy violation: another run is already active"
    );
    assert_eq!(
        DaemonError::SlotMismatch.message(),
        "reentrancy violation: no matching run is installed"
    );
    assert_eq!(
        DaemonError::WorkerMissing.message(),
        "the worker routine was already consumed"
    );
    assert_eq!(
        DaemonError::ChannelClosed.message(),
        "the state channel is already closed"
    );
    assert_eq!(
        DaemonError::HookInstallFailed("access denied".to_string()).message(),
        "failed to install the control hooks: access denied"
    );
    assert_eq!(
        DaemonError::HookRemoveFailed("access denied".to_string()).message(),
        "failed to remove the control hooks: access denied"
    );
    assert_eq!(
        DaemonError::DispatchUnavailable("no pipe".to_string()).message(),
        "the service dispatcher is unavailable: no pipe"
    );
    assert_eq!(
        DaemonError::LockCorrupted.message(),
        "the slot's lock was poisoned by an earlier panic"
    );
}
