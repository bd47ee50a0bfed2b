//! The error taxonomy of the lifecycle controller.

use vstd::prelude::*;
use vstd::string::StringExecFns;

verus! {

/// Everything that can go wrong on the `run()` call path.
///
/// Errors raised inside an OS callback context are never carried as values of
/// this type: a callback reports a boolean or a status code to the operating
/// system instead, since no caller is present there to receive a result.
#[derive(Debug, PartialEq, Eq)]
pub enum DaemonError {
    /// The reentrancy guard rejected an install: another run is active.
    AlreadyRunning,
    /// The reentrancy guard rejected an uninstall: the slot does not hold
    /// the expected run.
    SlotMismatch,
    /// The worker routine was requested a second time; it is consumed
    /// exactly once per run.
    WorkerMissing,
    /// A value was sent after the channel's producer had been taken.
    ChannelClosed,
    /// The operating system refused to register the control hooks; carries
    /// the OS diagnostic text.
    HookInstallFailed(String),
    /// The operating system refused to remove the control hooks after the
    /// worker had already run; carries the OS diagnostic text.
    HookRemoveFailed(String),
    /// The service dispatcher failed for a reason other than not being
    /// launched as a service; carries the OS diagnostic text.
    DispatchUnavailable(String),
    /// The slot's lock was poisoned by an earlier panic; the invariant can
    /// no longer be trusted.
    LockCorrupted,
}

impl DaemonError {
    /// The human-readable text of this error.
    pub fn message(&self) -> (r: String)
        ensures
            r@ == self.message_spec(),
    {
        match self {
            DaemonError::AlreadyRunning => String::from_str(
                "reentrancy violation: another run is already active",
            ),
            DaemonError::SlotMismatch => String::from_str(
                "reentrancy violation: no matching run is installed",
            ),
            DaemonError::WorkerMissing => String::from_str(
                "the worker routine was already consumed",
            ),
            DaemonError::ChannelClosed => String::from_str("the state channel is already closed"),
            DaemonError::HookInstallFailed(detail) => String::from_str(
                "failed to install the control hooks: ",
            ).concat(detail.as_str()),
            DaemonError::HookRemoveFailed(detail) => String::from_str(
                "failed to remove the control hooks: ",
            ).concat(detail.as_str()),
            DaemonError::DispatchUnavailable(detail) => String::from_str(
                "the service dispatcher is unavailable: ",
            ).concat(detail.as_str()),
            DaemonError::LockCorrupted => String::from_str(
                "the slot's lock was poisoned by an earlier panic",
            ),
        }
    }

    /// What `message` returns, variant by variant.
    pub open spec fn message_spec(&self) -> Seq<char> {
        match self {
            DaemonError::AlreadyRunning => "reentrancy violation: another run is already active"@,
            DaemonError::SlotMismatch => "reentrancy violation: no matching run is installed"@,
            DaemonError::WorkerMissing => "the worker routine was already consumed"@,
            DaemonError::ChannelClosed => "the state channel is already closed"@,
            DaemonError::HookInstallFailed(detail) => "failed to install the control hooks: "@
                + detail@,
            DaemonError::HookRemoveFailed(detail) => "failed to remove the control hooks: "@
                + detail@,
            DaemonError::DispatchUnavailable(detail) => "the service dispatcher is unavailable: "@
                + detail@,
            DaemonError::LockCorrupted => "the slot's lock was poisoned by an earlier panic"@,
        }
    }
}

} // verus!
