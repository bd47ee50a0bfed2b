//! A daemon lifecycle controller: it tracks the single active run of a
//! process-wide service, bridges operating-system control events to a
//! user-supplied worker routine through a typed state channel, and enforces
//! that at most one controller is active per process at a time.
//!
//! The crate is organised around a sequential model of the protocol:
//!
//! - [`daemon`] holds the public surface: the lifecycle [`State`] values,
//!   the [`Daemon`] identity, and the [`DaemonRunner`] entry point.
//! - [`channel`] is the state-channel bridge: `Start` is always queued
//!   first, and `Stop` is delivered through a take-once protocol so that it
//!   is sent at most once and nothing follows it.
//! - [`controller`] is the global slot and its reentrancy guard: the
//!   compare-and-set install/uninstall protocol around one run.
//! - [`linux`] and [`windows`] hold the platform decision logic: which
//!   signals request termination, how service control codes and console
//!   events map onto stop delivery, and the service status reports.
//! - [`singleton`] is the mutex-protected holder through which every
//!   execution context reaches the shared slot.
//! - [`error`] is the error taxonomy of the controller.

pub mod channel;
pub mod controller;
pub mod daemon;
pub mod demon;
pub mod error;
pub mod linux;
pub mod singleton;
pub mod windows;

pub use controller::{Controller, RunContext, StopDelivery};
pub use daemon::{Daemon, DaemonRunner, State};
pub use error::DaemonError;
pub use singleton::SingletonHolder;
