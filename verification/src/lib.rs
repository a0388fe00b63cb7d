//! Control-plane core of a desktop pomodoro timer.
//!
//! The library holds the verified logic of the inter-process control plane:
//! a process-wide snapshot register the UI layer pushes timer state into,
//! the bus service's command-to-event translation and property reads, the
//! command-line client's formatting and outcome rules, and the idle watcher's
//! edge-triggered pause/resume state machine. Bus transport, the polling
//! loop and all other I/O live outside the library and drive it with plain
//! values.

pub mod cli;
pub mod event;
pub mod idle;
pub mod numfmt;
pub mod register;
pub mod service;
pub mod status;
pub mod strutil;
