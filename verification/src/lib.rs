//! Alert orchestration core: the state machines behind a desktop companion
//! that reacts to a smart-button press by showing a notification, blinking a
//! light, and swapping a tray icon.
//!
//! Everything here is pure logic over plain values: the dispatcher's state
//! transitions, the blink controller's two-level loop, the single-slot
//! channel discipline, and configuration validation. The asynchronous
//! plumbing (channels, timers, the bridge, the tray, the notification sink)
//! lives outside the library and drives these step functions.

use vstd::prelude::*;

pub mod blink;
pub mod channel;
pub mod config;
pub mod dispatch;
pub mod hue;
pub mod notification;
pub mod tray;

verus! {

/// A command consumed exactly once by the dispatcher.
#[derive(Clone, Copy, Debug, PartialEq, Eq, Structural)]
pub enum Command {
    Quit,
    StartAlert,
    StopAlert,
}

/// The dispatcher's logical alert state.
#[derive(Clone, Copy, Debug, PartialEq, Eq, Structural)]
pub enum AlertState {
    Idle,
    Alerting,
}

} // verus!
