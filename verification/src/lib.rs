//! A Pomodoro timer drawn as a scrolling chart of three periodic signals.
//!
//! The crate holds the timer's state and every decision the program takes:
//! which samples the signals emit, how the visible windows slide, when a
//! session is complete, what the chart shows and when the event loop ticks or
//! quits. Drawing and terminal input stay with the caller.

use vstd::prelude::*;

pub mod chart;
pub mod label;
pub mod runner;
pub mod session;
pub mod signal;
pub mod window;

verus! {

/// Number of samples each visible window holds, and the width of the time axis.
pub const WINDOW_SIZE: usize = 1800;

} // verus!
