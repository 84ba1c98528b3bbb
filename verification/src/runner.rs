//! The decisions of the event loop.
//!
//! The loop itself belongs to the caller: it draws, waits for input and reads
//! the clock. What it does with what it got is decided here. Durations are
//! plain numbers, all in one unit of the caller's choice.

use vstd::prelude::*;

use crate::session::{App, Session};

verus! {

/// The key that ends the program.
pub const QUIT_KEY: char = 'q';

/// Length of the tick interval, in milliseconds.
pub const TICK_RATE_MILLIS: u64 = 1000;

/// What waiting for input brought.
#[derive(Clone, Copy, Debug, PartialEq, Eq)]
pub enum Input {
    /// Nothing arrived in time.
    Idle,
    /// The key of a character was pressed.
    Char(char),
    /// Anything else arrived.
    Other,
}

/// What the loop does next.
#[derive(Clone, Copy, Debug, PartialEq, Eq)]
pub enum Action {
    /// Leave the loop.
    Quit,
    /// Go round again; the running tick interval goes on.
    Wait,
    /// Go round again; a tick was processed and a new interval starts now.
    Restart,
}

/// How long the loop may still wait for input before the next tick is due:
/// what is left of the interval, or nothing once the tick is overdue.
pub open spec fn remaining_wait(tick_rate: nat, elapsed: nat) -> nat {
    if elapsed <= tick_rate {
        (tick_rate - elapsed) as nat
    } else {
        0
    }
}

/// Whether the input asks to end the program.
pub open spec fn is_quit(input: Input) -> bool {
    input == Input::Char(QUIT_KEY)
}

/// What one round of the loop makes of a session, given the input that
/// arrived and the time that has passed since the interval started: a quit
/// key ends the loop at once; otherwise a tick is processed if the interval
/// is over.
pub open spec fn react(session: Session, input: Input, elapsed: nat, tick_rate: nat) -> (
    Session,
    Action,
) {
    if is_quit(input) {
        (session, Action::Quit)
    } else if elapsed >= tick_rate {
        (session.step(), Action::Restart)
    } else {
        (session, Action::Wait)
    }
}

/// Computes [`remaining_wait`].
pub fn poll_timeout(tick_rate: u128, elapsed: u128) -> (timeout: u128)
    ensures
        timeout == remaining_wait(tick_rate as nat, elapsed as nat),
{
    if elapsed <= tick_rate {
        tick_rate - elapsed
    } else {
        0
    }
}

/// Computes [`is_quit`].
pub fn quits(input: Input) -> (quit: bool)
    ensures
        quit == is_quit(input),
{
    match input {
        Input::Char(key) => key == QUIT_KEY,
        _ => false,
    }
}

/// Applies [`react`] to the session and says what the loop does next.
pub fn run_app_step(app: &mut App, input: Input, elapsed: u128, tick_rate: u128) -> (action: Action)
    requires
        !is_quit(input) && elapsed >= tick_rate ==> old(app)@.window.1 < i64::MAX,
    ensures
        (final(app)@, action) == react(old(app)@, input, elapsed as nat, tick_rate as nat),
{
    if quits(input) {
        Action::Quit
    } else if elapsed >= tick_rate {
        app.step();
        Action::Restart
    } else {
        Action::Wait
    }
}

} // verus!
