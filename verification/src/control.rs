//! What the loop around a running timer decides: how long to wait for a
//! key, when to stop and when to tick.

use vstd::prelude::*;
use crate::timer::Timer;

verus! {

/// A key as the timer and the options see it.
#[derive(Clone, Copy, Debug, PartialEq, Eq, Structural)]
pub enum Key {
    Enter,
    Up,
    Down,
    Left,
    Right,
    Char(char),
    Other,
}

/// What one turn of the loop has done.
#[derive(Clone, Copy, Debug, PartialEq, Eq, Structural)]
pub enum RunAction {
    /// The user asked to stop: the timer is left as it was.
    Quit,
    /// A second was due and has been counted: the wait starts over.
    Tick,
    /// Nothing was due.
    Wait,
}

/// The time between two ticks: one second, in nanoseconds.
pub const TICK_RATE_NANOS: u64 = 1_000_000_000;

/// Whether a key was pressed that ends the run.
pub open spec fn is_quit(key: Option<Key>) -> bool {
    key == Some(Key::Char('q'))
}

/// Whether a tick is due after `elapsed_nanos` since the last one.
pub open spec fn is_due(elapsed_nanos: u128) -> bool {
    elapsed_nanos >= TICK_RATE_NANOS
}

/// What is left of the second since the last tick, and nothing once the
/// second is over.
pub open spec fn remaining_nanos(elapsed_nanos: u128) -> int {
    if is_due(elapsed_nanos) {
        0
    } else {
        TICK_RATE_NANOS - elapsed_nanos
    }
}

/// What one turn of the loop does, for the key that was read, if any, the
/// time since the last tick, and whether the workout is over. The key `q`
/// ends the run; otherwise a second that is due is counted while the workout
/// goes on.
pub open spec fn action_of(key: Option<Key>, elapsed_nanos: u128, finished: bool) -> RunAction {
    if is_quit(key) {
        RunAction::Quit
    } else if is_due(elapsed_nanos) && !finished {
        RunAction::Tick
    } else {
        RunAction::Wait
    }
}

/// How long the loop may wait for a key before the next tick is due.
pub fn poll_timeout(elapsed_nanos: u128) -> (timeout_nanos: u64)
    ensures
        timeout_nanos == remaining_nanos(elapsed_nanos),
{
    if elapsed_nanos >= TICK_RATE_NANOS as u128 {
        0
    } else {
        TICK_RATE_NANOS - (elapsed_nanos as u64)
    }
}

impl Timer {
    /// One turn of the loop, for the key that was read, if any, and the time
    /// since the last tick. The timer is ticked where that is the action, and
    /// otherwise left as it is: a finished timer is never changed.
    pub fn on_event(&mut self, key: Option<Key>, elapsed_nanos: u128) -> (action: RunAction)
        requires
            old(self).wf(),
            old(self).can_tick(),
        ensures
            action == action_of(key, elapsed_nanos, old(self).workout.time.finished),
            action is Tick ==> *final(self) == old(self).next(),
            action !is Tick ==> *final(self) == *old(self),
            old(self).workout.time.finished ==> *final(self) == *old(self),
            final(self).wf(),
            old(self).on_schedule() ==> final(self).on_schedule() && final(self).can_tick(),
    {
        let quit = match key {
            Some(Key::Char(c)) => c == 'q',
            _ => false,
        };
        if quit {
            return RunAction::Quit;
        }
        if elapsed_nanos >= TICK_RATE_NANOS as u128 && !self.workout.time.finished {
            self.on_tick();
            return RunAction::Tick;
        }
        RunAction::Wait
    }
}

} // verus!
