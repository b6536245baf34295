//! Activity counters and the idle clock.
//!
//! Wall-clock time is given in whole seconds since the Unix epoch. The value
//! `0` of `last_genuine_activity` is reserved for "no genuine activity yet".

use vstd::prelude::*;

verus! {

/// The metrics that the host polls.
#[derive(Clone, Copy, Debug, PartialEq, Eq, Structural)]
pub struct ActivityState {
    /// Number of key presses counted since the last reset.
    pub keyboard_count: u64,
    /// Number of mouse events counted since the last reset.
    pub mouse_count: u64,
    /// Epoch seconds of the most recent genuine event, `0` if there was none.
    pub last_genuine_activity: u64,
    /// Whether a monitoring session is active.
    pub monitoring: bool,
}

/// The successor of a counter value. A counter that has reached `u64::MAX`
/// starts again at zero.
pub open spec fn next_count(count: u64) -> u64 {
    if count == u64::MAX {
        0
    } else {
        (count + 1) as u64
    }
}

impl ActivityState {
    /// The state at process start: nothing counted, never active, not monitoring.
    pub open spec fn fresh() -> ActivityState {
        ActivityState {
            keyboard_count: 0,
            mouse_count: 0,
            last_genuine_activity: 0,
            monitoring: false,
        }
    }

    /// Seconds elapsed at `now` since the last genuine event. It is `0` when
    /// no genuine event was recorded, and when the clock reads earlier than
    /// the recorded event.
    pub open spec fn idle_time(self, now: u64) -> u64 {
        if self.last_genuine_activity != 0 && now >= self.last_genuine_activity {
            (now - self.last_genuine_activity) as u64
        } else {
            0
        }
    }

    /// The state after one more key press was counted.
    pub open spec fn with_key_counted(self) -> ActivityState {
        ActivityState { keyboard_count: next_count(self.keyboard_count), ..self }
    }

    /// The state after one more mouse event was counted.
    pub open spec fn with_mouse_counted(self) -> ActivityState {
        ActivityState { mouse_count: next_count(self.mouse_count), ..self }
    }

    /// The state after an event at `now` that is genuine or not.
    pub open spec fn with_activity_at(self, is_genuine: bool, now: u64) -> ActivityState {
        if is_genuine {
            ActivityState { last_genuine_activity: now, ..self }
        } else {
            self
        }
    }

    /// The state after a reset at `now`: both counters are zero and the idle
    /// clock starts at `now`, as if activity had just happened.
    pub open spec fn reset_at(self, now: u64) -> ActivityState {
        ActivityState {
            keyboard_count: 0,
            mouse_count: 0,
            last_genuine_activity: now,
            monitoring: self.monitoring,
        }
    }

    /// Creates the state of a process that has not seen any input.
    pub fn new() -> (state: ActivityState)
        ensures
            state == ActivityState::fresh(),
    {
        ActivityState {
            keyboard_count: 0,
            mouse_count: 0,
            last_genuine_activity: 0,
            monitoring: false,
        }
    }

    /// Computes the idle time at `now`.
    pub fn idle_seconds(&self, now: u64) -> (idle: u64)
        ensures
            idle == self.idle_time(now),
    {
        if self.last_genuine_activity == 0 || now < self.last_genuine_activity {
            0
        } else {
            now - self.last_genuine_activity
        }
    }

    /// Zeroes both counters and restarts the idle clock at `now`.
    pub fn reset(&mut self, now: u64)
        ensures
            *final(self) == old(self).reset_at(now),
    {
        self.keyboard_count = 0;
        self.mouse_count = 0;
        self.last_genuine_activity = now;
    }
}

/// Counts one key press.
pub fn increment_keyboard(state: &mut ActivityState)
    ensures
        *final(state) == old(state).with_key_counted(),
{
    state.keyboard_count = state.keyboard_count.wrapping_add(1);
}

/// Counts one mouse event.
pub fn increment_mouse(state: &mut ActivityState)
    ensures
        *final(state) == old(state).with_mouse_counted(),
{
    state.mouse_count = state.mouse_count.wrapping_add(1);
}

/// Records the time of an event. Only a genuine event moves the idle clock.
pub fn update_genuine_activity_time(state: &mut ActivityState, is_genuine: bool, now: u64)
    ensures
        *final(state) == old(state).with_activity_at(is_genuine, now),
{
    if is_genuine {
        state.last_genuine_activity = now;
    }
}

/// The idle time is zero right after a genuine event and right after a
/// reset, read at the time of the event or of the reset.
pub proof fn lemma_idle_clock_restarts(state: ActivityState, now: u64)
    ensures
        state.with_activity_at(true, now).idle_time(now) == 0,
        state.reset_at(now).idle_time(now) == 0,
{
}

/// As long as no genuine event was recorded the idle time is zero, however
/// late the clock reads. This holds of the fresh state in particular.
pub proof fn lemma_idle_time_zero_without_activity(state: ActivityState, now: u64)
    requires
        state.last_genuine_activity == 0,
    ensures
        state.idle_time(now) == 0,
        ActivityState::fresh().idle_time(now) == 0,
{
}

} // verus!
