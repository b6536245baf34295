//! The platform-independent half of the input-hook adapter.
//!
//! The host owns the operating-system hook and the thread that pumps its
//! events. What the adapter decides is kept here: whether a session has to
//! be started, what a decoded event does to the counters and the idle clock,
//! and when the pressed-key set is due for a cleanup pass.
//!
//! Two clocks come in: the wall clock in epoch seconds for the idle clock,
//! and the monotonic clock in nanoseconds for key presses and the cleanup
//! timer.

use crate::activity::{increment_keyboard, increment_mouse, update_genuine_activity_time, ActivityState};
use crate::tracker::{cleanup_stale_keys, process_keyboard_event, reset_monitoring_state, KeyTracker, PressedKeys};
use vstd::prelude::*;

verus! {

/// Time between two cleanup passes: ten seconds.
pub const CLEANUP_INTERVAL_NANOS: u64 = 10_000_000_000;

/// The adapter as a mathematical value.
#[verifier::ext_equal]
pub struct AdapterView {
    /// Whether a session's pump loop is asked to run.
    pub running: bool,
    /// Monotonic time of the last cleanup pass, or of the session's start.
    pub last_cleanup: u64,
    /// The pressed-key set.
    pub keys: PressedKeys,
}

impl AdapterView {
    /// The adapter after a start request at `now`. A running adapter is left
    /// alone; otherwise the session begins with an empty pressed-key set and
    /// the cleanup timer at `now`.
    pub open spec fn started(self, now: u64) -> AdapterView {
        if self.running {
            self
        } else {
            AdapterView { running: true, last_cleanup: now, keys: self.keys.cleared() }
        }
    }

    /// The adapter after a stop request: not running, no key down.
    pub open spec fn stopped(self) -> AdapterView {
        AdapterView { running: false, keys: self.keys.cleared(), ..self }
    }

    /// Whether more than the cleanup interval has passed at `now` since the
    /// last cleanup pass.
    pub open spec fn cleanup_due(self, now: u64) -> bool {
        now - self.last_cleanup > CLEANUP_INTERVAL_NANOS
    }

    /// The adapter after one turn of the pump loop that ends at `now`: if a
    /// cleanup is due it is made and the timer restarts at `now`.
    pub open spec fn after_pump(self, now: u64) -> AdapterView {
        if self.cleanup_due(now) {
            AdapterView { last_cleanup: now, keys: self.keys.after_cleanup(now), ..self }
        } else {
            self
        }
    }
}

/// The adapter's state.
pub struct HookAdapter {
    /// Whether a session's pump loop is asked to run. The loop ends when it
    /// reads `false`.
    pub running: bool,
    /// Monotonic time of the last cleanup pass, or of the session's start.
    pub last_cleanup: u64,
    /// The key-activity tracker.
    pub tracker: KeyTracker,
}

impl View for HookAdapter {
    type V = AdapterView;

    open spec fn view(&self) -> AdapterView {
        AdapterView { running: self.running, last_cleanup: self.last_cleanup, keys: self.tracker@ }
    }
}

impl HookAdapter {
    /// An adapter that is not running, with the tracker `tracker`.
    pub fn new(tracker: KeyTracker) -> (adapter: HookAdapter)
        ensures
            adapter@ == (AdapterView { running: false, last_cleanup: 0, keys: tracker@ }),
    {
        HookAdapter { running: false, last_cleanup: 0, tracker }
    }
}

/// Asks the adapter to start a session at monotonic time `now`. The result
/// says whether the host has to spawn the monitoring thread: it is `false`,
/// and nothing changes, when a session is already running.
pub fn start_monitoring(adapter: &mut HookAdapter, now: u64) -> (spawn: bool)
    ensures
        spawn == !old(adapter)@.running,
        final(adapter)@ == old(adapter)@.started(now),
{
    if adapter.running {
        return false;
    }
    adapter.running = true;
    adapter.last_cleanup = now;
    reset_monitoring_state(&mut adapter.tracker);
    true
}

/// Asks the running session to end and forgets every pressed key. The host
/// then gives the monitoring thread a moment to remove its hook and removes
/// the hook itself if it is still registered.
pub fn stop_monitoring(adapter: &mut HookAdapter)
    ensures
        final(adapter)@ == old(adapter)@.stopped(),
{
    adapter.running = false;
    reset_monitoring_state(&mut adapter.tracker);
}

/// Ends one turn of the pump loop at monotonic time `now`: makes the cleanup
/// pass if it is due. The result says whether it was made.
pub fn pump_tick(adapter: &mut HookAdapter, now: u64) -> (cleaned: bool)
    ensures
        cleaned == old(adapter)@.cleanup_due(now),
        final(adapter)@ == old(adapter)@.after_pump(now),
{
    if now > adapter.last_cleanup && now - adapter.last_cleanup > CLEANUP_INTERVAL_NANOS {
        cleanup_stale_keys(&mut adapter.tracker, now);
        adapter.last_cleanup = now;
        true
    } else {
        false
    }
}

/// The counters and the idle clock after a key event whose verdict is
/// `verdict`, as (countable, genuine), at wall-clock time `wall_now`.
pub open spec fn state_after_verdict(state: ActivityState, verdict: (bool, bool), wall_now: u64) -> ActivityState {
    let counted = if verdict.0 {
        state.with_key_counted()
    } else {
        state
    };
    counted.with_activity_at(verdict.1, wall_now)
}

/// The counters and the idle clock after a key event.
pub open spec fn state_after_key_event(
    keys: PressedKeys,
    state: ActivityState,
    key: u32,
    is_down: bool,
    mono_now: u64,
    wall_now: u64,
) -> ActivityState {
    state_after_verdict(state, keys.classify(key, is_down, mono_now), wall_now)
}

/// The counters and the idle clock after a mouse event: every mouse event is
/// counted and genuine.
pub open spec fn state_after_mouse_event(state: ActivityState, wall_now: u64) -> ActivityState {
    state.with_mouse_counted().with_activity_at(true, wall_now)
}

/// Handles a decoded key event: a new press is counted and restarts the idle
/// clock, anything else changes neither.
pub fn handle_keyboard_event(
    tracker: &mut KeyTracker,
    state: &mut ActivityState,
    key: u32,
    is_down: bool,
    mono_now: u64,
    wall_now: u64,
)
    ensures
        final(tracker)@ == old(tracker)@.after_event(key, is_down, mono_now),
        *final(state) == state_after_key_event(
            old(tracker)@,
            *old(state),
            key,
            is_down,
            mono_now,
            wall_now,
        ),
{
    let (increment_counter, is_genuine) = process_keyboard_event(tracker, key, is_down, mono_now);
    if increment_counter {
        increment_keyboard(state);
    }
    if is_genuine {
        update_genuine_activity_time(state, true, wall_now);
    }
}

/// Handles a mouse event of any kind: it is counted and restarts the idle
/// clock.
pub fn handle_mouse_event(state: &mut ActivityState, wall_now: u64)
    ensures
        *final(state) == state_after_mouse_event(*old(state), wall_now),
{
    increment_mouse(state);
    update_genuine_activity_time(state, true, wall_now);
}

/// A genuine event restarts the idle clock, and nothing else does.
///
/// Read at the wall-clock time of the event, the idle time is zero after
/// any mouse event and after a key-down that starts a new press. A key-up
/// and a repeated key-down leave the counters and the idle clock as they
/// were.
pub proof fn lemma_only_genuine_events_touch_state(
    keys: PressedKeys,
    state: ActivityState,
    key: u32,
    is_down: bool,
    mono_now: u64,
    wall_now: u64,
)
    ensures
        state_after_mouse_event(state, wall_now).idle_time(wall_now) == 0,
        state_after_mouse_event(state, wall_now).mouse_count == crate::activity::next_count(
            state.mouse_count,
        ),
        is_down && keys.is_new_press(key, mono_now) ==> {
            let after = state_after_key_event(keys, state, key, is_down, mono_now, wall_now);
            &&& after.idle_time(wall_now) == 0
            &&& after.keyboard_count == crate::activity::next_count(state.keyboard_count)
            &&& after.mouse_count == state.mouse_count
        },
        !(is_down && keys.is_new_press(key, mono_now)) ==> state_after_key_event(
            keys,
            state,
            key,
            is_down,
            mono_now,
            wall_now,
        ) == state,
{
}

/// A running adapter is never started again.
///
/// After a start request the adapter runs, and a further start request, at
/// whatever time, asks for no second session and changes nothing: neither
/// the cleanup timer nor the pressed-key set.
pub proof fn lemma_adapter_start_is_idempotent(adapter: AdapterView, first: u64, second: u64)
    ensures
        adapter.started(first).running,
        adapter.started(first).started(second) == adapter.started(first),
{
}

} // verus!
