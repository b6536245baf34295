//! The control surface: what the host calls to start and stop monitoring,
//! to read the metrics, and to flush them to the activity log.
//!
//! An [`Engine`] is one monitor, owned by the host. It ties the counters and
//! the idle clock to the hook adapter: the `monitoring` flag that the host
//! sees is set exactly while the adapter's session is asked to run.

use crate::activity::ActivityState;
use crate::adapter::{AdapterView, HookAdapter};
use crate::log::{log_chunk, render_log_chunk, LogRecord};
use crate::tracker::{reset_monitoring_state, KeyTracker, KEY_TIMEOUT_NANOS};
use vstd::prelude::*;

verus! {

/// An engine as a mathematical value.
#[verifier::ext_equal]
pub struct EngineView {
    /// The counters, the idle clock and the monitoring flag.
    pub state: ActivityState,
    /// The hook adapter.
    pub adapter: AdapterView,
}

impl EngineView {
    /// The flag and the adapter agree: monitoring is on exactly while the
    /// adapter's session is asked to run.
    pub open spec fn wf(self) -> bool {
        self.state.monitoring == self.adapter.running
    }

    /// The engine after a reset at wall-clock time `wall_now`: counters at
    /// zero, the idle clock at `wall_now`, no key down.
    pub open spec fn after_reset(self, wall_now: u64) -> EngineView {
        EngineView {
            state: self.state.reset_at(wall_now),
            adapter: AdapterView { keys: self.adapter.keys.cleared(), ..self.adapter },
        }
    }

    /// Whether a start request is granted: only while monitoring is off.
    pub open spec fn start_granted(self) -> bool {
        !self.state.monitoring
    }

    /// Whether a stop request is granted: only while monitoring is on.
    pub open spec fn stop_granted(self) -> bool {
        self.state.monitoring
    }

    /// The engine after a start request. An engine that is monitoring is
    /// left alone. Otherwise the flag is set, the engine is reset and the
    /// adapter is started.
    pub open spec fn started(self, wall_now: u64, mono_now: u64) -> EngineView {
        if self.state.monitoring {
            self
        } else {
            let reset = self.after_reset(wall_now);
            EngineView {
                state: ActivityState { monitoring: true, ..reset.state },
                adapter: reset.adapter.started(mono_now),
            }
        }
    }

    /// The engine after a stop request. An engine that is not monitoring is
    /// left alone. Otherwise the flag is cleared and the adapter is stopped;
    /// the counters and the idle clock stay.
    pub open spec fn stopped(self) -> EngineView {
        if self.state.monitoring {
            EngineView {
                state: ActivityState { monitoring: false, ..self.state },
                adapter: self.adapter.stopped(),
            }
        } else {
            self
        }
    }

    /// The engine after the monitoring thread reported that it could not
    /// install its hook: the session is over, and the flag says so.
    pub open spec fn after_hook_failure(self) -> EngineView {
        EngineView {
            state: ActivityState { monitoring: false, ..self.state },
            adapter: AdapterView { running: false, ..self.adapter },
        }
    }

    /// The record that a save at `wall_now` writes.
    pub open spec fn snapshot(self, wall_now: u64) -> LogRecord {
        LogRecord {
            timestamp: wall_now,
            keyboard_count: self.state.keyboard_count,
            mouse_count: self.state.mouse_count,
            idle_time_seconds: self.state.idle_time(wall_now),
        }
    }

    /// The engine after a save whose write succeeded or not: only a written
    /// record resets the engine.
    pub open spec fn after_save(self, written: bool, wall_now: u64) -> EngineView {
        if written {
            self.after_reset(wall_now)
        } else {
            self
        }
    }
}

/// One activity monitor.
pub struct Engine {
    /// The counters, the idle clock and the monitoring flag.
    pub state: ActivityState,
    /// The hook adapter with its key-activity tracker.
    pub adapter: HookAdapter,
}

impl View for Engine {
    type V = EngineView;

    open spec fn view(&self) -> EngineView {
        EngineView { state: self.state, adapter: self.adapter@ }
    }
}

impl Engine {
    /// An engine that has seen no input and is not monitoring, with the
    /// default key timeout.
    pub fn new() -> (engine: Engine)
        ensures
            engine@.wf(),
            engine@.state == ActivityState::fresh(),
            !engine@.adapter.running,
            engine@.adapter.last_cleanup == 0,
            engine@.adapter.keys.held == Map::<u32, u64>::empty(),
            engine@.adapter.keys.timeout == KEY_TIMEOUT_NANOS,
    {
        Engine { state: ActivityState::new(), adapter: HookAdapter::new(KeyTracker::new()) }
    }

    /// Whether the flag and the adapter agree.
    pub fn is_consistent(&self) -> (consistent: bool)
        ensures
            consistent == self@.wf(),
    {
        self.state.monitoring == self.adapter.running
    }
}

/// Starts monitoring. The result is `false`, and nothing changes, if the
/// engine is monitoring already. Otherwise the engine is reset at
/// `wall_now`, the adapter's session starts at `mono_now`, and the result is
/// `true`: the host then spawns the monitoring thread.
pub fn start_monitoring(engine: &mut Engine, wall_now: u64, mono_now: u64) -> (started: bool)
    requires
        old(engine)@.wf(),
    ensures
        started == old(engine)@.start_granted(),
        final(engine)@ == old(engine)@.started(wall_now, mono_now),
        final(engine)@.wf(),
{
    if engine.state.monitoring {
        return false;
    }
    engine.state.monitoring = true;
    reset_counters(engine, wall_now);
    crate::adapter::start_monitoring(&mut engine.adapter, mono_now)
}

/// Stops monitoring. The result is `false`, and nothing changes, if the
/// engine is not monitoring. Otherwise the adapter's session is asked to
/// end and the result is `true`.
pub fn stop_monitoring(engine: &mut Engine) -> (stopped: bool)
    requires
        old(engine)@.wf(),
    ensures
        stopped == old(engine)@.stop_granted(),
        final(engine)@ == old(engine)@.stopped(),
        final(engine)@.wf(),
{
    if !engine.state.monitoring {
        return false;
    }
    engine.state.monitoring = false;
    crate::adapter::stop_monitoring(&mut engine.adapter);
    true
}

/// Ends the session after the monitoring thread could not install its hook,
/// so that the host sees monitoring revert to off.
pub fn hook_install_failed(engine: &mut Engine)
    ensures
        final(engine)@ == old(engine)@.after_hook_failure(),
        final(engine)@.wf(),
{
    engine.state.monitoring = false;
    engine.adapter.running = false;
}

/// The number of key presses counted since the last reset.
pub fn get_keyboard_count(engine: &Engine) -> (count: u64)
    ensures
        count == engine@.state.keyboard_count,
{
    engine.state.keyboard_count
}

/// The number of mouse events counted since the last reset.
pub fn get_mouse_count(engine: &Engine) -> (count: u64)
    ensures
        count == engine@.state.mouse_count,
{
    engine.state.mouse_count
}

/// Seconds at `wall_now` since the last genuine event; `0` if there was none
/// since the engine was created.
pub fn get_idle_time(engine: &Engine, wall_now: u64) -> (idle: u64)
    ensures
        idle == engine@.state.idle_time(wall_now),
{
    engine.state.idle_seconds(wall_now)
}

/// Zeroes the counters, restarts the idle clock at `wall_now` and forgets
/// every pressed key. Monitoring goes on or stays off as it was.
pub fn reset_counters(engine: &mut Engine, wall_now: u64)
    ensures
        final(engine)@ == old(engine)@.after_reset(wall_now),
        final(engine)@.wf() == old(engine)@.wf(),
{
    engine.state.reset(wall_now);
    reset_monitoring_state(&mut engine.adapter.tracker);
}

/// The bytes that a save at `wall_now` appends to the log file: the line of
/// the current counters and idle time, after the header line if the file
/// does not exist yet.
pub fn log_entry(engine: &Engine, wall_now: u64, file_exists: bool) -> (bytes: Vec<u8>)
    ensures
        bytes@ == log_chunk(engine@.snapshot(wall_now), file_exists),
{
    let record = LogRecord {
        timestamp: wall_now,
        keyboard_count: engine.state.keyboard_count,
        mouse_count: engine.state.mouse_count,
        idle_time_seconds: engine.state.idle_seconds(wall_now),
    };
    render_log_chunk(&record, file_exists)
}

/// Completes a save. `written` says whether the bytes of [`log_entry`]
/// reached the file. If so the engine is reset at `wall_now` and the result
/// is `true`; if not, nothing changes and the result is `false`.
pub fn save_activity_log(engine: &mut Engine, written: bool, wall_now: u64) -> (saved: bool)
    ensures
        saved == written,
        final(engine)@ == old(engine)@.after_save(written, wall_now),
        final(engine)@.wf() == old(engine)@.wf(),
{
    if written {
        reset_counters(engine, wall_now);
    }
    written
}

/// Starting twice starts once.
///
/// On an engine that is not monitoring, a start request is granted and
/// turns monitoring on. A second request right after it, at whatever time,
/// is refused and changes nothing, so the adapter is asked for one session
/// only.
pub proof fn lemma_start_is_idempotent(
    engine: EngineView,
    wall_first: u64,
    mono_first: u64,
    wall_second: u64,
    mono_second: u64,
)
    requires
        engine.wf(),
        !engine.state.monitoring,
    ensures
        engine.start_granted(),
        !engine.started(wall_first, mono_first).start_granted(),
        engine.started(wall_first, mono_first).started(wall_second, mono_second) == engine.started(
            wall_first,
            mono_first,
        ),
        engine.started(wall_first, mono_first).adapter.running,
        engine.started(wall_first, mono_first).wf(),
{
}

/// Stopping twice stops once.
///
/// On an engine that is monitoring, a stop request is granted and turns
/// monitoring off. A second request right after it is refused and changes
/// nothing.
pub proof fn lemma_stop_is_idempotent(engine: EngineView)
    requires
        engine.wf(),
        engine.state.monitoring,
    ensures
        engine.stop_granted(),
        !engine.stopped().stop_granted(),
        engine.stopped().stopped() == engine.stopped(),
        !engine.stopped().adapter.running,
        engine.stopped().wf(),
{
}

/// Right after a reset the engine is not idle, and a save that was written
/// leaves both counters at zero.
pub proof fn lemma_reset_restarts_idle_clock(engine: EngineView, wall_now: u64)
    ensures
        engine.after_reset(wall_now).state.idle_time(wall_now) == 0,
        engine.after_reset(wall_now).state.keyboard_count == 0,
        engine.after_reset(wall_now).state.mouse_count == 0,
        engine.after_save(true, wall_now).snapshot(wall_now).keyboard_count == 0,
        engine.after_save(true, wall_now).snapshot(wall_now).mouse_count == 0,
{
}

} // verus!
