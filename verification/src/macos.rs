//! Event dispatch for the macOS event tap.
//!
//! The tap hands over the type of every event as a number. Two types are key
//! events, six are mouse events, and the rest is of no interest.

use crate::activity::ActivityState;
use crate::adapter::{handle_keyboard_event, handle_mouse_event, state_after_key_event, state_after_mouse_event};
use crate::tracker::{KeyTracker, PressedKeys};
use vstd::prelude::*;

verus! {

/// Event type of a key going down.
pub const EVENT_TYPE_KEY_DOWN: u32 = 10;

/// Event type of a key going up.
pub const EVENT_TYPE_KEY_UP: u32 = 11;

/// What an event of the tap is to the monitor.
#[derive(Clone, Copy, Debug, PartialEq, Eq, Structural)]
pub enum EventKind {
    /// A key went down.
    KeyDown,
    /// A key went up.
    KeyUp,
    /// A mouse button went down or up, or the mouse was moved, dragged or
    /// scrolled.
    Mouse,
    /// Anything else.
    Other,
}

/// Whether `event_type` is one of the mouse event types: left button down
/// and up, right button down and up, mouse moved, and scroll wheel.
pub open spec fn is_mouse_event_type(event_type: u32) -> bool {
    event_type == 1 || event_type == 2 || event_type == 3 || event_type == 4 || event_type == 5
        || event_type == 22
}

/// The kind of an event type.
pub open spec fn event_kind(event_type: u32) -> EventKind {
    if event_type == EVENT_TYPE_KEY_DOWN {
        EventKind::KeyDown
    } else if event_type == EVENT_TYPE_KEY_UP {
        EventKind::KeyUp
    } else if is_mouse_event_type(event_type) {
        EventKind::Mouse
    } else {
        EventKind::Other
    }
}

/// The pressed-key set after an event of the tap.
pub open spec fn keys_after_tap_event(keys: PressedKeys, event_type: u32, key_code: u16, mono_now: u64) -> PressedKeys {
    match event_kind(event_type) {
        EventKind::KeyDown => keys.after_event(key_code as u32, true, mono_now),
        EventKind::KeyUp => keys.after_event(key_code as u32, false, mono_now),
        _ => keys,
    }
}

/// The counters and the idle clock after an event of the tap.
pub open spec fn state_after_tap_event(
    keys: PressedKeys,
    state: ActivityState,
    event_type: u32,
    key_code: u16,
    mono_now: u64,
    wall_now: u64,
) -> ActivityState {
    match event_kind(event_type) {
        EventKind::KeyDown => state_after_key_event(keys, state, key_code as u32, true, mono_now, wall_now),
        EventKind::KeyUp => state_after_key_event(keys, state, key_code as u32, false, mono_now, wall_now),
        EventKind::Mouse => state_after_mouse_event(state, wall_now),
        EventKind::Other => state,
    }
}

/// Tells the kind of an event type. The host needs the key code of an event
/// only where this is a key event.
pub fn classify_event_type(event_type: u32) -> (kind: EventKind)
    ensures
        kind == event_kind(event_type),
{
    if event_type == EVENT_TYPE_KEY_DOWN {
        EventKind::KeyDown
    } else if event_type == EVENT_TYPE_KEY_UP {
        EventKind::KeyUp
    } else if event_type == 1 || event_type == 2 || event_type == 3 || event_type == 4
        || event_type == 5 || event_type == 22 {
        EventKind::Mouse
    } else {
        EventKind::Other
    }
}

/// Handles one event of the tap. `key_code` is read only for a key event.
pub fn event_callback(
    tracker: &mut KeyTracker,
    state: &mut ActivityState,
    event_type: u32,
    key_code: u16,
    mono_now: u64,
    wall_now: u64,
)
    ensures
        final(tracker)@ == keys_after_tap_event(old(tracker)@, event_type, key_code, mono_now),
        *final(state) == state_after_tap_event(
            old(tracker)@,
            *old(state),
            event_type,
            key_code,
            mono_now,
            wall_now,
        ),
{
    match classify_event_type(event_type) {
        EventKind::KeyDown => {
            handle_keyboard_event(tracker, state, key_code as u32, true, mono_now, wall_now);
        },
        EventKind::KeyUp => {
            handle_keyboard_event(tracker, state, key_code as u32, false, mono_now, wall_now);
        },
        EventKind::Mouse => {
            handle_mouse_event(state, wall_now);
        },
        EventKind::Other => {},
    }
}

} // verus!
