//! Event dispatch for the Windows low-level keyboard and mouse hooks.
//!
//! A hook procedure is called with a code, a message identifier and, for the
//! keyboard, the virtual-key code. Only calls with the action code carry an
//! event.

use crate::activity::ActivityState;
use crate::adapter::{handle_keyboard_event, handle_mouse_event, state_after_key_event, state_after_mouse_event};
use crate::tracker::{KeyTracker, PressedKeys};
use vstd::prelude::*;

verus! {

/// Hook code of a call that carries an event.
pub const HC_ACTION: i32 = 0;

/// Message identifier of a key going down.
pub const WM_KEYDOWN: usize = 0x0100;

/// Message identifier of a system key going down.
pub const WM_SYSKEYDOWN: usize = 0x0104;

/// Whether `message` says that a key went down. Every other message of the
/// keyboard hook is taken as a key going up.
pub open spec fn is_key_down_message(message: usize) -> bool {
    message == WM_KEYDOWN || message == WM_SYSKEYDOWN
}

/// The pressed-key set after a call of the keyboard hook.
pub open spec fn keys_after_keyboard_call(
    keys: PressedKeys,
    code: i32,
    message: usize,
    virtual_key: u32,
    mono_now: u64,
) -> PressedKeys {
    if code == HC_ACTION {
        keys.after_event(virtual_key, is_key_down_message(message), mono_now)
    } else {
        keys
    }
}

/// The counters and the idle clock after a call of the keyboard hook.
pub open spec fn state_after_keyboard_call(
    keys: PressedKeys,
    state: ActivityState,
    code: i32,
    message: usize,
    virtual_key: u32,
    mono_now: u64,
    wall_now: u64,
) -> ActivityState {
    if code == HC_ACTION {
        state_after_key_event(
            keys,
            state,
            virtual_key,
            is_key_down_message(message),
            mono_now,
            wall_now,
        )
    } else {
        state
    }
}

/// The counters and the idle clock after a call of the mouse hook.
pub open spec fn state_after_mouse_call(state: ActivityState, code: i32, wall_now: u64) -> ActivityState {
    if code == HC_ACTION {
        state_after_mouse_event(state, wall_now)
    } else {
        state
    }
}

/// Handles one call of the keyboard hook. The host passes the call on to the
/// next hook in the chain whatever happens here.
pub fn keyboard_proc(
    tracker: &mut KeyTracker,
    state: &mut ActivityState,
    code: i32,
    message: usize,
    virtual_key: u32,
    mono_now: u64,
    wall_now: u64,
)
    ensures
        final(tracker)@ == keys_after_keyboard_call(
            old(tracker)@,
            code,
            message,
            virtual_key,
            mono_now,
        ),
        *final(state) == state_after_keyboard_call(
            old(tracker)@,
            *old(state),
            code,
            message,
            virtual_key,
            mono_now,
            wall_now,
        ),
{
    if code == HC_ACTION {
        let is_key_down = message == WM_KEYDOWN || message == WM_SYSKEYDOWN;
        handle_keyboard_event(tracker, state, virtual_key, is_key_down, mono_now, wall_now);
    }
}

/// Handles one call of the mouse hook.
pub fn mouse_proc(state: &mut ActivityState, code: i32, wall_now: u64)
    ensures
        *final(state) == state_after_mouse_call(*old(state), code, wall_now),
{
    if code == HC_ACTION {
        handle_mouse_event(state, wall_now);
    }
}

} // verus!
