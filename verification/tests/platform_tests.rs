use activity_monitor::activity::ActivityState;
use activity_monitor::macos::{
    classify_event_type, event_callback, EventKind, EVENT_TYPE_KEY_DOWN, EVENT_TYPE_KEY_UP,
};
use activity_monitor::tracker::KeyTracker;
use activity_monitor::windows::{keyboard_proc, mouse_proc, HC_ACTION, WM_KEYDOWN, WM_SYSKEYDOWN};

const WM_KEYUP: usize = 0x0101;
const WM_SYSKEYUP: usize = 0x0105;

#[test]
fn tap_event_types_are_classified() {
    assert_eq!(EVENT_TYPE_KEY_DOWN, 10);
    assert_eq!(EVENT_TYPE_KEY_UP, 11);
    assert_eq!(classify_event_type(10), EventKind::KeyDown);
    assert_eq!(classify_event_type(11), EventKind::KeyUp);
    let mouse: Vec<u32> = vec![1, 2, 3, 4, 5, 22];
    for event_type in mouse {
        assert_eq!(classify_event_type(event_type), EventKind::Mouse);
    }
    let other: Vec<u32> = vec![0, 6, 7, 8, 9, 12, 21, 23, 25, u32::MAX];
    for event_type in other {
        assert_eq!(classify_event_type(event_type), EventKind::Other);
    }
}

#[test]
fn tap_key_events_reach_the_tracker() {
    let mut tracker = KeyTracker::new();
    let mut state = ActivityState::new();
    event_callback(&mut tracker, &mut state, 10, 0x31, 1_000, 500);
    assert_eq!(state.keyboard_count, 1);
    assert_eq!(state.last_genuine_activity, 500);
    assert_eq!(tracker.keys.get(&0x31), Some(&1_000));
    event_callback(&mut tracker, &mut state, 10, 0x31, 2_000, 501);
    assert_eq!(state.keyboard_count, 1);
    assert_eq!(state.last_genuine_activity, 500);
    event_callback(&mut tracker, &mut state, 11, 0x31, 3_000, 502);
    assert_eq!(state.keyboard_count, 1);
    assert!(tracker.keys.is_empty());
    event_callback(&mut tracker, &mut state, 10, u16::MAX, 4_000, 503);
    assert_eq!(state.keyboard_count, 2);
    assert_eq!(tracker.keys.get(&65_535), Some(&4_000));
}

#[test]
fn tap_mouse_events_are_always_counted() {
    let mut tracker = KeyTracker::new();
    let mut state = ActivityState::new();
    event_callback(&mut tracker, &mut state, 5, 0, 1_000, 500);
    event_callback(&mut tracker, &mut state, 5, 0, 1_001, 500);
    event_callback(&mut tracker, &mut state, 22, 0, 1_002, 501);
    event_callback(&mut tracker, &mut state, 1, 0, 1_003, 502);
    assert_eq!(state.mouse_count, 4);
    assert_eq!(state.keyboard_count, 0);
    assert_eq!(state.last_genuine_activity, 502);
    assert!(tracker.keys.is_empty());
}

#[test]
fn tap_ignores_other_events() {
    let mut tracker = KeyTracker::new();
    let mut state = ActivityState::new();
    event_callback(&mut tracker, &mut state, 12, 0x31, 1_000, 500);
    event_callback(&mut tracker, &mut state, 6, 0x31, 1_000, 500);
    assert_eq!(state, ActivityState::new());
    assert!(tracker.keys.is_empty());
}

#[test]
fn hook_constants_have_their_values() {
    assert_eq!(HC_ACTION, 0);
    assert_eq!(WM_KEYDOWN, 0x0100);
    assert_eq!(WM_SYSKEYDOWN, 0x0104);
}

#[test]
fn keyboard_hook_counts_key_down_and_system_key_down() {
    let mut tracker = KeyTracker::new();
    let mut state = ActivityState::new();
    keyboard_proc(&mut tracker, &mut state, 0, WM_KEYDOWN, 0x41, 1_000, 500);
    assert_eq!(state.keyboard_count, 1);
    assert_eq!(tracker.keys.get(&0x41), Some(&1_000));
    keyboard_proc(&mut tracker, &mut state, 0, WM_SYSKEYDOWN, 0x12, 1_001, 501);
    assert_eq!(state.keyboard_count, 2);
    assert_eq!(state.last_genuine_activity, 501);
    assert_eq!(tracker.keys.len(), 2);
}

#[test]
fn keyboard_hook_takes_other_messages_as_key_up() {
    let mut tracker = KeyTracker::new();
    let mut state = ActivityState::new();
    keyboard_proc(&mut tracker, &mut state, 0, WM_KEYDOWN, 0x41, 1_000, 500);
    keyboard_proc(&mut tracker, &mut state, 0, WM_SYSKEYDOWN, 0x12, 1_001, 501);
    keyboard_proc(&mut tracker, &mut state, 0, WM_KEYUP, 0x41, 1_002, 502);
    assert_eq!(tracker.keys.get(&0x41), None);
    keyboard_proc(&mut tracker, &mut state, 0, WM_SYSKEYUP, 0x12, 1_003, 503);
    assert!(tracker.keys.is_empty());
    assert_eq!(state.keyboard_count, 2);
    assert_eq!(state.last_genuine_activity, 501);
}

#[test]
fn keyboard_hook_ignores_calls_without_action_code() {
    let mut tracker = KeyTracker::new();
    let mut state = ActivityState::new();
    keyboard_proc(&mut tracker, &mut state, -1, WM_KEYDOWN, 0x41, 1_000, 500);
    keyboard_proc(&mut tracker, &mut state, 3, WM_KEYDOWN, 0x41, 1_000, 500);
    assert_eq!(state, ActivityState::new());
    assert!(tracker.keys.is_empty());
}

#[test]
fn mouse_hook_counts_every_action_call() {
    let mut state = ActivityState::new();
    mouse_proc(&mut state, 0, 700);
    mouse_proc(&mut state, 0, 701);
    mouse_proc(&mut state, -1, 900);
    mouse_proc(&mut state, 1, 900);
    assert_eq!(state.mouse_count, 2);
    assert_eq!(state.last_genuine_activity, 701);
    assert_eq!(state.keyboard_count, 0);
}
