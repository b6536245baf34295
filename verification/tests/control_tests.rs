use activity_monitor::activity::ActivityState;
use activity_monitor::adapter::{handle_keyboard_event, handle_mouse_event};
use activity_monitor::control::{
    get_idle_time, get_keyboard_count, get_mouse_count, hook_install_failed, log_entry,
    reset_counters, save_activity_log, start_monitoring, stop_monitoring, Engine,
};
use activity_monitor::tracker::KEY_TIMEOUT_NANOS;

const HEADER: &str = "timestamp,keyboard_count,mouse_count,idle_time_seconds\n";

fn text(bytes: Vec<u8>) -> String {
    String::from_utf8(bytes).unwrap()
}

fn press(engine: &mut Engine, key: u32, mono_now: u64, wall_now: u64) {
    handle_keyboard_event(&mut engine.adapter.tracker, &mut engine.state, key, true, mono_now, wall_now);
    handle_keyboard_event(&mut engine.adapter.tracker, &mut engine.state, key, false, mono_now, wall_now);
}

#[test]
fn new_engine_is_idle_and_empty() {
    let engine = Engine::new();
    assert!(engine.is_consistent());
    assert_eq!(engine.state, ActivityState::new());
    assert!(!engine.adapter.running);
    assert_eq!(engine.adapter.tracker.timeout, KEY_TIMEOUT_NANOS);
    assert_eq!(get_keyboard_count(&engine), 0);
    assert_eq!(get_mouse_count(&engine), 0);
    assert_eq!(get_idle_time(&engine, 1_700_000_000), 0);
}

#[test]
fn start_twice_returns_true_then_false() {
    let mut engine = Engine::new();
    assert!(start_monitoring(&mut engine, 1_000, 50));
    assert!(engine.state.monitoring);
    assert!(engine.adapter.running);
    assert_eq!(engine.adapter.last_cleanup, 50);
    assert_eq!(engine.state.last_genuine_activity, 1_000);

    press(&mut engine, 65, 60, 1_001);
    assert!(!start_monitoring(&mut engine, 2_000, 70));
    assert!(engine.state.monitoring);
    assert!(engine.adapter.running);
    assert_eq!(engine.adapter.last_cleanup, 50);
    assert_eq!(get_keyboard_count(&engine), 1);
    assert_eq!(engine.state.last_genuine_activity, 1_001);
    assert!(engine.is_consistent());
}

#[test]
fn stop_twice_returns_true_then_false() {
    let mut engine = Engine::new();
    assert!(!stop_monitoring(&mut engine));
    assert!(start_monitoring(&mut engine, 1_000, 50));
    press(&mut engine, 65, 60, 1_001);
    handle_keyboard_event(&mut engine.adapter.tracker, &mut engine.state, 66, true, 61, 1_002);
    assert!(stop_monitoring(&mut engine));
    assert!(!engine.state.monitoring);
    assert!(!engine.adapter.running);
    assert!(engine.adapter.tracker.keys.is_empty());
    assert_eq!(get_keyboard_count(&engine), 2);
    assert_eq!(engine.state.last_genuine_activity, 1_002);
    assert!(!stop_monitoring(&mut engine));
    assert_eq!(get_keyboard_count(&engine), 2);
    assert!(engine.is_consistent());
}

#[test]
fn start_resets_counters_and_pressed_keys() {
    let mut engine = Engine::new();
    press(&mut engine, 65, 10, 900);
    handle_mouse_event(&mut engine.state, 901);
    handle_keyboard_event(&mut engine.adapter.tracker, &mut engine.state, 66, true, 11, 902);
    assert_eq!(get_keyboard_count(&engine), 2);
    assert_eq!(get_mouse_count(&engine), 1);
    assert!(start_monitoring(&mut engine, 1_000, 50));
    assert_eq!(get_keyboard_count(&engine), 0);
    assert_eq!(get_mouse_count(&engine), 0);
    assert_eq!(get_idle_time(&engine, 1_000), 0);
    assert_eq!(get_idle_time(&engine, 1_030), 30);
    assert!(engine.adapter.tracker.keys.is_empty());
}

#[test]
fn restart_after_stop_is_granted() {
    let mut engine = Engine::new();
    assert!(start_monitoring(&mut engine, 1_000, 50));
    assert!(stop_monitoring(&mut engine));
    assert!(start_monitoring(&mut engine, 2_000, 90));
    assert_eq!(engine.adapter.last_cleanup, 90);
    assert_eq!(engine.state.last_genuine_activity, 2_000);
}

#[test]
fn failed_hook_installation_reverts_monitoring() {
    let mut engine = Engine::new();
    assert!(start_monitoring(&mut engine, 1_000, 50));
    handle_mouse_event(&mut engine.state, 1_005);
    hook_install_failed(&mut engine);
    assert!(!engine.state.monitoring);
    assert!(!engine.adapter.running);
    assert!(engine.is_consistent());
    assert_eq!(get_mouse_count(&engine), 1);
    assert_eq!(engine.state.last_genuine_activity, 1_005);
    assert!(!stop_monitoring(&mut engine));
    assert!(start_monitoring(&mut engine, 1_100, 60));
}

#[test]
fn reset_counters_while_monitoring_keeps_monitoring() {
    let mut engine = Engine::new();
    assert!(start_monitoring(&mut engine, 1_000, 50));
    press(&mut engine, 65, 60, 1_001);
    handle_keyboard_event(&mut engine.adapter.tracker, &mut engine.state, 66, true, 61, 1_002);
    reset_counters(&mut engine, 1_500);
    assert!(engine.state.monitoring);
    assert!(engine.adapter.running);
    assert_eq!(get_keyboard_count(&engine), 0);
    assert_eq!(get_mouse_count(&engine), 0);
    assert_eq!(get_idle_time(&engine, 1_500), 0);
    assert!(engine.adapter.tracker.keys.is_empty());
    assert_eq!(engine.adapter.last_cleanup, 50);
}

#[test]
fn reset_counters_while_not_monitoring() {
    let mut engine = Engine::new();
    handle_mouse_event(&mut engine.state, 100);
    reset_counters(&mut engine, 200);
    assert!(!engine.state.monitoring);
    assert_eq!(get_mouse_count(&engine), 0);
    assert_eq!(get_idle_time(&engine, 200), 0);
    assert_eq!(get_idle_time(&engine, 260), 60);
}

#[test]
fn idle_time_is_zero_right_after_genuine_events() {
    let mut engine = Engine::new();
    assert!(start_monitoring(&mut engine, 1_000, 50));
    assert_eq!(get_idle_time(&engine, 1_040), 40);
    handle_keyboard_event(&mut engine.adapter.tracker, &mut engine.state, 65, true, 60, 1_040);
    assert_eq!(get_idle_time(&engine, 1_040), 0);
    assert_eq!(get_idle_time(&engine, 1_050), 10);
    handle_mouse_event(&mut engine.state, 1_050);
    assert_eq!(get_idle_time(&engine, 1_050), 0);
}

#[test]
fn save_on_fresh_path_writes_header_and_one_record_then_resets() {
    let mut engine = Engine::new();
    assert!(start_monitoring(&mut engine, 1_700_000_000, 0));
    press(&mut engine, 65, 10, 1_700_000_010);
    press(&mut engine, 66, 20, 1_700_000_020);
    handle_mouse_event(&mut engine.state, 1_700_000_030);
    handle_mouse_event(&mut engine.state, 1_700_000_031);
    handle_mouse_event(&mut engine.state, 1_700_000_032);

    let mut file: Vec<u8> = Vec::new();
    let first = log_entry(&engine, 1_700_000_100, false);
    file.extend_from_slice(&first);
    assert!(save_activity_log(&mut engine, true, 1_700_000_100));
    assert_eq!(text(file.clone()), format!("{}1700000100,2,3,68\n", HEADER));
    assert_eq!(get_keyboard_count(&engine), 0);
    assert_eq!(get_mouse_count(&engine), 0);
    assert_eq!(get_idle_time(&engine, 1_700_000_100), 0);
    assert!(engine.state.monitoring);

    let second = log_entry(&engine, 1_700_000_160, true);
    file.extend_from_slice(&second);
    assert!(save_activity_log(&mut engine, true, 1_700_000_160));
    assert_eq!(
        text(file),
        format!("{}1700000100,2,3,68\n1700000160,0,0,60\n", HEADER)
    );
}

#[test]
fn failed_write_leaves_counters() {
    let mut engine = Engine::new();
    handle_mouse_event(&mut engine.state, 500);
    press(&mut engine, 65, 10, 510);
    let entry = log_entry(&engine, 600, true);
    assert_eq!(text(entry), "600,1,1,90\n");
    assert!(!save_activity_log(&mut engine, false, 600));
    assert_eq!(get_keyboard_count(&engine), 1);
    assert_eq!(get_mouse_count(&engine), 1);
    assert_eq!(engine.state.last_genuine_activity, 510);
    assert_eq!(get_idle_time(&engine, 600), 90);
}

#[test]
fn log_entry_of_a_fresh_engine_reports_zero_idle_time() {
    let engine = Engine::new();
    assert_eq!(text(log_entry(&engine, 1_700_000_000, true)), "1700000000,0,0,0\n");
}

#[test]
fn log_entry_does_not_change_the_engine() {
    let mut engine = Engine::new();
    handle_mouse_event(&mut engine.state, 500);
    let before = engine.state;
    let _ = log_entry(&engine, 900, false);
    assert_eq!(engine.state, before);
}
