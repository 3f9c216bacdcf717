use ferriskeys::config::config::Config;
use ferriskeys::input::input::InputEvent;
use ferriskeys::ui::visualiser::{DebounceGate, VisualiserApp, DEBOUNCE_MS, IDLE_FRAME_MS};

fn key(label: &str) -> InputEvent {
    InputEvent::KeyPress(label.to_string())
}

fn click(label: &str) -> InputEvent {
    InputEvent::MouseClick(label.to_string())
}

fn shown(app: &VisualiserApp) -> Vec<String> {
    app.key_buffer.keys.iter().map(|k| k.label.clone()).collect()
}

#[test]
fn the_gate_lets_a_label_through_once_per_window() {
    let mut gate = DebounceGate::new();
    assert!(!gate.contains("A"));
    assert!(gate.accept("A"));
    assert!(gate.contains("A"));
    assert!(!gate.accept("A"));
    assert!(!gate.accept("A"));
    assert!(gate.accept("B"));
    assert!(gate.accept("a"));
    assert!(gate.accept(""));
    assert!(!gate.accept(""));
    assert!(!gate.accept("B"));
}

#[test]
fn a_tick_forgets_every_label_at_once() {
    let mut gate = DebounceGate::new();
    assert!(gate.accept("A"));
    assert!(gate.accept("B"));
    gate.tick();
    assert!(!gate.contains("A"));
    assert!(!gate.contains("B"));
    assert!(gate.accept("A"));
    assert!(gate.accept("B"));
    assert!(!gate.accept("A"));
    gate.tick();
    gate.tick();
    assert!(gate.accept("A"));
}

#[test]
fn a_new_app_has_nothing_to_show() {
    let app = VisualiserApp::new(Config::default(), 42);
    assert!(app.key_buffer.keys.is_empty());
    assert!(!app.recently_seen.contains("A"));
    assert_eq!(app.last_clear, 42);
    assert_eq!(app.last_ui_width, 0);
    assert_eq!(app.config.timeout_ms, 1200);
}

#[test]
fn two_presses_in_one_window_reach_the_buffer_once() {
    let mut app = VisualiserApp::new(Config::default(), 0);
    assert!(app.handle_event(&key("A"), 10));
    assert!(!app.handle_event(&key("A"), 20));
    assert_eq!(shown(&app), vec!["A"]);
    // The dropped press did not refresh the entry either.
    assert_eq!(app.key_buffer.keys[0].time, 10);
    app.end_window(250);
    assert_eq!(app.last_clear, 0);
    assert!(!app.handle_event(&key("A"), 250));
    app.end_window(251);
    assert_eq!(app.last_clear, 251);
    assert!(app.handle_event(&key("A"), 270));
    assert_eq!(shown(&app), vec!["A"]);
    assert_eq!(app.key_buffer.keys[0].time, 270);
    assert_eq!(app.key_buffer.keys[0].anim, 800);
}

#[test]
fn the_window_ends_after_more_than_250_ms() {
    assert_eq!(DEBOUNCE_MS, 250);
    let mut app = VisualiserApp::new(Config::default(), 1_000);
    assert!(app.handle_event(&key("A"), 1_000));
    app.end_window(1_250);
    assert!(app.recently_seen.contains("A"));
    assert_eq!(app.last_clear, 1_000);
    app.end_window(999);
    assert!(app.recently_seen.contains("A"));
    app.end_window(0);
    assert_eq!(app.last_clear, 1_000);
    app.end_window(1_251);
    assert!(!app.recently_seen.contains("A"));
    assert_eq!(app.last_clear, 1_251);
}

#[test]
fn keys_and_clicks_share_the_window_by_label() {
    let mut app = VisualiserApp::new(Config::default(), 0);
    assert!(app.handle_event(&click("MouseLeft"), 0));
    assert!(!app.handle_event(&key("MouseLeft"), 1));
    assert!(app.handle_event(&key("Enter"), 2));
    assert!(!app.handle_event(&click("Enter"), 3));
    assert_eq!(shown(&app), vec!["left", "enter"]);
    assert_eq!(app.key_buffer.keys[0].icon, "\u{f037d}");
    assert_eq!(app.key_buffer.keys[1].icon, "\u{f0311}");
}

#[test]
fn update_takes_events_then_ends_the_window_then_draws() {
    let mut app = VisualiserApp::new(Config::default(), 0);
    let frame = app.update(&vec![key("A"), key("B"), key("A")], 800_000, 800_000, 260);
    assert_eq!(frame.repaint_after_ms, 0);
    assert_eq!(frame.boxes.len(), 2);
    assert_eq!(frame.boxes[0].label.text, "A");
    assert_eq!(frame.boxes[1].label.text, "B");
    assert_eq!(frame.boxes[1].left, 800_000 - 98_000 + 4_500);
    assert_eq!(app.last_ui_width, 800_000);
    assert_eq!(shown(&app), vec!["A", "B"]);
    assert_eq!(app.key_buffer.keys[0].anim, 900);
    // The window ended in that frame, after its events were taken.
    assert_eq!(app.last_clear, 260);
    assert!(!app.recently_seen.contains("A"));
    let frame = app.update(&vec![key("A")], 800_000, 800_000, 300);
    assert_eq!(frame.repaint_after_ms, 0);
    assert_eq!(shown(&app), vec!["A", "B"]);
    assert_eq!(app.key_buffer.keys[0].time, 300);
    assert_eq!(app.key_buffer.keys[0].anim, 900);
    assert_eq!(app.key_buffer.keys[1].anim, 1000);
}

#[test]
fn a_frame_without_a_new_key_waits_the_idle_time() {
    assert_eq!(IDLE_FRAME_MS, 33);
    let mut app = VisualiserApp::new(Config::default(), 0);
    let frame = app.update(&vec![], 800_000, 800_000, 10);
    assert_eq!(frame.repaint_after_ms, 33);
    assert!(frame.boxes.is_empty());
    let frame = app.update(&vec![key("A")], 800_000, 800_000, 20);
    assert_eq!(frame.repaint_after_ms, 0);
    let frame = app.update(&vec![key("A"), key("A")], 800_000, 800_000, 30);
    assert_eq!(frame.repaint_after_ms, 33);
    assert_eq!(frame.boxes.len(), 1);
    let frame = app.update(&vec![key("A"), click("B")], 800_000, 800_000, 40);
    assert_eq!(frame.repaint_after_ms, 0);
    assert_eq!(frame.boxes.len(), 2);
}

#[test]
fn update_lets_entries_expire_and_narrows_with_the_width() {
    let mut app = VisualiserApp::new(Config::default(), 0);
    let events: Vec<InputEvent> = ["A", "B", "C"].iter().map(|l| key(l)).collect();
    let frame = app.update(&events, 800_000, 800_000, 0);
    assert_eq!(frame.boxes.len(), 3);
    let frame = app.update(&vec![], 200_000, 200_000, 500);
    assert_eq!(frame.boxes.len(), 2);
    assert_eq!(shown(&app), vec!["B", "C"]);
    assert_eq!(app.last_ui_width, 200_000);
    let frame = app.update(&vec![key("D")], 800_000, 800_000, 999);
    assert_eq!(frame.boxes.len(), 3);
    let frame = app.update(&vec![], 800_000, 800_000, 1_000);
    assert_eq!(frame.boxes.len(), 1);
    assert_eq!(shown(&app), vec!["D"]);
}

#[test]
fn new_settings_take_effect_on_the_next_frame() {
    let mut app = VisualiserApp::new(Config::default(), 0);
    let frame = app.update(&vec![key("A")], 800_000, 800_000, 0);
    assert_eq!(frame.boxes[0].label.size, 20_000);
    let mut fresh = Config::default();
    let mut style = Config::fallback_style();
    style.text_size = 31_000;
    fresh.styles.insert(ferriskeys::input::keymap::KeyCategory::Normal, style);
    app.config = fresh;
    let frame = app.update(&vec![], 800_000, 800_000, 10);
    assert_eq!(frame.boxes.len(), 1);
    assert_eq!(frame.boxes[0].label.size, 31_000);
    assert_eq!(shown(&app), vec!["A"]);
}
