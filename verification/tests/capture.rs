use ferriskeys::input::input::{mouse_label, InputEvent, ShiftTracker, Transition};
use ferriskeys::input::key::{Button, Key};
use ferriskeys::input::layout::KeyboardLayout;
use ferriskeys::platform::linux::layout::layout_from_query;
use ferriskeys::platform::windows::layout::layout_from_locale;
use ferriskeys::platform::windows::windows::vk_code_from_key;

fn pressed(event: Option<InputEvent>) -> String {
    match event {
        Some(InputEvent::KeyPress(label)) => label,
        other => panic!("no key press: {other:?}"),
    }
}

fn clicked(event: Option<InputEvent>) -> String {
    match event {
        Some(InputEvent::MouseClick(label)) => label,
        other => panic!("no click: {other:?}"),
    }
}

#[test]
fn a_tracker_starts_with_shift_up() {
    let tracker = ShiftTracker::new(KeyboardLayout::UnitedKingdom);
    assert!(!tracker.shift_down);
    assert_eq!(tracker.layout, KeyboardLayout::UnitedKingdom);
}

#[test]
fn keys_without_shift_give_their_physical_label() {
    let mut tracker = ShiftTracker::new(KeyboardLayout::UnitedStates);
    assert_eq!(pressed(tracker.on_transition(Transition::KeyDown(Key::KeyA), None)), "A");
    assert_eq!(pressed(tracker.on_transition(Transition::KeyDown(Key::Num2), None)), "2");
    assert_eq!(pressed(tracker.on_transition(Transition::KeyDown(Key::Comma), None)), "Comma");
    // What the platform says is of no use while Shift is up.
    let typed = Some("?".to_string());
    assert_eq!(pressed(tracker.on_transition(Transition::KeyDown(Key::Num2), typed)), "2");
    assert!(!tracker.shift_down);
}

#[test]
fn shift_is_sent_at_once_and_followed() {
    let mut tracker = ShiftTracker::new(KeyboardLayout::UnitedStates);
    let event = tracker.on_transition(Transition::KeyDown(Key::ShiftLeft), None);
    assert_eq!(pressed(event), "\u{21e7} shift");
    assert!(tracker.shift_down);
    assert_eq!(pressed(tracker.on_transition(Transition::KeyDown(Key::Num2), None)), "@");
    assert_eq!(pressed(tracker.on_transition(Transition::KeyDown(Key::KeyA), None)), "KeyA");
    let event = tracker.on_transition(Transition::KeyDown(Key::ShiftRight), None);
    assert_eq!(pressed(event), "\u{21e7} shift");
    assert!(tracker.shift_down);
    assert!(tracker.on_transition(Transition::KeyUp(Key::KeyA), None).is_none());
    assert!(tracker.shift_down);
    assert!(tracker.on_transition(Transition::KeyUp(Key::ShiftRight), None).is_none());
    assert!(!tracker.shift_down);
    assert_eq!(pressed(tracker.on_transition(Transition::KeyDown(Key::Num2), None)), "2");
    assert!(tracker.on_transition(Transition::KeyUp(Key::ShiftLeft), None).is_none());
    assert!(!tracker.shift_down);
}

#[test]
fn shifted_keys_follow_the_layout() {
    let mut uk = ShiftTracker::new(KeyboardLayout::UnitedKingdom);
    let _ = uk.on_transition(Transition::KeyDown(Key::ShiftLeft), None);
    assert_eq!(pressed(uk.on_transition(Transition::KeyDown(Key::Num2), None)), "\"");
    assert_eq!(pressed(uk.on_transition(Transition::KeyDown(Key::Num3), None)), "\u{a3}");
    assert_eq!(uk.layout, KeyboardLayout::UnitedKingdom);
    let mut other = ShiftTracker::new(KeyboardLayout::Other(7));
    let _ = other.on_transition(Transition::KeyDown(Key::ShiftLeft), None);
    assert_eq!(pressed(other.on_transition(Transition::KeyDown(Key::Num3), None)), "#");
}

#[test]
fn what_the_platform_types_replaces_the_table_while_shift_is_held() {
    let mut tracker = ShiftTracker::new(KeyboardLayout::UnitedStates);
    assert!(!tracker.wants_typed_text(Transition::KeyDown(Key::Num2)));
    let _ = tracker.on_transition(Transition::KeyDown(Key::ShiftLeft), None);
    assert!(tracker.wants_typed_text(Transition::KeyDown(Key::Num2)));
    assert!(!tracker.wants_typed_text(Transition::KeyDown(Key::ShiftRight)));
    assert!(!tracker.wants_typed_text(Transition::KeyUp(Key::Num2)));
    assert!(!tracker.wants_typed_text(Transition::ButtonDown(Button::Left)));
    assert!(!tracker.wants_typed_text(Transition::Other));
    let typed = Some("\u{20ac}".to_string());
    assert_eq!(
        pressed(tracker.on_transition(Transition::KeyDown(Key::Num2), typed)),
        "\u{20ac}"
    );
    let typed = Some("x".to_string());
    let event = tracker.on_transition(Transition::KeyDown(Key::ShiftLeft), typed);
    assert_eq!(pressed(event), "\u{21e7} shift");
}

#[test]
fn buttons_are_sent_as_clicks() {
    let mut tracker = ShiftTracker::new(KeyboardLayout::UnitedStates);
    let event = tracker.on_transition(Transition::ButtonDown(Button::Left), None);
    assert_eq!(clicked(event), "MouseLeft");
    let event = tracker.on_transition(Transition::ButtonDown(Button::Unknown(5)), None);
    assert_eq!(clicked(event), "MouseUnknown(5)");
    assert_eq!(mouse_label(Button::Right), "MouseRight");
    assert_eq!(mouse_label(Button::Middle), "MouseMiddle");
    assert_eq!(mouse_label(Button::Unknown(0)), "MouseUnknown(0)");
    assert_eq!(mouse_label(Button::Unknown(255)), "MouseUnknown(255)");
    assert!(!tracker.shift_down);
}

#[test]
fn nothing_else_sends_an_event() {
    let mut tracker = ShiftTracker::new(KeyboardLayout::UnitedStates);
    assert!(tracker.on_transition(Transition::Other, None).is_none());
    assert!(tracker.on_transition(Transition::KeyUp(Key::KeyA), None).is_none());
    let _ = tracker.on_transition(Transition::KeyDown(Key::ShiftLeft), None);
    assert!(tracker.on_transition(Transition::Other, Some("x".to_string())).is_none());
    assert!(tracker.shift_down);
}

#[test]
fn the_layout_is_read_from_the_layout_line() {
    let answer = "rules:      evdev\nmodel:      pc105\nlayout:     gb,us\nvariant:    ,\n";
    assert_eq!(layout_from_query(answer), KeyboardLayout::UnitedKingdom);
    assert_eq!(layout_from_query("layout:     us\n"), KeyboardLayout::UnitedStates);
    assert_eq!(layout_from_query("layout: us,gb"), KeyboardLayout::UnitedStates);
    assert_eq!(layout_from_query("layout:gb"), KeyboardLayout::UnitedKingdom);
    assert_eq!(layout_from_query("layout:\tgb \t, us"), KeyboardLayout::UnitedKingdom);
    assert_eq!(layout_from_query("layout: gb\r\nvariant: x\r\n"), KeyboardLayout::UnitedKingdom);
    assert_eq!(layout_from_query("\n\nlayout: us"), KeyboardLayout::UnitedStates);
    assert_eq!(layout_from_query("layout:us:gb"), KeyboardLayout::UnitedStates);
    assert_eq!(layout_from_query("layout: gb\r"), KeyboardLayout::UnitedKingdom);
}

#[test]
fn another_layout_or_none_is_other_zero() {
    for answer in [
        "",
        "\n",
        "layout:",
        "layout: de",
        "layout: GB",
        "layout: gbx",
        "layout: g b",
        "layout: ,gb",
        "layout: :gb",
        "Layout: gb",
        " layout: gb",
        "xlayout: gb",
        "layout gb",
        "model: gb\nvariant: us",
        "layout: fr\nlayout: gb",
        "lay\nout: gb",
        "layout: gb\rus",
    ] {
        assert_eq!(layout_from_query(answer), KeyboardLayout::Other(0), "{answer:?}");
    }
}

#[test]
fn the_layout_of_a_locale_is_in_its_upper_half() {
    assert_eq!(layout_from_locale(0x0809_0809), KeyboardLayout::UnitedKingdom);
    assert_eq!(layout_from_locale(0x0409_0409), KeyboardLayout::UnitedStates);
    assert_eq!(layout_from_locale(0x0809_0409), KeyboardLayout::UnitedKingdom);
    assert_eq!(layout_from_locale(0x0409_0809), KeyboardLayout::UnitedStates);
    assert_eq!(layout_from_locale(0x040c_040c), KeyboardLayout::Other(0x040c));
    assert_eq!(layout_from_locale(0), KeyboardLayout::Other(0));
    assert_eq!(layout_from_locale(0x0809), KeyboardLayout::Other(0));
    assert_eq!(layout_from_locale(0xffff_ffff_f002_0409), KeyboardLayout::Other(0xf002));
    assert_eq!(layout_from_locale(0xffff_ffff_0409_0000), KeyboardLayout::UnitedStates);
}

#[test]
fn keys_that_type_a_character_have_a_virtual_key_code() {
    assert_eq!(vk_code_from_key(Key::Num0), Some(0x30));
    assert_eq!(vk_code_from_key(Key::Num9), Some(0x39));
    assert_eq!(vk_code_from_key(Key::KeyA), Some(0x41));
    assert_eq!(vk_code_from_key(Key::KeyQ), Some(0x51));
    assert_eq!(vk_code_from_key(Key::KeyZ), Some(0x5a));
    assert_eq!(vk_code_from_key(Key::Space), Some(0x20));
    assert_eq!(vk_code_from_key(Key::Minus), Some(0xbd));
    assert_eq!(vk_code_from_key(Key::Equal), Some(0xbb));
    assert_eq!(vk_code_from_key(Key::LeftBracket), Some(0xdb));
    assert_eq!(vk_code_from_key(Key::RightBracket), Some(0xdd));
    assert_eq!(vk_code_from_key(Key::BackSlash), Some(0xdc));
    assert_eq!(vk_code_from_key(Key::SemiColon), Some(0xba));
    assert_eq!(vk_code_from_key(Key::Quote), Some(0xde));
    assert_eq!(vk_code_from_key(Key::Comma), Some(0xbc));
    assert_eq!(vk_code_from_key(Key::Dot), Some(0xbe));
    assert_eq!(vk_code_from_key(Key::Slash), Some(0xbf));
    let letters = [
        Key::KeyA, Key::KeyB, Key::KeyC, Key::KeyD, Key::KeyE, Key::KeyF, Key::KeyG,
        Key::KeyH, Key::KeyI, Key::KeyJ, Key::KeyK, Key::KeyL, Key::KeyM, Key::KeyN,
        Key::KeyO, Key::KeyP, Key::KeyQ, Key::KeyR, Key::KeyS, Key::KeyT, Key::KeyU,
        Key::KeyV, Key::KeyW, Key::KeyX, Key::KeyY, Key::KeyZ,
    ];
    for (i, key) in letters.iter().enumerate() {
        assert_eq!(vk_code_from_key(*key), Some(0x41 + i as u32));
    }
}

#[test]
fn other_keys_have_no_virtual_key_code() {
    for key in [
        Key::BackQuote,
        Key::IntlBackslash,
        Key::Return,
        Key::ShiftLeft,
        Key::F1,
        Key::Kp0,
        Key::Tab,
        Key::Unknown(0x41),
    ] {
        assert_eq!(vk_code_from_key(key), None);
    }
}
