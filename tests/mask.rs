use input_hook::mask::{
    event_type_bit, listener_mask, mask_admits, EventType, EVENT_MASK_ALL, EVENT_MASK_KEYBOARD,
    EVENT_MASK_MOUSE_ALL, EVENT_MASK_MOUSE_BUTTONS, EVENT_MASK_MOUSE_MOVEMENT,
    EVENT_MASK_MOUSE_WHEEL,
};
use input_hook::patterns::{compute_event_mask, is_input_pattern};

#[test]
fn bits_follow_the_category_order() {
    let all = [
        EventType::HookEnabled,
        EventType::HookDisabled,
        EventType::KeyPressed,
        EventType::KeyReleased,
        EventType::KeyTyped,
        EventType::MousePressed,
        EventType::MouseReleased,
        EventType::MouseClicked,
        EventType::MouseMoved,
        EventType::MouseDragged,
        EventType::MouseWheel,
    ];
    let mut union = 0;
    for (i, et) in all.iter().enumerate() {
        assert_eq!(event_type_bit(*et), 1u32 << i);
        union |= event_type_bit(*et);
    }
    assert_eq!(union, EVENT_MASK_ALL);
}

#[test]
fn named_masks() {
    assert_eq!(EVENT_MASK_ALL, 0x7FF);
    assert_eq!(EVENT_MASK_KEYBOARD, 0x1C);
    assert_eq!(EVENT_MASK_MOUSE_BUTTONS, 0xE0);
    assert_eq!(EVENT_MASK_MOUSE_MOVEMENT, 0x300);
    assert_eq!(EVENT_MASK_MOUSE_WHEEL, 0x400);
    assert_eq!(EVENT_MASK_MOUSE_ALL, 0x7E0);
}

#[test]
fn admits_tests_one_bit() {
    assert!(mask_admits(0x300, EventType::MouseDragged));
    assert!(mask_admits(0x300, EventType::MouseMoved));
    assert!(!mask_admits(0x300, EventType::MouseWheel));
    assert!(!mask_admits(0, EventType::HookEnabled));
    assert!(mask_admits(EVENT_MASK_ALL, EventType::KeyTyped));
}

#[test]
fn listener_mask_defaults_to_all() {
    assert_eq!(listener_mask(None), EVENT_MASK_ALL);
    assert_eq!(listener_mask(Some(0)), EVENT_MASK_ALL);
    assert_eq!(listener_mask(Some(EVENT_MASK_KEYBOARD)), EVENT_MASK_KEYBOARD);
}

fn patterns(ps: &[&str]) -> Vec<String> {
    ps.iter().map(|p| p.to_string()).collect()
}

#[test]
fn pattern_masks() {
    assert_eq!(compute_event_mask(patterns(&["keyboard:*"])), EVENT_MASK_KEYBOARD);
    assert_eq!(compute_event_mask(patterns(&["keyboard:down"])), EVENT_MASK_KEYBOARD);
    assert_eq!(compute_event_mask(patterns(&["mouse:down"])), EVENT_MASK_MOUSE_BUTTONS);
    assert_eq!(compute_event_mask(patterns(&["mouse:up"])), EVENT_MASK_MOUSE_BUTTONS);
    assert_eq!(compute_event_mask(patterns(&["mouse:click"])), EVENT_MASK_MOUSE_BUTTONS);
    assert_eq!(compute_event_mask(patterns(&["mouse:move"])), EVENT_MASK_MOUSE_MOVEMENT);
    assert_eq!(compute_event_mask(patterns(&["mouse:scroll"])), EVENT_MASK_MOUSE_WHEEL);
    assert_eq!(compute_event_mask(patterns(&["mouse:*"])), EVENT_MASK_MOUSE_ALL);
    assert_eq!(compute_event_mask(patterns(&["mouse:movement"])), EVENT_MASK_MOUSE_ALL);
    assert_eq!(
        compute_event_mask(patterns(&["mouse:move", "mouse:scroll", "window:focus"])),
        0x700
    );
    assert_eq!(compute_event_mask(patterns(&["keyboard:*", "mouse:click"])), 0xFC);
}

#[test]
fn patterns_that_ask_for_nothing_give_all() {
    assert_eq!(compute_event_mask(Vec::new()), EVENT_MASK_ALL);
    assert_eq!(compute_event_mask(patterns(&["window:focus", "Keyboard:*", "mouse"])), EVENT_MASK_ALL);
}

#[test]
fn input_patterns() {
    assert!(is_input_pattern("keyboard:*".to_string()));
    assert!(is_input_pattern("mouse:".to_string()));
    assert!(!is_input_pattern("mouse".to_string()));
    assert!(!is_input_pattern("clipboard:change".to_string()));
    assert!(!is_input_pattern("".to_string()));
    assert!(is_input_pattern("keyboard:é".to_string()));
}
