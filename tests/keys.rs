use input_hook::event::Button;
use input_hook::keys::{button_display_name, key_display_name, key_from_i32, KeyJs, KEY_JS_COUNT};

#[test]
fn numbered_keys_cover_the_range() {
    assert_eq!(KEY_JS_COUNT, 138);
    assert_eq!(key_from_i32(0), Some(KeyJs::KeyA));
    assert_eq!(key_from_i32(25), Some(KeyJs::KeyZ));
    assert_eq!(key_from_i32(67), Some(KeyJs::Unknown));
    assert_eq!(key_from_i32(68), Some(KeyJs::Insert));
    assert_eq!(key_from_i32(137), Some(KeyJs::ContextMenu));
    assert_eq!(key_from_i32(138), None);
    assert_eq!(key_from_i32(-1), None);
    assert_eq!(key_from_i32(i32::MAX), None);
    for i in 0..KEY_JS_COUNT {
        let k = key_from_i32(i).expect("numbered key");
        assert_eq!(k as i32, i);
    }
}

#[test]
fn key_names() {
    assert_eq!(key_display_name(KeyJs::KeyA), "A");
    assert_eq!(key_display_name(KeyJs::Numpad7), "Num7");
    assert_eq!(key_display_name(KeyJs::NumpadAdd), "Num+");
    assert_eq!(key_display_name(KeyJs::ArrowLeft), "\u{2190}");
    assert_eq!(key_display_name(KeyJs::IntlYen), "\u{00a5}");
    assert_eq!(key_display_name(KeyJs::Unknown), "Unknown");
    assert_eq!(key_display_name(KeyJs::ContextMenu), "Menu");
    for i in 0..KEY_JS_COUNT {
        assert!(!key_display_name(key_from_i32(i).unwrap()).is_empty());
    }
}

#[test]
fn button_names() {
    assert_eq!(button_display_name(Button::Left), "MouseL");
    assert_eq!(button_display_name(Button::Right), "MouseR");
    assert_eq!(button_display_name(Button::Middle), "MouseM");
    assert_eq!(button_display_name(Button::Button4), "Mouse4");
    assert_eq!(button_display_name(Button::Button5), "Mouse5");
    assert_eq!(button_display_name(Button::Unknown(9)), "Mouse?");
}
