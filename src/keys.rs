//! Keys as the host runtime numbers them, and the short names under which
//! keys and mouse buttons are shown.

use vstd::prelude::*;
use crate::event::Button;

verus! {

/// Keys, in the order of their numbers: `KeyA` is 0 and `ContextMenu` the
/// last. `Unknown` keeps its old place among the first keys.
#[derive(Clone, Copy, Debug, PartialEq, Eq, Structural)]
pub enum KeyJs {
    KeyA,
    KeyB,
    KeyC,
    KeyD,
    KeyE,
    KeyF,
    KeyG,
    KeyH,
    KeyI,
    KeyJ,
    KeyK,
    KeyL,
    KeyM,
    KeyN,
    KeyO,
    KeyP,
    KeyQ,
    KeyR,
    KeyS,
    KeyT,
    KeyU,
    KeyV,
    KeyW,
    KeyX,
    KeyY,
    KeyZ,
    Num0,
    Num1,
    Num2,
    Num3,
    Num4,
    Num5,
    Num6,
    Num7,
    Num8,
    Num9,
    F1,
    F2,
    F3,
    F4,
    F5,
    F6,
    F7,
    F8,
    F9,
    F10,
    F11,
    F12,
    Escape,
    Space,
    Enter,
    Backspace,
    Tab,
    ShiftLeft,
    ShiftRight,
    ControlLeft,
    ControlRight,
    AltLeft,
    AltRight,
    MetaLeft,
    MetaRight,
    CapsLock,
    Delete,
    ArrowLeft,
    ArrowRight,
    ArrowUp,
    ArrowDown,
    Unknown,
    Insert,
    Home,
    End,
    PageUp,
    PageDown,
    NumLock,
    ScrollLock,
    PrintScreen,
    Pause,
    Grave,
    Minus,
    Equal,
    BracketLeft,
    BracketRight,
    Backslash,
    Semicolon,
    Quote,
    Comma,
    Period,
    Slash,
    F13,
    F14,
    F15,
    F16,
    F17,
    F18,
    F19,
    F20,
    F21,
    F22,
    F23,
    F24,
    Numpad0,
    Numpad1,
    Numpad2,
    Numpad3,
    Numpad4,
    Numpad5,
    Numpad6,
    Numpad7,
    Numpad8,
    Numpad9,
    NumpadAdd,
    NumpadSubtract,
    NumpadMultiply,
    NumpadDivide,
    NumpadDecimal,
    NumpadEnter,
    NumpadEqual,
    VolumeUp,
    VolumeDown,
    VolumeMute,
    MediaPlayPause,
    MediaStop,
    MediaNext,
    MediaPrevious,
    BrowserBack,
    BrowserForward,
    BrowserRefresh,
    BrowserStop,
    BrowserSearch,
    BrowserFavorites,
    BrowserHome,
    LaunchMail,
    LaunchApp1,
    LaunchApp2,
    IntlBackslash,
    IntlYen,
    IntlRo,
    ContextMenu,
}

/// How many keys are numbered.
pub const KEY_JS_COUNT: i32 = 138;

/// The number of a key.
pub open spec fn key_number(k: KeyJs) -> int {
    match k {
        KeyJs::KeyA => 0,
        KeyJs::KeyB => 1,
        KeyJs::KeyC => 2,
        KeyJs::KeyD => 3,
        KeyJs::KeyE => 4,
        KeyJs::KeyF => 5,
        KeyJs::KeyG => 6,
        KeyJs::KeyH => 7,
        KeyJs::KeyI => 8,
        KeyJs::KeyJ => 9,
        KeyJs::KeyK => 10,
        KeyJs::KeyL => 11,
        KeyJs::KeyM => 12,
        KeyJs::KeyN => 13,
        KeyJs::KeyO => 14,
        KeyJs::KeyP => 15,
        KeyJs::KeyQ => 16,
        KeyJs::KeyR => 17,
        KeyJs::KeyS => 18,
        KeyJs::KeyT => 19,
        KeyJs::KeyU => 20,
        KeyJs::KeyV => 21,
        KeyJs::KeyW => 22,
        KeyJs::KeyX => 23,
        KeyJs::KeyY => 24,
        KeyJs::KeyZ => 25,
        KeyJs::Num0 => 26,
        KeyJs::Num1 => 27,
        KeyJs::Num2 => 28,
        KeyJs::Num3 => 29,
        KeyJs::Num4 => 30,
        KeyJs::Num5 => 31,
        KeyJs::Num6 => 32,
        KeyJs::Num7 => 33,
        KeyJs::Num8 => 34,
        KeyJs::Num9 => 35,
        KeyJs::F1 => 36,
        KeyJs::F2 => 37,
        KeyJs::F3 => 38,
        KeyJs::F4 => 39,
        KeyJs::F5 => 40,
        KeyJs::F6 => 41,
        KeyJs::F7 => 42,
        KeyJs::F8 => 43,
        KeyJs::F9 => 44,
        KeyJs::F10 => 45,
        KeyJs::F11 => 46,
        KeyJs::F12 => 47,
        KeyJs::Escape => 48,
        KeyJs::Space => 49,
        KeyJs::Enter => 50,
        KeyJs::Backspace => 51,
        KeyJs::Tab => 52,
        KeyJs::ShiftLeft => 53,
        KeyJs::ShiftRight => 54,
        KeyJs::ControlLeft => 55,
        KeyJs::ControlRight => 56,
        KeyJs::AltLeft => 57,
        KeyJs::AltRight => 58,
        KeyJs::MetaLeft => 59,
        KeyJs::MetaRight => 60,
        KeyJs::CapsLock => 61,
        KeyJs::Delete => 62,
        KeyJs::ArrowLeft => 63,
        KeyJs::ArrowRight => 64,
        KeyJs::ArrowUp => 65,
        KeyJs::ArrowDown => 66,
        KeyJs::Unknown => 67,
        KeyJs::Insert => 68,
        KeyJs::Home => 69,
        KeyJs::End => 70,
        KeyJs::PageUp => 71,
        KeyJs::PageDown => 72,
        KeyJs::NumLock => 73,
        KeyJs::ScrollLock => 74,
        KeyJs::PrintScreen => 75,
        KeyJs::Pause => 76,
        KeyJs::Grave => 77,
        KeyJs::Minus => 78,
        KeyJs::Equal => 79,
        KeyJs::BracketLeft => 80,
        KeyJs::BracketRight => 81,
        KeyJs::Backslash => 82,
        KeyJs::Semicolon => 83,
        KeyJs::Quote => 84,
        KeyJs::Comma => 85,
        KeyJs::Period => 86,
        KeyJs::Slash => 87,
        KeyJs::F13 => 88,
        KeyJs::F14 => 89,
        KeyJs::F15 => 90,
        KeyJs::F16 => 91,
        KeyJs::F17 => 92,
        KeyJs::F18 => 93,
        KeyJs::F19 => 94,
        KeyJs::F20 => 95,
        KeyJs::F21 => 96,
        KeyJs::F22 => 97,
        KeyJs::F23 => 98,
        KeyJs::F24 => 99,
        KeyJs::Numpad0 => 100,
        KeyJs::Numpad1 => 101,
        KeyJs::Numpad2 => 102,
        KeyJs::Numpad3 => 103,
        KeyJs::Numpad4 => 104,
        KeyJs::Numpad5 => 105,
        KeyJs::Numpad6 => 106,
        KeyJs::Numpad7 => 107,
        KeyJs::Numpad8 => 108,
        KeyJs::Numpad9 => 109,
        KeyJs::NumpadAdd => 110,
        KeyJs::NumpadSubtract => 111,
        KeyJs::NumpadMultiply => 112,
        KeyJs::NumpadDivide => 113,
        KeyJs::NumpadDecimal => 114,
        KeyJs::NumpadEnter => 115,
        KeyJs::NumpadEqual => 116,
        KeyJs::VolumeUp => 117,
        KeyJs::VolumeDown => 118,
        KeyJs::VolumeMute => 119,
        KeyJs::MediaPlayPause => 120,
        KeyJs::MediaStop => 121,
        KeyJs::MediaNext => 122,
        KeyJs::MediaPrevious => 123,
        KeyJs::BrowserBack => 124,
        KeyJs::BrowserForward => 125,
        KeyJs::BrowserRefresh => 126,
        KeyJs::BrowserStop => 127,
        KeyJs::BrowserSearch => 128,
        KeyJs::BrowserFavorites => 129,
        KeyJs::BrowserHome => 130,
        KeyJs::LaunchMail => 131,
        KeyJs::LaunchApp1 => 132,
        KeyJs::LaunchApp2 => 133,
        KeyJs::IntlBackslash => 134,
        KeyJs::IntlYen => 135,
        KeyJs::IntlRo => 136,
        KeyJs::ContextMenu => 137,
    }
}

/// The key with number `v`, if `v` numbers one.
pub fn key_from_i32(v: i32) -> (r: Option<KeyJs>)
    ensures
        r is Some <==> 0 <= v < KEY_JS_COUNT,
        r is Some ==> key_number(r->Some_0) == v,
{
    match v {
        0 => Some(KeyJs::KeyA),
        1 => Some(KeyJs::KeyB),
        2 => Some(KeyJs::KeyC),
        3 => Some(KeyJs::KeyD),
        4 => Some(KeyJs::KeyE),
        5 => Some(KeyJs::KeyF),
        6 => Some(KeyJs::KeyG),
        7 => Some(KeyJs::KeyH),
        8 => Some(KeyJs::KeyI),
        9 => Some(KeyJs::KeyJ),
        10 => Some(KeyJs::KeyK),
        11 => Some(KeyJs::KeyL),
        12 => Some(KeyJs::KeyM),
        13 => Some(KeyJs::KeyN),
        14 => Some(KeyJs::KeyO),
        15 => Some(KeyJs::KeyP),
        16 => Some(KeyJs::KeyQ),
        17 => Some(KeyJs::KeyR),
        18 => Some(KeyJs::KeyS),
        19 => Some(KeyJs::KeyT),
        20 => Some(KeyJs::KeyU),
        21 => Some(KeyJs::KeyV),
        22 => Some(KeyJs::KeyW),
        23 => Some(KeyJs::KeyX),
        24 => Some(KeyJs::KeyY),
        25 => Some(KeyJs::KeyZ),
        26 => Some(KeyJs::Num0),
        27 => Some(KeyJs::Num1),
        28 => Some(KeyJs::Num2),
        29 => Some(KeyJs::Num3),
        30 => Some(KeyJs::Num4),
        31 => Some(KeyJs::Num5),
        32 => Some(KeyJs::Num6),
        33 => Some(KeyJs::Num7),
        34 => Some(KeyJs::Num8),
        35 => Some(KeyJs::Num9),
        36 => Some(KeyJs::F1),
        37 => Some(KeyJs::F2),
        38 => Some(KeyJs::F3),
        39 => Some(KeyJs::F4),
        40 => Some(KeyJs::F5),
        41 => Some(KeyJs::F6),
        42 => Some(KeyJs::F7),
        43 => Some(KeyJs::F8),
        44 => Some(KeyJs::F9),
        45 => Some(KeyJs::F10),
        46 => Some(KeyJs::F11),
        47 => Some(KeyJs::F12),
        48 => Some(KeyJs::Escape),
        49 => Some(KeyJs::Space),
        50 => Some(KeyJs::Enter),
        51 => Some(KeyJs::Backspace),
        52 => Some(KeyJs::Tab),
        53 => Some(KeyJs::ShiftLeft),
        54 => Some(KeyJs::ShiftRight),
        55 => Some(KeyJs::ControlLeft),
        56 => Some(KeyJs::ControlRight),
        57 => Some(KeyJs::AltLeft),
        58 => Some(KeyJs::AltRight),
        59 => Some(KeyJs::MetaLeft),
        60 => Some(KeyJs::MetaRight),
        61 => Some(KeyJs::CapsLock),
        62 => Some(KeyJs::Delete),
        63 => Some(KeyJs::ArrowLeft),
        64 => Some(KeyJs::ArrowRight),
        65 => Some(KeyJs::ArrowUp),
        66 => Some(KeyJs::ArrowDown),
        67 => Some(KeyJs::Unknown),
        68 => Some(KeyJs::Insert),
        69 => Some(KeyJs::Home),
        70 => Some(KeyJs::End),
        71 => Some(KeyJs::PageUp),
        72 => Some(KeyJs::PageDown),
        73 => Some(KeyJs::NumLock),
        74 => Some(KeyJs::ScrollLock),
        75 => Some(KeyJs::PrintScreen),
        76 => Some(KeyJs::Pause),
        77 => Some(KeyJs::Grave),
        78 => Some(KeyJs::Minus),
        79 => Some(KeyJs::Equal),
        80 => Some(KeyJs::BracketLeft),
        81 => Some(KeyJs::BracketRight),
        82 => Some(KeyJs::Backslash),
        83 => Some(KeyJs::Semicolon),
        84 => Some(KeyJs::Quote),
        85 => Some(KeyJs::Comma),
        86 => Some(KeyJs::Period),
        87 => Some(KeyJs::Slash),
        88 => Some(KeyJs::F13),
        89 => Some(KeyJs::F14),
        90 => Some(KeyJs::F15),
        91 => Some(KeyJs::F16),
        92 => Some(KeyJs::F17),
        93 => Some(KeyJs::F18),
        94 => Some(KeyJs::F19),
        95 => Some(KeyJs::F20),
        96 => Some(KeyJs::F21),
        97 => Some(KeyJs::F22),
        98 => Some(KeyJs::F23),
        99 => Some(KeyJs::F24),
        100 => Some(KeyJs::Numpad0),
        101 => Some(KeyJs::Numpad1),
        102 => Some(KeyJs::Numpad2),
        103 => Some(KeyJs::Numpad3),
        104 => Some(KeyJs::Numpad4),
        105 => Some(KeyJs::Numpad5),
        106 => Some(KeyJs::Numpad6),
        107 => Some(KeyJs::Numpad7),
        108 => Some(KeyJs::Numpad8),
        109 => Some(KeyJs::Numpad9),
        110 => Some(KeyJs::NumpadAdd),
        111 => Some(KeyJs::NumpadSubtract),
        112 => Some(KeyJs::NumpadMultiply),
        113 => Some(KeyJs::NumpadDivide),
        114 => Some(KeyJs::NumpadDecimal),
        115 => Some(KeyJs::NumpadEnter),
        116 => Some(KeyJs::NumpadEqual),
        117 => Some(KeyJs::VolumeUp),
        118 => Some(KeyJs::VolumeDown),
        119 => Some(KeyJs::VolumeMute),
        120 => Some(KeyJs::MediaPlayPause),
        121 => Some(KeyJs::MediaStop),
        122 => Some(KeyJs::MediaNext),
        123 => Some(KeyJs::MediaPrevious),
        124 => Some(KeyJs::BrowserBack),
        125 => Some(KeyJs::BrowserForward),
        126 => Some(KeyJs::BrowserRefresh),
        127 => Some(KeyJs::BrowserStop),
        128 => Some(KeyJs::BrowserSearch),
        129 => Some(KeyJs::BrowserFavorites),
        130 => Some(KeyJs::BrowserHome),
        131 => Some(KeyJs::LaunchMail),
        132 => Some(KeyJs::LaunchApp1),
        133 => Some(KeyJs::LaunchApp2),
        134 => Some(KeyJs::IntlBackslash),
        135 => Some(KeyJs::IntlYen),
        136 => Some(KeyJs::IntlRo),
        137 => Some(KeyJs::ContextMenu),
        _ => None,
    }
}

/// The short name of each key.
pub open spec fn key_name(key: KeyJs) -> Seq<char> {
    match key {
        KeyJs::KeyA => "A"@,
        KeyJs::KeyB => "B"@,
        KeyJs::KeyC => "C"@,
        KeyJs::KeyD => "D"@,
        KeyJs::KeyE => "E"@,
        KeyJs::KeyF => "F"@,
        KeyJs::KeyG => "G"@,
        KeyJs::KeyH => "H"@,
        KeyJs::KeyI => "I"@,
        KeyJs::KeyJ => "J"@,
        KeyJs::KeyK => "K"@,
        KeyJs::KeyL => "L"@,
        KeyJs::KeyM => "M"@,
        KeyJs::KeyN => "N"@,
        KeyJs::KeyO => "O"@,
        KeyJs::KeyP => "P"@,
        KeyJs::KeyQ => "Q"@,
        KeyJs::KeyR => "R"@,
        KeyJs::KeyS => "S"@,
        KeyJs::KeyT => "T"@,
        KeyJs::KeyU => "U"@,
        KeyJs::KeyV => "V"@,
        KeyJs::KeyW => "W"@,
        KeyJs::KeyX => "X"@,
        KeyJs::KeyY => "Y"@,
        KeyJs::KeyZ => "Z"@,
        KeyJs::Num0 => "0"@,
        KeyJs::Num1 => "1"@,
        KeyJs::Num2 => "2"@,
        KeyJs::Num3 => "3"@,
        KeyJs::Num4 => "4"@,
        KeyJs::Num5 => "5"@,
        KeyJs::Num6 => "6"@,
        KeyJs::Num7 => "7"@,
        KeyJs::Num8 => "8"@,
        KeyJs::Num9 => "9"@,
        KeyJs::F1 => "F1"@,
        KeyJs::F2 => "F2"@,
        KeyJs::F3 => "F3"@,
        KeyJs::F4 => "F4"@,
        KeyJs::F5 => "F5"@,
        KeyJs::F6 => "F6"@,
        KeyJs::F7 => "F7"@,
        KeyJs::F8 => "F8"@,
        KeyJs::F9 => "F9"@,
        KeyJs::F10 => "F10"@,
        KeyJs::F11 => "F11"@,
        KeyJs::F12 => "F12"@,
        KeyJs::Escape => "Esc"@,
        KeyJs::Space => "Space"@,
        KeyJs::Enter => "\u{21b5}"@,
        KeyJs::Backspace => "\u{232b}"@,
        KeyJs::Tab => "Tab"@,
        KeyJs::ShiftLeft => "Shift"@,
        KeyJs::ShiftRight => "Shift"@,
        KeyJs::ControlLeft => "Ctrl"@,
        KeyJs::ControlRight => "Ctrl"@,
        KeyJs::AltLeft => "Alt"@,
        KeyJs::AltRight => "Alt"@,
        KeyJs::MetaLeft => "\u{2318}"@,
        KeyJs::MetaRight => "\u{2318}"@,
        KeyJs::CapsLock => "Caps"@,
        KeyJs::Delete => "Del"@,
        KeyJs::ArrowLeft => "\u{2190}"@,
        KeyJs::ArrowRight => "\u{2192}"@,
        KeyJs::ArrowUp => "\u{2191}"@,
        KeyJs::ArrowDown => "\u{2193}"@,
        KeyJs::Unknown => "Unknown"@,
        KeyJs::Insert => "Ins"@,
        KeyJs::Home => "Home"@,
        KeyJs::End => "End"@,
        KeyJs::PageUp => "PgUp"@,
        KeyJs::PageDown => "PgDn"@,
        KeyJs::NumLock => "NumLk"@,
        KeyJs::ScrollLock => "ScrLk"@,
        KeyJs::PrintScreen => "PrtSc"@,
        KeyJs::Pause => "Pause"@,
        KeyJs::Grave => "`"@,
        KeyJs::Minus => "-"@,
        KeyJs::Equal => "="@,
        KeyJs::BracketLeft => "["@,
        KeyJs::BracketRight => "]"@,
        KeyJs::Backslash => "\\"@,
        KeyJs::Semicolon => ";"@,
        KeyJs::Quote => "'"@,
        KeyJs::Comma => ","@,
        KeyJs::Period => "."@,
        KeyJs::Slash => "/"@,
        KeyJs::F13 => "F13"@,
        KeyJs::F14 => "F14"@,
        KeyJs::F15 => "F15"@,
        KeyJs::F16 => "F16"@,
        KeyJs::F17 => "F17"@,
        KeyJs::F18 => "F18"@,
        KeyJs::F19 => "F19"@,
        KeyJs::F20 => "F20"@,
        KeyJs::F21 => "F21"@,
        KeyJs::F22 => "F22"@,
        KeyJs::F23 => "F23"@,
        KeyJs::F24 => "F24"@,
        KeyJs::Numpad0 => "Num0"@,
        KeyJs::Numpad1 => "Num1"@,
        KeyJs::Numpad2 => "Num2"@,
        KeyJs::Numpad3 => "Num3"@,
        KeyJs::Numpad4 => "Num4"@,
        KeyJs::Numpad5 => "Num5"@,
        KeyJs::Numpad6 => "Num6"@,
        KeyJs::Numpad7 => "Num7"@,
        KeyJs::Numpad8 => "Num8"@,
        KeyJs::Numpad9 => "Num9"@,
        KeyJs::NumpadAdd => "Num+"@,
        KeyJs::NumpadSubtract => "Num-"@,
        KeyJs::NumpadMultiply => "Num*"@,
        KeyJs::NumpadDivide => "Num/"@,
        KeyJs::NumpadDecimal => "Num."@,
        KeyJs::NumpadEnter => "NumEnter"@,
        KeyJs::NumpadEqual => "Num="@,
        KeyJs::VolumeUp => "Vol+"@,
        KeyJs::VolumeDown => "Vol-"@,
        KeyJs::VolumeMute => "Mute"@,
        KeyJs::MediaPlayPause => "Play"@,
        KeyJs::MediaStop => "Stop"@,
        KeyJs::MediaNext => "Next"@,
        KeyJs::MediaPrevious => "Prev"@,
        KeyJs::BrowserBack => "BrBack"@,
        KeyJs::BrowserForward => "BrFwd"@,
        KeyJs::BrowserRefresh => "BrRefresh"@,
        KeyJs::BrowserStop => "BrStop"@,
        KeyJs::BrowserSearch => "BrSearch"@,
        KeyJs::BrowserFavorites => "BrFav"@,
        KeyJs::BrowserHome => "BrHome"@,
        KeyJs::LaunchMail => "Mail"@,
        KeyJs::LaunchApp1 => "App1"@,
        KeyJs::LaunchApp2 => "App2"@,
        KeyJs::IntlBackslash => "IntlBksl"@,
        KeyJs::IntlYen => "\u{00a5}"@,
        KeyJs::IntlRo => "IntlRo"@,
        KeyJs::ContextMenu => "Menu"@,
    }
}

/// The short name of each mouse button.
pub open spec fn button_name(button: Button) -> Seq<char> {
    match button {
        Button::Left => "MouseL"@,
        Button::Right => "MouseR"@,
        Button::Middle => "MouseM"@,
        Button::Button4 => "Mouse4"@,
        Button::Button5 => "Mouse5"@,
        Button::Unknown(_) => "Mouse?"@,
    }
}

/// The short name under which a key is shown.
pub fn key_display_name(key: KeyJs) -> (r: &'static str)
    ensures
        r@ == key_name(key),
{
    match key {
        KeyJs::KeyA => "A",
        KeyJs::KeyB => "B",
        KeyJs::KeyC => "C",
        KeyJs::KeyD => "D",
        KeyJs::KeyE => "E",
        KeyJs::KeyF => "F",
        KeyJs::KeyG => "G",
        KeyJs::KeyH => "H",
        KeyJs::KeyI => "I",
        KeyJs::KeyJ => "J",
        KeyJs::KeyK => "K",
        KeyJs::KeyL => "L",
        KeyJs::KeyM => "M",
        KeyJs::KeyN => "N",
        KeyJs::KeyO => "O",
        KeyJs::KeyP => "P",
        KeyJs::KeyQ => "Q",
        KeyJs::KeyR => "R",
        KeyJs::KeyS => "S",
        KeyJs::KeyT => "T",
        KeyJs::KeyU => "U",
        KeyJs::KeyV => "V",
        KeyJs::KeyW => "W",
        KeyJs::KeyX => "X",
        KeyJs::KeyY => "Y",
        KeyJs::KeyZ => "Z",
        KeyJs::Num0 => "0",
        KeyJs::Num1 => "1",
        KeyJs::Num2 => "2",
        KeyJs::Num3 => "3",
        KeyJs::Num4 => "4",
        KeyJs::Num5 => "5",
        KeyJs::Num6 => "6",
        KeyJs::Num7 => "7",
        KeyJs::Num8 => "8",
        KeyJs::Num9 => "9",
        KeyJs::F1 => "F1",
        KeyJs::F2 => "F2",
        KeyJs::F3 => "F3",
        KeyJs::F4 => "F4",
        KeyJs::F5 => "F5",
        KeyJs::F6 => "F6",
        KeyJs::F7 => "F7",
        KeyJs::F8 => "F8",
        KeyJs::F9 => "F9",
        KeyJs::F10 => "F10",
        KeyJs::F11 => "F11",
        KeyJs::F12 => "F12",
        KeyJs::Escape => "Esc",
        KeyJs::Space => "Space",
        KeyJs::Enter => "\u{21b5}",
        KeyJs::Backspace => "\u{232b}",
        KeyJs::Tab => "Tab",
        KeyJs::ShiftLeft => "Shift",
        KeyJs::ShiftRight => "Shift",
        KeyJs::ControlLeft => "Ctrl",
        KeyJs::ControlRight => "Ctrl",
        KeyJs::AltLeft => "Alt",
        KeyJs::AltRight => "Alt",
        KeyJs::MetaLeft => "\u{2318}",
        KeyJs::MetaRight => "\u{2318}",
        KeyJs::CapsLock => "Caps",
        KeyJs::Delete => "Del",
        KeyJs::ArrowLeft => "\u{2190}",
        KeyJs::ArrowRight => "\u{2192}",
        KeyJs::ArrowUp => "\u{2191}",
        KeyJs::ArrowDown => "\u{2193}",
        KeyJs::Unknown => "Unknown",
        KeyJs::Insert => "Ins",
        KeyJs::Home => "Home",
        KeyJs::End => "End",
        KeyJs::PageUp => "PgUp",
        KeyJs::PageDown => "PgDn",
        KeyJs::NumLock => "NumLk",
        KeyJs::ScrollLock => "ScrLk",
        KeyJs::PrintScreen => "PrtSc",
        KeyJs::Pause => "Pause",
        KeyJs::Grave => "`",
        KeyJs::Minus => "-",
        KeyJs::Equal => "=",
        KeyJs::BracketLeft => "[",
        KeyJs::BracketRight => "]",
        KeyJs::Backslash => "\\",
        KeyJs::Semicolon => ";",
        KeyJs::Quote => "'",
        KeyJs::Comma => ",",
        KeyJs::Period => ".",
        KeyJs::Slash => "/",
        KeyJs::F13 => "F13",
        KeyJs::F14 => "F14",
        KeyJs::F15 => "F15",
        KeyJs::F16 => "F16",
        KeyJs::F17 => "F17",
        KeyJs::F18 => "F18",
        KeyJs::F19 => "F19",
        KeyJs::F20 => "F20",
        KeyJs::F21 => "F21",
        KeyJs::F22 => "F22",
        KeyJs::F23 => "F23",
        KeyJs::F24 => "F24",
        KeyJs::Numpad0 => "Num0",
        KeyJs::Numpad1 => "Num1",
        KeyJs::Numpad2 => "Num2",
        KeyJs::Numpad3 => "Num3",
        KeyJs::Numpad4 => "Num4",
        KeyJs::Numpad5 => "Num5",
        KeyJs::Numpad6 => "Num6",
        KeyJs::Numpad7 => "Num7",
        KeyJs::Numpad8 => "Num8",
        KeyJs::Numpad9 => "Num9",
        KeyJs::NumpadAdd => "Num+",
        KeyJs::NumpadSubtract => "Num-",
        KeyJs::NumpadMultiply => "Num*",
        KeyJs::NumpadDivide => "Num/",
        KeyJs::NumpadDecimal => "Num.",
        KeyJs::NumpadEnter => "NumEnter",
        KeyJs::NumpadEqual => "Num=",
        KeyJs::VolumeUp => "Vol+",
        KeyJs::VolumeDown => "Vol-",
        KeyJs::VolumeMute => "Mute",
        KeyJs::MediaPlayPause => "Play",
        KeyJs::MediaStop => "Stop",
        KeyJs::MediaNext => "Next",
        KeyJs::MediaPrevious => "Prev",
        KeyJs::BrowserBack => "BrBack",
        KeyJs::BrowserForward => "BrFwd",
        KeyJs::BrowserRefresh => "BrRefresh",
        KeyJs::BrowserStop => "BrStop",
        KeyJs::BrowserSearch => "BrSearch",
        KeyJs::BrowserFavorites => "BrFav",
        KeyJs::BrowserHome => "BrHome",
        KeyJs::LaunchMail => "Mail",
        KeyJs::LaunchApp1 => "App1",
        KeyJs::LaunchApp2 => "App2",
        KeyJs::IntlBackslash => "IntlBksl",
        KeyJs::IntlYen => "\u{00a5}",
        KeyJs::IntlRo => "IntlRo",
        KeyJs::ContextMenu => "Menu",
    }
}

/// The short name under which a mouse button is shown.
pub fn button_display_name(button: Button) -> (r: &'static str)
    ensures
        r@ == button_name(button),
{
    match button {
        Button::Left => "MouseL",
        Button::Right => "MouseR",
        Button::Middle => "MouseM",
        Button::Button4 => "Mouse4",
        Button::Button5 => "Mouse5",
        Button::Unknown(_) => "Mouse?",
    }
}

} // verus!
