use input_hook::event::{
    Button, Event, KeyboardData, MouseData, ScrollDirection, Timestamp, WheelData,
};
use input_hook::mask::{mask_admits, EventType};
use input_hook::registry::{Delivery, InputHookCallbacks, Slot};

type Callbacks = InputHookCallbacks<&'static str, &'static str, &'static str, &'static str>;

fn at(secs: u64) -> Option<Timestamp> {
    Some(Timestamp { secs, nanos: 0 })
}

fn key_event(et: EventType, key: char, raw_code: u32, secs: u64) -> Event<char, f64> {
    Event {
        event_type: et,
        time: at(secs),
        keyboard: Some(KeyboardData { key, raw_code }),
        mouse: None,
        wheel: None,
    }
}

fn mouse_event(et: EventType, x: f64, y: f64, button: Option<Button>) -> Event<char, f64> {
    Event { event_type: et, time: at(7), keyboard: None, mouse: Some(MouseData { x, y, button }), wheel: None }
}

fn wheel_event() -> Event<char, f64> {
    Event {
        event_type: EventType::MouseWheel,
        time: at(8),
        keyboard: None,
        mouse: None,
        wheel: Some(WheelData { x: 1.0, y: 2.0, direction: ScrollDirection::Down, delta: 3.0 }),
    }
}

/// What a consumer observes: the handle called and a short description of
/// the payload.
#[derive(Debug, PartialEq)]
enum Seen {
    Key(&'static str, char, u32),
    Button(&'static str, f64, f64, Button),
    Move(&'static str, f64, f64),
    Wheel(&'static str, ScrollDirection),
}

/// Runs a stream through the fast mask check and, for what passes it, the
/// registry; counts the registry lookups.
fn feed(cbs: &Callbacks, events: &[Event<char, f64>], lookups: &mut u32) -> Vec<Seen> {
    let mut seen = Vec::new();
    let mask = cbs.compute_mask();
    for ev in events {
        if !mask_admits(mask, ev.event_type) {
            continue;
        }
        *lookups += 1;
        match cbs.route(ev) {
            Some(Delivery::KeyDown(f, p)) | Some(Delivery::KeyUp(f, p)) => {
                seen.push(Seen::Key(*f, p.key, p.raw_code))
            }
            Some(Delivery::MouseDown(f, p))
            | Some(Delivery::MouseUp(f, p))
            | Some(Delivery::Click(f, p)) => seen.push(Seen::Button(*f, p.x, p.y, p.button)),
            Some(Delivery::MouseMove(f, p)) => seen.push(Seen::Move(*f, p.x, p.y)),
            Some(Delivery::Wheel(f, p)) => seen.push(Seen::Wheel(*f, p.direction)),
            None => {}
        }
    }
    seen
}

#[test]
fn only_mouse_move_registered_gives_moved_and_dragged_bits() {
    let mut cbs = Callbacks::new();
    cbs.set_mouse_move("move");
    assert_eq!(cbs.compute_mask(), 0x300);
}

#[test]
fn mask_follows_registrations_and_removals() {
    let mut cbs = Callbacks::new();
    assert_eq!(cbs.compute_mask(), 0);
    cbs.set_key_down("a");
    assert_eq!(cbs.compute_mask(), 0x4);
    cbs.set_key_up("b");
    cbs.set_mouse_down("c");
    cbs.set_mouse_up("d");
    cbs.set_click("e");
    cbs.set_mouse_move("f");
    cbs.set_wheel("g");
    assert_eq!(cbs.compute_mask(), 0x7EC);
    cbs.clear(Slot::KeyUp);
    assert_eq!(cbs.compute_mask(), 0x7E4);
    cbs.clear(Slot::KeyUp);
    assert_eq!(cbs.compute_mask(), 0x7E4);
    cbs.clear(Slot::MouseMove);
    assert_eq!(cbs.compute_mask(), 0x4E4);
    cbs.set_key_down("again");
    assert_eq!(cbs.compute_mask(), 0x4E4);
}

#[test]
fn remove_all_then_mask_is_zero() {
    let mut cbs = Callbacks::new();
    cbs.set_key_down("a");
    cbs.set_wheel("w");
    cbs.clear_all();
    assert_eq!(cbs.compute_mask(), 0);
    assert!(cbs.route(&key_event(EventType::KeyPressed, 'a', 1, 1)).is_none());
}

#[test]
fn rejected_events_never_reach_the_registry() {
    let mut cbs = Callbacks::new();
    cbs.set_key_down("down");
    let mut lookups = 0;
    let events = vec![
        mouse_event(EventType::MouseMoved, 1.0, 1.0, None),
        wheel_event(),
        key_event(EventType::KeyReleased, 'a', 1, 1),
        key_event(EventType::KeyTyped, 'a', 1, 1),
        mouse_event(EventType::MouseClicked, 1.0, 1.0, Some(Button::Right)),
    ];
    let seen = feed(&cbs, &events, &mut lookups);
    assert_eq!(lookups, 0);
    assert!(seen.is_empty());
    let seen = feed(&cbs, &[key_event(EventType::KeyPressed, 'a', 1, 1)], &mut lookups);
    assert_eq!(lookups, 1);
    assert_eq!(seen, vec![Seen::Key("down", 'a', 1)]);
}

#[test]
fn key_presses_arrive_in_stream_order() {
    let mut cbs = Callbacks::new();
    cbs.set_key_down("down");
    let events: Vec<Event<char, f64>> =
        (0..50u32).map(|i| key_event(EventType::KeyPressed, 'k', 100 + 3 * i, i as u64)).collect();
    let mut lookups = 0;
    let seen = feed(&cbs, &events, &mut lookups);
    let codes: Vec<u32> = seen
        .iter()
        .map(|s| match s {
            Seen::Key(_, _, c) => *c,
            other => panic!("unexpected delivery {:?}", other),
        })
        .collect();
    let expected: Vec<u32> = (0..50u32).map(|i| 100 + 3 * i).collect();
    assert_eq!(codes, expected);
}

#[test]
fn second_click_registration_replaces_the_first() {
    let mut cbs = Callbacks::new();
    cbs.set_click("first");
    cbs.set_click("second");
    let mut lookups = 0;
    let seen = feed(
        &cbs,
        &[mouse_event(EventType::MouseClicked, 4.0, 5.0, Some(Button::Middle))],
        &mut lookups,
    );
    assert_eq!(seen, vec![Seen::Button("second", 4.0, 5.0, Button::Middle)]);
}

#[test]
fn scenario_key_down_and_mouse_move() {
    let mut cbs = Callbacks::new();
    cbs.set_key_down("keys");
    cbs.set_mouse_move("moves");
    let events = vec![
        key_event(EventType::KeyPressed, 'A', 30, 1),
        mouse_event(EventType::MouseMoved, 10.0, 20.0, None),
        wheel_event(),
        key_event(EventType::KeyReleased, 'A', 30, 2),
    ];
    let mut lookups = 0;
    let seen = feed(&cbs, &events, &mut lookups);
    assert_eq!(seen, vec![Seen::Key("keys", 'A', 30), Seen::Move("moves", 10.0, 20.0)]);
}

#[test]
fn dragged_goes_to_the_move_slot() {
    let mut cbs = Callbacks::new();
    cbs.set_mouse_move("moves");
    let mut lookups = 0;
    let seen = feed(&cbs, &[mouse_event(EventType::MouseDragged, 3.5, 4.5, Some(Button::Left))], &mut lookups);
    assert_eq!(seen, vec![Seen::Move("moves", 3.5, 4.5)]);
}

#[test]
fn missing_button_defaults_to_left() {
    let mut cbs = Callbacks::new();
    cbs.set_mouse_down("down");
    match cbs.route(&mouse_event(EventType::MousePressed, 1.0, 2.0, None)) {
        Some(Delivery::MouseDown(f, p)) => {
            assert_eq!(*f, "down");
            assert_eq!(p.button, Button::Left);
            assert_eq!(p.time, Timestamp { secs: 7, nanos: 0 });
        }
        _ => panic!("expected a mouse-down delivery"),
    }
}

#[test]
fn unrepresentable_time_becomes_zero() {
    let mut cbs = Callbacks::new();
    cbs.set_key_up("up");
    let mut ev = key_event(EventType::KeyReleased, 'q', 9, 5);
    ev.time = None;
    match cbs.route(&ev) {
        Some(Delivery::KeyUp(_, p)) => {
            assert_eq!(p.time, Timestamp { secs: 0, nanos: 0 });
            assert_eq!(p.key, 'q');
            assert_eq!(p.raw_code, 9);
        }
        _ => panic!("expected a key-up delivery"),
    }
}

#[test]
fn wheel_payload_keeps_direction_and_delta() {
    let mut cbs = Callbacks::new();
    cbs.set_wheel("wheel");
    match cbs.route(&wheel_event()) {
        Some(Delivery::Wheel(f, p)) => {
            assert_eq!(*f, "wheel");
            assert_eq!(p.direction, ScrollDirection::Down);
            assert_eq!((p.x, p.y, p.delta), (1.0, 2.0, 3.0));
            assert_eq!(p.time, Timestamp { secs: 8, nanos: 0 });
        }
        _ => panic!("expected a wheel delivery"),
    }
}

#[test]
fn event_without_its_part_is_dropped() {
    let mut cbs = Callbacks::new();
    cbs.set_key_down("down");
    cbs.set_mouse_up("up");
    let mut ev = key_event(EventType::KeyPressed, 'a', 1, 1);
    ev.keyboard = None;
    assert!(cbs.route(&ev).is_none());
    let mut ev = mouse_event(EventType::MouseReleased, 1.0, 1.0, None);
    ev.mouse = None;
    assert!(cbs.route(&ev).is_none());
}

#[test]
fn hook_lifecycle_and_typed_events_are_unrouted() {
    let mut cbs = Callbacks::new();
    cbs.set_key_down("a");
    cbs.set_key_up("b");
    for et in [EventType::HookEnabled, EventType::HookDisabled, EventType::KeyTyped] {
        assert!(cbs.route(&key_event(et, 'x', 1, 1)).is_none());
    }
}
