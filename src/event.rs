//! The library's model of one native input event and of the narrower
//! payloads that each callback slot receives.
//!
//! Coordinates, deltas and keys are carried as type parameters: the capture
//! layer measures positions in floating point and names keys with its own
//! type, and the dispatch logic only moves them from the event into the
//! payload.

use vstd::prelude::*;
use crate::mask::EventType;

verus! {

/// A point in time as seconds and nanoseconds since the Unix epoch.
#[derive(Clone, Copy, Debug, PartialEq, Eq, Structural)]
pub struct Timestamp {
    pub secs: u64,
    pub nanos: u32,
}

impl Timestamp {
    /// The epoch itself: what an unrepresentable timestamp becomes.
    pub fn zero() -> (r: Timestamp)
        ensures
            r.secs == 0 && r.nanos == 0,
    {
        Timestamp { secs: 0, nanos: 0 }
    }
}

/// The time a payload carries: the event's own time when the capture layer
/// could express it since the epoch, else zero.
pub open spec fn normalized_time(t: Option<Timestamp>) -> Timestamp {
    match t {
        Some(ts) => ts,
        None => Timestamp { secs: 0, nanos: 0 },
    }
}

/// Normalizes an event time; never fails.
pub fn normalize_time(t: Option<Timestamp>) -> (r: Timestamp)
    ensures
        r == normalized_time(t),
{
    match t {
        Some(ts) => ts,
        None => Timestamp::zero(),
    }
}

/// Mouse buttons.
#[derive(Clone, Copy, Debug, PartialEq, Eq, Structural)]
pub enum Button {
    Left,
    Right,
    Middle,
    Button4,
    Button5,
    Unknown(u8),
}

/// Directions of a wheel scroll.
#[derive(Clone, Copy, Debug, PartialEq, Eq, Structural)]
pub enum ScrollDirection {
    Up,
    Down,
    Left,
    Right,
}

/// Keyboard part of an event: the logical key and the platform's raw code.
#[derive(Clone, Copy, Debug)]
pub struct KeyboardData<K> {
    pub key: K,
    pub raw_code: u32,
}

/// Mouse part of an event; `button` is absent for pure movement.
#[derive(Clone, Copy, Debug)]
pub struct MouseData<C> {
    pub x: C,
    pub y: C,
    pub button: Option<Button>,
}

/// Wheel part of an event.
#[derive(Clone, Copy, Debug)]
pub struct WheelData<C> {
    pub x: C,
    pub y: C,
    pub direction: ScrollDirection,
    pub delta: C,
}

/// One captured event. `time` is `None` where the capture layer's clock
/// value cannot be expressed as a duration since the epoch.
#[derive(Clone, Copy, Debug)]
pub struct Event<K, C> {
    pub event_type: EventType,
    pub time: Option<Timestamp>,
    pub keyboard: Option<KeyboardData<K>>,
    pub mouse: Option<MouseData<C>>,
    pub wheel: Option<WheelData<C>>,
}

/// Payload of the key-down and key-up slots.
#[derive(Clone, Copy, Debug)]
pub struct KeyboardEvent<K> {
    pub key: K,
    pub raw_code: u32,
    pub time: Timestamp,
}

/// Payload of the mouse-down, mouse-up and click slots.
#[derive(Clone, Copy, Debug)]
pub struct MouseButtonEvent<C> {
    pub x: C,
    pub y: C,
    pub button: Button,
    pub time: Timestamp,
}

/// Payload of the mouse-move slot.
#[derive(Clone, Copy, Debug)]
pub struct MouseMoveEvent<C> {
    pub x: C,
    pub y: C,
    pub time: Timestamp,
}

/// Payload of the wheel slot.
#[derive(Clone, Copy, Debug)]
pub struct WheelEvent<C> {
    pub x: C,
    pub y: C,
    pub direction: ScrollDirection,
    pub delta: C,
    pub time: Timestamp,
}

/// The keyboard payload of an event's keyboard part.
pub open spec fn keyboard_payload<K>(kb: KeyboardData<K>, t: Option<Timestamp>) -> KeyboardEvent<K> {
    KeyboardEvent { key: kb.key, raw_code: kb.raw_code, time: normalized_time(t) }
}

/// The button an event names, the left one where the capture layer left it
/// out.
pub open spec fn button_or_left(b: Option<Button>) -> Button {
    match b {
        Some(b) => b,
        None => Button::Left,
    }
}

/// The mouse-button payload of an event's mouse part.
pub open spec fn button_payload<C>(m: MouseData<C>, t: Option<Timestamp>) -> MouseButtonEvent<C> {
    MouseButtonEvent { x: m.x, y: m.y, button: button_or_left(m.button), time: normalized_time(t) }
}

/// The mouse-move payload of an event's mouse part.
pub open spec fn move_payload<C>(m: MouseData<C>, t: Option<Timestamp>) -> MouseMoveEvent<C> {
    MouseMoveEvent { x: m.x, y: m.y, time: normalized_time(t) }
}

/// The wheel payload of an event's wheel part.
pub open spec fn wheel_payload<C>(w: WheelData<C>, t: Option<Timestamp>) -> WheelEvent<C> {
    WheelEvent {
        x: w.x,
        y: w.y,
        direction: w.direction,
        delta: w.delta,
        time: normalized_time(t),
    }
}

/// Shapes a keyboard payload.
pub fn shape_keyboard<K: Copy>(kb: &KeyboardData<K>, t: Option<Timestamp>) -> (r: KeyboardEvent<K>)
    ensures
        r == keyboard_payload(*kb, t),
{
    KeyboardEvent { key: kb.key, raw_code: kb.raw_code, time: normalize_time(t) }
}

/// Shapes a mouse-button payload; a missing button becomes the left one.
pub fn shape_mouse_button<C: Copy>(m: &MouseData<C>, t: Option<Timestamp>) -> (r: MouseButtonEvent<C>)
    ensures
        r == button_payload(*m, t),
{
    let button = match m.button {
        Some(b) => b,
        None => Button::Left,
    };
    MouseButtonEvent { x: m.x, y: m.y, button, time: normalize_time(t) }
}

/// Shapes a mouse-move payload.
pub fn shape_mouse_move<C: Copy>(m: &MouseData<C>, t: Option<Timestamp>) -> (r: MouseMoveEvent<C>)
    ensures
        r == move_payload(*m, t),
{
    MouseMoveEvent { x: m.x, y: m.y, time: normalize_time(t) }
}

/// Shapes a wheel payload.
pub fn shape_wheel<C: Copy>(w: &WheelData<C>, t: Option<Timestamp>) -> (r: WheelEvent<C>)
    ensures
        r == wheel_payload(*w, t),
{
    WheelEvent { x: w.x, y: w.y, direction: w.direction, delta: w.delta, time: normalize_time(t) }
}

} // verus!
