//! The category mask: one bit for each kind of native input event.

use vstd::prelude::*;

verus! {

/// The kinds of events that the native capture layer reports, in the order
/// of their bits in a category mask (bit 0 for `HookEnabled`, bit 10 for
/// `MouseWheel`). The layout is part of the external contract.
#[derive(Clone, Copy, Debug, PartialEq, Eq, Structural)]
pub enum EventType {
    HookEnabled,
    HookDisabled,
    KeyPressed,
    KeyReleased,
    KeyTyped,
    MousePressed,
    MouseReleased,
    MouseClicked,
    MouseMoved,
    MouseDragged,
    MouseWheel,
}

/// Every category.
pub const EVENT_MASK_ALL: u32 = 0x7FF;

/// KeyPressed, KeyReleased and KeyTyped.
pub const EVENT_MASK_KEYBOARD: u32 = 0x1C;

/// MousePressed, MouseReleased and MouseClicked.
pub const EVENT_MASK_MOUSE_BUTTONS: u32 = 0xE0;

/// MouseMoved and MouseDragged.
pub const EVENT_MASK_MOUSE_MOVEMENT: u32 = 0x300;

/// MouseWheel.
pub const EVENT_MASK_MOUSE_WHEEL: u32 = 0x400;

/// Every mouse category: buttons, movement and wheel.
pub const EVENT_MASK_MOUSE_ALL: u32 = 0x7E0;

/// Position of a category's bit in a mask.
pub open spec fn bit_index(et: EventType) -> u32 {
    match et {
        EventType::HookEnabled => 0,
        EventType::HookDisabled => 1,
        EventType::KeyPressed => 2,
        EventType::KeyReleased => 3,
        EventType::KeyTyped => 4,
        EventType::MousePressed => 5,
        EventType::MouseReleased => 6,
        EventType::MouseClicked => 7,
        EventType::MouseMoved => 8,
        EventType::MouseDragged => 9,
        EventType::MouseWheel => 10,
    }
}

/// The mask that selects exactly one category.
pub open spec fn category_bit(et: EventType) -> u32 {
    (1u32 << bit_index(et)) as u32
}

/// Whether a mask selects a category.
pub open spec fn selects(mask: u32, et: EventType) -> bool {
    mask & category_bit(et) != 0
}

/// The value of each category's bit.
pub proof fn lemma_category_bit_values()
    ensures
        category_bit(EventType::HookEnabled) == 0x1,
        category_bit(EventType::HookDisabled) == 0x2,
        category_bit(EventType::KeyPressed) == 0x4,
        category_bit(EventType::KeyReleased) == 0x8,
        category_bit(EventType::KeyTyped) == 0x10,
        category_bit(EventType::MousePressed) == 0x20,
        category_bit(EventType::MouseReleased) == 0x40,
        category_bit(EventType::MouseClicked) == 0x80,
        category_bit(EventType::MouseMoved) == 0x100,
        category_bit(EventType::MouseDragged) == 0x200,
        category_bit(EventType::MouseWheel) == 0x400,
{
    assert(1u32 << 0u32 == 0x1) by (bit_vector);
    assert(1u32 << 1u32 == 0x2) by (bit_vector);
    assert(1u32 << 2u32 == 0x4) by (bit_vector);
    assert(1u32 << 3u32 == 0x8) by (bit_vector);
    assert(1u32 << 4u32 == 0x10) by (bit_vector);
    assert(1u32 << 5u32 == 0x20) by (bit_vector);
    assert(1u32 << 6u32 == 0x40) by (bit_vector);
    assert(1u32 << 7u32 == 0x80) by (bit_vector);
    assert(1u32 << 8u32 == 0x100) by (bit_vector);
    assert(1u32 << 9u32 == 0x200) by (bit_vector);
    assert(1u32 << 10u32 == 0x400) by (bit_vector);
}

/// The bit of a category.
pub fn event_type_bit(et: EventType) -> (r: u32)
    ensures
        r == category_bit(et),
{
    proof {
        lemma_category_bit_values();
    }
    match et {
        EventType::HookEnabled => 0x1,
        EventType::HookDisabled => 0x2,
        EventType::KeyPressed => 0x4,
        EventType::KeyReleased => 0x8,
        EventType::KeyTyped => 0x10,
        EventType::MousePressed => 0x20,
        EventType::MouseReleased => 0x40,
        EventType::MouseClicked => 0x80,
        EventType::MouseMoved => 0x100,
        EventType::MouseDragged => 0x200,
        EventType::MouseWheel => 0x400,
    }
}

/// The constant-time test on the hot path: whether `mask` lets an event of
/// kind `et` through.
pub fn mask_admits(mask: u32, et: EventType) -> (r: bool)
    ensures
        r == selects(mask, et),
{
    mask & event_type_bit(et) != 0
}

/// The mask of a generic listener: the requested one, or every category
/// where none was requested or the request selects nothing.
pub open spec fn listener_mask_of(requested: Option<u32>) -> u32 {
    match requested {
        Some(m) => if m == 0 {
            EVENT_MASK_ALL
        } else {
            m
        },
        None => EVENT_MASK_ALL,
    }
}

/// The mask a generic listener starts with.
pub fn listener_mask(requested: Option<u32>) -> (r: u32)
    ensures
        r == listener_mask_of(requested),
{
    match requested {
        Some(m) => if m == 0 {
            EVENT_MASK_ALL
        } else {
            m
        },
        None => EVENT_MASK_ALL,
    }
}

} // verus!
