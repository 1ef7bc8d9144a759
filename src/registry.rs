//! The subscription registry: one optional callback handle per routable
//! slot, and the category mask derived from which slots are populated.

use vstd::prelude::*;
use crate::mask::{EventType, category_bit, selects};
use crate::event::{
    Event, KeyboardEvent, MouseButtonEvent, MouseMoveEvent, WheelEvent, keyboard_payload,
    button_payload, move_payload, wheel_payload, shape_keyboard, shape_mouse_button,
    shape_mouse_move, shape_wheel,
};

verus! {

/// The routable slots. HookEnabled, HookDisabled and KeyTyped have none.
#[derive(Clone, Copy, Debug, PartialEq, Eq, Structural)]
pub enum Slot {
    KeyDown,
    KeyUp,
    MouseDown,
    MouseUp,
    Click,
    MouseMove,
    Wheel,
}

/// The slot that receives events of a category, if any.
pub open spec fn slot_of(et: EventType) -> Option<Slot> {
    match et {
        EventType::KeyPressed => Some(Slot::KeyDown),
        EventType::KeyReleased => Some(Slot::KeyUp),
        EventType::MousePressed => Some(Slot::MouseDown),
        EventType::MouseReleased => Some(Slot::MouseUp),
        EventType::MouseClicked => Some(Slot::Click),
        EventType::MouseMoved => Some(Slot::MouseMove),
        EventType::MouseDragged => Some(Slot::MouseMove),
        EventType::MouseWheel => Some(Slot::Wheel),
        _ => None,
    }
}

/// The categories a slot receives, as a mask: one bit for each slot but
/// the mouse-move slot, which takes both moved and dragged.
pub open spec fn slot_bits(s: Slot) -> u32 {
    match s {
        Slot::KeyDown => category_bit(EventType::KeyPressed),
        Slot::KeyUp => category_bit(EventType::KeyReleased),
        Slot::MouseDown => category_bit(EventType::MousePressed),
        Slot::MouseUp => category_bit(EventType::MouseReleased),
        Slot::Click => category_bit(EventType::MouseClicked),
        Slot::MouseMove => (category_bit(EventType::MouseMoved) | category_bit(
            EventType::MouseDragged,
        )) as u32,
        Slot::Wheel => category_bit(EventType::MouseWheel),
    }
}

/// What the registry holds, slot by slot. `KF`, `BF`, `MF` and `WF` are the
/// handle types of the keyboard, mouse-button, mouse-move and wheel slots.
pub struct SlotsView<KF, BF, MF, WF> {
    pub key_down: Option<KF>,
    pub key_up: Option<KF>,
    pub mouse_down: Option<BF>,
    pub mouse_up: Option<BF>,
    pub mouse_click: Option<BF>,
    pub mouse_move: Option<MF>,
    pub mouse_wheel: Option<WF>,
}

impl<KF, BF, MF, WF> SlotsView<KF, BF, MF, WF> {
    /// Whether a slot holds a callback.
    pub open spec fn populated(self, s: Slot) -> bool {
        match s {
            Slot::KeyDown => self.key_down is Some,
            Slot::KeyUp => self.key_up is Some,
            Slot::MouseDown => self.mouse_down is Some,
            Slot::MouseUp => self.mouse_up is Some,
            Slot::Click => self.mouse_click is Some,
            Slot::MouseMove => self.mouse_move is Some,
            Slot::Wheel => self.mouse_wheel is Some,
        }
    }

    /// The slot's bits if it is populated, else nothing.
    pub open spec fn bits_if_populated(self, s: Slot) -> u32 {
        if self.populated(s) {
            slot_bits(s)
        } else {
            0
        }
    }

    /// The same registry with one slot emptied.
    pub open spec fn without(self, s: Slot) -> Self {
        match s {
            Slot::KeyDown => SlotsView { key_down: None, ..self },
            Slot::KeyUp => SlotsView { key_up: None, ..self },
            Slot::MouseDown => SlotsView { mouse_down: None, ..self },
            Slot::MouseUp => SlotsView { mouse_up: None, ..self },
            Slot::Click => SlotsView { mouse_click: None, ..self },
            Slot::MouseMove => SlotsView { mouse_move: None, ..self },
            Slot::Wheel => SlotsView { mouse_wheel: None, ..self },
        }
    }

    /// Where an event goes: the slot of its category, if that slot is
    /// populated and the event carries the part that the slot's payload is
    /// shaped from. HookEnabled, HookDisabled and KeyTyped go nowhere.
    pub open spec fn routed<K, C>(self, ev: Event<K, C>) -> Option<Routed<K, C>> {
        match ev.event_type {
            EventType::KeyPressed => if self.key_down is Some && ev.keyboard is Some {
                Some(Routed::KeyDown(keyboard_payload(ev.keyboard->Some_0, ev.time)))
            } else {
                None
            },
            EventType::KeyReleased => if self.key_up is Some && ev.keyboard is Some {
                Some(Routed::KeyUp(keyboard_payload(ev.keyboard->Some_0, ev.time)))
            } else {
                None
            },
            EventType::MousePressed => if self.mouse_down is Some && ev.mouse is Some {
                Some(Routed::MouseDown(button_payload(ev.mouse->Some_0, ev.time)))
            } else {
                None
            },
            EventType::MouseReleased => if self.mouse_up is Some && ev.mouse is Some {
                Some(Routed::MouseUp(button_payload(ev.mouse->Some_0, ev.time)))
            } else {
                None
            },
            EventType::MouseClicked => if self.mouse_click is Some && ev.mouse is Some {
                Some(Routed::Click(button_payload(ev.mouse->Some_0, ev.time)))
            } else {
                None
            },
            EventType::MouseMoved | EventType::MouseDragged => if self.mouse_move is Some
                && ev.mouse is Some {
                Some(Routed::MouseMove(move_payload(ev.mouse->Some_0, ev.time)))
            } else {
                None
            },
            EventType::MouseWheel => if self.mouse_wheel is Some && ev.wheel is Some {
                Some(Routed::Wheel(wheel_payload(ev.wheel->Some_0, ev.time)))
            } else {
                None
            },
            _ => None,
        }
    }

    /// The union of the bits of exactly the populated slots.
    pub open spec fn mask(self) -> u32 {
        self.bits_if_populated(Slot::KeyDown) | self.bits_if_populated(Slot::KeyUp)
            | self.bits_if_populated(Slot::MouseDown) | self.bits_if_populated(Slot::MouseUp)
            | self.bits_if_populated(Slot::Click) | self.bits_if_populated(Slot::MouseMove)
            | self.bits_if_populated(Slot::Wheel)
    }
}

/// Where an event goes and what it carries there.
pub enum Routed<K, C> {
    KeyDown(KeyboardEvent<K>),
    KeyUp(KeyboardEvent<K>),
    MouseDown(MouseButtonEvent<C>),
    MouseUp(MouseButtonEvent<C>),
    Click(MouseButtonEvent<C>),
    MouseMove(MouseMoveEvent<C>),
    Wheel(WheelEvent<C>),
}

/// One delivery: the handle of the destination slot and the payload shaped
/// for it.
pub enum Delivery<'a, KF, BF, MF, WF, K, C> {
    KeyDown(&'a KF, KeyboardEvent<K>),
    KeyUp(&'a KF, KeyboardEvent<K>),
    MouseDown(&'a BF, MouseButtonEvent<C>),
    MouseUp(&'a BF, MouseButtonEvent<C>),
    Click(&'a BF, MouseButtonEvent<C>),
    MouseMove(&'a MF, MouseMoveEvent<C>),
    Wheel(&'a WF, WheelEvent<C>),
}

impl<'a, KF, BF, MF, WF, K, C> Delivery<'a, KF, BF, MF, WF, K, C> {
    /// The destination and payload, without the handle.
    pub open spec fn routed(self) -> Routed<K, C> {
        match self {
            Delivery::KeyDown(_, p) => Routed::KeyDown(p),
            Delivery::KeyUp(_, p) => Routed::KeyUp(p),
            Delivery::MouseDown(_, p) => Routed::MouseDown(p),
            Delivery::MouseUp(_, p) => Routed::MouseUp(p),
            Delivery::Click(_, p) => Routed::Click(p),
            Delivery::MouseMove(_, p) => Routed::MouseMove(p),
            Delivery::Wheel(_, p) => Routed::Wheel(p),
        }
    }

    /// Whether the handle is the one that `v` holds in the destination slot.
    pub open spec fn handle_in(self, v: SlotsView<KF, BF, MF, WF>) -> bool {
        match self {
            Delivery::KeyDown(f, _) => v.key_down == Some(*f),
            Delivery::KeyUp(f, _) => v.key_up == Some(*f),
            Delivery::MouseDown(f, _) => v.mouse_down == Some(*f),
            Delivery::MouseUp(f, _) => v.mouse_up == Some(*f),
            Delivery::Click(f, _) => v.mouse_click == Some(*f),
            Delivery::MouseMove(f, _) => v.mouse_move == Some(*f),
            Delivery::Wheel(f, _) => v.mouse_wheel == Some(*f),
        }
    }
}

/// Per-slot callback storage. The category mask is derived from it by
/// `compute_mask`; whoever publishes the mask recomputes it after every
/// mutation, under the same lock.
pub struct InputHookCallbacks<KF, BF, MF, WF> {
    key_down: Option<KF>,
    key_up: Option<KF>,
    mouse_down: Option<BF>,
    mouse_up: Option<BF>,
    mouse_click: Option<BF>,
    mouse_move: Option<MF>,
    mouse_wheel: Option<WF>,
}

impl<KF, BF, MF, WF> View for InputHookCallbacks<KF, BF, MF, WF> {
    type V = SlotsView<KF, BF, MF, WF>;

    closed spec fn view(&self) -> SlotsView<KF, BF, MF, WF> {
        SlotsView {
            key_down: self.key_down,
            key_up: self.key_up,
            mouse_down: self.mouse_down,
            mouse_up: self.mouse_up,
            mouse_click: self.mouse_click,
            mouse_move: self.mouse_move,
            mouse_wheel: self.mouse_wheel,
        }
    }
}

/// The registry with nothing registered.
pub open spec fn empty_slots<KF, BF, MF, WF>() -> SlotsView<KF, BF, MF, WF> {
    SlotsView {
        key_down: None,
        key_up: None,
        mouse_down: None,
        mouse_up: None,
        mouse_click: None,
        mouse_move: None,
        mouse_wheel: None,
    }
}

impl<KF, BF, MF, WF> InputHookCallbacks<KF, BF, MF, WF> {
    /// A registry with every slot empty.
    pub fn new() -> (r: Self)
        ensures
            r@ == empty_slots::<KF, BF, MF, WF>(),
    {
        InputHookCallbacks {
            key_down: None,
            key_up: None,
            mouse_down: None,
            mouse_up: None,
            mouse_click: None,
            mouse_move: None,
            mouse_wheel: None,
        }
    }

    /// The union of the category bits of exactly the populated slots.
    pub fn compute_mask(&self) -> (r: u32)
        ensures
            r == self@.mask(),
    {
        proof {
            lemma_slot_bit_values();
        }
        let key_down: u32 = if self.key_down.is_some() { 0x4 } else { 0 };
        let key_up: u32 = if self.key_up.is_some() { 0x8 } else { 0 };
        let mouse_down: u32 = if self.mouse_down.is_some() { 0x20 } else { 0 };
        let mouse_up: u32 = if self.mouse_up.is_some() { 0x40 } else { 0 };
        let mouse_click: u32 = if self.mouse_click.is_some() { 0x80 } else { 0 };
        let mouse_move: u32 = if self.mouse_move.is_some() { 0x300 } else { 0 };
        let mouse_wheel: u32 = if self.mouse_wheel.is_some() { 0x400 } else { 0 };
        key_down | key_up | mouse_down | mouse_up | mouse_click | mouse_move | mouse_wheel
    }

    /// Registers `f` in the key-down slot, replacing any earlier
    /// callback there.
    pub fn set_key_down(&mut self, f: KF)
        ensures
            final(self)@ == (SlotsView { key_down: Some(f), ..old(self)@ }),
    {
        self.key_down = Some(f);
    }

    /// Registers `f` in the key-up slot, replacing any earlier
    /// callback there.
    pub fn set_key_up(&mut self, f: KF)
        ensures
            final(self)@ == (SlotsView { key_up: Some(f), ..old(self)@ }),
    {
        self.key_up = Some(f);
    }

    /// Registers `f` in the mouse-down slot, replacing any earlier
    /// callback there.
    pub fn set_mouse_down(&mut self, f: BF)
        ensures
            final(self)@ == (SlotsView { mouse_down: Some(f), ..old(self)@ }),
    {
        self.mouse_down = Some(f);
    }

    /// Registers `f` in the mouse-up slot, replacing any earlier
    /// callback there.
    pub fn set_mouse_up(&mut self, f: BF)
        ensures
            final(self)@ == (SlotsView { mouse_up: Some(f), ..old(self)@ }),
    {
        self.mouse_up = Some(f);
    }

    /// Registers `f` in the click slot, replacing any earlier
    /// callback there.
    pub fn set_click(&mut self, f: BF)
        ensures
            final(self)@ == (SlotsView { mouse_click: Some(f), ..old(self)@ }),
    {
        self.mouse_click = Some(f);
    }

    /// Registers `f` in the mouse-move slot, replacing any earlier
    /// callback there.
    pub fn set_mouse_move(&mut self, f: MF)
        ensures
            final(self)@ == (SlotsView { mouse_move: Some(f), ..old(self)@ }),
    {
        self.mouse_move = Some(f);
    }

    /// Registers `f` in the wheel slot, replacing any earlier
    /// callback there.
    pub fn set_wheel(&mut self, f: WF)
        ensures
            final(self)@ == (SlotsView { mouse_wheel: Some(f), ..old(self)@ }),
    {
        self.mouse_wheel = Some(f);
    }

    /// Empties one slot; nothing changes if it was empty.
    pub fn clear(&mut self, s: Slot)
        ensures
            final(self)@ == old(self)@.without(s),
    {
        match s {
            Slot::KeyDown => self.key_down = None,
            Slot::KeyUp => self.key_up = None,
            Slot::MouseDown => self.mouse_down = None,
            Slot::MouseUp => self.mouse_up = None,
            Slot::Click => self.mouse_click = None,
            Slot::MouseMove => self.mouse_move = None,
            Slot::Wheel => self.mouse_wheel = None,
        }
    }

    /// Empties every slot.
    pub fn clear_all(&mut self)
        ensures
            final(self)@ == empty_slots::<KF, BF, MF, WF>(),
    {
        *self = InputHookCallbacks::new();
    }

    /// Selects the destination of an event and shapes its payload. The
    /// result borrows the destination's handle from the registry.
    pub fn route<K: Copy, C: Copy>(&self, ev: &Event<K, C>) -> (r: Option<
        Delivery<'_, KF, BF, MF, WF, K, C>,
    >)
        ensures
            match r {
                None => self@.routed(*ev) is None,
                Some(d) => self@.routed(*ev) == Some(d.routed()) && d.handle_in(self@),
            },
    {
        match ev.event_type {
            EventType::KeyPressed => match (&self.key_down, &ev.keyboard) {
                (Some(f), Some(kb)) => Some(Delivery::KeyDown(f, shape_keyboard(kb, ev.time))),
                _ => None,
            },
            EventType::KeyReleased => match (&self.key_up, &ev.keyboard) {
                (Some(f), Some(kb)) => Some(Delivery::KeyUp(f, shape_keyboard(kb, ev.time))),
                _ => None,
            },
            EventType::MousePressed => match (&self.mouse_down, &ev.mouse) {
                (Some(f), Some(m)) => Some(Delivery::MouseDown(f, shape_mouse_button(m, ev.time))),
                _ => None,
            },
            EventType::MouseReleased => match (&self.mouse_up, &ev.mouse) {
                (Some(f), Some(m)) => Some(Delivery::MouseUp(f, shape_mouse_button(m, ev.time))),
                _ => None,
            },
            EventType::MouseClicked => match (&self.mouse_click, &ev.mouse) {
                (Some(f), Some(m)) => Some(Delivery::Click(f, shape_mouse_button(m, ev.time))),
                _ => None,
            },
            EventType::MouseMoved | EventType::MouseDragged => match (&self.mouse_move, &ev.mouse) {
                (Some(f), Some(m)) => Some(Delivery::MouseMove(f, shape_mouse_move(m, ev.time))),
                _ => None,
            },
            EventType::MouseWheel => match (&self.mouse_wheel, &ev.wheel) {
                (Some(f), Some(w)) => Some(Delivery::Wheel(f, shape_wheel(w, ev.time))),
                _ => None,
            },
            _ => None,
        }
    }
}

/// The value of each slot's bits.
pub proof fn lemma_slot_bit_values()
    ensures
        slot_bits(Slot::KeyDown) == 0x4,
        slot_bits(Slot::KeyUp) == 0x8,
        slot_bits(Slot::MouseDown) == 0x20,
        slot_bits(Slot::MouseUp) == 0x40,
        slot_bits(Slot::Click) == 0x80,
        slot_bits(Slot::MouseMove) == 0x300,
        slot_bits(Slot::Wheel) == 0x400,
{
    crate::mask::lemma_category_bit_values();
    assert(0x100u32 | 0x200u32 == 0x300u32) by (bit_vector);
}

/// What the capture side makes of one event: the published mask is tested
/// first, and only an event that it selects is looked up in the registry.
pub open spec fn dispatched<KF, BF, MF, WF, K, C>(
    mask: u32,
    v: SlotsView<KF, BF, MF, WF>,
    ev: Event<K, C>,
) -> Option<Routed<K, C>> {
    if selects(mask, ev.event_type) {
        v.routed(ev)
    } else {
        None
    }
}

/// The deliveries that a stream of events gives rise to, in stream order.
pub open spec fn delivered<KF, BF, MF, WF, K, C>(
    mask: u32,
    v: SlotsView<KF, BF, MF, WF>,
    evs: Seq<Event<K, C>>,
) -> Seq<Routed<K, C>>
    decreases evs.len(),
{
    if evs.len() == 0 {
        Seq::empty()
    } else {
        let before = delivered(mask, v, evs.drop_last());
        match dispatched(mask, v, evs.last()) {
            Some(r) => before.push(r),
            None => before,
        }
    }
}

} // verus!
