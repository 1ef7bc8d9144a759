//! Laws that relate several operations of the registry, the dispatch path
//! and the session.

use vstd::prelude::*;
use crate::mask::{EventType, selects, lemma_category_bit_values};
use crate::registry::{
    SlotsView, Slot, Routed, Delivery, slot_of, empty_slots, dispatched, delivered,
    lemma_slot_bit_values,
};
use crate::event::{Event, keyboard_payload, button_payload};
use crate::session::{SessionError, start_check, start_reply, held_after_start};

verus! {

proof fn lemma_union_of_slot_bits(a: u32, b: u32, c: u32, d: u32, e: u32, f: u32, g: u32)
    by (bit_vector)
    requires
        a == 0 || a == 0x4,
        b == 0 || b == 0x8,
        c == 0 || c == 0x20,
        d == 0 || d == 0x40,
        e == 0 || e == 0x80,
        f == 0 || f == 0x300,
        g == 0 || g == 0x400,
    ensures
        (a | b | c | d | e | f | g) & 0x1 == 0,
        (a | b | c | d | e | f | g) & 0x2 == 0,
        (a | b | c | d | e | f | g) & 0x10 == 0,
        ((a | b | c | d | e | f | g) & 0x4 != 0) == (a != 0),
        ((a | b | c | d | e | f | g) & 0x8 != 0) == (b != 0),
        ((a | b | c | d | e | f | g) & 0x20 != 0) == (c != 0),
        ((a | b | c | d | e | f | g) & 0x40 != 0) == (d != 0),
        ((a | b | c | d | e | f | g) & 0x80 != 0) == (e != 0),
        ((a | b | c | d | e | f | g) & 0x100 != 0) == (f != 0),
        ((a | b | c | d | e | f | g) & 0x200 != 0) == (f != 0),
        ((a | b | c | d | e | f | g) & 0x400 != 0) == (g != 0),
{
}

/// The derived mask selects a category exactly when the category has a
/// slot and that slot is populated: mouse-move selects both moved and
/// dragged, and HookEnabled, HookDisabled and KeyTyped are never selected.
pub proof fn lemma_mask_selects_populated<KF, BF, MF, WF>(
    v: SlotsView<KF, BF, MF, WF>,
    et: EventType,
)
    ensures
        selects(v.mask(), et) == (slot_of(et) is Some && v.populated(slot_of(et)->Some_0)),
{
    lemma_category_bit_values();
    lemma_slot_bit_values();
    lemma_union_of_slot_bits(
        v.bits_if_populated(Slot::KeyDown),
        v.bits_if_populated(Slot::KeyUp),
        v.bits_if_populated(Slot::MouseDown),
        v.bits_if_populated(Slot::MouseUp),
        v.bits_if_populated(Slot::Click),
        v.bits_if_populated(Slot::MouseMove),
        v.bits_if_populated(Slot::Wheel),
    );
}

/// With every slot empty the mask is zero.
pub proof fn lemma_empty_mask_is_zero<KF, BF, MF, WF>()
    ensures
        empty_slots::<KF, BF, MF, WF>().mask() == 0,
{
    lemma_slot_bit_values();
    assert(0u32 | 0u32 | 0u32 | 0u32 | 0u32 | 0u32 | 0u32 == 0u32) by (bit_vector);
}

/// With the mask that the registry derives, the fast reject loses nothing:
/// an event that the mask rejects would have found no slot, so testing the
/// mask before the lookup gives what the lookup alone gives.
pub proof fn lemma_fast_reject_loses_nothing<KF, BF, MF, WF, K, C>(
    v: SlotsView<KF, BF, MF, WF>,
    ev: Event<K, C>,
)
    ensures
        !selects(v.mask(), ev.event_type) ==> v.routed(ev) is None,
        dispatched(v.mask(), v, ev) == v.routed(ev),
{
    lemma_mask_selects_populated(v, ev.event_type);
}

/// A stream of key presses, each with its keyboard part, reaches a populated
/// key-down slot one delivery per event and in stream order; so raw codes
/// that increase along the stream increase along the deliveries.
pub proof fn lemma_key_presses_keep_order<KF, BF, MF, WF, K, C>(
    mask: u32,
    v: SlotsView<KF, BF, MF, WF>,
    evs: Seq<Event<K, C>>,
)
    requires
        v.key_down is Some,
        selects(mask, EventType::KeyPressed),
        forall|i: int|
            0 <= i < evs.len() ==> (#[trigger] evs[i]).event_type == EventType::KeyPressed
                && evs[i].keyboard is Some,
    ensures
        delivered(mask, v, evs).len() == evs.len(),
        forall|i: int|
            0 <= i < evs.len() ==> #[trigger] delivered(mask, v, evs)[i] == Routed::<K, C>::KeyDown(
                keyboard_payload(evs[i].keyboard->Some_0, evs[i].time),
            ),
        (forall|i: int, j: int|
            0 <= i < j < evs.len() ==> (#[trigger] evs[i]).keyboard->Some_0.raw_code
                < (#[trigger] evs[j]).keyboard->Some_0.raw_code) ==> forall|i: int, j: int|
            0 <= i < j < evs.len() ==> (#[trigger] delivered(mask, v, evs)[i])->KeyDown_0.raw_code
                < (#[trigger] delivered(mask, v, evs)[j])->KeyDown_0.raw_code,
    decreases evs.len(),
{
    if evs.len() > 0 {
        let init = evs.drop_last();
        assert forall|i: int| 0 <= i < init.len() implies (#[trigger] init[i]).event_type
            == EventType::KeyPressed && init[i].keyboard is Some by {
            assert(init[i] == evs[i]);
        }
        lemma_key_presses_keep_order(mask, v, init);
        let ds = delivered(mask, v, evs);
        assert forall|i: int| 0 <= i < evs.len() implies #[trigger] ds[i] == Routed::<K, C>::KeyDown(
            keyboard_payload(evs[i].keyboard->Some_0, evs[i].time),
        ) by {
            if i < init.len() {
                assert(init[i] == evs[i]);
            }
        }
    }
}

/// Registering a click callback and then another: a click event goes to the
/// click slot, and the handle it is delivered to is the second one.
pub proof fn lemma_reregistered_click_goes_to_newest<'a, KF, BF, MF, WF, K, C>(
    v: SlotsView<KF, BF, MF, WF>,
    first: BF,
    second: BF,
    ev: Event<K, C>,
    d: Delivery<'a, KF, BF, MF, WF, K, C>,
)
    requires
        ev.event_type == EventType::MouseClicked,
        ev.mouse is Some,
    ensures
        ({
            let w = SlotsView { mouse_click: Some(second), ..SlotsView { mouse_click: Some(first), ..v } };
            &&& w.routed(ev) == Some(Routed::<K, C>::Click(button_payload(ev.mouse->Some_0, ev.time)))
            &&& (w.routed(ev) == Some(d.routed()) && d.handle_in(w)) ==> match d {
                Delivery::Click(f, _) => *f == second,
                _ => false,
            }
        }),
{
}

/// Two starts on a stopped session, serialized by the session's lock: the
/// first is let through to the native layer, and once it has succeeded the
/// second is refused as already running, the session keeping the first
/// handle alone.
pub proof fn lemma_second_start_refused<H>(launched: Result<H, String>)
    ensures
        start_check::<H>(None) == Ok::<(), SessionError>(()),
        start_reply(launched) is Ok ==> held_after_start(launched) == Some(launched->Ok_0)
            && start_check(held_after_start(launched)) == Err::<(), SessionError>(
            SessionError::AlreadyRunning,
        ),
{
}

} // verus!
