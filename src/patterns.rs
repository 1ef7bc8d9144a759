//! Subscription patterns such as `"keyboard:*"` or `"mouse:move"`, and the
//! category mask that a list of them asks for.

use vstd::prelude::*;
use vstd::utf8::encode_utf8;
use crate::mask::{
    EVENT_MASK_ALL, EVENT_MASK_KEYBOARD, EVENT_MASK_MOUSE_BUTTONS, EVENT_MASK_MOUSE_MOVEMENT,
    EVENT_MASK_MOUSE_WHEEL, EVENT_MASK_MOUSE_ALL,
};

verus! {

/// Whether `s` begins with `prefix`.
pub open spec fn has_prefix(s: Seq<u8>, prefix: Seq<u8>) -> bool {
    prefix.len() <= s.len() && s.subrange(0, prefix.len() as int) == prefix
}

/// Whether the text `s` begins with the text `prefix`, compared as UTF-8.
pub open spec fn text_starts_with(s: Seq<char>, prefix: Seq<char>) -> bool {
    has_prefix(encode_utf8(s), encode_utf8(prefix))
}

/// Whether a pattern names keyboard or mouse input.
pub open spec fn is_input_pattern_text(p: Seq<char>) -> bool {
    text_starts_with(p, "keyboard:"@) || text_starts_with(p, "mouse:"@)
}

/// The categories that one pattern asks for: any `keyboard:` pattern the
/// keyboard categories; `mouse:down`, `mouse:up` and `mouse:click` the
/// button categories; `mouse:move` movement; `mouse:scroll` the wheel; any
/// other `mouse:` pattern every mouse category; anything else none.
pub open spec fn pattern_bits(p: Seq<char>) -> u32 {
    if text_starts_with(p, "keyboard:"@) {
        EVENT_MASK_KEYBOARD
    } else if p == "mouse:down"@ || p == "mouse:up"@ || p == "mouse:click"@ {
        EVENT_MASK_MOUSE_BUTTONS
    } else if p == "mouse:move"@ {
        EVENT_MASK_MOUSE_MOVEMENT
    } else if p == "mouse:scroll"@ {
        EVENT_MASK_MOUSE_WHEEL
    } else if text_starts_with(p, "mouse:"@) {
        EVENT_MASK_MOUSE_ALL
    } else {
        0
    }
}

/// The union of what each pattern asks for.
pub open spec fn patterns_bits(ps: Seq<Seq<char>>) -> u32
    decreases ps.len(),
{
    if ps.len() == 0 {
        0
    } else {
        patterns_bits(ps.drop_last()) | pattern_bits(ps.last())
    }
}

/// The mask for a list of patterns: the union of what they ask for, or
/// every category where they ask for none.
pub open spec fn event_mask_for(ps: Seq<Seq<char>>) -> u32 {
    if patterns_bits(ps) == 0 {
        EVENT_MASK_ALL
    } else {
        patterns_bits(ps)
    }
}

fn bytes_start_with(s: &[u8], prefix: &[u8]) -> (r: bool)
    ensures
        r == has_prefix(s@, prefix@),
{
    if prefix.len() > s.len() {
        return false;
    }
    let mut i: usize = 0;
    while i < prefix.len()
        invariant
            prefix@.len() <= s@.len(),
            0 <= i <= prefix@.len(),
            forall|k: int| 0 <= k < i ==> s@[k] == prefix@[k],
        decreases prefix@.len() - i,
    {
        if s[i] != prefix[i] {
            assert(s@.subrange(0, prefix@.len() as int)[i as int] != prefix@[i as int]);
            return false;
        }
        i = i + 1;
    }
    assert(s@.subrange(0, prefix@.len() as int) =~= prefix@);
    true
}

fn str_starts_with(s: &str, prefix: &str) -> (r: bool)
    ensures
        r == text_starts_with(s@, prefix@),
{
    bytes_start_with(s.as_bytes(), prefix.as_bytes())
}

fn str_equals(s: &str, t: &str) -> (r: bool)
    ensures
        r == (s@ == t@),
{
    let a = s.as_bytes();
    let b = t.as_bytes();
    if a.len() != b.len() {
        return false;
    }
    let r = bytes_start_with(a, b);
    proof {
        assert(a@ =~= a@.subrange(0, b@.len() as int));
        if r {
            vstd::utf8::encode_utf8_decode_utf8(s@);
            vstd::utf8::encode_utf8_decode_utf8(t@);
        }
    }
    r
}

/// Whether a subscription pattern is about keyboard or mouse input.
pub fn is_input_pattern(pattern: String) -> (r: bool)
    ensures
        r == is_input_pattern_text(pattern@),
{
    str_starts_with(pattern.as_str(), "keyboard:") || str_starts_with(pattern.as_str(), "mouse:")
}

fn pattern_mask(p: &str) -> (r: u32)
    ensures
        r == pattern_bits(p@),
{
    if str_starts_with(p, "keyboard:") {
        EVENT_MASK_KEYBOARD
    } else if str_equals(p, "mouse:down") || str_equals(p, "mouse:up") || str_equals(p, "mouse:click") {
        EVENT_MASK_MOUSE_BUTTONS
    } else if str_equals(p, "mouse:move") {
        EVENT_MASK_MOUSE_MOVEMENT
    } else if str_equals(p, "mouse:scroll") {
        EVENT_MASK_MOUSE_WHEEL
    } else if str_starts_with(p, "mouse:") {
        EVENT_MASK_MOUSE_ALL
    } else {
        0
    }
}

/// The category mask that a list of subscription patterns asks for;
/// every category where the patterns ask for none.
pub fn compute_event_mask(patterns: Vec<String>) -> (r: u32)
    ensures
        r == event_mask_for(patterns@.map_values(|p: String| p@)),
{
    let ghost texts = patterns@.map_values(|p: String| p@);
    let mut mask: u32 = 0;
    let mut i: usize = 0;
    while i < patterns.len()
        invariant
            texts == patterns@.map_values(|p: String| p@),
            0 <= i <= patterns@.len(),
            mask == patterns_bits(texts.subrange(0, i as int)),
        decreases patterns@.len() - i,
    {
        let bits = pattern_mask(patterns[i].as_str());
        proof {
            assert(texts.subrange(0, i + 1).drop_last() =~= texts.subrange(0, i as int));
        }
        mask = mask | bits;
        i = i + 1;
    }
    proof {
        assert(texts.subrange(0, i as int) =~= texts);
    }
    if mask == 0 {
        EVENT_MASK_ALL
    } else {
        mask
    }
}

} // verus!
