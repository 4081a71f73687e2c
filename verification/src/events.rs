//! The input event mapper: translates player-facing press/release events
//! into input-register bit operations. One inversion is deliberate: the
//! coin switch is active-low, so the coin-down event clears its bit (coin
//! present) and the coin-up event sets it (no coin) — the reverse polarity
//! of every other switch.

use vstd::prelude::*;
use crate::machine::{Keys, SpaceInvadersMachine, spec_mask_for_key};

verus! {

pub open spec fn spec_is_coin(key: Keys) -> bool {
    key is Coin
}

/// The input register after the mapper applies a key-down event.
pub open spec fn spec_port_after_key_down(p: u16, key: Keys) -> u16 {
    if spec_is_coin(key) {
        p & !spec_mask_for_key(key)
    } else {
        p | spec_mask_for_key(key)
    }
}

/// The input register after the mapper applies a key-up event.
pub open spec fn spec_port_after_key_up(p: u16, key: Keys) -> u16 {
    if spec_is_coin(key) {
        p | spec_mask_for_key(key)
    } else {
        p & !spec_mask_for_key(key)
    }
}

/// Applies a key-down event: sets the switch's bit, except for the coin
/// switch, whose bit it clears. The shift register is untouched.
pub fn key_down(m: &mut SpaceInvadersMachine, key: Keys)
    ensures
        final(m).port == spec_port_after_key_down(old(m).port, key),
        final(m).shift0 == old(m).shift0,
        final(m).shift1 == old(m).shift1,
        final(m).shift_offset == old(m).shift_offset,
{
    match key {
        Keys::Coin => m.release_key(key),
        _ => m.press_key(key),
    }
}

/// Applies a key-up event: clears the switch's bit, except for the coin
/// switch, whose bit it sets. The shift register is untouched.
pub fn key_up(m: &mut SpaceInvadersMachine, key: Keys)
    ensures
        final(m).port == spec_port_after_key_up(old(m).port, key),
        final(m).shift0 == old(m).shift0,
        final(m).shift1 == old(m).shift1,
        final(m).shift_offset == old(m).shift_offset,
{
    match key {
        Keys::Coin => m.press_key(key),
        _ => m.release_key(key),
    }
}

/// Coin polarity law: whatever the register holds, the coin-down event
/// leaves the coin bit clear, and a coin-up event after it leaves the bit
/// set again. A fresh machine boots with the bit set (`new` ensures it).
pub proof fn lemma_coin_polarity(p: u16)
    ensures
        spec_port_after_key_down(p, Keys::Coin) & spec_mask_for_key(Keys::Coin) == 0,
        spec_port_after_key_up(spec_port_after_key_down(p, Keys::Coin), Keys::Coin)
            & spec_mask_for_key(Keys::Coin) == spec_mask_for_key(Keys::Coin),
{
    assert(p & !0x0001u16 & 0x0001 == 0) by (bit_vector);
    assert((p & !0x0001u16 | 0x0001) & 0x0001 == 0x0001) by (bit_vector);
}

/// Switch isolation law: an event on a non-coin switch drives exactly that
/// switch's own fixed bit — key-down leaves it set, key-up leaves it clear —
/// and every other bit of the register keeps its value.
pub proof fn lemma_switch_isolation(p: u16, key: Keys)
    requires
        !spec_is_coin(key),
    ensures
        spec_port_after_key_down(p, key) & spec_mask_for_key(key) == spec_mask_for_key(key),
        spec_port_after_key_down(p, key) & !spec_mask_for_key(key) == p & !spec_mask_for_key(key),
        spec_port_after_key_up(p, key) & spec_mask_for_key(key) == 0,
        spec_port_after_key_up(p, key) & !spec_mask_for_key(key) == p & !spec_mask_for_key(key),
{
    let m = spec_mask_for_key(key);
    assert((p | m) & m == m) by (bit_vector);
    assert((p | m) & !m == p & !m) by (bit_vector);
    assert((p & !m) & m == 0) by (bit_vector);
    assert((p & !m) & !m == p & !m) by (bit_vector);
}

} // verus!
