//! The machine I/O controller: the input register holding the cabinet's
//! switch state and the two-byte shift register, together with the two
//! operations the CPU's I/O instructions need, `input` and `output`.

use vstd::prelude::*;
use crate::bytes;

verus! {

/// The nine switches of the cabinet: the coin slot, the two start buttons,
/// and left/right/fire for each of the two players.
#[derive(Clone, Copy, Debug, PartialEq, Eq, Structural)]
pub enum Keys {
    Coin,
    Start1,
    Start2,
    Left1,
    Left2,
    Right1,
    Right2,
    Shoot1,
    Shoot2,
}

/// The single input-register bit that each switch occupies.
pub open spec fn spec_mask_for_key(key: Keys) -> u16 {
    match key {
        Keys::Coin => 0x0001,
        Keys::Start2 => 0x0002,
        Keys::Start1 => 0x0004,
        Keys::Shoot1 => 0x0010,
        Keys::Left1 => 0x0020,
        Keys::Right1 => 0x0040,
        Keys::Shoot2 => 0x1000,
        Keys::Left2 => 0x2000,
        Keys::Right2 => 0x4000,
    }
}

/// The bit position in the input register assigned to a switch.
pub fn mask_for_key(key: Keys) -> (r: u16)
    ensures
        r == spec_mask_for_key(key),
{
    match key {
        Keys::Coin => 0x0001,
        Keys::Start2 => 0x0002,
        Keys::Start1 => 0x0004,
        Keys::Shoot1 => 0x0010,
        Keys::Left1 => 0x0020,
        Keys::Right1 => 0x0040,
        Keys::Shoot2 => 0x1000,
        Keys::Left2 => 0x2000,
        Keys::Right2 => 0x4000,
    }
}

/// Every switch occupies exactly one bit: its mask is a nonzero power of two.
pub proof fn lemma_mask_single_bit(key: Keys)
    ensures
        spec_mask_for_key(key) != 0,
        spec_mask_for_key(key) & (spec_mask_for_key(key) - 1) as u16 == 0,
{
    let m = spec_mask_for_key(key);
    assert(m == 0x0001 || m == 0x0002 || m == 0x0004 || m == 0x0010 || m == 0x0020 || m == 0x0040
        || m == 0x1000 || m == 0x2000 || m == 0x4000);
    assert((m == 0x0001 || m == 0x0002 || m == 0x0004 || m == 0x0010 || m == 0x0020 || m == 0x0040
        || m == 0x1000 || m == 0x2000 || m == 0x4000) ==> (m != 0 && m & (m - 1) as u16 == 0))
        by (bit_vector);
}

/// No two switches share a bit position.
pub proof fn lemma_masks_distinct(k1: Keys, k2: Keys)
    requires
        k1 != k2,
    ensures
        spec_mask_for_key(k1) != spec_mask_for_key(k2),
{
}

/// An access to a port the machine does not implement: the offending port
/// number and whether the access was a write (else a read).
#[derive(Clone, Copy, Debug, PartialEq, Eq, Structural)]
pub struct PortFault {
    pub port: u8,
    pub write: bool,
}

/// The machine's port-visible state: the 16-bit input register and the
/// shift register pair with its read offset.
pub struct SpaceInvadersMachine {
    /// How many bits the shift-register read shifts by; always below 8.
    pub shift_offset: u8,
    /// The low byte of the shift register (the older of the two writes).
    pub shift0: u8,
    /// The high byte of the shift register (the newer of the two writes).
    pub shift1: u8,
    /// The input register: one bit per switch.
    pub port: u16,
}

/// The 8-bit window that a shift-register read returns: the 16-bit value
/// `(high << 8) | low` shifted right by `8 - offset`, truncated to 8 bits.
pub open spec fn spec_shift_read(low: u8, high: u8, offset: u8) -> u8
    recommends
        offset < 8,
{
    ((bytes::spec_assemble_word(high, low) >> ((8 - offset) as u16)) & 0xff) as u8
}

impl SpaceInvadersMachine {
    /// The structural invariant: the read offset is masked to 3 bits.
    pub open spec fn wf(&self) -> bool {
        self.shift_offset < 8
    }

    /// A machine at power-on: shift register cleared, and the input
    /// register holding only the coin bit (a coin present at boot).
    pub fn new() -> (m: SpaceInvadersMachine)
        ensures
            m.wf(),
            m.port == spec_mask_for_key(Keys::Coin),
            m.shift0 == 0,
            m.shift1 == 0,
            m.shift_offset == 0,
    {
        SpaceInvadersMachine { shift_offset: 0, shift0: 0, shift1: 0, port: 1 }
    }

    /// Sets the switch's bit in the input register; every other bit and the
    /// shift register keep their values. Idempotent on the bit state.
    pub fn press_key(&mut self, key: Keys)
        ensures
            final(self).port == old(self).port | spec_mask_for_key(key),
            final(self).shift0 == old(self).shift0,
            final(self).shift1 == old(self).shift1,
            final(self).shift_offset == old(self).shift_offset,
    {
        self.port = self.port | mask_for_key(key);
    }

    /// Clears the switch's bit in the input register; every other bit and
    /// the shift register keep their values. Idempotent on the bit state.
    pub fn release_key(&mut self, key: Keys)
        ensures
            final(self).port == old(self).port & !spec_mask_for_key(key),
            final(self).shift0 == old(self).shift0,
            final(self).shift1 == old(self).shift1,
            final(self).shift_offset == old(self).shift_offset,
    {
        self.port = self.port & !mask_for_key(key);
    }

    /// Answers a CPU port read. Ports 1 and 2 return the low and high bytes
    /// of the input register; port 3 returns the shift-register window; any
    /// other port is a fault the machine cannot recover from.
    pub fn input(&self, port: u8) -> (r: Result<u8, PortFault>)
        requires
            self.wf(),
        ensures
            r is Ok <==> (port == 1 || port == 2 || port == 3),
            port == 1 ==> r == Ok::<u8, PortFault>(bytes::spec_low_order_byte(self.port)),
            port == 2 ==> r == Ok::<u8, PortFault>(bytes::spec_high_order_byte(self.port)),
            port == 3 ==> r == Ok::<u8, PortFault>(
                spec_shift_read(self.shift0, self.shift1, self.shift_offset),
            ),
            !(port == 1 || port == 2 || port == 3) ==> r == Err::<u8, PortFault>(
                (PortFault { port, write: false }),
            ),
    {
        match port {
            1 => Ok(bytes::low_order_byte(self.port)),
            2 => Ok(bytes::high_order_byte(self.port)),
            3 => {
                let reg: u16 = bytes::assemble_word(self.shift1, self.shift0);
                let shift: u16 = (8 - self.shift_offset) as u16;
                Ok(((reg >> shift) & 0xff) as u8)
            },
            _ => Err(PortFault { port, write: false }),
        }
    }

    /// Applies a CPU port write. Port 2 latches a new read offset (3 bits
    /// kept); port 4 shifts a byte in (the old high byte becomes the low
    /// byte); ports 3, 5 and 6 are accepted with no effect; any other port
    /// is a fault the machine cannot recover from.
    pub fn output(&mut self, port: u8, val: u8) -> (r: Result<(), PortFault>)
        ensures
            r == Ok::<(), PortFault>(()) <==> (port == 2 || port == 3 || port == 4 || port == 5
                || port == 6),
            port == 2 ==> *final(self) == (SpaceInvadersMachine {
                shift_offset: val & 7,
                ..*old(self)
            }),
            port == 4 ==> *final(self) == (SpaceInvadersMachine {
                shift0: old(self).shift1,
                shift1: val,
                ..*old(self)
            }),
            (port == 3 || port == 5 || port == 6) ==> *final(self) == *old(self),
            !(port == 2 || port == 3 || port == 4 || port == 5 || port == 6) ==> {
                &&& *final(self) == *old(self)
                &&& r == Err::<(), PortFault>((PortFault { port, write: true }))
            },
            old(self).wf() ==> final(self).wf(),
    {
        match port {
            2 => {
                self.shift_offset = val & 7;
                assert(val & 7 < 8) by (bit_vector);
                Ok(())
            },
            3 => Ok(()),
            4 => {
                self.shift0 = self.shift1;
                self.shift1 = val;
                Ok(())
            },
            5 => Ok(()),
            6 => Ok(()),
            _ => Err(PortFault { port, write: true }),
        }
    }
}

/// After two writes to the shift-in port the pair holds the first value in
/// `low` and the second in `high`; reading at offset 0 returns the second
/// value unchanged.
pub proof fn lemma_shift_read_offset_zero(h1: u8, h2: u8)
    ensures
        spec_shift_read(h1, h2, 0) == h2,
{
    assert(((((h2 as u16) << 8 | (h1 as u16)) >> 8) & 0xff) as u8 == h2) by (bit_vector);
}

/// At offset 7 the window straddles the pair: its top bit is the newer
/// byte's low bit, and its remaining bits are the older byte's top seven.
pub proof fn lemma_shift_read_offset_seven(h1: u8, h2: u8)
    ensures
        spec_shift_read(h1, h2, 7) == (((h2 & 1) as u16) << 7 | ((h1 >> 1) as u16)) as u8,
{
    assert(((((h2 as u16) << 8 | (h1 as u16)) >> 1) & 0xff) as u8 == ((((h2 & 1) as u16) << 7 | (
    (h1 >> 1) as u16)) as u8)) by (bit_vector);
}

} // verus!
