//! The frame/interrupt scheduler's decision state: cycle budgeting for each
//! slice and the two alternating interrupt phases. The caller runs the
//! loop — executing CPU instructions, delivering interrupts, decoding the
//! raster and draining input events — and asks this state what to do next.

use vstd::prelude::*;

verus! {

/// CPU cycles granted to one slice: the cabinet's 2 MHz clock divided by
/// two interrupts per 60 Hz displayed frame, with integer-floor division.
pub const CYCLES_PER_SLICE: u64 = 2_000_000 / 120;

/// The two interrupt points of one displayed frame: mid-screen and
/// end-of-screen raster positions.
#[derive(Clone, Copy, Debug, PartialEq, Eq, Structural)]
pub enum Phase {
    Mid,
    End,
}

/// The interrupt vector delivered for a phase.
pub open spec fn spec_vector(phase: Phase) -> u8 {
    match phase {
        Phase::Mid => 1,
        Phase::End => 2,
    }
}

/// The phase that follows a phase.
pub open spec fn spec_toggled(phase: Phase) -> Phase {
    match phase {
        Phase::Mid => Phase::End,
        Phase::End => Phase::Mid,
    }
}

/// Whether a raster decode is due after the interrupt of a phase fires:
/// exactly on the `End`-to-`Mid` transition, once per full frame.
pub open spec fn spec_decode_due(phase: Phase) -> bool {
    phase is End
}

/// The scheduler's state: the phase whose interrupt fires next, and the
/// cycle cost accumulated in the current slice.
pub struct Scheduler {
    pub phase: Phase,
    pub cycles: u64,
}

impl Scheduler {
    /// A scheduler at boot: the mid-screen interrupt comes first, and no
    /// cycles have been spent yet.
    pub fn new() -> (s: Scheduler)
        ensures
            s.phase is Mid,
            s.cycles == 0,
    {
        Scheduler { phase: Phase::Mid, cycles: 0 }
    }

    /// Accounts the cycle cost one executed instruction reported. The sum
    /// saturates rather than wraps; the budget is far below the limit, so a
    /// saturated sum still (correctly) ends the slice.
    pub fn record_cycles(&mut self, spent: u64)
        ensures
            final(self).phase == old(self).phase,
            final(self).cycles == if old(self).cycles + spent <= u64::MAX {
                old(self).cycles + spent
            } else {
                u64::MAX as int
            },
    {
        if spent <= u64::MAX - self.cycles {
            self.cycles = self.cycles + spent;
        } else {
            self.cycles = u64::MAX;
        }
    }

    /// Whether the current slice has consumed its cycle budget. Overshoot
    /// within a slice is tolerated: no instruction is split.
    pub fn slice_complete(&self) -> (r: bool)
        ensures
            r == (self.cycles >= CYCLES_PER_SLICE),
    {
        self.cycles >= CYCLES_PER_SLICE
    }

    /// Ends the current slice: returns the interrupt vector to deliver and
    /// whether a full frame just completed (so a raster decode and present
    /// are due), toggles the phase, and starts the next slice's cycle count
    /// at zero — overshoot is not carried over.
    pub fn fire_interrupt(&mut self) -> (r: (u8, bool))
        ensures
            r.0 == spec_vector(old(self).phase),
            r.1 == spec_decode_due(old(self).phase),
            final(self).phase == spec_toggled(old(self).phase),
            final(self).cycles == 0,
    {
        let vector: u8 = match self.phase {
            Phase::Mid => 1,
            Phase::End => 2,
        };
        let frame_done: bool = match self.phase {
            Phase::Mid => false,
            Phase::End => true,
        };
        self.phase = match self.phase {
            Phase::Mid => Phase::End,
            Phase::End => Phase::Mid,
        };
        self.cycles = 0;
        (vector, frame_done)
    }
}

/// The phase whose interrupt fires at the n-th slice from boot.
pub open spec fn spec_phase_after(n: nat) -> Phase {
    if n % 2 == 0 {
        Phase::Mid
    } else {
        Phase::End
    }
}

/// Cadence law: slices from boot toggle the phase each time, the delivered
/// vectors alternate between 1 and 2, and a raster decode is due exactly
/// once per two slices — after the interrupt of each odd slice, the
/// `End`-to-`Mid` transition that completes a frame.
pub proof fn lemma_interrupt_cadence(n: nat)
    ensures
        spec_phase_after(n + 1) == spec_toggled(spec_phase_after(n)),
        spec_vector(spec_phase_after(n)) == if n % 2 == 0 { 1u8 } else { 2u8 },
        spec_decode_due(spec_phase_after(n)) == (n % 2 == 1),
{
    assert((n + 1) % 2 == if n % 2 == 0 { 1nat } else { 0nat }) by (nonlinear_arith);
}

/// Two slices from boot make one frame: the first interrupt delivers
/// vector 1 with no decode due, the second delivers vector 2 with a decode
/// due, and the phase is back at `Mid`.
pub proof fn lemma_two_slices_one_frame()
    ensures
        spec_vector(Phase::Mid) == 1,
        !spec_decode_due(Phase::Mid),
        spec_vector(spec_toggled(Phase::Mid)) == 2,
        spec_decode_due(spec_toggled(Phase::Mid)),
        spec_toggled(spec_toggled(Phase::Mid)) is Mid,
{
}

} // verus!
