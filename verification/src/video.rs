//! The video raster decoder: unpacks the 1-bit-per-pixel frame buffer —
//! 224 source columns of 32 bytes, each byte covering 8 vertically adjacent
//! pixels — into the output raster, rotated to match the cabinet's monitor.
//! A set source bit (column, byte, bit) lights the destination pixel at
//! row = column, col = 256 - (8 * byte + bit); a clear bit writes nothing,
//! so the caller clears the raster before each pass.

use vstd::prelude::*;

verus! {

/// Source columns in the frame buffer, and rows of the output raster.
pub const RASTER_ROWS: usize = 224;

/// Bytes per source column.
pub const BYTES_PER_COLUMN: usize = 32;

/// Size of the frame buffer window in bytes.
pub const FRAME_BYTES: usize = RASTER_ROWS * BYTES_PER_COLUMN;

/// Columns of the output raster: destination columns run from 1 (source
/// bit 255) up to 256 (source bit 0); column 0 is never written.
pub const RASTER_COLS: usize = 257;

/// Whether the given bit of a byte is set.
pub open spec fn spec_bit_set(byte: u8, bit: u8) -> bool
    recommends
        bit < 8,
{
    byte & (1u8 << bit) != 0
}

/// Whether the source bit that maps to raster position (row, col) is set
/// in the frame buffer `mem`.
pub open spec fn spec_pixel_lit(mem: Seq<u8>, row: int, col: int) -> bool
    recommends
        mem.len() == FRAME_BYTES,
        0 <= row < RASTER_ROWS,
        0 <= col < RASTER_COLS,
{
    1 <= col <= 256 && spec_bit_set(mem[row * 32 + (256 - col) / 8], ((256 - col) % 8) as u8)
}

/// An all-black raster.
pub open spec fn spec_cleared() -> Seq<Seq<u8>> {
    Seq::new(RASTER_ROWS as nat, |r: int| Seq::new(RASTER_COLS as nat, |c: int| 0u8))
}

/// The raster after one decode pass over `mem` starting from `base`: every
/// pixel whose source bit is set is at full intensity, every other pixel
/// keeps its starting value.
pub open spec fn spec_decoded(mem: Seq<u8>, base: Seq<Seq<u8>>) -> Seq<Seq<u8>> {
    Seq::new(
        base.len(),
        |r: int|
            Seq::new(
                base[r].len(),
                |c: int| if spec_pixel_lit(mem, r, c) {
                    255u8
                } else {
                    base[r][c]
                },
            ),
    )
}

/// The raster part-way through a decode pass: rows below `y` are fully
/// decoded, and within row `y` the source bits below `s` are decoded.
spec fn spec_partial(mem: Seq<u8>, base: Seq<Seq<u8>>, y: int, s: int) -> Seq<Seq<u8>> {
    Seq::new(
        base.len(),
        |r: int|
            Seq::new(
                base[r].len(),
                |c: int| if spec_pixel_lit(mem, r, c) && (r < y || (r == y && 256 - c < s)) {
                    255u8
                } else {
                    base[r][c]
                },
            ),
    )
}

/// The output raster: a fixed grid of pixel intensities, addressed by
/// (row, column).
pub struct Raster {
    rows: Vec<Vec<u8>>,
}

impl View for Raster {
    type V = Seq<Seq<u8>>;

    closed spec fn view(&self) -> Seq<Seq<u8>> {
        Seq::new(self.rows@.len(), |i: int| self.rows@[i]@)
    }
}

impl Raster {
    /// The structural invariant: the full grid is present.
    pub open spec fn wf(&self) -> bool {
        &&& self@.len() == RASTER_ROWS
        &&& forall|r: int| 0 <= r < RASTER_ROWS ==> (#[trigger] self@[r]).len() == RASTER_COLS
    }

    /// A raster with every pixel black.
    pub fn new() -> (r: Raster)
        ensures
            r.wf(),
            r@ == spec_cleared(),
    {
        let mut rows: Vec<Vec<u8>> = Vec::new();
        let mut i: usize = 0;
        while i < 224
            invariant
                i == rows@.len(),
                i <= 224,
                forall|r: int| 0 <= r < i ==> (#[trigger] rows@[r])@ == Seq::new(257, |c: int| 0u8),
            decreases 224 - i,
        {
            let mut row: Vec<u8> = Vec::new();
            let mut j: usize = 0;
            while j < 257
                invariant
                    j == row@.len(),
                    j <= 257,
                    forall|c: int| 0 <= c < j ==> row@[c] == 0u8,
                decreases 257 - j,
            {
                row.push(0);
                j = j + 1;
            }
            proof {
                assert(row@ =~= Seq::new(257, |c: int| 0u8));
            }
            rows.push(row);
            i = i + 1;
        }
        let r = Raster { rows };
        proof {
            assert(r@ =~~= spec_cleared());
        }
        r
    }

    /// Resets every pixel to black, establishing the background for the
    /// next decode pass.
    pub fn clear(&mut self)
        ensures
            final(self).wf(),
            final(self)@ == spec_cleared(),
    {
        *self = Raster::new();
    }

    /// Reads one pixel's intensity.
    pub fn pixel(&self, row: usize, col: usize) -> (v: u8)
        requires
            self.wf(),
            row < RASTER_ROWS,
            col < RASTER_COLS,
        ensures
            v == self@[row as int][col as int],
    {
        proof {
            assert(self.rows@.len() == self@.len());
            assert(self.rows@[row as int]@ == self@[row as int]);
        }
        self.rows[row][col]
    }

    /// Writes one pixel's intensity.
    pub fn set_pixel(&mut self, row: usize, col: usize, value: u8)
        requires
            old(self).wf(),
            row < RASTER_ROWS,
            col < RASTER_COLS,
        ensures
            final(self).wf(),
            final(self)@ == old(self)@.update(
                row as int,
                old(self)@[row as int].update(col as int, value),
            ),
    {
        proof {
            assert(self.rows@.len() == self@.len());
            assert(self.rows@[row as int]@ == self@[row as int]);
        }
        self.rows[row][col] = value;
        proof {
            assert(self@ =~~= old(self)@.update(
                row as int,
                old(self)@[row as int].update(col as int, value),
            ));
        }
    }
}

/// One decode pass: lights, at full intensity, exactly the raster pixels
/// whose source bit in `mem` is set, and leaves every other pixel as it
/// was. The caller clears the raster first to get a black background.
pub fn decode_frame(mem: &Vec<u8>, raster: &mut Raster)
    requires
        mem@.len() == FRAME_BYTES,
        old(raster).wf(),
    ensures
        final(raster).wf(),
        final(raster)@ == spec_decoded(mem@, old(raster)@),
{
    let ghost base = old(raster)@;
    proof {
        assert(raster@ =~~= spec_partial(mem@, base, 0, 0));
    }
    let mut y: usize = 0;
    while y < 224
        invariant
            raster.wf(),
            mem@.len() == FRAME_BYTES,
            base.len() == RASTER_ROWS,
            forall|r: int| 0 <= r < RASTER_ROWS ==> (#[trigger] base[r]).len() == RASTER_COLS,
            y <= 224,
            raster@ == spec_partial(mem@, base, y as int, 0),
        decreases 224 - y,
    {
        let mut s: usize = 0;
        while s < 256
            invariant
                raster.wf(),
                mem@.len() == FRAME_BYTES,
                base.len() == RASTER_ROWS,
                forall|r: int| 0 <= r < RASTER_ROWS ==> (#[trigger] base[r]).len() == RASTER_COLS,
                y < 224,
                s <= 256,
                raster@ == spec_partial(mem@, base, y as int, s as int),
            decreases 256 - s,
        {
            let byte: u8 = mem[32 * y + s / 8];
            let b: u8 = (s % 8) as u8;
            if byte & (1u8 << b) != 0 {
                let col: usize = 256 - s;
                raster.set_pixel(y, col, 255);
                proof {
                    assert(raster@ =~~= spec_partial(mem@, base, y as int, s as int + 1));
                }
            } else {
                proof {
                    assert(raster@ =~~= spec_partial(mem@, base, y as int, s as int + 1));
                }
            }
            s = s + 1;
        }
        proof {
            assert(raster@ =~~= spec_partial(mem@, base, y as int + 1, 0));
        }
        y = y + 1;
    }
    proof {
        assert(raster@ =~~= spec_decoded(mem@, base));
    }
}

/// Decode is a function of the memory and the starting raster alone: two
/// independently cleared rasters decoded from the same memory contents come
/// out pixel-identical.
pub proof fn lemma_decode_deterministic(mem: Seq<u8>, first: Seq<Seq<u8>>, second: Seq<Seq<u8>>)
    requires
        first == spec_cleared(),
        second == spec_cleared(),
    ensures
        spec_decoded(mem, first) == spec_decoded(mem, second),
{
}

/// Onto a cleared raster, decode lights exactly the pixels whose source
/// bit is set, at full intensity, and leaves every other pixel black.
pub proof fn lemma_decode_onto_cleared(mem: Seq<u8>, row: int, col: int)
    requires
        0 <= row < RASTER_ROWS,
        0 <= col < RASTER_COLS,
    ensures
        spec_decoded(mem, spec_cleared())[row][col] == if spec_pixel_lit(mem, row, col) {
            255u8
        } else {
            0u8
        },
{
}

} // verus!
