//! Render bridge: packs the monochrome bitmap into a destination pixel
//! buffer, 4 bytes per pixel, row-major.

use vstd::pervasive::VecAdditionalExecFns;
use vstd::prelude::*;

verus! {

/// A monochrome width x height grid of cells, row-major: the cell at
/// `(x, y)` is `pixels[x + y * width]`.
pub struct Bitmap {
    pub width: usize,
    pub height: usize,
    pub pixels: Vec<bool>,
}

impl Bitmap {
    /// Well-formedness: one cell per grid position.
    pub open spec fn wf(self) -> bool {
        self.pixels@.len() == self.width * self.height
    }

    /// The cell at `(x, y)`.
    pub open spec fn cell(self, x: int, y: int) -> bool {
        self.pixels@[x + y * self.width]
    }

    /// Build a bitmap from its row-major cells.
    pub fn new(width: usize, height: usize, pixels: Vec<bool>) -> (bm: Bitmap)
        requires
            pixels@.len() == width * height,
        ensures
            bm.wf(),
            bm.width == width,
            bm.height == height,
            bm.pixels@ == pixels@,
    {
        Bitmap { width, height, pixels }
    }
}

/// Byte `j` (0 to 3) of a 32-bit color as packed into the pixel buffer:
/// least-significant byte first, the order in which the common
/// little-endian hosts lay a 32-bit color word out in memory.
pub open spec fn color_byte(c: u32, j: int) -> u8 {
    if j == 0 {
        (c & 0xFF) as u8
    } else if j == 1 {
        ((c >> 8u32) & 0xFF) as u8
    } else if j == 2 {
        ((c >> 16u32) & 0xFF) as u8
    } else {
        ((c >> 24u32) & 0xFF) as u8
    }
}

/// The packed pixel buffer of a bitmap: 4 bytes per cell, row-major, each
/// cell's 4-byte slice holding the foreground color where the cell is set
/// and the background color where it is not, so that the slice for cell
/// `(x, y)` starts at index `(x + y * width) * 4`.
pub open spec fn packed_buffer(bm: Bitmap, color_on: u32, color_off: u32) -> Seq<u8> {
    Seq::new(
        (bm.width * bm.height * 4) as nat,
        |i: int|
            color_byte(
                if bm.pixels@[i / 4] {
                    color_on
                } else {
                    color_off
                },
                i % 4,
            ),
    )
}

/// In the packed buffer, the 4-byte slice for cell `(x, y)` starts at index
/// `(x + y * width) * 4` and holds the foreground color's bytes where the
/// cell is set, the background color's bytes where it is not.
pub proof fn lemma_packed_cell_bytes(bm: Bitmap, color_on: u32, color_off: u32, x: int, y: int, j: int)
    requires
        bm.wf(),
        0 <= x < bm.width,
        0 <= y < bm.height,
        0 <= j < 4,
    ensures
        packed_buffer(bm, color_on, color_off)[(x + y * bm.width) * 4 + j] == color_byte(
            if bm.cell(x, y) {
                color_on
            } else {
                color_off
            },
            j,
        ),
{
    let w = bm.width as int;
    let h = bm.height as int;
    let p = x + y * w;
    vstd::arithmetic::mul::lemma_mul_nonnegative(y, w);
    vstd::arithmetic::mul::lemma_mul_inequality(y, h - 1, w);
    vstd::arithmetic::mul::lemma_mul_is_distributive_sub_other_way(w, h, 1);
    assert(0 <= p < w * h);
    assert((p * 4 + j) / 4 == p);
    assert((p * 4 + j) % 4 == j);
}

/// Pack the bitmap into the destination pixel buffer, overwriting it whole:
/// afterwards the buffer is exactly the packed form of the bitmap under the
/// given foreground and background colors.
pub fn update_tex(buffer: &mut Vec<u8>, bm: &Bitmap, color_on: u32, color_off: u32)
    requires
        bm.wf(),
        old(buffer)@.len() == bm.width * bm.height * 4,
    ensures
        final(buffer)@ == packed_buffer(*bm, color_on, color_off),
{
    proof {
        // The buffer's length is a usize, which bounds the grid size.
        assert(buffer.len() == buffer@.len());
        vstd::arithmetic::mul::lemma_mul_nonnegative(bm.width as int, bm.height as int);
    }
    let n: usize = bm.width * bm.height;
    let mut p: usize = 0;
    while p < n
        invariant
            bm.wf(),
            n == bm.width * bm.height,
            buffer@.len() == n * 4,
            buffer@.len() <= usize::MAX,
            0 <= p <= n,
            forall|i: int| 0 <= i < p * 4 ==> buffer@[i] == packed_buffer(
                *bm,
                color_on,
                color_off,
            )[i],
        decreases n - p,
    {
        let c: u32 = if bm.pixels[p] {
            color_on
        } else {
            color_off
        };
        let base: usize = p * 4;
        proof {
            assert(c & 0xFF < 256) by (bit_vector);
            assert((c >> 8u32) & 0xFF < 256) by (bit_vector);
            assert((c >> 16u32) & 0xFF < 256) by (bit_vector);
            assert((c >> 24u32) & 0xFF < 256) by (bit_vector);
        }
        buffer.set(base, (c & 0xFF) as u8);
        buffer.set(base + 1, ((c >> 8u32) & 0xFF) as u8);
        buffer.set(base + 2, ((c >> 16u32) & 0xFF) as u8);
        buffer.set(base + 3, ((c >> 24u32) & 0xFF) as u8);
        proof {
            let pb = packed_buffer(*bm, color_on, color_off);
            assert((p * 4 + 0) / 4 == p && (p * 4 + 0) % 4 == 0);
            assert((p * 4 + 1) / 4 == p && (p * 4 + 1) % 4 == 1);
            assert((p * 4 + 2) / 4 == p && (p * 4 + 2) % 4 == 2);
            assert((p * 4 + 3) / 4 == p && (p * 4 + 3) % 4 == 3);
            assert(buffer@[p * 4 + 0] == pb[p * 4 + 0]);
            assert(buffer@[p * 4 + 1] == pb[p * 4 + 1]);
            assert(buffer@[p * 4 + 2] == pb[p * 4 + 2]);
            assert(buffer@[p * 4 + 3] == pb[p * 4 + 3]);
        }
        p += 1;
    }
    proof {
        assert(buffer@ =~= packed_buffer(*bm, color_on, color_off));
    }
}

} // verus!
