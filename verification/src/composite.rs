//! The alpha compositor: a pure function from the two raw planes to one
//! RGBA image.
//!
//! A native plane stores its scanlines bottom-up (the last scanline comes
//! first) and its channels in reverse order (blue, green, red).  The
//! compositor undoes both: it emits rows top-down, reads the mask plane's
//! byte at the checked channel, and emits a fully transparent pixel where
//! that byte equals the transparent sentinel, or the reordered color pixel
//! with a fully opaque alpha everywhere else.

use vstd::prelude::*;
use vstd::arithmetic::div_mod::{lemma_fundamental_div_mod_converse, lemma_multiply_divide_lt};
use crate::extract::{BitmapDescriptor, descriptor_wf, MAX_PLANE_DIM};

verus! {

/// The mask byte that marks a pixel as fully transparent.
pub const TRANSPARENT_SENTINEL: u8 = 0xFF;

/// Is the pixel at flattened source index `j` transparent?  Exactly when
/// the mask plane's byte at the checked channel is the sentinel.
pub open spec fn pixel_transparent(mask: Seq<u8>, j: int) -> bool {
    mask[4 * j] == TRANSPARENT_SENTINEL
}

/// The byte at flat position `k` of the composited top-down RGBA image.
///
/// Position `k` belongs to output pixel `k / 4`, which sits in output row
/// `(k / 4) / width` and column `(k / 4) % width`; its source pixel is read
/// from the mirrored row `height - 1 - row`, undoing bottom-up storage.  A
/// transparent pixel is all zero; an opaque one carries the source channels
/// reordered from (blue, green, red) to (red, green, blue) and alpha 255.
pub open spec fn composite_byte(
    width: int,
    height: int,
    color: Seq<u8>,
    mask: Seq<u8>,
    k: int,
) -> u8 {
    let i = k / 4;
    let channel = k % 4;
    let row = i / width;
    let col = i % width;
    let j = (height - 1 - row) * width + col;
    if pixel_transparent(mask, j) {
        0
    } else if channel == 0 {
        color[4 * j + 2]
    } else if channel == 1 {
        color[4 * j + 1]
    } else if channel == 2 {
        color[4 * j]
    } else {
        255
    }
}

/// The whole composited image, top-down, 4 bytes per pixel.
pub open spec fn composite_spec(width: int, height: int, color: Seq<u8>, mask: Seq<u8>) -> Seq<
    u8,
> {
    Seq::new((4 * width * height) as nat, |k: int| composite_byte(width, height, color, mask, k))
}

/// Composite the two raw bottom-up planes of a descriptor into one top-down
/// RGBA image with straight alpha.
pub fn composite(desc: &BitmapDescriptor, color: &Vec<u8>, mask: &Vec<u8>) -> (r: Vec<u8>)
    requires
        descriptor_wf(*desc),
        color@.len() == 4 * (desc.width as int) * (desc.height as int),
        mask@.len() == 4 * (desc.width as int) * (desc.height as int),
    ensures
        r@ == composite_spec(desc.width as int, desc.height as int, color@, mask@),
{
    let w = desc.width as usize;
    let h = desc.height as usize;
    let ghost wi = desc.width as int;
    let ghost hi = desc.height as int;
    proof {
        assert(wi * hi <= MAX_PLANE_DIM * MAX_PLANE_DIM) by (nonlinear_arith)
            requires
                0 <= wi <= MAX_PLANE_DIM,
                0 <= hi <= MAX_PLANE_DIM,
        ;
        assert(4 * wi * hi == 4 * (wi * hi)) by (nonlinear_arith);
    }
    let total: usize = w * h;
    let mut out: Vec<u8> = Vec::new();
    let mut i: usize = 0;
    while i < total
        invariant
            w == wi,
            h == hi,
            total == wi * hi,
            wi * hi <= MAX_PLANE_DIM * MAX_PLANE_DIM,
            color@.len() == 4 * (wi * hi),
            mask@.len() == 4 * (wi * hi),
            i <= total,
            out@.len() == 4 * i,
            forall|k: int|
                0 <= k < 4 * i ==> out@[k] == composite_byte(wi, hi, color@, mask@, k),
        decreases total - i,
    {
        proof {
            assert(wi > 0) by (nonlinear_arith)
                requires
                    wi * hi > i >= 0,
                    wi >= 0,
            ;
        }
        let row = i / w;
        let col = i % w;
        proof {
            lemma_multiply_divide_lt(i as int, wi, hi);
            assert((hi - 1 - row) * wi + col < wi * hi && 0 <= (hi - 1 - row) * wi + col)
                by (nonlinear_arith)
                requires
                    0 <= row < hi,
                    0 <= col < wi,
                    row == i as int / wi,
                    col == i as int % wi,
            ;
        }
        let src = (h - 1 - row) * w + col;
        let ghost j = src as int;
        let m = mask[4 * src];
        let ghost pre = out@;
        if m == TRANSPARENT_SENTINEL {
            out.push(0);
            out.push(0);
            out.push(0);
            out.push(0);
        } else {
            out.push(color[4 * src + 2]);
            out.push(color[4 * src + 1]);
            out.push(color[4 * src]);
            out.push(255);
        }
        proof {
            lemma_composite_pixel_bytes(wi, hi, color@, mask@, i as int, j);
            assert forall|k: int| 0 <= k < 4 * (i + 1) implies out@[k] == composite_byte(
                wi,
                hi,
                color@,
                mask@,
                k,
            ) by {
                if k < 4 * i {
                    assert(out@[k] == pre[k]);
                }
            }
        }
        i = i + 1;
    }
    proof {
        assert(4 * wi * hi == 4 * (wi * hi)) by (nonlinear_arith);
        assert(out@ =~= composite_spec(wi, hi, color@, mask@));
    }
    out
}

/// Compositing correctness, pixel by pixel.  The output pixel at (`row`,
/// `col`) of the top-down image is read from the source pixel in the
/// mirrored row `height - 1 - row` of the bottom-up planes: where the mask
/// byte at the checked channel is the transparent sentinel, all four output
/// bytes are zero; everywhere else the three color channels are reordered
/// from the native (blue, green, red) layout to red, green, blue, and the
/// alpha byte is fully opaque.
pub proof fn lemma_composite_pixel(
    width: int,
    height: int,
    color: Seq<u8>,
    mask: Seq<u8>,
    row: int,
    col: int,
)
    requires
        0 <= row < height,
        0 <= col < width,
    ensures
        ({
            let out = composite_spec(width, height, color, mask);
            let i = row * width + col;
            let j = (height - 1 - row) * width + col;
            &&& out[4 * i] == (if pixel_transparent(mask, j) {
                0u8
            } else {
                color[4 * j + 2]
            })
            &&& out[4 * i + 1] == (if pixel_transparent(mask, j) {
                0u8
            } else {
                color[4 * j + 1]
            })
            &&& out[4 * i + 2] == (if pixel_transparent(mask, j) {
                0u8
            } else {
                color[4 * j]
            })
            &&& out[4 * i + 3] == (if pixel_transparent(mask, j) {
                0u8
            } else {
                255u8
            })
        }),
{
    let i = row * width + col;
    let j = (height - 1 - row) * width + col;
    assert(0 <= i && i < width * height && 4 * width * height == 4 * (width * height))
        by (nonlinear_arith)
        requires
            0 <= row < height,
            0 <= col < width,
            i == row * width + col,
    ;
    lemma_fundamental_div_mod_converse(i, width, row, col);
    lemma_composite_pixel_bytes(width, height, color, mask, i, j);
}

/// The four bytes of output pixel `i` are read from source pixel `j`, the
/// mirror of `i`'s row.
proof fn lemma_composite_pixel_bytes(
    wi: int,
    hi: int,
    color: Seq<u8>,
    mask: Seq<u8>,
    i: int,
    j: int,
)
    requires
        wi > 0,
        0 <= i < wi * hi,
        j == (hi - 1 - i / wi) * wi + i % wi,
    ensures
        composite_byte(wi, hi, color, mask, 4 * i) == (if pixel_transparent(mask, j) {
            0u8
        } else {
            color[4 * j + 2]
        }),
        composite_byte(wi, hi, color, mask, 4 * i + 1) == (if pixel_transparent(mask, j) {
            0u8
        } else {
            color[4 * j + 1]
        }),
        composite_byte(wi, hi, color, mask, 4 * i + 2) == (if pixel_transparent(mask, j) {
            0u8
        } else {
            color[4 * j]
        }),
        composite_byte(wi, hi, color, mask, 4 * i + 3) == (if pixel_transparent(mask, j) {
            0u8
        } else {
            255u8
        }),
{
    lemma_fundamental_div_mod_converse(4 * i, 4, i, 0);
    lemma_fundamental_div_mod_converse(4 * i + 1, 4, i, 1);
    lemma_fundamental_div_mod_converse(4 * i + 2, 4, i, 2);
    lemma_fundamental_div_mod_converse(4 * i + 3, 4, i, 3);
}

} // verus!
