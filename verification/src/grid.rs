use vstd::prelude::*;
use vstd::arithmetic::div_mod::{
    lemma_fundamental_div_mod, lemma_mod_pos_bound, lemma_multiply_divide_lt,
};
use crate::color::Rgb8;

verus! {

/// Whether a grid of the given size fits one byte vector: three bytes for each
/// pixel, the bytes of one row counted in a `usize`, and no more bytes in all
/// than a vector can hold.
pub open spec fn fits(width: u32, height: u32) -> bool {
    &&& 3 * width <= usize::MAX
    &&& 3 * width * height <= isize::MAX
}

/// Whether `bytes` has the length of a grid of the given size: three bytes for
/// each pixel.
pub open spec fn holds_grid(bytes: Seq<u8>, width: u32, height: u32) -> bool {
    bytes.len() == 3 * width * height
}

/// The index in a grid's bytes at which the pixel in column `x` of row `y`
/// starts. Rows follow one another from the first, and so do the pixels of a
/// row.
pub open spec fn offset(width: u32, x: u32, y: u32) -> int {
    3 * (y * width + x)
}

/// The color that a grid's bytes hold at `(x, y)`: red, green and blue, one
/// byte each, from `offset(width, x, y)` on.
pub open spec fn pixel_at(bytes: Seq<u8>, width: u32, x: u32, y: u32) -> Rgb8 {
    Rgb8 {
        r: bytes[offset(width, x, y)],
        g: bytes[offset(width, x, y) + 1],
        b: bytes[offset(width, x, y) + 2],
    }
}

/// Every byte of a grid is one channel of one pixel: the index `k` lies zero,
/// one or two bytes past the start of the pixel that the result names.
pub proof fn lemma_byte_in_pixel(width: u32, height: u32, k: int) -> (at: (u32, u32, int))
    requires
        0 <= k < 3 * width * height,
    ensures
        at.0 < width,
        at.1 < height,
        0 <= at.2 < 3,
        k == offset(width, at.0, at.1) + at.2,
{
    let w = width as int;
    let h = height as int;
    let p = k / 3;
    assert(w > 0 && p < w * h) by (nonlinear_arith)
        requires
            0 <= k < 3 * w * h,
            p == k / 3,
            0 <= w,
            0 <= h,
    ;
    lemma_fundamental_div_mod(p, w);
    lemma_mod_pos_bound(p, w);
    lemma_multiply_divide_lt(p, w, h);
    assert(w * (p / w) == (p / w) * w) by (nonlinear_arith);
    ((p % w) as u32, (p / w) as u32, k % 3)
}

} // verus!
