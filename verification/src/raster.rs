use vstd::prelude::*;
use crate::canvas::{blank, canvas_dimensions, canvas_pixels, into_bytes, put};
use crate::color::Rgb8;
use crate::grid::{fits, holds_grid, lemma_byte_in_pixel, pixel_at};

verus! {

/// Whether `bytes` is a grid of the given size in which every pixel holds a
/// color that `shader` may return for that pixel's position.
pub open spec fn rendered<F: Fn(u32, u32) -> Rgb8>(
    bytes: Seq<u8>,
    width: u32,
    height: u32,
    shader: F,
) -> bool {
    &&& holds_grid(bytes, width, height)
    &&& forall|i: u32, j: u32|
        i < width && j < height ==> call_ensures(
            shader,
            (i, j),
            #[trigger] pixel_at(bytes, width, i, j),
        )
}

/// Shades every pixel of a `width` by `height` grid and returns the grid as
/// bytes, three for each pixel, rows from the first to the last. `shader` is
/// called once for each position `(i, j)`, column `i` and row `j`; the rows are
/// taken from the last up to the first, and within a row the columns from the
/// first to the last.
pub fn render<F: Fn(u32, u32) -> Rgb8>(width: u32, height: u32, shader: F) -> (bytes: Vec<u8>)
    requires
        fits(width, height),
        forall|i: u32, j: u32| i < width && j < height ==> call_requires(shader, (i, j)),
    ensures
        rendered(bytes@, width, height, shader),
{
    let mut canvas = blank(width, height);
    let mut j: u32 = height;
    while j > 0
        invariant
            j <= height,
            canvas_dimensions(canvas) == (width, height),
            forall|i: u32, j: u32| i < width && j < height ==> call_requires(shader, (i, j)),
            forall|x: u32, y: u32|
                x < width && j <= y < height ==> call_ensures(
                    shader,
                    (x, y),
                    #[trigger] canvas_pixels(canvas)[(x, y)],
                ),
        decreases j,
    {
        j = j - 1;
        let mut i: u32 = 0;
        while i < width
            invariant
                i <= width,
                j < height,
                canvas_dimensions(canvas) == (width, height),
                forall|i: u32, j: u32| i < width && j < height ==> call_requires(shader, (i, j)),
                forall|x: u32, y: u32|
                    x < width && j < y < height ==> call_ensures(
                        shader,
                        (x, y),
                        #[trigger] canvas_pixels(canvas)[(x, y)],
                    ),
                forall|x: u32|
                    x < i ==> call_ensures(shader, (x, j), #[trigger] canvas_pixels(canvas)[(x, j)]),
            decreases width - i,
        {
            let color = shader(i, j);
            put(&mut canvas, i, j, color);
            i = i + 1;
        }
    }
    let bytes = into_bytes(canvas);
    assert forall|i: u32, j: u32| i < width && j < height implies call_ensures(
        shader,
        (i, j),
        #[trigger] pixel_at(bytes@, width, i, j),
    ) by {
        assert(canvas_pixels(canvas)[(i, j)] == pixel_at(bytes@, width, i, j));
    }
    bytes
}

/// Renders as `render` does where the grid fits a byte vector, and returns
/// `None` where it does not, without calling `shader`.
pub fn try_render<F: Fn(u32, u32) -> Rgb8>(width: u32, height: u32, shader: F) -> (grid: Option<
    Vec<u8>,
>)
    requires
        forall|i: u32, j: u32| i < width && j < height ==> call_requires(shader, (i, j)),
    ensures
        grid is Some <==> fits(width, height),
        grid is Some ==> rendered(grid->Some_0@, width, height, shader),
{
    assert(width * height <= 0xffff_ffff * 0xffff_ffff) by (nonlinear_arith)
        requires
            width <= 0xffff_ffff,
            height <= 0xffff_ffff,
    ;
    assert(3 * width * height == 3 * (width * height)) by (nonlinear_arith);
    let row: u128 = 3 * (width as u128);
    let pixels: u128 = width as u128 * height as u128;
    if row <= usize::MAX as u128 && 3 * pixels <= isize::MAX as u128 {
        Some(render(width, height, shader))
    } else {
        None
    }
}

/// Rendering adds no choice of its own. Where `shader` can return only one
/// color for each position, two grids of the same size that were both
/// rendered with it are the same bytes.
pub proof fn lemma_render_repeatable<F: Fn(u32, u32) -> Rgb8>(
    width: u32,
    height: u32,
    shader: F,
    first: Seq<u8>,
    second: Seq<u8>,
)
    requires
        rendered(first, width, height, shader),
        rendered(second, width, height, shader),
        forall|i: u32, j: u32, a: Rgb8, b: Rgb8|
            i < width && j < height && #[trigger] call_ensures(shader, (i, j), a)
                && #[trigger] call_ensures(shader, (i, j), b) ==> a == b,
    ensures
        first == second,
{
    assert forall|k: int| 0 <= k < first.len() implies first[k] == second[k] by {
        let at = lemma_byte_in_pixel(width, height, k);
        let a = pixel_at(first, width, at.0, at.1);
        let b = pixel_at(second, width, at.0, at.1);
        assert(call_ensures(shader, (at.0, at.1), a));
        assert(call_ensures(shader, (at.0, at.1), b));
    }
    assert(first =~= second);
}

} // verus!
