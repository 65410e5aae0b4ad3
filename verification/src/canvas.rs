use vstd::prelude::*;
use image::{ImageBuffer, Rgb};
use crate::color::Rgb8;
use crate::grid::{holds_grid, pixel_at};

verus! {

/// A grid of pixels being filled, kept in an `image::ImageBuffer` of eight-bit
/// RGB pixels over a byte vector. Nothing outside this module can make one or
/// look into one. The only one that this crate makes comes from
/// `ImageBuffer::new`, so the buffer always has exactly three bytes for each
/// pixel.
#[verifier::external_body]
pub struct Canvas {
    image: ImageBuffer<Rgb<u8>, Vec<u8>>,
}

/// Width and height of a canvas, as `ImageBuffer::dimensions` reports them.
pub uninterp spec fn canvas_dimensions(canvas: Canvas) -> (u32, u32);

/// The color at each position `(x, y)` inside a canvas, column `x` of row
/// `y`, as `ImageBuffer::get_pixel` reads it.
pub uninterp spec fn canvas_pixels(canvas: Canvas) -> Map<(u32, u32), Rgb8>;

/// The positions of a grid `width` pixels wide and `height` pixels high.
pub open spec fn positions(width: u32, height: u32) -> Set<(u32, u32)> {
    Set::new(|p: (u32, u32)| p.0 < width && p.1 < height)
}

/// The grid of the given size in which every channel of every pixel is zero.
pub open spec fn all_black(width: u32, height: u32) -> Map<(u32, u32), Rgb8> {
    Map::new(
        |p: (u32, u32)| positions(width, height).contains(p),
        |p: (u32, u32)| Rgb8 { r: 0, g: 0, b: 0 },
    )
}

/// Calls `ImageBuffer::new`. It counts the bytes in a `usize`, three times the
/// width first and that times the height, and panics where either product
/// overflows; then it allocates that many zero bytes and panics where they are
/// more than a vector can hold. `requires` rules all three out. Where the
/// allocator cannot supply the bytes, the process aborts. Not proved, but taken
/// from the outside code: the result has the size asked for and is black
/// everywhere.
#[verifier::external_body]
pub(crate) fn blank(width: u32, height: u32) -> (canvas: Canvas)
    requires
        3 * width <= usize::MAX,
        3 * width * height <= isize::MAX,
    ensures
        canvas_dimensions(canvas) == (width, height),
        canvas_pixels(canvas) == all_black(width, height),
{
    Canvas { image: ImageBuffer::new(width, height) }
}

/// Calls `ImageBuffer::put_pixel`, which panics outside the image: `requires`
/// keeps the position inside. Not proved, but taken from the outside code: the
/// size stays, the pixel at `(x, y)` becomes `color`, and no other pixel
/// changes.
#[verifier::external_body]
pub(crate) fn put(canvas: &mut Canvas, x: u32, y: u32, color: Rgb8)
    requires
        x < canvas_dimensions(*old(canvas)).0,
        y < canvas_dimensions(*old(canvas)).1,
    ensures
        canvas_dimensions(*final(canvas)) == canvas_dimensions(*old(canvas)),
        canvas_pixels(*final(canvas)) == canvas_pixels(*old(canvas)).insert((x, y), color),
{
    canvas.image.put_pixel(x, y, Rgb([color.r, color.g, color.b]))
}

/// Calls `ImageBuffer::into_raw`, which hands out the buffer. Not proved, but
/// taken from the outside code: the buffer has three bytes for each pixel, and
/// the pixel at `(x, y)` is the three bytes from `3 * (y * width + x)` on, red
/// first.
#[verifier::external_body]
pub(crate) fn into_bytes(canvas: Canvas) -> (bytes: Vec<u8>)
    ensures
        holds_grid(bytes@, canvas_dimensions(canvas).0, canvas_dimensions(canvas).1),
        forall|x: u32, y: u32|
            x < canvas_dimensions(canvas).0 && y < canvas_dimensions(canvas).1 ==> {
                #[trigger] canvas_pixels(canvas)[(x, y)]
                    == pixel_at(bytes@, canvas_dimensions(canvas).0, x, y)
            },
{
    canvas.image.into_raw()
}

} // verus!
