use vstd::prelude::*;

use crate::palette::Color;

verus! {

/// A width-by-height grid of RGB cells, row-major, held in an image buffer of
/// the `image` crate.
#[verifier::external_body]
pub struct Canvas {
    buf: image::RgbImage,
}

/// The cells of a canvas, row by row: cell `(x, y)` is at `y * width + x`.
pub uninterp spec fn canvas_cells(c: Canvas) -> Seq<(u8, u8, u8)>;

/// The width and height a canvas was made with.
pub uninterp spec fn canvas_dims(c: Canvas) -> (u32, u32);

/// A colour as the channel triple a canvas cell holds.
pub open spec fn rgb_of(c: Color) -> (u8, u8, u8) {
    (c.red, c.green, c.blue)
}

/// The raw bytes of a row-major RGB grid: three per cell, red first.
pub open spec fn interleaved(cells: Seq<(u8, u8, u8)>) -> Seq<u8> {
    Seq::new(
        3 * cells.len(),
        |k: int|
            if k % 3 == 0 {
                cells[k / 3].0
            } else if k % 3 == 1 {
                cells[k / 3].1
            } else {
                cells[k / 3].2
            },
    )
}

impl Canvas {
    /// Relies on `ImageBuffer::new`: a buffer of the given size with every
    /// channel zero; it panics only when `3 * width * height` overflows.
    #[verifier::external_body]
    pub fn new(width: u32, height: u32) -> (r: Canvas)
        requires
            3 * width * height <= isize::MAX,
        ensures
            canvas_dims(r) == (width, height),
            canvas_cells(r) == Seq::new((width * height) as nat, |i: int| (0u8, 0u8, 0u8)),
    {
        Canvas { buf: image::ImageBuffer::new(width, height) }
    }

    /// Relies on `ImageBuffer::put_pixel`: it overwrites the one cell `(x, y)`,
    /// at index `y * width + x`, and panics only outside the bounds.
    #[verifier::external_body]
    pub fn put(&mut self, x: u32, y: u32, color: Color)
        requires
            x < canvas_dims(*old(self)).0,
            y < canvas_dims(*old(self)).1,
        ensures
            canvas_dims(*final(self)) == canvas_dims(*old(self)),
            canvas_cells(*final(self)) == canvas_cells(*old(self)).update(
                y * canvas_dims(*old(self)).0 + x,
                rgb_of(color),
            ),
    {
        self.buf.put_pixel(x, y, image::Rgb([color.red, color.green, color.blue]));
    }

    /// Relies on `ImageBuffer::as_raw`: the buffer holds the cells row by row,
    /// three bytes each in red, green, blue order.
    #[verifier::external_body]
    pub fn to_bytes(&self) -> (r: Vec<u8>)
        ensures
            r@ == interleaved(canvas_cells(*self)),
    {
        self.buf.as_raw().clone()
    }
}

} // verus!
