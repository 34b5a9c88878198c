use vstd::prelude::*;

use crate::canvas::{canvas_cells, canvas_dims, interleaved, rgb_of, Canvas};
use crate::escape::IterationResult;
use crate::palette::{color_of, colorable, escape_color};

verus! {

/// The cells of a canvas painted from row-major classifications.
pub open spec fn painted(results: Seq<IterationResult>) -> Seq<(u8, u8, u8)> {
    results.map_values(|r: IterationResult| rgb_of(color_of(r)))
}

/// Whether a canvas of this size can be made: both sides positive, and its
/// `3 * width * height` bytes addressable.
pub fn canvas_fits(width: u32, height: u32) -> (r: bool)
    ensures
        r == (width > 0 && height > 0 && 3 * width * height <= isize::MAX),
{
    if width == 0 || height == 0 {
        return false;
    }
    proof {
        let (w, h) = (width as int, height as int);
        assert(w * h <= 0xffff_ffff * 0xffff_ffffint) by (nonlinear_arith)
            requires
                0 <= w <= 0xffff_ffff,
                0 <= h <= 0xffff_ffff,
        ;
    }
    let cells: u64 = (width as u64) * (height as u64);
    proof {
        let (w, h, m) = (width as int, height as int, isize::MAX as int);
        assert(3 * w * h == 3 * (w * h)) by (nonlinear_arith);
        assert((w * h <= m / 3) <==> (3 * (w * h) <= m)) by (nonlinear_arith)
            requires
                m >= 0,
        ;
    }
    cells <= (isize::MAX as u64) / 3
}

/// Paints each pixel `(x, y)` with the colour of `results[y * width + x]`,
/// row by row.
pub fn paint(results: &Vec<IterationResult>, width: u32, height: u32, cap: u16) -> (c: Canvas)
    requires
        results.len() == width * height,
        3 * width * height <= isize::MAX,
        forall|i: int| 0 <= i < results.len() ==> colorable(#[trigger] results[i]),
    ensures
        canvas_dims(c) == (width, height),
        canvas_cells(c) == painted(results@),
{
    let mut canvas = Canvas::new(width, height);
    let ghost n = width * height;
    let mut y: u32 = 0;
    let mut idx: usize = 0;
    while y < height
        invariant
            y <= height,
            results.len() == n,
            n == width * height,
            idx == y * width,
            idx <= n,
            forall|i: int| 0 <= i < results.len() ==> colorable(#[trigger] results[i]),
            canvas_dims(canvas) == (width, height),
            canvas_cells(canvas).len() == n,
            forall|i: int|
                0 <= i < idx ==> #[trigger] canvas_cells(canvas)[i] == rgb_of(
                    color_of(results[i]),
                ),
        decreases height - y,
    {
        proof {
            assert((y + 1) * width <= height * width) by (nonlinear_arith)
                requires
                    y < height,
            ;
            assert((y + 1) * width == y * width + width) by (nonlinear_arith);
        }
        let mut x: u32 = 0;
        while x < width
            invariant
                y < height,
                x <= width,
                results.len() == n,
                n == width * height,
                (y + 1) * width <= n,
                idx == y * width + x,
                idx <= n,
                (y + 1) * width == y * width + width,
                forall|i: int| 0 <= i < results.len() ==> colorable(#[trigger] results[i]),
                canvas_dims(canvas) == (width, height),
                canvas_cells(canvas).len() == n,
                forall|i: int|
                    0 <= i < idx ==> #[trigger] canvas_cells(canvas)[i] == rgb_of(
                        color_of(results[i]),
                    ),
            decreases width - x,
        {
            let color = escape_color(results[idx], cap);
            canvas.put(x, y, color);
            x = x + 1;
            idx = idx + 1;
        }
        y = y + 1;
    }
    proof {
        assert(height * width == width * height) by (nonlinear_arith);
        assert(canvas_cells(canvas) =~= painted(results@));
    }
    canvas
}

/// Painting is deterministic: two canvases painted from the same
/// classifications hold the same bytes.
pub proof fn lemma_paint_deterministic(a: Canvas, b: Canvas, results: Seq<IterationResult>)
    requires
        canvas_cells(a) == painted(results),
        canvas_cells(b) == painted(results),
    ensures
        interleaved(canvas_cells(a)) == interleaved(canvas_cells(b)),
{
}

} // verus!
