use vstd::prelude::*;

verus! {

/// The normalised coordinate of pixel `pos` on an axis of `extent` pixels is
/// `2 * pos / extent - 1`, that is `(2 * pos - extent) / extent`; this is its
/// numerator, over the denominator `extent`.
pub open spec fn normalized_num(pos: int, extent: int) -> int {
    2 * pos - extent
}

/// The exact numerator of a pixel's normalised coordinate. Its bounds say that
/// the coordinate lies in `[-1, 1)`, so the plane point lies in
/// `[offset - 1/scale, offset + 1/scale)` on that axis for a positive scale.
pub fn normalized_numerator(pos: u32, extent: u32) -> (r: i64)
    requires
        pos < extent,
    ensures
        r == normalized_num(pos as int, extent as int),
        -(extent as int) <= r < extent,
{
    2 * (pos as i64) - (extent as i64)
}

} // verus!
