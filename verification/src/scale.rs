//! Scaling of a pixel coordinate to the normalized absolute axis.
//!
//! The host addresses each screen axis in 65536 units, whatever the screen's
//! extent in pixels. A pixel is scaled by a 64-bit multiplication, a flooring
//! division by the extent, and a cut to 32 signed bits.

use vstd::prelude::*;

verus! {

/// The number of units along one axis of the normalized absolute space.
pub const UNITS: u64 = 0x1_0000;

/// The low 64 bits of `v`, read as an unsigned number.
pub open spec fn wrap_u64(v: int) -> int {
    v % 0x1_0000_0000_0000_0000
}

/// The low 32 bits of `v`, read as a signed number in two's complement.
pub open spec fn wrap_i32(v: int) -> int {
    let low = v % 0x1_0000_0000;
    if low < 0x8000_0000 {
        low
    } else {
        low - 0x1_0000_0000
    }
}

/// The normalized coordinate of `pixel` on an axis that is `extent` pixels long.
pub open spec fn normalized(pixel: int, extent: int) -> int
    recommends
        0 <= pixel,
        0 < extent,
{
    wrap_i32(wrap_u64(pixel * UNITS) / extent)
}

/// Whether `pixel` lies on an axis that is `extent` pixels long, and is small
/// enough for its multiplication by `UNITS` to stay within 64 bits.
pub open spec fn on_axis(pixel: int, extent: int) -> bool {
    0 <= pixel < extent && pixel * UNITS <= u64::MAX
}

/// Whether `unit` is the place of `pixel` on the normalized axis: a unit of
/// the axis that is off from the exact ratio of `pixel` to `extent` by less
/// than one unit, downwards.
pub open spec fn is_place_of(unit: int, pixel: int, extent: int) -> bool {
    &&& 0 <= unit < UNITS
    &&& unit * extent <= pixel * UNITS < (unit + 1) * extent
}

/// Scales `pixel` to the normalized axis, or reports `None` for an axis
/// without extent.
pub fn normalize(pixel: usize, extent: u64) -> (unit: Option<i32>)
    ensures
        unit is None <==> extent == 0,
        unit matches Some(u) ==> u == normalized(pixel as int, extent as int),
        on_axis(pixel as int, extent as int) ==> (unit matches Some(u) && is_place_of(
            u as int,
            pixel as int,
            extent as int,
        )),
{
    if extent == 0 {
        return None;
    }
    let product: u64 = (pixel as u64).wrapping_mul(UNITS);
    let quotient: u64 = product / extent;
    let cut: i32 = #[verifier::truncate] (quotient as i32);
    proof {
        assert(cut == wrap_i32(quotient as int)) by (bit_vector)
            requires
                cut == quotient as i32,
        ;
        if on_axis(pixel as int, extent as int) {
            lemma_normalized_on_axis(pixel as int, extent as int);
        }
    }
    Some(cut)
}

/// A normalized coordinate fits in 32 signed bits, whatever the pixel and
/// the extent.
pub proof fn lemma_normalized_fits(pixel: int, extent: int)
    ensures
        i32::MIN <= normalized(pixel, extent) <= i32::MAX,
{
}

/// A pixel on the axis lands on the axis: nothing wraps, the normalized
/// coordinate is the floor of `pixel * UNITS / extent`, and it is the place
/// of the pixel.
pub proof fn lemma_normalized_on_axis(pixel: int, extent: int)
    requires
        on_axis(pixel, extent),
    ensures
        normalized(pixel, extent) == (pixel * UNITS) / extent,
        is_place_of(normalized(pixel, extent), pixel, extent),
{
    let scaled = pixel * UNITS;
    let q = scaled / extent;
    assert(0 <= q < 0x1_0000 && q * extent <= scaled < (q + 1) * extent) by (nonlinear_arith)
        requires
            0 <= pixel < extent,
            scaled == pixel * 0x1_0000,
            q == scaled / extent,
    ;
}

/// The place of a pixel is unique: no two units are within one unit below
/// the same ratio.
pub proof fn lemma_place_is_unique(first: int, second: int, pixel: int, extent: int)
    requires
        is_place_of(first, pixel, extent),
        is_place_of(second, pixel, extent),
    ensures
        first == second,
{
    let scaled = pixel * UNITS;
    assert(first == second) by (nonlinear_arith)
        requires
            first * extent <= scaled < (first + 1) * extent,
            second * extent <= scaled < (second + 1) * extent,
    ;
}

/// The first pixel of an axis is its first unit.
pub proof fn lemma_normalized_origin(extent: int)
    requires
        0 < extent,
    ensures
        normalized(0, extent) == 0,
{
    assert(0int / extent == 0) by (nonlinear_arith)
        requires
            0 < extent,
    ;
}

/// Scaling keeps the order of the pixels on an axis.
pub proof fn lemma_normalized_monotonic(near: int, far: int, extent: int)
    requires
        near <= far,
        on_axis(near, extent),
        on_axis(far, extent),
    ensures
        normalized(near, extent) <= normalized(far, extent),
{
    lemma_normalized_on_axis(near, extent);
    lemma_normalized_on_axis(far, extent);
    let a = near * UNITS;
    let b = far * UNITS;
    assert(a / extent <= b / extent) by (nonlinear_arith)
        requires
            0 <= a <= b,
            0 < extent,
    ;
}

} // verus!
