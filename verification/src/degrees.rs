//! Normalization of angles given in hundredths of a degree.
//!
//! All angles the game keeps are normalized to the half-open circle
//! (-180, 180] degrees, i.e. (-18000, 18000] in hundredths.

use crate::models::cdeg_normalized;
use crate::ranges::{normalize_by_circular_range, normalize_by_circular_range_spec};
use vstd::prelude::*;

verus! {

/// Hundredths of a degree in a full circle.
pub const FULL_CIRCLE_CDEG: i64 = 36000;

/// Hundredths of a degree in a half circle.
pub const HALF_CIRCLE_CDEG: i64 = 18000;

/// The representative of `a` on the circle, in (-18000, 18000] hundredths
/// of a degree.  Wrapping the half-open range [-17999, 18001) keeps whole
/// hundredths in (-18000, 18000]: its width is a full circle and, on
/// integers, [-17999, 18001) and (-18000, 18000] hold the same values.
pub open spec fn normalize_degrees_spec(a: int) -> int {
    normalize_by_circular_range_spec(a, -17999, 18001)
}

/// Normalizes an angle in hundredths of a degree to (-180, 180] degrees.
/// The result differs from the input by a whole number of full circles.
pub fn normalize_degrees(a: i64) -> (r: i64)
    ensures
        r == normalize_degrees_spec(a as int),
        cdeg_normalized(r),
        (a - r) % (FULL_CIRCLE_CDEG as int) == 0,
{
    normalize_by_circular_range(a, -17999, 18001)
}

/// An angle already in (-180, 180] degrees is left unchanged by the
/// normalization.
pub proof fn lemma_normalize_degrees_fixed_point(a: int)
    ensures
        -18000 < a <= 18000 ==> normalize_degrees_spec(a) == a,
{
    if -18000 < a <= 18000 {
        vstd::arithmetic::div_mod::lemma_small_mod((a + 17999) as nat, 36000nat);
    }
}

} // verus!
