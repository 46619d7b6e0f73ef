use vstd::prelude::*;

use crate::error::{invalid_data, is_invalid_data, ChartResult};
use crate::float_bits::{bits_finite_positive, finite_positive, F64Bits};

verus! {

/// The encoding of `1 - 2^-52`, the lowest value within one machine epsilon of `1.0`.
pub const UNIT_LOWER_BITS: F64Bits = 0x3fef_ffff_ffff_fffe;

/// The encoding of `1 + 2^-52`, the highest value within one machine epsilon of `1.0`.
pub const UNIT_UPPER_BITS: F64Bits = 0x3ff0_0000_0000_0001;

/// The value lies within one machine epsilon of `1.0`: `|x - 1| <= f64::EPSILON`, which for
/// the encodings means lying between those of `1 - 2^-52` and `1 + 2^-52`.
pub open spec fn within_epsilon_of_one(b: F64Bits) -> bool {
    UNIT_LOWER_BITS <= b <= UNIT_UPPER_BITS
}

/// The zoom factor of a pinch gesture: an error unless the factor is finite and positive,
/// `None` when it is within one machine epsilon of `1.0` (no zoom), and the factor otherwise.
pub fn resolve_pinch_zoom_factor(pinch_scale_factor: F64Bits) -> (r: ChartResult<Option<F64Bits>>)
    ensures
        !finite_positive(pinch_scale_factor) ==> is_invalid_data(
            r,
            "pinch zoom factor must be finite and > 0"@,
        ),
        finite_positive(pinch_scale_factor) && within_epsilon_of_one(pinch_scale_factor) ==> r
            == Ok::<Option<F64Bits>, crate::error::ChartError>(None),
        finite_positive(pinch_scale_factor) && !within_epsilon_of_one(pinch_scale_factor) ==> r
            == Ok::<Option<F64Bits>, crate::error::ChartError>(Some(pinch_scale_factor)),
{
    if !bits_finite_positive(pinch_scale_factor) {
        return Err(invalid_data("pinch zoom factor must be finite and > 0"));
    }
    if UNIT_LOWER_BITS <= pinch_scale_factor && pinch_scale_factor <= UNIT_UPPER_BITS {
        return Ok(None);
    }
    Ok(Some(pinch_scale_factor))
}

} // verus!
