use vstd::prelude::*;

use crate::error::{invalid_data, ChartResult};
use crate::float_bits::{bits_finite_non_negative, bits_finite_positive, finite_non_negative, finite_positive, F64Bits};
use crate::validation::checked_result;

verus! {

/// Tuning controls for visible time range fitting; all encoded `f64`.
#[derive(Debug, Clone, Copy, PartialEq, Eq, Structural)]
pub struct TimeScaleTuning {
    pub left_padding_ratio: F64Bits,
    pub right_padding_ratio: F64Bits,
    pub min_span_absolute: F64Bits,
}

impl Default for TimeScaleTuning {
    fn default() -> (r: TimeScaleTuning)
        ensures
            r.left_padding_ratio == 0x3fa9_9999_9999_999a_u64,
            r.right_padding_ratio == 0x3fa9_9999_9999_999a_u64,
            r.min_span_absolute == 0x3ff0_0000_0000_0000_u64,
    {
        TimeScaleTuning {
            left_padding_ratio: 0x3fa9_9999_9999_999a,  // 0.05
            right_padding_ratio: 0x3fa9_9999_9999_999a,  // 0.05
            min_span_absolute: 0x3ff0_0000_0000_0000,  // 1.0
        }
    }
}

/// The first failing check of a time-scale tuning: finite non-negative paddings, then a
/// finite positive minimum span.
pub open spec fn time_scale_tuning_error(t: TimeScaleTuning) -> Option<Seq<char>> {
    if !(finite_non_negative(t.left_padding_ratio) && finite_non_negative(t.right_padding_ratio)) {
        Some("time scale padding ratios must be finite and >= 0"@)
    } else if !finite_positive(t.min_span_absolute) {
        Some("time scale min span must be finite and > 0"@)
    } else {
        None
    }
}

impl TimeScaleTuning {
    /// The tuning itself when its paddings and minimum span are usable.
    pub fn validate(self) -> (r: ChartResult<TimeScaleTuning>)
        ensures
            checked_result(r, time_scale_tuning_error(self), self),
    {
        if !bits_finite_non_negative(self.left_padding_ratio) || !bits_finite_non_negative(
            self.right_padding_ratio,
        ) {
            return Err(invalid_data("time scale padding ratios must be finite and >= 0"));
        }
        if !bits_finite_positive(self.min_span_absolute) {
            return Err(invalid_data("time scale min span must be finite and > 0"));
        }
        Ok(self)
    }
}

/// Tuning controls for price-domain autoscaling; all encoded `f64`.
#[derive(Debug, Clone, Copy, PartialEq, Eq, Structural)]
pub struct PriceScaleTuning {
    pub top_padding_ratio: F64Bits,
    pub bottom_padding_ratio: F64Bits,
    pub min_span_absolute: F64Bits,
}

impl Default for PriceScaleTuning {
    fn default() -> (r: PriceScaleTuning)
        ensures
            r.top_padding_ratio == 0x3fb9_9999_9999_999a_u64,
            r.bottom_padding_ratio == 0x3fb9_9999_9999_999a_u64,
            r.min_span_absolute == 0x3eb0_c6f7_a0b5_ed8d_u64,
    {
        PriceScaleTuning {
            top_padding_ratio: 0x3fb9_9999_9999_999a,  // 0.10
            bottom_padding_ratio: 0x3fb9_9999_9999_999a,  // 0.10
            min_span_absolute: 0x3eb0_c6f7_a0b5_ed8d,  // 0.000_001
        }
    }
}

/// The first failing check of a price-scale tuning: finite non-negative paddings, then a
/// finite positive minimum span.
pub open spec fn price_scale_tuning_error(t: PriceScaleTuning) -> Option<Seq<char>> {
    if !(finite_non_negative(t.top_padding_ratio) && finite_non_negative(t.bottom_padding_ratio)) {
        Some("price scale padding ratios must be finite and >= 0"@)
    } else if !finite_positive(t.min_span_absolute) {
        Some("price scale min span must be finite and > 0"@)
    } else {
        None
    }
}

impl PriceScaleTuning {
    /// The tuning itself when its paddings and minimum span are usable.
    pub fn validate(self) -> (r: ChartResult<PriceScaleTuning>)
        ensures
            checked_result(r, price_scale_tuning_error(self), self),
    {
        if !bits_finite_non_negative(self.top_padding_ratio) || !bits_finite_non_negative(
            self.bottom_padding_ratio,
        ) {
            return Err(invalid_data("price scale padding ratios must be finite and >= 0"));
        }
        if !bits_finite_positive(self.min_span_absolute) {
            return Err(invalid_data("price scale min span must be finite and > 0"));
        }
        Ok(self)
    }
}

} // verus!
