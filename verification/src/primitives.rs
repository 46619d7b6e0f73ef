use vstd::prelude::*;
use vstd::string::StringExecFns;

use rust_decimal::prelude::ToPrimitive;
use rust_decimal::Decimal;

use crate::error::{ChartError, ChartResult};
use crate::float_bits::{encodes_integer, is_finite, is_zero, sign_set, F64Bits};

verus! {

/// The largest mantissa magnitude a `rust_decimal::Decimal` holds: `2^96 - 1`.
pub const DECIMAL_MAX_MANTISSA: i128 = 0xffff_ffff_ffff_ffff_ffff_ffff;

/// The largest scale a `rust_decimal::Decimal` holds.
pub const DECIMAL_MAX_SCALE: u32 = 28;

/// The integer that the decimal `mantissa / 10^scale` equals, when it is one.
pub open spec fn decimal_integer_value(mantissa: i128, scale: u32) -> Option<int> {
    let unit = vstd::arithmetic::power::pow(10, scale as nat);
    if (mantissa as int) % unit == 0 {
        Some((mantissa as int) / unit)
    } else {
        None
    }
}

/// The decimal is a whole number of magnitude at most `2^53`, which an `f64` holds exactly.
pub open spec fn decimal_is_small_integer(mantissa: i128, scale: u32) -> bool {
    decimal_integer_value(mantissa, scale) matches Some(v) && -0x20_0000_0000_0000 <= v
        <= 0x20_0000_0000_0000
}

/// The encoded value is exactly the whole decimal `mantissa / 10^scale`.
pub open spec fn encodes_decimal(b: F64Bits, mantissa: i128, scale: u32) -> bool {
    decimal_integer_value(mantissa, scale) matches Some(v) && encodes_integer(b, v)
}

/// `Decimal::from_i128_with_scale(mantissa, scale).to_f64()`, encoded.
///
/// `rust_decimal`'s `to_f64` on a `Decimal` is `Some(self.as_f64())`. `as_f64` gives `+0.0`
/// for zero, a finite non-zero value with the decimal's sign otherwise, and for a whole decimal the
/// integer converted with `as` (exact up to `2^53`). The bits of a fractional decimal are left
/// unsaid: `as_f64` rounds them through `f64::powi`, whose precision std does not fix. The
/// parts must be those of a `Decimal`, else `from_i128_with_scale` panics.
#[verifier::external_body]
fn decimal_to_f64_bits(mantissa: i128, scale: u32) -> (r: Option<u64>)
    requires
        scale <= DECIMAL_MAX_SCALE,
        -DECIMAL_MAX_MANTISSA <= mantissa <= DECIMAL_MAX_MANTISSA,
    ensures
        r is Some,
        r matches Some(b) ==> is_finite(b),
        mantissa == 0 ==> r == Some(0u64),
        mantissa != 0 ==> r is Some && !is_zero(r->Some_0),
        mantissa > 0 ==> r is Some && !sign_set(r->Some_0),
        mantissa < 0 ==> r is Some && sign_set(r->Some_0),
        decimal_is_small_integer(mantissa, scale) ==> r is Some && encodes_decimal(r->Some_0, mantissa, scale),
{
    Decimal::from_i128_with_scale(mantissa, scale).to_f64().map(|value| value.to_bits())
}

/// The outcome of a decimal conversion: the value, or an error naming the field when the
/// decimal has no `f64` form.
pub fn decimal_conversion_result(converted: Option<F64Bits>, field_name: &str) -> (r: ChartResult<
    F64Bits,
>)
    ensures
        converted matches Some(v) ==> r == Ok::<F64Bits, ChartError>(v),
        converted is None ==> (r matches Err(ChartError::InvalidData(m)) && m@ == field_name@
            + " cannot be represented as f64"@),
{
    match converted {
        Some(v) => Ok(v),
        None => {
            let mut text = String::from_str(field_name);
            text.append(" cannot be represented as f64");
            Err(ChartError::InvalidData(text))
        },
    }
}

/// Converts the decimal `mantissa / 10^scale` (the parts of a `rust_decimal::Decimal`) to an
/// encoded `f64` with `rust_decimal`'s conversion, which always succeeds: `+0.0` for zero, a
/// finite non-zero value with the decimal's sign otherwise, and the exact integer for a whole decimal of at most
/// `2^53` in magnitude.
pub fn decimal_to_f64(mantissa: i128, scale: u32, field_name: &str) -> (r: ChartResult<F64Bits>)
    requires
        scale <= DECIMAL_MAX_SCALE,
        -DECIMAL_MAX_MANTISSA <= mantissa <= DECIMAL_MAX_MANTISSA,
    ensures
        r is Ok,
        r matches Ok(b) ==> is_finite(b),
        mantissa == 0 ==> r == Ok::<F64Bits, ChartError>(0),
        mantissa != 0 ==> r is Ok && !is_zero(r->Ok_0),
        mantissa > 0 ==> r is Ok && !sign_set(r->Ok_0),
        mantissa < 0 ==> r is Ok && sign_set(r->Ok_0),
        decimal_is_small_integer(mantissa, scale) ==> r is Ok && encodes_decimal(r->Ok_0, mantissa, scale),
{
    let converted = decimal_to_f64_bits(mantissa, scale);
    decimal_conversion_result(converted, field_name)
}

} // verus!
