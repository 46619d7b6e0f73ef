use vstd::prelude::*;

verus! {

/// The IEEE-754 binary64 encoding of a floating-point value, as produced by `f64::to_bits`.
///
/// The library keeps floating-point quantities in this encoded form; classifying and
/// comparing them is integer logic over the sign, exponent and mantissa fields.
pub type F64Bits = u64;

/// 2^52: the weight of the lowest exponent bit.
pub open spec fn mantissa_base() -> int {
    0x10_0000_0000_0000
}

/// 2^63: the weight of the sign bit.
pub open spec fn sign_base() -> int {
    0x8000_0000_0000_0000
}

/// The biased exponent field.
pub open spec fn exponent_field(b: F64Bits) -> int {
    (b as int / mantissa_base()) % 0x800
}

/// The mantissa (fraction) field.
pub open spec fn mantissa_field(b: F64Bits) -> int {
    b as int % mantissa_base()
}

/// The sign bit is set.
pub open spec fn sign_set(b: F64Bits) -> bool {
    b as int >= sign_base()
}

/// The encoding without its sign bit.
pub open spec fn magnitude(b: F64Bits) -> int {
    b as int % sign_base()
}

/// The value is neither infinite nor NaN.
pub open spec fn is_finite(b: F64Bits) -> bool {
    exponent_field(b) != 0x7ff
}

/// The value is NaN.
pub open spec fn is_nan(b: F64Bits) -> bool {
    exponent_field(b) == 0x7ff && mantissa_field(b) != 0
}

/// The value is `+0.0` or `-0.0`.
pub open spec fn is_zero(b: F64Bits) -> bool {
    magnitude(b) == 0
}

/// The value compares `> 0.0`.
pub open spec fn gt_zero(b: F64Bits) -> bool {
    !sign_set(b) && !is_nan(b) && !is_zero(b)
}

/// The value compares `< 0.0`.
pub open spec fn lt_zero(b: F64Bits) -> bool {
    sign_set(b) && !is_nan(b) && !is_zero(b)
}

/// The values compare `a < b` under IEEE-754 ordering.
pub open spec fn lt(a: F64Bits, b: F64Bits) -> bool {
    &&& !is_nan(a)
    &&& !is_nan(b)
    &&& if !sign_set(a) && !sign_set(b) {
        magnitude(a) < magnitude(b)
    } else if sign_set(a) && sign_set(b) {
        magnitude(b) < magnitude(a)
    } else if sign_set(a) {
        !(is_zero(a) && is_zero(b))
    } else {
        false
    }
}

/// The values compare `a == b` under IEEE-754 equality.
pub open spec fn eq(a: F64Bits, b: F64Bits) -> bool {
    !is_nan(a) && !is_nan(b) && (a == b || (is_zero(a) && is_zero(b)))
}

/// `f64::is_finite` on the encoded value.
pub fn bits_is_finite(b: F64Bits) -> (r: bool)
    ensures
        r == is_finite(b),
{
    (b / 0x10_0000_0000_0000) % 0x800 != 0x7ff
}

/// `f64::is_nan` on the encoded value.
pub fn bits_is_nan(b: F64Bits) -> (r: bool)
    ensures
        r == is_nan(b),
{
    (b / 0x10_0000_0000_0000) % 0x800 == 0x7ff && b % 0x10_0000_0000_0000 != 0
}

/// `x == 0.0` on the encoded value.
pub fn bits_is_zero(b: F64Bits) -> (r: bool)
    ensures
        r == is_zero(b),
{
    b % 0x8000_0000_0000_0000 == 0
}

/// `x > 0.0` on the encoded value.
pub fn bits_gt_zero(b: F64Bits) -> (r: bool)
    ensures
        r == gt_zero(b),
{
    b < 0x8000_0000_0000_0000 && !bits_is_nan(b) && !bits_is_zero(b)
}

/// `x < 0.0` on the encoded value.
pub fn bits_lt_zero(b: F64Bits) -> (r: bool)
    ensures
        r == lt_zero(b),
{
    b >= 0x8000_0000_0000_0000 && !bits_is_nan(b) && !bits_is_zero(b)
}

/// `a < b` on the encoded values.
pub fn bits_lt(a: F64Bits, b: F64Bits) -> (r: bool)
    ensures
        r == lt(a, b),
{
    if bits_is_nan(a) || bits_is_nan(b) {
        return false;
    }
    let a_neg = a >= 0x8000_0000_0000_0000;
    let b_neg = b >= 0x8000_0000_0000_0000;
    let ma = a % 0x8000_0000_0000_0000;
    let mb = b % 0x8000_0000_0000_0000;
    if !a_neg && !b_neg {
        ma < mb
    } else if a_neg && b_neg {
        mb < ma
    } else if a_neg {
        !(ma == 0 && mb == 0)
    } else {
        false
    }
}

/// `a == b` on the encoded values.
pub fn bits_eq(a: F64Bits, b: F64Bits) -> (r: bool)
    ensures
        r == eq(a, b),
{
    !bits_is_nan(a) && !bits_is_nan(b) && (a == b || (bits_is_zero(a) && bits_is_zero(b)))
}

/// The value is finite and `> 0.0`.
pub open spec fn finite_positive(b: F64Bits) -> bool {
    is_finite(b) && gt_zero(b)
}

/// The value is finite and not `< 0.0`.
pub open spec fn finite_non_negative(b: F64Bits) -> bool {
    is_finite(b) && !lt_zero(b)
}

/// `x.is_finite() && x > 0.0` on the encoded value.
pub fn bits_finite_positive(b: F64Bits) -> (r: bool)
    ensures
        r == finite_positive(b),
{
    bits_is_finite(b) && bits_gt_zero(b)
}

/// `x.is_finite() && x >= 0.0` on the encoded value.
pub fn bits_finite_non_negative(b: F64Bits) -> (r: bool)
    ensures
        r == finite_non_negative(b),
{
    bits_is_finite(b) && !bits_lt_zero(b)
}

/// Two optional values are both absent, or both present and equal as `f64` values.
pub open spec fn opt_bits_eq(a: Option<F64Bits>, b: Option<F64Bits>) -> bool {
    match (a, b) {
        (Some(x), Some(y)) => eq(x, y),
        (None, None) => true,
        _ => false,
    }
}

/// `==` on two optional encoded values.
pub fn opt_bits_equal(a: Option<F64Bits>, b: Option<F64Bits>) -> (r: bool)
    ensures
        r == opt_bits_eq(a, b),
{
    match (a, b) {
        (Some(x), Some(y)) => bits_eq(x, y),
        (None, None) => true,
        _ => false,
    }
}

/// An optional value is absent, or finite and `> 0.0`.
pub open spec fn opt_finite_positive(b: Option<F64Bits>) -> bool {
    b matches Some(x) ==> finite_positive(x)
}

/// An optional encoded value is absent, or finite and `> 0.0`.
pub fn opt_bits_finite_positive(b: Option<F64Bits>) -> (r: bool)
    ensures
        r == opt_finite_positive(b),
{
    match b {
        Some(x) => bits_finite_positive(x),
        None => true,
    }
}

/// The values compare `a <= b` under IEEE-754 ordering.
pub open spec fn le(a: F64Bits, b: F64Bits) -> bool {
    lt(a, b) || eq(a, b)
}

/// `a <= b` on the encoded values.
pub fn bits_le(a: F64Bits, b: F64Bits) -> (r: bool)
    ensures
        r == le(a, b),
{
    bits_lt(a, b) || bits_eq(a, b)
}

/// The encoded value is exactly the integer `v`: `+0.0` for zero, and otherwise a finite
/// normal value whose sign is that of `v` and whose magnitude `(2^52 + mantissa) *
/// 2^(exponent - 1075)` equals `|v|`.
pub open spec fn encodes_integer(b: F64Bits, v: int) -> bool {
    if v == 0 {
        b == 0
    } else {
        let e = exponent_field(b);
        let significand = mantissa_base() + mantissa_field(b);
        let abs_v = if v < 0 {
            -v
        } else {
            v
        };
        &&& sign_set(b) == (v < 0)
        &&& 1 <= e < 0x7ff
        &&& if e >= 1075 {
            significand * vstd::arithmetic::power2::pow2((e - 1075) as nat) == abs_v
        } else {
            significand == abs_v * vstd::arithmetic::power2::pow2((1075 - e) as nat)
        }
    }
}

/// No encoded value is below itself.
pub proof fn lemma_lt_irreflexive(a: F64Bits)
    ensures
        !lt(a, a),
{
}

/// The IEEE-754 order is transitive.
pub proof fn lemma_lt_transitive(a: F64Bits, b: F64Bits, c: F64Bits)
    requires
        lt(a, b),
        lt(b, c),
    ensures
        lt(a, c),
{
}

/// Exactly one of `a < b`, `a == b`, `b < a` holds for values that are not NaN.
pub proof fn lemma_lt_trichotomy(a: F64Bits, b: F64Bits)
    requires
        !is_nan(a),
        !is_nan(b),
    ensures
        (lt(a, b) as int) + (eq(a, b) as int) + (lt(b, a) as int) == 1,
{
}

} // verus!
