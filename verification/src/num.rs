use vstd::prelude::*;

verus! {

// Numbers are IEEE-754 binary64 values, carried as their 64 bit patterns.
// Rounding arithmetic on them is done by the rustc_apfloat software
// implementation behind the trusted wrappers below; the sign-only operations
// (negation, absolute value, the test against zero) are pure bit operations
// and are implemented and verified here.

/// Bit pattern of 1.0.
pub const ONE_BITS: u64 = 0x3FF0_0000_0000_0000;

/// The sign bit.
pub const SIGN_MASK: u64 = 0x8000_0000_0000_0000;

/// Everything but the sign bit: exponent and fraction.
pub const MAGNITUDE_MASK: u64 = 0x7FFF_FFFF_FFFF_FFFF;

/// The 52 fraction bits.
pub const FRACTION_MASK: u64 = 0x000F_FFFF_FFFF_FFFF;

/// The implicit leading significand bit of a normal number.
pub const IMPLICIT_BIT: u64 = 0x0010_0000_0000_0000;

/// The biased exponent of a normal number, after masking and shifting.
pub const EXPONENT_BIAS: u64 = 1023;

/// `a` compares below `b`.
pub const CMP_LESS: u8 = 0;

/// `a` and `b` compare equal.
pub const CMP_EQUAL: u8 = 1;

/// `a` compares above `b`.
pub const CMP_GREATER: u8 = 2;

/// `a` and `b` do not compare: at least one is a NaN.
pub const CMP_UNORDERED: u8 = 3;

/// The double, if any, that a decimal literal denotes, by correctly rounded
/// decimal-to-binary64 conversion.  Left uninterpreted: it is the value that
/// `num_from_decimal` returns, a function of the text alone.
pub uninterp spec fn double_of_decimal(s: Seq<char>) -> Option<u64>;

/// IEEE-754 binary64 addition, round to nearest even, on bit patterns.
pub uninterp spec fn add_bits(a: u64, b: u64) -> u64;

/// IEEE-754 binary64 subtraction, round to nearest even, on bit patterns.
pub uninterp spec fn sub_bits(a: u64, b: u64) -> u64;

/// IEEE-754 binary64 multiplication, round to nearest even, on bit patterns.
pub uninterp spec fn mul_bits(a: u64, b: u64) -> u64;

/// IEEE-754 binary64 division, round to nearest even, on bit patterns.
pub uninterp spec fn div_bits(a: u64, b: u64) -> u64;

/// The IEEE-754 comparison of two binary64 bit patterns, as one of the four
/// `CMP_*` codes.
pub uninterp spec fn cmp_code(a: u64, b: u64) -> u8;

/// Relies on rustc_apfloat: `ieee::Double` implements `FromStr` by correctly
/// rounded decimal-to-binary64 conversion (`from_decimal_string`), a
/// deterministic function of the text alone; malformed text gives `Err`,
/// never a panic.
#[verifier::external_body]
pub(crate) fn num_from_decimal(s: &str) -> (r: Option<u64>)
    ensures
        r == double_of_decimal(s@),
{
    match <rustc_apfloat::ieee::Double as core::str::FromStr>::from_str(s) {
        Ok(d) => Some(rustc_apfloat::Float::to_bits(d) as u64),
        Err(_) => None,
    }
}

/// Relies on rustc_apfloat: `ieee::Double`'s `Add` is IEEE binary64 addition
/// rounded to nearest even, total on all bit patterns.
#[verifier::external_body]
pub(crate) fn num_add(a: u64, b: u64) -> (r: u64)
    ensures
        r == add_bits(a, b),
{
    let x: rustc_apfloat::ieee::Double = rustc_apfloat::Float::from_bits(a as u128);
    let y: rustc_apfloat::ieee::Double = rustc_apfloat::Float::from_bits(b as u128);
    rustc_apfloat::Float::to_bits((x + y).value) as u64
}

/// Relies on rustc_apfloat: `ieee::Double`'s `Sub` is IEEE binary64
/// subtraction rounded to nearest even, total on all bit patterns.
#[verifier::external_body]
pub(crate) fn num_sub(a: u64, b: u64) -> (r: u64)
    ensures
        r == sub_bits(a, b),
{
    let x: rustc_apfloat::ieee::Double = rustc_apfloat::Float::from_bits(a as u128);
    let y: rustc_apfloat::ieee::Double = rustc_apfloat::Float::from_bits(b as u128);
    rustc_apfloat::Float::to_bits((x - y).value) as u64
}

/// Relies on rustc_apfloat: `ieee::Double`'s `Mul` is IEEE binary64
/// multiplication rounded to nearest even, total on all bit patterns.
#[verifier::external_body]
pub(crate) fn num_mul(a: u64, b: u64) -> (r: u64)
    ensures
        r == mul_bits(a, b),
{
    let x: rustc_apfloat::ieee::Double = rustc_apfloat::Float::from_bits(a as u128);
    let y: rustc_apfloat::ieee::Double = rustc_apfloat::Float::from_bits(b as u128);
    rustc_apfloat::Float::to_bits((x * y).value) as u64
}

/// Relies on rustc_apfloat: `ieee::Double`'s `Div` is IEEE binary64 division
/// rounded to nearest even, total on all bit patterns (x/0 is an infinity or
/// NaN, not a fault).
#[verifier::external_body]
pub(crate) fn num_div(a: u64, b: u64) -> (r: u64)
    ensures
        r == div_bits(a, b),
{
    let x: rustc_apfloat::ieee::Double = rustc_apfloat::Float::from_bits(a as u128);
    let y: rustc_apfloat::ieee::Double = rustc_apfloat::Float::from_bits(b as u128);
    rustc_apfloat::Float::to_bits((x / y).value) as u64
}

/// Relies on rustc_apfloat: `ieee::Double`'s `PartialOrd` is the IEEE
/// comparison (NaN compares with nothing); each variant of the outcome is
/// mapped to its `CMP_*` code.
#[verifier::external_body]
pub(crate) fn num_cmp(a: u64, b: u64) -> (r: u8)
    ensures
        r == cmp_code(a, b),
{
    let x: rustc_apfloat::ieee::Double = rustc_apfloat::Float::from_bits(a as u128);
    let y: rustc_apfloat::ieee::Double = rustc_apfloat::Float::from_bits(b as u128);
    match x.partial_cmp(&y) {
        Some(core::cmp::Ordering::Less) => 0,
        Some(core::cmp::Ordering::Equal) => 1,
        Some(core::cmp::Ordering::Greater) => 2,
        None => 3,
    }
}

/// IEEE-754 negation: the sign bit flips, nothing else changes.
pub open spec fn spec_neg_bits(a: u64) -> u64 {
    a ^ SIGN_MASK
}

/// IEEE-754 absolute value: the sign bit clears, nothing else changes.
pub open spec fn spec_abs_bits(a: u64) -> u64 {
    a & MAGNITUDE_MASK
}

/// A bit pattern is a zero exactly when everything but the sign is clear
/// (+0.0 and -0.0 both compare equal to zero).
pub open spec fn spec_is_zero(a: u64) -> bool {
    a & MAGNITUDE_MASK == 0
}

pub(crate) fn num_neg(a: u64) -> (r: u64)
    ensures
        r == spec_neg_bits(a),
{
    a ^ SIGN_MASK
}

pub(crate) fn num_abs(a: u64) -> (r: u64)
    ensures
        r == spec_abs_bits(a),
{
    a & MAGNITUDE_MASK
}

pub(crate) fn num_is_zero(a: u64) -> (r: bool)
    ensures
        r == spec_is_zero(a),
{
    a & MAGNITUDE_MASK == 0
}

/// The larger of two doubles: the second when it compares strictly above the
/// first, otherwise the first (so the first survives an unordered compare).
pub open spec fn spec_max_bits(a: u64, b: u64) -> u64 {
    if cmp_code(a, b) == CMP_LESS {
        b
    } else {
        a
    }
}

/// The smaller of two doubles: the second when it compares strictly below
/// the first, otherwise the first.
pub open spec fn spec_min_bits(a: u64, b: u64) -> u64 {
    if cmp_code(a, b) == CMP_GREATER {
        b
    } else {
        a
    }
}

pub(crate) fn num_max(a: u64, b: u64) -> (r: u64)
    ensures
        r == spec_max_bits(a, b),
{
    if num_cmp(a, b) == CMP_LESS {
        b
    } else {
        a
    }
}

pub(crate) fn num_min(a: u64, b: u64) -> (r: u64)
    ensures
        r == spec_min_bits(a, b),
{
    if num_cmp(a, b) == CMP_GREATER {
        b
    } else {
        a
    }
}

/// The integer a double denotes, if it denotes one whose magnitude fits in
/// 63 bits: the sign and the magnitude, read from the exponent and fraction
/// fields.  `None` for infinities, NaNs, non-integers and huge integers.
pub open spec fn spec_exact_int(e: u64) -> Option<(bool, u64)> {
    let negative = (e & SIGN_MASK) != 0;
    let biased = (e >> 52) & 0x7FF;
    let frac = e & FRACTION_MASK;
    if e & MAGNITUDE_MASK == 0 {
        Some((false, 0))
    } else if biased == 0x7FF {
        None
    } else if biased < EXPONENT_BIAS {
        None
    } else {
        let shift = (biased - EXPONENT_BIAS) as u64;
        if shift >= 63 {
            None
        } else if shift >= 52 {
            Some((negative, (IMPLICIT_BIT | frac) << (shift - 52) as u64))
        } else {
            let low = (52 - shift) as u64;
            if frac & (((1u64 << low) - 1) as u64) == 0 {
                Some((negative, (IMPLICIT_BIT | frac) >> low))
            } else {
                None
            }
        }
    }
}

pub(crate) fn num_exact_int(e: u64) -> (r: Option<(bool, u64)>)
    ensures
        r == spec_exact_int(e),
{
    let negative = (e & SIGN_MASK) != 0;
    let biased = (e >> 52) & 0x7FF;
    let frac = e & FRACTION_MASK;
    if e & MAGNITUDE_MASK == 0 {
        Some((false, 0))
    } else if biased == 0x7FF {
        None
    } else if biased < EXPONENT_BIAS {
        None
    } else {
        let shift: u64 = biased - EXPONENT_BIAS;
        if shift >= 63 {
            None
        } else if shift >= 52 {
            Some((negative, (IMPLICIT_BIT | frac) << (shift - 52)))
        } else {
            let low: u64 = 52 - shift;
            proof {
                assert(1u64 << low >= 1) by (bit_vector)
                    requires
                        low <= 52u64,
                ;
            }
            if frac & ((1u64 << low) - 1) == 0 {
                Some((negative, (IMPLICIT_BIT | frac) >> low))
            } else {
                None
            }
        }
    }
}

/// Exponentiation by squaring over rounded multiplication: `b` raised to the
/// natural number `n`, with `x^0 == 1.0`.
pub open spec fn powi_bits(b: u64, n: nat) -> u64
    decreases n,
{
    if n == 0 {
        ONE_BITS
    } else {
        let t = powi_bits(mul_bits(b, b), n / 2);
        if n % 2 == 1 {
            mul_bits(t, b)
        } else {
            t
        }
    }
}

pub(crate) fn num_powi(b: u64, n: u64) -> (r: u64)
    ensures
        r == powi_bits(b, n as nat),
    decreases n,
{
    if n == 0 {
        ONE_BITS
    } else {
        let t = num_powi(num_mul(b, b), n / 2);
        if n % 2 == 1 {
            num_mul(t, b)
        } else {
            t
        }
    }
}

} // verus!
