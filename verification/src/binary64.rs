//! The IEEE 754 binary64 interchange format, read from its 64-bit encoding.
//!
//! An encoding has a sign bit, an 11-bit biased exponent and a 52-bit
//! fraction. This module says which value an encoding denotes and decides,
//! on encodings alone, the comparison for equality that the standard defines.

use vstd::arithmetic::power2::{
    lemma2_to64, lemma_pow2_pos, lemma_pow2_strictly_increases, lemma_pow2_unfold, pow2,
};
use vstd::prelude::*;

verus! {

/// Every bit but the sign.
pub const MAGNITUDE_MASK: u64 = 0x7FFF_FFFF_FFFF_FFFF;

/// The encoding of positive infinity: exponent all ones, fraction zero.
pub const INFINITY_BITS: u64 = 0x7FF0_0000_0000_0000;

/// The encoding of the number one.
pub const ONE_BITS: u64 = 0x3FF0_0000_0000_0000;

/// The encoding of positive zero.
pub const ZERO_BITS: u64 = 0;

/// The sign bit of an encoding: 1 for negative.
pub open spec fn sign_field(bits: u64) -> nat {
    (bits / 0x8000_0000_0000_0000) as nat
}

/// The biased exponent of an encoding, below 2048.
pub open spec fn exponent_field(bits: u64) -> nat {
    ((bits / 0x10_0000_0000_0000) % 0x800) as nat
}

/// The fraction of an encoding, below 2^52.
pub open spec fn fraction_field(bits: u64) -> nat {
    (bits % 0x10_0000_0000_0000) as nat
}

/// What an encoding denotes: no number, an infinity, or a finite number.
///
/// A finite number is held exactly, as the integer that counts it in units of
/// the format's smallest positive number, 2^-1074. Zero is the integer 0
/// whichever sign its encoding has.
pub enum Value {
    NotANumber,
    Infinite { negative: bool },
    Finite { units: int },
}

/// The integer significand of an encoding: its fraction, and above it the
/// implicit leading bit unless the exponent field is zero.
pub open spec fn significand(bits: u64) -> nat {
    if exponent_field(bits) == 0 {
        fraction_field(bits)
    } else {
        0x10_0000_0000_0000 + fraction_field(bits)
    }
}

/// The power of two that scales the significand, counted from 2^-1074.
pub open spec fn scale_exponent(bits: u64) -> nat {
    if exponent_field(bits) == 0 {
        0
    } else {
        (exponent_field(bits) - 1) as nat
    }
}

/// The absolute value that a finite encoding denotes, in units of 2^-1074.
pub open spec fn magnitude(bits: u64) -> nat {
    significand(bits) * pow2(scale_exponent(bits))
}

/// The value that `bits` denotes.
pub open spec fn value(bits: u64) -> Value {
    if exponent_field(bits) == 0x7FF {
        if fraction_field(bits) == 0 {
            Value::Infinite { negative: sign_field(bits) == 1 }
        } else {
            Value::NotANumber
        }
    } else if sign_field(bits) == 1 {
        Value::Finite { units: -(magnitude(bits) as int) }
    } else {
        Value::Finite { units: magnitude(bits) as int }
    }
}

/// Whether `bits` denotes no number.
pub open spec fn denotes_nan(bits: u64) -> bool {
    value(bits) is NotANumber
}

/// Whether `bits` denotes zero.
pub open spec fn denotes_zero(bits: u64) -> bool {
    value(bits) == (Value::Finite { units: 0 })
}

/// Equality as the standard compares: both denote a number, and the same one.
pub open spec fn same_number(a: u64, b: u64) -> bool {
    !denotes_nan(a) && value(a) == value(b)
}

/// The fields of an encoding, read off its bits.
pub proof fn lemma_fields(bits: u64)
    ensures
        sign_field(bits) == bits >> 63,
        sign_field(bits) <= 1,
        exponent_field(bits) == (bits >> 52) & 0x7FF,
        exponent_field(bits) < 0x800,
        fraction_field(bits) == bits & 0xF_FFFF_FFFF_FFFF,
        fraction_field(bits) < 0x10_0000_0000_0000,
        bits == sign_field(bits) * 0x8000_0000_0000_0000 + exponent_field(bits)
            * 0x10_0000_0000_0000 + fraction_field(bits),
{
    assert(bits / 0x8000_0000_0000_0000 == bits >> 63) by (bit_vector);
    assert((bits / 0x10_0000_0000_0000) % 0x800 == (bits >> 52) & 0x7FF) by (bit_vector);
    assert(bits % 0x10_0000_0000_0000 == bits & 0xF_FFFF_FFFF_FFFF) by (bit_vector);
}

/// Each exponent field has a range of magnitudes of its own: below 2^52 for
/// the field zero, and from 2^(51+e) up to 2^(52+e) for a field `e` above it.
pub proof fn lemma_magnitude_range(bits: u64)
    ensures
        exponent_field(bits) == 0 ==> magnitude(bits) == fraction_field(bits),
        exponent_field(bits) > 0 ==> magnitude(bits) >= 0x10_0000_0000_0000 * pow2(
            scale_exponent(bits),
        ),
        magnitude(bits) < 0x10_0000_0000_0000 * pow2(exponent_field(bits)),
        magnitude(bits) == 0 <==> exponent_field(bits) == 0 && fraction_field(bits) == 0,
{
    lemma_fields(bits);
    lemma2_to64();
    let e = exponent_field(bits);
    let f = fraction_field(bits) as int;
    if e > 0 {
        let p = pow2(scale_exponent(bits)) as int;
        lemma_pow2_pos(scale_exponent(bits));
        lemma_pow2_unfold(e);
        assert(pow2(e) == 2 * p);
        assert(0x10_0000_0000_0000 * p <= (0x10_0000_0000_0000 + f) * p < 0x10_0000_0000_0000 * (2
            * p)) by (nonlinear_arith)
            requires
                0 <= f < 0x10_0000_0000_0000,
                p > 0,
        ;
        assert(0x10_0000_0000_0000 * p > 0) by (nonlinear_arith)
            requires
                p > 0,
        ;
    } else {
        assert(f * 1 == f) by (nonlinear_arith);
    }
}

/// An encoding with the smaller exponent field denotes the smaller magnitude.
pub proof fn lemma_magnitude_below_next(a: u64, b: u64)
    requires
        exponent_field(a) < exponent_field(b),
    ensures
        magnitude(a) < magnitude(b),
{
    lemma_magnitude_range(a);
    lemma_magnitude_range(b);
    let ea = exponent_field(a);
    let sb = scale_exponent(b);
    if ea < sb {
        lemma_pow2_strictly_increases(ea, sb);
    }
    let pa = pow2(ea) as int;
    let pb = pow2(sb) as int;
    assert(0x10_0000_0000_0000 * pa <= 0x10_0000_0000_0000 * pb) by (nonlinear_arith)
        requires
            pa <= pb,
    ;
}

/// Encodings of one magnitude have the same exponent field and the same
/// fraction: no number has two encodings but for the sign.
pub proof fn lemma_magnitude_injective(a: u64, b: u64)
    requires
        magnitude(a) == magnitude(b),
    ensures
        exponent_field(a) == exponent_field(b),
        fraction_field(a) == fraction_field(b),
{
    lemma_magnitude_range(a);
    lemma_magnitude_range(b);
    let ea = exponent_field(a);
    let eb = exponent_field(b);
    if ea < eb {
        lemma_magnitude_below_next(a, b);
    } else if eb < ea {
        lemma_magnitude_below_next(b, a);
    } else if ea > 0 {
        let p = pow2(scale_exponent(a)) as int;
        let fa = fraction_field(a) as int;
        let fb = fraction_field(b) as int;
        lemma_pow2_pos(scale_exponent(a));
        assert(fa == fb) by (nonlinear_arith)
            requires
                p > 0,
                (0x10_0000_0000_0000 + fa) * p == (0x10_0000_0000_0000 + fb) * p,
        ;
    }
}

/// Two encodings with the same three fields are the same encoding.
pub proof fn lemma_fields_determine_bits(a: u64, b: u64)
    requires
        sign_field(a) == sign_field(b),
        exponent_field(a) == exponent_field(b),
        fraction_field(a) == fraction_field(b),
    ensures
        a == b,
{
    lemma_fields(a);
    lemma_fields(b);
}

/// Which encodings denote no number and which denote zero, said over the
/// bits below the sign.
pub proof fn lemma_nan_and_zero(bits: u64)
    ensures
        denotes_nan(bits) <==> (bits & MAGNITUDE_MASK) > INFINITY_BITS,
        denotes_zero(bits) <==> (bits & MAGNITUDE_MASK) == 0,
{
    lemma_magnitude_range(bits);
    assert(((bits & MAGNITUDE_MASK) > INFINITY_BITS) == ((bits / 0x10_0000_0000_0000) % 0x800
        == 0x7FF && bits % 0x10_0000_0000_0000 != 0)) by (bit_vector);
    assert(((bits & MAGNITUDE_MASK) == 0) == ((bits / 0x10_0000_0000_0000) % 0x800 == 0 && bits
        % 0x10_0000_0000_0000 == 0)) by (bit_vector);
}

/// Whether `bits` denotes no number: exponent all ones, fraction not zero.
pub fn is_nan(bits: u64) -> (r: bool)
    ensures
        r == denotes_nan(bits),
{
    proof {
        lemma_nan_and_zero(bits);
    }
    (bits & MAGNITUDE_MASK) > INFINITY_BITS
}

/// Whether `bits` denotes zero, of either sign.
pub fn is_zero(bits: u64) -> (r: bool)
    ensures
        r == denotes_zero(bits),
{
    proof {
        lemma_nan_and_zero(bits);
    }
    (bits & MAGNITUDE_MASK) == 0
}

/// Compares two encodings as the standard compares the numbers they denote:
/// nothing equals a NaN, the two zeros are equal, and any other two are
/// equal exactly when their encodings are.
pub fn equal(a: u64, b: u64) -> (r: bool)
    ensures
        r == same_number(a, b),
{
    proof {
        lemma_same_number(a, b);
    }
    !is_nan(a) && !is_nan(b) && (a == b || (is_zero(a) && is_zero(b)))
}

/// `same_number`, said over encodings.
pub proof fn lemma_same_number(a: u64, b: u64)
    ensures
        same_number(a, b) <==> !denotes_nan(a) && !denotes_nan(b) && (a == b || (denotes_zero(a)
            && denotes_zero(b))),
{
    lemma_fields(a);
    lemma_fields(b);
    lemma_magnitude_range(a);
    lemma_magnitude_range(b);
    if same_number(a, b) && !denotes_zero(a) {
        if exponent_field(a) != 0x7FF {
            lemma_magnitude_injective(a, b);
        }
        lemma_fields_determine_bits(a, b);
    }
}

/// Equality does not depend on the order of its operands.
pub proof fn lemma_same_number_symmetric(a: u64, b: u64)
    ensures
        same_number(a, b) == same_number(b, a),
{
}

/// Two encodings equal to a third are equal to each other.
pub proof fn lemma_same_number_transitive(a: u64, b: u64, c: u64)
    requires
        same_number(a, b),
        same_number(b, c),
    ensures
        same_number(a, c),
{
}

/// An encoding equals itself exactly when it denotes a number.
pub proof fn lemma_same_number_reflexive(a: u64)
    ensures
        same_number(a, a) <==> !denotes_nan(a),
{
}

} // verus!
