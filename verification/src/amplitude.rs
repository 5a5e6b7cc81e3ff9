//! The scalar type of the simulator: one complex amplitude.
//!
//! An amplitude is stored as the IEEE-754 binary64 bit patterns of its real
//! and imaginary components, so every decision the library makes about an
//! amplitude (the normalization check, the measurement threshold) is an exact
//! integer comparison on those patterns.  The complex arithmetic itself is
//! done by num's `Complex` type behind trusted wrappers.  Addition and
//! multiplication are IEEE-754 determined up to the bits of a produced NaN,
//! so their results are named by uninterpreted spec functions over
//! NaN-canonicalized amplitudes, beside the few bit-exact facts the proofs
//! rely on; the squared modulus, whose precision the platform does not
//! pin, carries no name and only the facts true of every outcome.

use vstd::prelude::*;

verus! {

/// One complex amplitude.  `re_bits` and `im_bits` hold the IEEE-754
/// binary64 bit patterns of the real and imaginary components.
#[derive(Clone, Copy, Debug, PartialEq, Eq, Structural)]
pub struct Amplitude {
    pub re_bits: u64,
    pub im_bits: u64,
}

/// Bit pattern of the binary64 value 1.0.
pub const F64_ONE_BITS: u64 = 0x3FF0_0000_0000_0000;

/// Bit pattern of the binary64 value 0.5.
pub const F64_HALF_BITS: u64 = 0x3FE0_0000_0000_0000;

/// The binary64 sign bit; also the bit pattern of -0.0.
pub const F64_SIGN_BIT: u64 = 0x8000_0000_0000_0000;

/// The exponent field of a binary64 pattern, all ones for infinities and NaNs.
pub const F64_EXP_MASK: u64 = 0x7FF0_0000_0000_0000;

/// The mantissa field of a binary64 pattern.
pub const F64_MANTISSA_MASK: u64 = 0x000F_FFFF_FFFF_FFFF;

/// The amplitude 0 + 0i.
pub open spec fn amp_zero() -> Amplitude {
    Amplitude { re_bits: 0, im_bits: 0 }
}

/// The amplitude 1 + 0i.
pub open spec fn amp_one() -> Amplitude {
    Amplitude { re_bits: F64_ONE_BITS, im_bits: 0 }
}

/// The pattern encodes a NaN: exponent all ones, mantissa nonzero.
pub open spec fn f64_is_nan(bits: u64) -> bool {
    bits & F64_EXP_MASK == F64_EXP_MASK && bits & F64_MANTISSA_MASK != 0
}

/// The pattern encodes a finite value: exponent not all ones.
pub open spec fn f64_is_finite(bits: u64) -> bool {
    bits & F64_EXP_MASK != F64_EXP_MASK
}

/// The pattern encodes +0.0 or -0.0.
pub open spec fn f64_is_zeroish(bits: u64) -> bool {
    bits == 0 || bits == F64_SIGN_BIT
}

/// A finite value that is not -0.0.  On such values the bit-exact
/// absorption facts stated on the trusted wrappers below hold.
pub open spec fn f64_is_clean(bits: u64) -> bool {
    f64_is_finite(bits) && bits != F64_SIGN_BIT
}

/// The encoded value is at least one half.  For patterns with the sign bit
/// clear (all values the modulus wrapper can return), the unsigned order of
/// bit patterns agrees with the numeric order of the encoded values, a NaN
/// compares less than everything, and a pattern with the sign bit set
/// encodes a value no greater than zero.
pub open spec fn f64_at_least_half(bits: u64) -> bool {
    !f64_is_nan(bits) && bits < F64_SIGN_BIT && bits >= F64_HALF_BITS
}

/// Both components are +0.0 or -0.0.
pub open spec fn amp_zeroish(a: Amplitude) -> bool {
    f64_is_zeroish(a.re_bits) && f64_is_zeroish(a.im_bits)
}

/// Both components are finite and neither is -0.0.
pub open spec fn amp_clean(a: Amplitude) -> bool {
    f64_is_clean(a.re_bits) && f64_is_clean(a.im_bits)
}

impl Amplitude {
    /// The amplitude 0 + 0i.
    pub fn zero() -> (r: Amplitude)
        ensures
            r == amp_zero(),
    {
        Amplitude { re_bits: 0, im_bits: 0 }
    }

    /// The amplitude 1 + 0i.
    pub fn one() -> (r: Amplitude)
        ensures
            r == amp_one(),
    {
        Amplitude { re_bits: F64_ONE_BITS, im_bits: 0 }
    }
}

/// The two basis amplitudes are finite and free of -0.0 components.
pub proof fn lemma_basis_amps_clean()
    ensures
        amp_clean(amp_zero()),
        amp_clean(amp_one()),
{
    assert(0u64 & 0x7FF0_0000_0000_0000u64 != 0x7FF0_0000_0000_0000u64) by (bit_vector);
    assert(0x3FF0_0000_0000_0000u64 & 0x7FF0_0000_0000_0000u64 != 0x7FF0_0000_0000_0000u64)
        by (bit_vector);
}

/// The quiet-NaN pattern that stands for every NaN in contracts.
pub const F64_CANON_NAN: u64 = 0x7FF8_0000_0000_0000;

/// The pattern with every NaN collapsed to one canonical NaN.  IEEE-754 (and
/// Rust's binary64 arithmetic, which follows it) determines the value of a
/// sum, difference or product completely, signed zeros and infinities
/// included; the one thing left open is which bit pattern a produced NaN
/// carries.  Contracts therefore compare amplitudes after this collapse:
/// that is exactly the determined part.
pub open spec fn f64_canon(bits: u64) -> u64 {
    if f64_is_nan(bits) {
        F64_CANON_NAN
    } else {
        bits
    }
}

/// The amplitude with both components canonicalized by `f64_canon`.
pub open spec fn amp_canon(a: Amplitude) -> Amplitude {
    Amplitude { re_bits: f64_canon(a.re_bits), im_bits: f64_canon(a.im_bits) }
}

/// What num's complex addition returns, componentwise binary64 addition,
/// on and up to canonicalized amplitudes.
pub uninterp spec fn amp_add_spec(a: Amplitude, b: Amplitude) -> Amplitude;

/// What num's complex multiplication returns, on and up to canonicalized
/// amplitudes.
pub uninterp spec fn amp_mul_spec(a: Amplitude, b: Amplitude) -> Amplitude;

/// Everything every squared-modulus computation guarantees of its result:
/// never a negative value (possibly a NaN), and exactly 0.0 and 1.0 on the
/// two basis amplitudes.
pub open spec fn abs_sq_outcome(a: Amplitude, t: u64) -> bool {
    &&& f64_is_nan(t) || t < F64_SIGN_BIT
    &&& a == amp_zero() ==> t == 0
    &&& a == amp_one() ==> t == F64_ONE_BITS
}

/// Relies on num's `Complex` addition, which adds the real and imaginary
/// components with IEEE-754 binary64 addition.  That addition determines the
/// result value from the operand values alone, except for the bits of a
/// produced NaN, so the result is named after collapsing every NaN to the
/// canonical one.  The extra clauses are the bit-exact absorption rules of
/// IEEE-754 addition: adding a signed zero to a finite value that is not
/// -0.0 returns it unchanged, and +0.0 plus a signed zero is +0.0.
#[verifier::external_body]
pub(crate) fn amp_add(a: Amplitude, b: Amplitude) -> (r: Amplitude)
    ensures
        amp_canon(r) == amp_add_spec(amp_canon(a), amp_canon(b)),
        a == amp_zero() && amp_zeroish(b) ==> r == amp_zero(),
        a == amp_zero() && amp_clean(b) ==> r == b,
        amp_clean(a) && amp_zeroish(b) ==> r == a,
{
    let x = num::complex::Complex64::new(
        num::traits::FromBytes::from_le_bytes(&a.re_bits.to_le_bytes()),
        num::traits::FromBytes::from_le_bytes(&a.im_bits.to_le_bytes()),
    );
    let y = num::complex::Complex64::new(
        num::traits::FromBytes::from_le_bytes(&b.re_bits.to_le_bytes()),
        num::traits::FromBytes::from_le_bytes(&b.im_bits.to_le_bytes()),
    );
    let z = x + y;
    Amplitude {
        re_bits: u64::from_le_bytes(num::traits::ToBytes::to_le_bytes(&z.re)),
        im_bits: u64::from_le_bytes(num::traits::ToBytes::to_le_bytes(&z.im)),
    }
}

/// Relies on num's `Complex` multiplication: for a = x + yi and b = u + vi
/// it returns (x*u - y*v) + (x*v + y*u)i in binary64 arithmetic.  Each of
/// those operations is IEEE-754 determined up to the bits of a produced
/// NaN, so the result is named after collapsing every NaN to the canonical
/// one.  The extra clauses are bit-exact consequences of IEEE-754 for clean
/// operands: multiplying by 1 + 0i returns the operand unchanged, and
/// multiplying 0 + 0i by a finite operand gives signed zeros in both
/// components.
#[verifier::external_body]
pub(crate) fn amp_mul(a: Amplitude, b: Amplitude) -> (r: Amplitude)
    ensures
        amp_canon(r) == amp_mul_spec(amp_canon(a), amp_canon(b)),
        a == amp_one() && amp_clean(b) ==> r == b,
        a == amp_zero() && amp_clean(b) ==> amp_zeroish(r),
{
    let x = num::complex::Complex64::new(
        num::traits::FromBytes::from_le_bytes(&a.re_bits.to_le_bytes()),
        num::traits::FromBytes::from_le_bytes(&a.im_bits.to_le_bytes()),
    );
    let y = num::complex::Complex64::new(
        num::traits::FromBytes::from_le_bytes(&b.re_bits.to_le_bytes()),
        num::traits::FromBytes::from_le_bytes(&b.im_bits.to_le_bytes()),
    );
    let z = x * y;
    Amplitude {
        re_bits: u64::from_le_bytes(num::traits::ToBytes::to_le_bytes(&z.re)),
        im_bits: u64::from_le_bytes(num::traits::ToBytes::to_le_bytes(&z.im)),
    }
}

/// Relies on num's `Complex::norm` (the modulus, computed with `hypot`,
/// hence never negative) squared with `powi`.  The precision of `hypot` and
/// `powi` is not fully specified, so no clause names their result; the
/// contract states only what holds of every outcome: the result is a NaN or
/// has its sign bit clear, the modulus of 0 + 0i is 0.0 and the modulus of
/// 1 + 0i is 1.0 exactly (a hypotenuse with one leg zero is the other leg's
/// magnitude), and squaring 0.0 and 1.0 is exact.
#[verifier::external_body]
pub(crate) fn abs_sq_bits(a: &Amplitude) -> (r: u64)
    ensures
        abs_sq_outcome(*a, r),
{
    let c = num::complex::Complex64::new(
        num::traits::FromBytes::from_le_bytes(&a.re_bits.to_le_bytes()),
        num::traits::FromBytes::from_le_bytes(&a.im_bits.to_le_bytes()),
    );
    let m = c.norm().powi(2);
    u64::from_le_bytes(num::traits::ToBytes::to_le_bytes(&m))
}

} // verus!
