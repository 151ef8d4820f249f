//! Binary64 numbers as 64-bit encodings, with arithmetic done in software.
//!
//! Every number the engine touches is an IEEE-754 binary64 value held as its
//! 64-bit encoding. Sums, products, quotients and the conversion of an index
//! are computed by `rustc_apfloat`, square roots by `softfloat`. Both work on
//! the encodings with integer instructions only and round to nearest, ties to
//! even, so a run gives the same bits on every machine.
//!
//! The verifier is told nothing about the numeric value of a result: each
//! operation's result is a named, uninterpreted function of the operand
//! encodings, and the engine's contracts say which operations are applied to
//! which operands, in which order.
//!
//! Negation, and the tests on the sign, on zero, on NaN and on infinity, read
//! the encoding directly and are proved here. So is the exact rescaling that
//! keeps a few subnormal encodings away from `softfloat`'s square root.

use vstd::prelude::*;
use rustc_apfloat::ieee::Double;
use rustc_apfloat::Float;
use core::ops::Neg;

verus! {

/// Bit 63 of an encoding: the sign.
pub const SIGN_MASK: u64 = 0x8000_0000_0000_0000;

/// Bits 52 to 62 of an encoding: the biased exponent. As a value this is the
/// encoding of positive infinity.
pub const EXPONENT_MASK: u64 = 0x7FF0_0000_0000_0000;

/// Encoding of positive zero.
pub const ZERO_BITS: u64 = 0;

/// Encoding of the number one.
pub const ONE_BITS: u64 = 0x3FF0_0000_0000_0000;

/// Encoding of two to the power of minus 26.
pub const ROOT_RESCALE_BITS: u64 = 0x3E50_0000_0000_0000;

/// The encodings that `softfloat`'s square root is never given. They are two
/// ranges of subnormal numbers on which its normalizing step shifts a `usize`
/// by 32 bits, which a target with 32-bit addresses refuses where it checks
/// for overflow.
pub open spec fn fragile(bits: u64) -> bool {
    0x400 <= bits < 0x800 || 0x8000_0000 <= bits < 0x1_0000_0000
}

/// For a fragile encoding, the encoding of the same number times two to the
/// power of 52. The product is exact and is a normal number: a subnormal
/// encoding `k` stands for `k * 2^-1074`, so with the leading bit of `k` at
/// position 10 or 31 the product has the biased exponent 11 or 32, and the
/// bits of `k` below the leading one are its fraction.
pub open spec fn lifted(bits: u64) -> u64 {
    if bits < 0x800 {
        (11u64 << 52) | ((bits & 0x3FF) << 42)
    } else {
        (32u64 << 52) | ((bits & 0x7FFF_FFFF) << 21)
    }
}

/// Encoding of the rounded sum of the numbers encoded by `a` and `b`.
pub uninterp spec fn binary64_sum(a: u64, b: u64) -> u64;

/// Encoding of the rounded product of the numbers encoded by `a` and `b`.
pub uninterp spec fn binary64_product(a: u64, b: u64) -> u64;

/// Encoding of the rounded quotient of the number encoded by `a` by the one
/// encoded by `b`.
pub uninterp spec fn binary64_quotient(a: u64, b: u64) -> u64;

/// Encoding of the rounded square root of the number encoded by `a`.
pub uninterp spec fn binary64_root(a: u64) -> u64;

/// Encoding of the binary64 number nearest to the index `i`.
pub uninterp spec fn binary64_of_index(i: usize) -> u64;

/// Adds two encodings with `rustc_apfloat`: both go through
/// `Float::from_bits` into `ieee::Double`, the two are added with `+`, which
/// rounds to nearest, ties to even, and the sum comes back through
/// `Float::to_bits`. Trusted: the call returns for every pair of encodings,
/// and what it returns depends on the two encodings alone.
#[verifier::external_body]
fn soft_add(a: u64, b: u64) -> (r: u64)
    ensures
        r == binary64_sum(a, b),
{
    let x = Double::from_bits(a as u128);
    let y = Double::from_bits(b as u128);
    (x + y).value.to_bits() as u64
}

/// Multiplies two encodings with `rustc_apfloat`, as [`soft_add`] adds them,
/// with `*` in place of `+`. Trusted: the call returns for every pair of
/// encodings, and what it returns depends on the two encodings alone.
#[verifier::external_body]
fn soft_mul(a: u64, b: u64) -> (r: u64)
    ensures
        r == binary64_product(a, b),
{
    let x = Double::from_bits(a as u128);
    let y = Double::from_bits(b as u128);
    (x * y).value.to_bits() as u64
}

/// Divides two encodings with `rustc_apfloat`, as [`soft_add`] adds them,
/// with `/` in place of `+`. Trusted: the call returns for every pair of
/// encodings, a zero divisor included, and what it returns depends on the two
/// encodings alone.
#[verifier::external_body]
fn soft_div(a: u64, b: u64) -> (r: u64)
    ensures
        r == binary64_quotient(a, b),
{
    let x = Double::from_bits(a as u128);
    let y = Double::from_bits(b as u128);
    (x / y).value.to_bits() as u64
}

/// Calls `softfloat::F64::sqrt` on an encoding. Trusted: the function returns
/// for every encoding that is not fragile, those of negative numbers
/// included, and its result depends on the encoding alone.
#[verifier::external_body]
fn soft_sqrt(a: u64) -> (r: u64)
    requires
        !fragile(a),
    ensures
        r == binary64_root(a),
{
    softfloat::F64::from_bits(a).sqrt().to_bits()
}

/// Turns an index into a number with `rustc_apfloat`'s `Float::from_u128` for
/// `ieee::Double`, which rounds to nearest, ties to even, where the index has
/// more than 53 significant bits. Trusted: the call returns for every index,
/// and what it returns depends on the index alone.
#[verifier::external_body]
fn soft_from_index(i: usize) -> (r: u64)
    ensures
        r == binary64_of_index(i),
{
    Double::from_u128(i as u128).value.to_bits() as u64
}

/// An IEEE-754 binary64 number, held as its encoding.
#[derive(Clone, Copy, Debug)]
pub struct Scalar {
    pub bits: u64,
}

impl Scalar {
    /// The sum `self + rhs`.
    pub open spec fn sum(self, rhs: Scalar) -> Scalar {
        Scalar { bits: binary64_sum(self.bits, rhs.bits) }
    }

    /// The same number with the opposite sign.
    pub open spec fn negated(self) -> Scalar {
        Scalar { bits: self.bits ^ SIGN_MASK }
    }

    /// The difference `self - rhs`, which IEEE-754 defines as `self + (-rhs)`.
    pub open spec fn difference(self, rhs: Scalar) -> Scalar {
        self.sum(rhs.negated())
    }

    /// The product `self * rhs`.
    pub open spec fn product(self, rhs: Scalar) -> Scalar {
        Scalar { bits: binary64_product(self.bits, rhs.bits) }
    }

    /// The quotient `self / rhs`.
    pub open spec fn quotient(self, rhs: Scalar) -> Scalar {
        Scalar { bits: binary64_quotient(self.bits, rhs.bits) }
    }

    /// The square root of `self`. A fragile number is first multiplied by two
    /// to the power of 52 and its root then by two to the power of minus 26.
    /// Both products are exact, so the result is the rounded root of `self`
    /// all the same.
    pub open spec fn root(self) -> Scalar {
        if fragile(self.bits) {
            Scalar { bits: binary64_root(lifted(self.bits)) }.product(
                Scalar { bits: ROOT_RESCALE_BITS },
            )
        } else {
            Scalar { bits: binary64_root(self.bits) }
        }
    }

    /// The index `i` as a number.
    pub open spec fn of_index(i: usize) -> Scalar {
        Scalar { bits: binary64_of_index(i) }
    }

    /// Positive zero.
    pub open spec fn spec_zero() -> Scalar {
        Scalar { bits: ZERO_BITS }
    }

    /// The number one.
    pub open spec fn spec_one() -> Scalar {
        Scalar { bits: ONE_BITS }
    }

    /// The encoding without its sign bit.
    pub open spec fn magnitude_bits(self) -> u64 {
        self.bits & !SIGN_MASK
    }

    /// `self` is not a number: the exponent is all ones and the fraction is
    /// not zero.
    pub open spec fn nan(self) -> bool {
        self.magnitude_bits() > EXPONENT_MASK
    }

    /// `self` is neither a NaN nor an infinity: the exponent is not all ones.
    pub open spec fn finite(self) -> bool {
        self.magnitude_bits() < EXPONENT_MASK
    }

    /// `self > 0`: the sign bit is clear and `self` is neither zero nor a NaN.
    /// Positive infinity counts.
    pub open spec fn positive(self) -> bool {
        0 < self.bits <= EXPONENT_MASK
    }

    /// The number with the given encoding. Every 64-bit pattern is one.
    pub fn from_bits(bits: u64) -> (r: Scalar)
        ensures
            r.bits == bits,
    {
        Scalar { bits }
    }

    /// The encoding of `self`.
    pub fn to_bits(self) -> (r: u64)
        ensures
            r == self.bits,
    {
        self.bits
    }

    /// Positive zero.
    pub fn zero() -> (r: Scalar)
        ensures
            r == Scalar::spec_zero(),
    {
        Scalar { bits: ZERO_BITS }
    }

    /// The number one.
    pub fn one() -> (r: Scalar)
        ensures
            r == Scalar::spec_one(),
    {
        Scalar { bits: ONE_BITS }
    }

    /// The index `i` as a number, rounded where binary64 cannot hold it
    /// exactly.
    pub fn from_index(i: usize) -> (r: Scalar)
        ensures
            r == Scalar::of_index(i),
    {
        Scalar { bits: soft_from_index(i) }
    }

    /// The square root. That of a negative number is a NaN.
    pub fn sqrt(self) -> (r: Scalar)
        ensures
            r == self.root(),
    {
        let bits = self.bits;
        if 0x400 <= bits && bits < 0x800 {
            let up: u64 = (11u64 << 52) | ((bits & 0x3FF) << 42);
            assert(up >= 0x1_0000_0000) by (bit_vector)
                requires
                    up == (11u64 << 52) | ((bits & 0x3FF) << 42),
            ;
            Scalar { bits: soft_sqrt(up) } * Scalar { bits: ROOT_RESCALE_BITS }
        } else if 0x8000_0000 <= bits && bits < 0x1_0000_0000 {
            let up: u64 = (32u64 << 52) | ((bits & 0x7FFF_FFFF) << 21);
            assert(up >= 0x1_0000_0000) by (bit_vector)
                requires
                    up == (32u64 << 52) | ((bits & 0x7FFF_FFFF) << 21),
            ;
            Scalar { bits: soft_sqrt(up) } * Scalar { bits: ROOT_RESCALE_BITS }
        } else {
            Scalar { bits: soft_sqrt(bits) }
        }
    }

    /// Whether `self` is a NaN.
    pub fn is_nan(self) -> (r: bool)
        ensures
            r == self.nan(),
    {
        (self.bits & !SIGN_MASK) > EXPONENT_MASK
    }

    /// Whether `self` is neither a NaN nor an infinity.
    pub fn is_finite(self) -> (r: bool)
        ensures
            r == self.finite(),
    {
        (self.bits & !SIGN_MASK) < EXPONENT_MASK
    }

    /// Whether `self > 0`.
    pub fn is_positive(self) -> (r: bool)
        ensures
            r == self.positive(),
    {
        0 < self.bits && self.bits <= EXPONENT_MASK
    }
}

impl core::ops::Add for Scalar {
    type Output = Scalar;

    /// The sum, written `a + b`.
    fn add(self, rhs: Scalar) -> (r: Scalar)
        ensures
            r == self.sum(rhs),
    {
        Scalar { bits: soft_add(self.bits, rhs.bits) }
    }
}

impl vstd::std_specs::ops::AddSpecImpl for Scalar {
    open spec fn obeys_add_spec() -> bool {
        true
    }

    open spec fn add_req(self, rhs: Scalar) -> bool {
        true
    }

    open spec fn add_spec(self, rhs: Scalar) -> Scalar {
        self.sum(rhs)
    }
}

impl core::ops::Neg for Scalar {
    type Output = Scalar;

    /// The same number with the opposite sign, written `-a`.
    fn neg(self) -> (r: Scalar)
        ensures
            r == self.negated(),
    {
        Scalar { bits: self.bits ^ SIGN_MASK }
    }
}

impl vstd::std_specs::ops::NegSpecImpl for Scalar {
    open spec fn obeys_neg_spec() -> bool {
        true
    }

    open spec fn neg_req(self) -> bool {
        true
    }

    open spec fn neg_spec(self) -> Scalar {
        self.negated()
    }
}

impl core::ops::Sub for Scalar {
    type Output = Scalar;

    /// The difference, written `a - b`.
    fn sub(self, rhs: Scalar) -> (r: Scalar)
        ensures
            r == self.difference(rhs),
    {
        self + rhs.neg()
    }
}

impl vstd::std_specs::ops::SubSpecImpl for Scalar {
    open spec fn obeys_sub_spec() -> bool {
        true
    }

    open spec fn sub_req(self, rhs: Scalar) -> bool {
        true
    }

    open spec fn sub_spec(self, rhs: Scalar) -> Scalar {
        self.difference(rhs)
    }
}

impl core::ops::Mul for Scalar {
    type Output = Scalar;

    /// The product, written `a * b`.
    fn mul(self, rhs: Scalar) -> (r: Scalar)
        ensures
            r == self.product(rhs),
    {
        Scalar { bits: soft_mul(self.bits, rhs.bits) }
    }
}

impl vstd::std_specs::ops::MulSpecImpl for Scalar {
    open spec fn obeys_mul_spec() -> bool {
        true
    }

    open spec fn mul_req(self, rhs: Scalar) -> bool {
        true
    }

    open spec fn mul_spec(self, rhs: Scalar) -> Scalar {
        self.product(rhs)
    }
}

impl core::ops::Div for Scalar {
    type Output = Scalar;

    /// The quotient, written `a / b`. Dividing by zero is defined: it yields an
    /// infinity or a NaN.
    fn div(self, rhs: Scalar) -> (r: Scalar)
        ensures
            r == self.quotient(rhs),
    {
        Scalar { bits: soft_div(self.bits, rhs.bits) }
    }
}

impl vstd::std_specs::ops::DivSpecImpl for Scalar {
    open spec fn obeys_div_spec() -> bool {
        true
    }

    open spec fn div_req(self, rhs: Scalar) -> bool {
        true
    }

    open spec fn div_spec(self, rhs: Scalar) -> Scalar {
        self.quotient(rhs)
    }
}

} // verus!
