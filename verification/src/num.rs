//! Scalar abstractions.
//!
//! The geometry in this crate is generic over its scalar. A scalar type names
//! each of its operations twice: once as an executable method and once as a
//! `spec` function that contracts can mention. The few algebraic identities the
//! crate relies on are part of the trait, so every implementation has to state
//! them.
use vstd::prelude::*;

verus! {

/// A numeric scalar: zero, one, the four arithmetic operations and the
/// conversion of small integers.
///
/// Every operation is a function of its arguments: an implementation returns
/// the same result whenever it is given the same values. The laws are the
/// identities of exact arithmetic that the transform theorems need. Binary
/// real types meet them on finite values up to the sign of zero; integers
/// under modular arithmetic meet them exactly.
pub trait BaseNum: Copy + Sized {
    /// The additive identity.
    spec fn zero_spec() -> Self;

    /// The multiplicative identity.
    spec fn one_spec() -> Self;

    /// `self + rhs`.
    spec fn add_spec(self, rhs: Self) -> Self;

    /// `self - rhs`.
    spec fn sub_spec(self, rhs: Self) -> Self;

    /// `self * rhs`.
    spec fn mul_spec(self, rhs: Self) -> Self;

    /// Whether `self / rhs` is defined.
    spec fn div_req(self, rhs: Self) -> bool;

    /// `self / rhs`, meaningful where `div_req` holds.
    spec fn div_spec(self, rhs: Self) -> Self;

    /// The scalar that stands for the small integer `n`.
    spec fn from_u8_spec(n: u8) -> Self;

    fn zero() -> (r: Self)
        ensures
            r == Self::zero_spec(),
    ;

    fn one() -> (r: Self)
        ensures
            r == Self::one_spec(),
    ;

    fn add(self, rhs: Self) -> (r: Self)
        ensures
            r == self.add_spec(rhs),
    ;

    fn sub(self, rhs: Self) -> (r: Self)
        ensures
            r == self.sub_spec(rhs),
    ;

    fn mul(self, rhs: Self) -> (r: Self)
        ensures
            r == self.mul_spec(rhs),
    ;

    fn div(self, rhs: Self) -> (r: Self)
        requires
            self.div_req(rhs),
        ensures
            r == self.div_spec(rhs),
    ;

    fn from_u8(n: u8) -> (r: Self)
        ensures
            r == Self::from_u8_spec(n),
    ;

    /// Zero is neutral for addition, on both sides.
    proof fn lemma_add_zero(a: Self)
        ensures
            a.add_spec(Self::zero_spec()) == a,
            Self::zero_spec().add_spec(a) == a,
    ;

    /// One is neutral for multiplication, on both sides.
    proof fn lemma_mul_one(a: Self)
        ensures
            a.mul_spec(Self::one_spec()) == a,
            Self::one_spec().mul_spec(a) == a,
    ;

    /// Zero absorbs under multiplication, on both sides.
    proof fn lemma_mul_zero(a: Self)
        ensures
            a.mul_spec(Self::zero_spec()) == Self::zero_spec(),
            Self::zero_spec().mul_spec(a) == Self::zero_spec(),
    ;

    /// Dividing by the scalar of a nonzero small integer is defined.
    proof fn lemma_div_by_small(a: Self, n: u8)
        requires
            n != 0,
        ensures
            a.div_req(Self::from_u8_spec(n)),
    ;
}

/// A real-valued scalar: negation, roots, remainders and trigonometry on top of
/// [`BaseNum`], with a division that is defined everywhere.
///
/// The contracts only name the results of these operations; how close a
/// result comes to the mathematical value is the implementation's affair. As
/// in [`BaseNum`], equal arguments give equal results.
pub trait BaseFloat: BaseNum {
    /// `-self`.
    spec fn neg_spec(self) -> Self;

    /// The remainder of `self / rhs`.
    spec fn rem_spec(self, rhs: Self) -> Self;

    /// The square root of `self`.
    spec fn sqrt_spec(self) -> Self;

    /// The sine of `self`, an angle in radians.
    spec fn sin_spec(self) -> Self;

    /// The cosine of `self`, an angle in radians.
    spec fn cos_spec(self) -> Self;

    /// The tangent of `self`, an angle in radians.
    spec fn tan_spec(self) -> Self;

    /// The arcsine of `self`, in radians.
    spec fn asin_spec(self) -> Self;

    /// The arccosine of `self`, in radians.
    spec fn acos_spec(self) -> Self;

    /// The arctangent of `self`, in radians.
    spec fn atan_spec(self) -> Self;

    /// The four-quadrant arctangent of `self` (as `y`) and `other` (as `x`).
    spec fn atan2_spec(self, other: Self) -> Self;

    /// `self`, an angle in degrees, in radians.
    spec fn to_radians_spec(self) -> Self;

    /// Whether `self` is a number of finite size.
    spec fn is_finite_spec(self) -> bool;

    /// `self`, an angle in radians, in degrees.
    spec fn to_degrees_spec(self) -> Self;

    fn neg(self) -> (r: Self)
        ensures
            r == self.neg_spec(),
    ;

    fn rem(self, rhs: Self) -> (r: Self)
        ensures
            r == self.rem_spec(rhs),
    ;

    fn sqrt(self) -> (r: Self)
        ensures
            r == self.sqrt_spec(),
    ;

    fn sin(self) -> (r: Self)
        ensures
            r == self.sin_spec(),
    ;

    fn cos(self) -> (r: Self)
        ensures
            r == self.cos_spec(),
    ;

    fn tan(self) -> (r: Self)
        ensures
            r == self.tan_spec(),
    ;

    fn asin(self) -> (r: Self)
        ensures
            r == self.asin_spec(),
    ;

    fn acos(self) -> (r: Self)
        ensures
            r == self.acos_spec(),
    ;

    fn atan(self) -> (r: Self)
        ensures
            r == self.atan_spec(),
    ;

    fn atan2(self, other: Self) -> (r: Self)
        ensures
            r == self.atan2_spec(other),
    ;

    /// Sine and cosine at once, in that order.
    fn sin_cos(self) -> (r: (Self, Self))
        ensures
            r.0 == self.sin_spec(),
            r.1 == self.cos_spec(),
    ;

    /// The reciprocal, `1 / self`.
    fn recip(self) -> (r: Self)
        ensures
            r == Self::one_spec().div_spec(self),
    ;

    fn to_radians(self) -> (r: Self)
        ensures
            r == self.to_radians_spec(),
    ;

    fn to_degrees(self) -> (r: Self)
        ensures
            r == self.to_degrees_spec(),
    ;

    fn is_finite(self) -> (r: bool)
        ensures
            r == self.is_finite_spec(),
    ;

    /// Division never fails on a real-valued scalar.
    proof fn lemma_div_total(a: Self, b: Self)
        ensures
            a.div_req(b),
    ;
}

/// Sixty-four-bit integers as scalars. Addition, subtraction and
/// multiplication wrap around, which makes the integers a ring in which the
/// laws hold without exception; division truncates and is defined wherever the
/// machine division is.
impl BaseNum for i64 {
    open spec fn zero_spec() -> i64 {
        0i64
    }

    open spec fn one_spec() -> i64 {
        1i64
    }

    open spec fn add_spec(self, rhs: i64) -> i64 {
        self.wrapping_add(rhs)
    }

    open spec fn sub_spec(self, rhs: i64) -> i64 {
        self.wrapping_sub(rhs)
    }

    open spec fn mul_spec(self, rhs: i64) -> i64 {
        self.wrapping_mul(rhs)
    }

    open spec fn div_req(self, rhs: i64) -> bool {
        rhs != 0 && !(self == i64::MIN && rhs == -1)
    }

    open spec fn div_spec(self, rhs: i64) -> i64 {
        if self >= 0 {
            (self / rhs) as i64
        } else {
            (-((-self) / (rhs as int))) as i64
        }
    }

    open spec fn from_u8_spec(n: u8) -> i64 {
        n as i64
    }

    fn zero() -> (r: i64) {
        0i64
    }

    fn one() -> (r: i64) {
        1i64
    }

    fn add(self, rhs: i64) -> (r: i64) {
        self.wrapping_add(rhs)
    }

    fn sub(self, rhs: i64) -> (r: i64) {
        self.wrapping_sub(rhs)
    }

    fn mul(self, rhs: i64) -> (r: i64) {
        self.wrapping_mul(rhs)
    }

    fn div(self, rhs: i64) -> (r: i64) {
        self / rhs
    }

    fn from_u8(n: u8) -> (r: i64) {
        n as i64
    }

    proof fn lemma_add_zero(a: i64) {
    }

    proof fn lemma_mul_one(a: i64) {
    }

    proof fn lemma_mul_zero(a: i64) {
    }

    proof fn lemma_div_by_small(a: i64, n: u8) {
    }
}

} // verus!
