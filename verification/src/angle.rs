//! Angles in degrees and in radians.
use crate::num::{BaseFloat, BaseNum};
use vstd::prelude::*;

verus! {

/// An angle in degrees.
#[derive(Copy, Clone, PartialEq, PartialOrd, Debug)]
pub struct Deg<T>(pub T);

/// An angle in radians.
#[derive(Copy, Clone, PartialEq, PartialOrd, Debug)]
pub struct Rad<T>(pub T);

impl<T: BaseFloat> Rad<T> {
    /// The sine of the angle.
    pub fn sin(self) -> (r: T)
        ensures
            r == self.0.sin_spec(),
    {
        self.0.sin()
    }

    /// The cosine of the angle.
    pub fn cos(self) -> (r: T)
        ensures
            r == self.0.cos_spec(),
    {
        self.0.cos()
    }

    /// The tangent of the angle.
    pub fn tan(self) -> (r: T)
        ensures
            r == self.0.tan_spec(),
    {
        self.0.tan()
    }

    /// The arcsine of the wrapped value.
    pub fn asin(self) -> (r: T)
        ensures
            r == self.0.asin_spec(),
    {
        self.0.asin()
    }

    /// The arccosine of the wrapped value.
    pub fn acos(self) -> (r: T)
        ensures
            r == self.0.acos_spec(),
    {
        self.0.acos()
    }

    /// The arctangent of the wrapped value.
    pub fn atan(self) -> (r: T)
        ensures
            r == self.0.atan_spec(),
    {
        self.0.atan()
    }

    /// The four-quadrant arctangent of the wrapped value and `other`.
    pub fn atan2(self, other: T) -> (r: T)
        ensures
            r == self.0.atan2_spec(other),
    {
        self.0.atan2(other)
    }

    /// Sine and cosine of the angle, in that order.
    pub fn sin_cos(self) -> (r: (T, T))
        ensures
            r.0 == self.0.sin_spec(),
            r.1 == self.0.cos_spec(),
    {
        self.0.sin_cos()
    }

    /// The cotangent: the reciprocal of the tangent.
    pub open spec fn cot_spec(self) -> T {
        T::one_spec().div_spec(self.0.tan_spec())
    }

    /// The cotangent of the angle.
    pub fn cot(self) -> (r: T)
        ensures
            r == self.cot_spec(),
    {
        self.0.tan().recip()
    }
}

impl<T: BaseFloat> vstd::std_specs::convert::FromSpecImpl<Deg<T>> for Rad<T> {
    open spec fn obeys_from_spec() -> bool {
        true
    }

    open spec fn from_spec(deg: Deg<T>) -> Rad<T> {
        Rad(deg.0.to_radians_spec())
    }
}

impl<T: BaseFloat> From<Deg<T>> for Rad<T> {
    fn from(deg: Deg<T>) -> (r: Rad<T>) {
        Rad(deg.0.to_radians())
    }
}

impl<T: BaseFloat> vstd::std_specs::convert::FromSpecImpl<Rad<T>> for Deg<T> {
    open spec fn obeys_from_spec() -> bool {
        true
    }

    open spec fn from_spec(rad: Rad<T>) -> Deg<T> {
        Deg(rad.0.to_degrees_spec())
    }
}

impl<T: BaseFloat> From<Rad<T>> for Deg<T> {
    fn from(rad: Rad<T>) -> (r: Deg<T>) {
        Deg(rad.0.to_degrees())
    }
}

// Rad (+ - / %) Rad

impl<T: BaseFloat> vstd::std_specs::ops::AddSpecImpl<Rad<T>> for Rad<T> {
    open spec fn obeys_add_spec() -> bool {
        true
    }

    open spec fn add_req(self, rhs: Rad<T>) -> bool {
        true
    }

    open spec fn add_spec(self, rhs: Rad<T>) -> Rad<T> {
        Rad(self.0.add_spec(rhs.0))
    }
}

impl<T: BaseFloat> core::ops::Add<Rad<T>> for Rad<T> {
    type Output = Rad<T>;

    fn add(self, rhs: Rad<T>) -> (r: Rad<T>) {
        Rad(self.0.add(rhs.0))
    }
}

impl<T: BaseFloat> vstd::std_specs::ops::SubSpecImpl<Rad<T>> for Rad<T> {
    open spec fn obeys_sub_spec() -> bool {
        true
    }

    open spec fn sub_req(self, rhs: Rad<T>) -> bool {
        true
    }

    open spec fn sub_spec(self, rhs: Rad<T>) -> Rad<T> {
        Rad(self.0.sub_spec(rhs.0))
    }
}

impl<T: BaseFloat> core::ops::Sub<Rad<T>> for Rad<T> {
    type Output = Rad<T>;

    fn sub(self, rhs: Rad<T>) -> (r: Rad<T>) {
        Rad(self.0.sub(rhs.0))
    }
}

impl<T: BaseFloat> vstd::std_specs::ops::DivSpecImpl<Rad<T>> for Rad<T> {
    open spec fn obeys_div_spec() -> bool {
        true
    }

    open spec fn div_req(self, rhs: Rad<T>) -> bool {
        true
    }

    /// The ratio of two angles, a plain scalar.
    open spec fn div_spec(self, rhs: Rad<T>) -> T {
        self.0.div_spec(rhs.0)
    }
}

impl<T: BaseFloat> core::ops::Div<Rad<T>> for Rad<T> {
    type Output = T;

    fn div(self, rhs: Rad<T>) -> (r: T) {
        proof {
            T::lemma_div_total(self.0, rhs.0);
        }
        self.0.div(rhs.0)
    }
}

impl<T: BaseFloat> vstd::std_specs::ops::RemSpecImpl<Rad<T>> for Rad<T> {
    open spec fn obeys_rem_spec() -> bool {
        true
    }

    open spec fn rem_req(self, rhs: Rad<T>) -> bool {
        true
    }

    open spec fn rem_spec(self, rhs: Rad<T>) -> Rad<T> {
        Rad(self.0.rem_spec(rhs.0))
    }
}

impl<T: BaseFloat> core::ops::Rem<Rad<T>> for Rad<T> {
    type Output = Rad<T>;

    fn rem(self, rhs: Rad<T>) -> (r: Rad<T>) {
        Rad(self.0.rem(rhs.0))
    }
}

// Rad (+ - / %) scalar

impl<T: BaseFloat> vstd::std_specs::ops::AddSpecImpl<T> for Rad<T> {
    open spec fn obeys_add_spec() -> bool {
        true
    }

    open spec fn add_req(self, rhs: T) -> bool {
        true
    }

    open spec fn add_spec(self, rhs: T) -> Rad<T> {
        Rad(self.0.add_spec(rhs))
    }
}

impl<T: BaseFloat> core::ops::Add<T> for Rad<T> {
    type Output = Rad<T>;

    fn add(self, rhs: T) -> (r: Rad<T>) {
        Rad(self.0.add(rhs))
    }
}

impl<T: BaseFloat> vstd::std_specs::ops::SubSpecImpl<T> for Rad<T> {
    open spec fn obeys_sub_spec() -> bool {
        true
    }

    open spec fn sub_req(self, rhs: T) -> bool {
        true
    }

    open spec fn sub_spec(self, rhs: T) -> Rad<T> {
        Rad(self.0.sub_spec(rhs))
    }
}

impl<T: BaseFloat> core::ops::Sub<T> for Rad<T> {
    type Output = Rad<T>;

    fn sub(self, rhs: T) -> (r: Rad<T>) {
        Rad(self.0.sub(rhs))
    }
}

impl<T: BaseFloat> vstd::std_specs::ops::DivSpecImpl<T> for Rad<T> {
    open spec fn obeys_div_spec() -> bool {
        true
    }

    open spec fn div_req(self, rhs: T) -> bool {
        true
    }

    open spec fn div_spec(self, rhs: T) -> Rad<T> {
        Rad(self.0.div_spec(rhs))
    }
}

impl<T: BaseFloat> core::ops::Div<T> for Rad<T> {
    type Output = Rad<T>;

    fn div(self, rhs: T) -> (r: Rad<T>) {
        proof {
            T::lemma_div_total(self.0, rhs);
        }
        Rad(self.0.div(rhs))
    }
}

impl<T: BaseFloat> vstd::std_specs::ops::RemSpecImpl<T> for Rad<T> {
    open spec fn obeys_rem_spec() -> bool {
        true
    }

    open spec fn rem_req(self, rhs: T) -> bool {
        true
    }

    open spec fn rem_spec(self, rhs: T) -> Rad<T> {
        Rad(self.0.rem_spec(rhs))
    }
}

impl<T: BaseFloat> core::ops::Rem<T> for Rad<T> {
    type Output = Rad<T>;

    fn rem(self, rhs: T) -> (r: Rad<T>) {
        Rad(self.0.rem(rhs))
    }
}

} // verus!
