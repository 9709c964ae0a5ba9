//! Vectors of one to four components.
use crate::num::{BaseFloat, BaseNum};
use vstd::prelude::*;
use vstd::std_specs::ops::{AddSpec, DivSpec, MulSpec, NegSpec, SubSpec};

verus! {

/// A vector with one component.
#[derive(PartialEq, Eq, Copy, Clone, Hash, Debug)]
pub struct Vec1<T> {
    pub x: T,
}

/// A vector with two components.
#[derive(PartialEq, Eq, Copy, Clone, Hash, Debug)]
pub struct Vec2<T> {
    pub x: T,
    pub y: T,
}

/// A vector with three components.
#[derive(PartialEq, Eq, Copy, Clone, Hash, Debug)]
pub struct Vec3<T> {
    pub x: T,
    pub y: T,
    pub z: T,
}

/// A vector with four components.
#[derive(PartialEq, Eq, Copy, Clone, Hash, Debug)]
pub struct Vec4<T> {
    pub x: T,
    pub y: T,
    pub z: T,
    pub w: T,
}

impl<T> Vec1<T> {
    pub fn new(x: T) -> (r: Vec1<T>)
        ensures
            r == (Vec1 { x }),
    {
        Vec1 { x }
    }
}

impl<T> Vec2<T> {
    pub fn new(x: T, y: T) -> (r: Vec2<T>)
        ensures
            r == (Vec2 { x, y }),
    {
        Vec2 { x, y }
    }
}

impl<T> Vec3<T> {
    pub fn new(x: T, y: T, z: T) -> (r: Vec3<T>)
        ensures
            r == (Vec3 { x, y, z }),
    {
        Vec3 { x, y, z }
    }
}

impl<T> Vec4<T> {
    pub fn new(x: T, y: T, z: T, w: T) -> (r: Vec4<T>)
        ensures
            r == (Vec4 { x, y, z, w }),
    {
        Vec4 { x, y, z, w }
    }
}

impl<T: BaseNum> Vec3<T> {
    /// The cross product `self × other`.
    pub open spec fn cross_spec(self, other: Vec3<T>) -> Vec3<T> {
        Vec3 {
            x: self.y.mul_spec(other.z).sub_spec(self.z.mul_spec(other.y)),
            y: self.z.mul_spec(other.x).sub_spec(self.x.mul_spec(other.z)),
            z: self.x.mul_spec(other.y).sub_spec(self.y.mul_spec(other.x)),
        }
    }

    /// The dot product, summed from `x` to `z`.
    pub open spec fn dot_spec(self, other: Vec3<T>) -> T {
        self.x.mul_spec(other.x).add_spec(self.y.mul_spec(other.y)).add_spec(
            self.z.mul_spec(other.z),
        )
    }

    /// Computes the cross product of two vectors.
    pub fn cross(self, other: Vec3<T>) -> (r: Vec3<T>)
        ensures
            r == self.cross_spec(other),
    {
        Vec3::new(
            self.y.mul(other.z).sub(self.z.mul(other.y)),
            self.z.mul(other.x).sub(self.x.mul(other.z)),
            self.x.mul(other.y).sub(self.y.mul(other.x)),
        )
    }

    /// Computes the dot product of two vectors.
    pub fn dot(self, other: Vec3<T>) -> (r: T)
        ensures
            r == self.dot_spec(other),
    {
        self.x.mul(other.x).add(self.y.mul(other.y)).add(self.z.mul(other.z))
    }

    /// Builds a `Vec4` from the three components and the value `w`.
    pub fn extend(self, w: T) -> (r: Vec4<T>)
        ensures
            r == (Vec4 { x: self.x, y: self.y, z: self.z, w }),
    {
        Vec4::new(self.x, self.y, self.z, w)
    }

    /// Builds a `Vec2` by dropping `z`.
    pub fn truncate(self) -> (r: Vec2<T>)
        ensures
            r == (Vec2 { x: self.x, y: self.y }),
    {
        Vec2::new(self.x, self.y)
    }
}

impl<T: BaseFloat> Vec3<T> {
    /// The Euclidean length.
    pub open spec fn magnitude_spec(self) -> T {
        self.dot_spec(self).sqrt_spec()
    }

    /// The vector scaled by the reciprocal of its length.
    pub open spec fn normalize_spec(self) -> Vec3<T> {
        self.mul_spec(T::one_spec().div_spec(self.magnitude_spec()))
    }

    /// Computes the Euclidean length.
    pub fn magnitude(self) -> (r: T)
        ensures
            r == self.magnitude_spec(),
    {
        self.dot(self).sqrt()
    }

    /// Scales the vector to unit length. A vector of length zero yields
    /// whatever the scalar's division by zero yields.
    pub fn normalize(self) -> (r: Vec3<T>)
        ensures
            r == self.normalize_spec(),
    {
        let m = self.magnitude();
        proof {
            T::lemma_div_total(T::one_spec(), m);
        }
        self * T::one().div(m)
    }
}

impl<T: BaseNum> Vec4<T> {
    /// The dot product, summed from `x` to `w`.
    pub open spec fn dot_spec(self, other: Vec4<T>) -> T {
        self.x.mul_spec(other.x).add_spec(self.y.mul_spec(other.y)).add_spec(
            self.z.mul_spec(other.z),
        ).add_spec(self.w.mul_spec(other.w))
    }

    /// Computes the dot product of two vectors.
    pub fn dot(self, other: Vec4<T>) -> (r: T)
        ensures
            r == self.dot_spec(other),
    {
        self.x.mul(other.x).add(self.y.mul(other.y)).add(self.z.mul(other.z)).add(
            self.w.mul(other.w),
        )
    }

    /// Builds a `Vec3` by dropping `w`.
    pub fn truncate(self) -> (r: Vec3<T>)
        ensures
            r == (Vec3 { x: self.x, y: self.y, z: self.z }),
    {
        Vec3::new(self.x, self.y, self.z)
    }
}

impl<T: BaseNum> vstd::std_specs::ops::AddSpecImpl<Vec3<T>> for Vec3<T> {
    open spec fn obeys_add_spec() -> bool {
        true
    }

    open spec fn add_req(self, rhs: Vec3<T>) -> bool {
        true
    }

    /// The component-wise sum.
    open spec fn add_spec(self, rhs: Vec3<T>) -> Vec3<T> {
        Vec3 { x: self.x.add_spec(rhs.x), y: self.y.add_spec(rhs.y), z: self.z.add_spec(rhs.z) }
    }
}

impl<T: BaseNum> core::ops::Add<Vec3<T>> for Vec3<T> {
    type Output = Vec3<T>;

    fn add(self, rhs: Vec3<T>) -> (r: Vec3<T>) {
        Vec3 { x: self.x.add(rhs.x), y: self.y.add(rhs.y), z: self.z.add(rhs.z) }
    }
}

impl<T: BaseNum> vstd::std_specs::ops::SubSpecImpl<Vec3<T>> for Vec3<T> {
    open spec fn obeys_sub_spec() -> bool {
        true
    }

    open spec fn sub_req(self, rhs: Vec3<T>) -> bool {
        true
    }

    /// The component-wise difference.
    open spec fn sub_spec(self, rhs: Vec3<T>) -> Vec3<T> {
        Vec3 { x: self.x.sub_spec(rhs.x), y: self.y.sub_spec(rhs.y), z: self.z.sub_spec(rhs.z) }
    }
}

impl<T: BaseNum> core::ops::Sub<Vec3<T>> for Vec3<T> {
    type Output = Vec3<T>;

    fn sub(self, rhs: Vec3<T>) -> (r: Vec3<T>) {
        Vec3 { x: self.x.sub(rhs.x), y: self.y.sub(rhs.y), z: self.z.sub(rhs.z) }
    }
}

impl<T: BaseNum> vstd::std_specs::ops::MulSpecImpl<T> for Vec3<T> {
    open spec fn obeys_mul_spec() -> bool {
        true
    }

    open spec fn mul_req(self, rhs: T) -> bool {
        true
    }

    /// Every component multiplied by `rhs`.
    open spec fn mul_spec(self, rhs: T) -> Vec3<T> {
        Vec3 { x: self.x.mul_spec(rhs), y: self.y.mul_spec(rhs), z: self.z.mul_spec(rhs) }
    }
}

impl<T: BaseNum> core::ops::Mul<T> for Vec3<T> {
    type Output = Vec3<T>;

    fn mul(self, rhs: T) -> (r: Vec3<T>) {
        Vec3 { x: self.x.mul(rhs), y: self.y.mul(rhs), z: self.z.mul(rhs) }
    }
}

impl<T: BaseNum> vstd::std_specs::ops::DivSpecImpl<T> for Vec3<T> {
    open spec fn obeys_div_spec() -> bool {
        true
    }

    open spec fn div_req(self, rhs: T) -> bool {
        self.x.div_req(rhs) && self.y.div_req(rhs) && self.z.div_req(rhs)
    }

    /// Every component divided by `rhs`.
    open spec fn div_spec(self, rhs: T) -> Vec3<T> {
        Vec3 { x: self.x.div_spec(rhs), y: self.y.div_spec(rhs), z: self.z.div_spec(rhs) }
    }
}

impl<T: BaseNum> core::ops::Div<T> for Vec3<T> {
    type Output = Vec3<T>;

    fn div(self, rhs: T) -> (r: Vec3<T>) {
        Vec3 { x: self.x.div(rhs), y: self.y.div(rhs), z: self.z.div(rhs) }
    }
}

impl<T: BaseFloat> vstd::std_specs::ops::NegSpecImpl for Vec3<T> {
    open spec fn obeys_neg_spec() -> bool {
        true
    }

    open spec fn neg_req(self) -> bool {
        true
    }

    /// Every component negated.
    open spec fn neg_spec(self) -> Vec3<T> {
        Vec3 { x: self.x.neg_spec(), y: self.y.neg_spec(), z: self.z.neg_spec() }
    }
}

impl<T: BaseFloat> core::ops::Neg for Vec3<T> {
    type Output = Vec3<T>;

    fn neg(self) -> (r: Vec3<T>) {
        Vec3 { x: self.x.neg(), y: self.y.neg(), z: self.z.neg() }
    }
}

impl<T: BaseNum> vstd::std_specs::ops::AddSpecImpl<Vec4<T>> for Vec4<T> {
    open spec fn obeys_add_spec() -> bool {
        true
    }

    open spec fn add_req(self, rhs: Vec4<T>) -> bool {
        true
    }

    /// The component-wise sum.
    open spec fn add_spec(self, rhs: Vec4<T>) -> Vec4<T> {
        Vec4 {
            x: self.x.add_spec(rhs.x),
            y: self.y.add_spec(rhs.y),
            z: self.z.add_spec(rhs.z),
            w: self.w.add_spec(rhs.w),
        }
    }
}

impl<T: BaseNum> core::ops::Add<Vec4<T>> for Vec4<T> {
    type Output = Vec4<T>;

    fn add(self, rhs: Vec4<T>) -> (r: Vec4<T>) {
        Vec4 {
            x: self.x.add(rhs.x),
            y: self.y.add(rhs.y),
            z: self.z.add(rhs.z),
            w: self.w.add(rhs.w),
        }
    }
}

impl<T: BaseNum> vstd::std_specs::ops::SubSpecImpl<Vec4<T>> for Vec4<T> {
    open spec fn obeys_sub_spec() -> bool {
        true
    }

    open spec fn sub_req(self, rhs: Vec4<T>) -> bool {
        true
    }

    /// The component-wise difference.
    open spec fn sub_spec(self, rhs: Vec4<T>) -> Vec4<T> {
        Vec4 {
            x: self.x.sub_spec(rhs.x),
            y: self.y.sub_spec(rhs.y),
            z: self.z.sub_spec(rhs.z),
            w: self.w.sub_spec(rhs.w),
        }
    }
}

impl<T: BaseNum> core::ops::Sub<Vec4<T>> for Vec4<T> {
    type Output = Vec4<T>;

    fn sub(self, rhs: Vec4<T>) -> (r: Vec4<T>) {
        Vec4 {
            x: self.x.sub(rhs.x),
            y: self.y.sub(rhs.y),
            z: self.z.sub(rhs.z),
            w: self.w.sub(rhs.w),
        }
    }
}

impl<T: BaseNum> vstd::std_specs::ops::MulSpecImpl<T> for Vec4<T> {
    open spec fn obeys_mul_spec() -> bool {
        true
    }

    open spec fn mul_req(self, rhs: T) -> bool {
        true
    }

    /// Every component multiplied by `rhs`.
    open spec fn mul_spec(self, rhs: T) -> Vec4<T> {
        Vec4 {
            x: self.x.mul_spec(rhs),
            y: self.y.mul_spec(rhs),
            z: self.z.mul_spec(rhs),
            w: self.w.mul_spec(rhs),
        }
    }
}

impl<T: BaseNum> core::ops::Mul<T> for Vec4<T> {
    type Output = Vec4<T>;

    fn mul(self, rhs: T) -> (r: Vec4<T>) {
        Vec4 { x: self.x.mul(rhs), y: self.y.mul(rhs), z: self.z.mul(rhs), w: self.w.mul(rhs) }
    }
}

impl<T: BaseNum> vstd::std_specs::ops::DivSpecImpl<T> for Vec4<T> {
    open spec fn obeys_div_spec() -> bool {
        true
    }

    open spec fn div_req(self, rhs: T) -> bool {
        self.x.div_req(rhs) && self.y.div_req(rhs) && self.z.div_req(rhs) && self.w.div_req(rhs)
    }

    /// Every component divided by `rhs`.
    open spec fn div_spec(self, rhs: T) -> Vec4<T> {
        Vec4 {
            x: self.x.div_spec(rhs),
            y: self.y.div_spec(rhs),
            z: self.z.div_spec(rhs),
            w: self.w.div_spec(rhs),
        }
    }
}

impl<T: BaseNum> core::ops::Div<T> for Vec4<T> {
    type Output = Vec4<T>;

    fn div(self, rhs: T) -> (r: Vec4<T>) {
        Vec4 { x: self.x.div(rhs), y: self.y.div(rhs), z: self.z.div(rhs), w: self.w.div(rhs) }
    }
}

impl<T: BaseFloat> vstd::std_specs::ops::NegSpecImpl for Vec4<T> {
    open spec fn obeys_neg_spec() -> bool {
        true
    }

    open spec fn neg_req(self) -> bool {
        true
    }

    /// Every component negated.
    open spec fn neg_spec(self) -> Vec4<T> {
        Vec4 {
            x: self.x.neg_spec(),
            y: self.y.neg_spec(),
            z: self.z.neg_spec(),
            w: self.w.neg_spec(),
        }
    }
}

impl<T: BaseFloat> core::ops::Neg for Vec4<T> {
    type Output = Vec4<T>;

    fn neg(self) -> (r: Vec4<T>) {
        Vec4 { x: self.x.neg(), y: self.y.neg(), z: self.z.neg(), w: self.w.neg() }
    }
}

impl<T: BaseNum> vstd::std_specs::ops::AddSpecImpl<Vec1<T>> for Vec1<T> {
    open spec fn obeys_add_spec() -> bool {
        true
    }

    open spec fn add_req(self, rhs: Vec1<T>) -> bool {
        true
    }

    /// The component-wise sum.
    open spec fn add_spec(self, rhs: Vec1<T>) -> Vec1<T> {
        Vec1 { x: self.x.add_spec(rhs.x) }
    }
}

impl<T: BaseNum> core::ops::Add<Vec1<T>> for Vec1<T> {
    type Output = Vec1<T>;

    fn add(self, rhs: Vec1<T>) -> (r: Vec1<T>) {
        Vec1 { x: self.x.add(rhs.x) }
    }
}

impl<T: BaseNum> vstd::std_specs::ops::SubSpecImpl<Vec1<T>> for Vec1<T> {
    open spec fn obeys_sub_spec() -> bool {
        true
    }

    open spec fn sub_req(self, rhs: Vec1<T>) -> bool {
        true
    }

    /// The component-wise difference.
    open spec fn sub_spec(self, rhs: Vec1<T>) -> Vec1<T> {
        Vec1 { x: self.x.sub_spec(rhs.x) }
    }
}

impl<T: BaseNum> core::ops::Sub<Vec1<T>> for Vec1<T> {
    type Output = Vec1<T>;

    fn sub(self, rhs: Vec1<T>) -> (r: Vec1<T>) {
        Vec1 { x: self.x.sub(rhs.x) }
    }
}

impl<T: BaseNum> vstd::std_specs::ops::MulSpecImpl<T> for Vec1<T> {
    open spec fn obeys_mul_spec() -> bool {
        true
    }

    open spec fn mul_req(self, rhs: T) -> bool {
        true
    }

    /// Every component multiplied by `rhs`.
    open spec fn mul_spec(self, rhs: T) -> Vec1<T> {
        Vec1 { x: self.x.mul_spec(rhs) }
    }
}

impl<T: BaseNum> core::ops::Mul<T> for Vec1<T> {
    type Output = Vec1<T>;

    fn mul(self, rhs: T) -> (r: Vec1<T>) {
        Vec1 { x: self.x.mul(rhs) }
    }
}

impl<T: BaseNum> vstd::std_specs::ops::DivSpecImpl<T> for Vec1<T> {
    open spec fn obeys_div_spec() -> bool {
        true
    }

    open spec fn div_req(self, rhs: T) -> bool {
        self.x.div_req(rhs)
    }

    /// Every component divided by `rhs`.
    open spec fn div_spec(self, rhs: T) -> Vec1<T> {
        Vec1 { x: self.x.div_spec(rhs) }
    }
}

impl<T: BaseNum> core::ops::Div<T> for Vec1<T> {
    type Output = Vec1<T>;

    fn div(self, rhs: T) -> (r: Vec1<T>) {
        Vec1 { x: self.x.div(rhs) }
    }
}

impl<T: BaseFloat> vstd::std_specs::ops::NegSpecImpl for Vec1<T> {
    open spec fn obeys_neg_spec() -> bool {
        true
    }

    open spec fn neg_req(self) -> bool {
        true
    }

    /// Every component negated.
    open spec fn neg_spec(self) -> Vec1<T> {
        Vec1 { x: self.x.neg_spec() }
    }
}

impl<T: BaseFloat> core::ops::Neg for Vec1<T> {
    type Output = Vec1<T>;

    fn neg(self) -> (r: Vec1<T>) {
        Vec1 { x: self.x.neg() }
    }
}

impl<T: BaseNum> vstd::std_specs::ops::AddSpecImpl<Vec2<T>> for Vec2<T> {
    open spec fn obeys_add_spec() -> bool {
        true
    }

    open spec fn add_req(self, rhs: Vec2<T>) -> bool {
        true
    }

    /// The component-wise sum.
    open spec fn add_spec(self, rhs: Vec2<T>) -> Vec2<T> {
        Vec2 { x: self.x.add_spec(rhs.x), y: self.y.add_spec(rhs.y) }
    }
}

impl<T: BaseNum> core::ops::Add<Vec2<T>> for Vec2<T> {
    type Output = Vec2<T>;

    fn add(self, rhs: Vec2<T>) -> (r: Vec2<T>) {
        Vec2 { x: self.x.add(rhs.x), y: self.y.add(rhs.y) }
    }
}

impl<T: BaseNum> vstd::std_specs::ops::SubSpecImpl<Vec2<T>> for Vec2<T> {
    open spec fn obeys_sub_spec() -> bool {
        true
    }

    open spec fn sub_req(self, rhs: Vec2<T>) -> bool {
        true
    }

    /// The component-wise difference.
    open spec fn sub_spec(self, rhs: Vec2<T>) -> Vec2<T> {
        Vec2 { x: self.x.sub_spec(rhs.x), y: self.y.sub_spec(rhs.y) }
    }
}

impl<T: BaseNum> core::ops::Sub<Vec2<T>> for Vec2<T> {
    type Output = Vec2<T>;

    fn sub(self, rhs: Vec2<T>) -> (r: Vec2<T>) {
        Vec2 { x: self.x.sub(rhs.x), y: self.y.sub(rhs.y) }
    }
}

impl<T: BaseNum> vstd::std_specs::ops::MulSpecImpl<T> for Vec2<T> {
    open spec fn obeys_mul_spec() -> bool {
        true
    }

    open spec fn mul_req(self, rhs: T) -> bool {
        true
    }

    /// Every component multiplied by `rhs`.
    open spec fn mul_spec(self, rhs: T) -> Vec2<T> {
        Vec2 { x: self.x.mul_spec(rhs), y: self.y.mul_spec(rhs) }
    }
}

impl<T: BaseNum> core::ops::Mul<T> for Vec2<T> {
    type Output = Vec2<T>;

    fn mul(self, rhs: T) -> (r: Vec2<T>) {
        Vec2 { x: self.x.mul(rhs), y: self.y.mul(rhs) }
    }
}

impl<T: BaseNum> vstd::std_specs::ops::DivSpecImpl<T> for Vec2<T> {
    open spec fn obeys_div_spec() -> bool {
        true
    }

    open spec fn div_req(self, rhs: T) -> bool {
        self.x.div_req(rhs) && self.y.div_req(rhs)
    }

    /// Every component divided by `rhs`.
    open spec fn div_spec(self, rhs: T) -> Vec2<T> {
        Vec2 { x: self.x.div_spec(rhs), y: self.y.div_spec(rhs) }
    }
}

impl<T: BaseNum> core::ops::Div<T> for Vec2<T> {
    type Output = Vec2<T>;

    fn div(self, rhs: T) -> (r: Vec2<T>) {
        Vec2 { x: self.x.div(rhs), y: self.y.div(rhs) }
    }
}

impl<T: BaseFloat> vstd::std_specs::ops::NegSpecImpl for Vec2<T> {
    open spec fn obeys_neg_spec() -> bool {
        true
    }

    open spec fn neg_req(self) -> bool {
        true
    }

    /// Every component negated.
    open spec fn neg_spec(self) -> Vec2<T> {
        Vec2 { x: self.x.neg_spec(), y: self.y.neg_spec() }
    }
}

impl<T: BaseFloat> core::ops::Neg for Vec2<T> {
    type Output = Vec2<T>;

    fn neg(self) -> (r: Vec2<T>) {
        Vec2 { x: self.x.neg(), y: self.y.neg() }
    }
}

impl<T: Copy> Vec1<T> {
    /// The number of components, one.
    pub fn len() -> (n: usize)
        ensures
            n == 1,
    {
        1
    }

    /// The vector whose components all equal `scalar`.
    pub fn from_value(scalar: T) -> (r: Vec1<T>)
        ensures
            r == (Vec1 { x: scalar }),
    {
        Vec1 { x: scalar }
    }
}

impl<T: BaseNum> Vec1<T> {
    /// The sum of the components, added from `x` onwards.
    pub open spec fn sum_spec(self) -> T {
        self.x
    }

    /// Adds up the components.
    pub fn sum(self) -> (r: T)
        ensures
            r == self.sum_spec(),
    {
        self.x
    }

    /// The vector of zeros.
    pub fn zero() -> (r: Vec1<T>)
        ensures
            r == (Vec1 { x: T::zero_spec() }),
    {
        Vec1::from_value(T::zero())
    }
}

impl<T: Copy> Vec2<T> {
    /// The number of components, two.
    pub fn len() -> (n: usize)
        ensures
            n == 2,
    {
        2
    }

    /// The vector whose components all equal `scalar`.
    pub fn from_value(scalar: T) -> (r: Vec2<T>)
        ensures
            r == (Vec2 { x: scalar, y: scalar }),
    {
        Vec2 { x: scalar, y: scalar }
    }
}

impl<T: BaseNum> Vec2<T> {
    /// The sum of the components, added from `x` onwards.
    pub open spec fn sum_spec(self) -> T {
        self.x.add_spec(self.y)
    }

    /// Adds up the components.
    pub fn sum(self) -> (r: T)
        ensures
            r == self.sum_spec(),
    {
        self.x.add(self.y)
    }

    /// The vector of zeros.
    pub fn zero() -> (r: Vec2<T>)
        ensures
            r == (Vec2 { x: T::zero_spec(), y: T::zero_spec() }),
    {
        Vec2::from_value(T::zero())
    }
}

impl<T: Copy> Vec3<T> {
    /// The number of components, three.
    pub fn len() -> (n: usize)
        ensures
            n == 3,
    {
        3
    }

    /// The vector whose components all equal `scalar`.
    pub fn from_value(scalar: T) -> (r: Vec3<T>)
        ensures
            r == (Vec3 { x: scalar, y: scalar, z: scalar }),
    {
        Vec3 { x: scalar, y: scalar, z: scalar }
    }
}

impl<T: BaseNum> Vec3<T> {
    /// The sum of the components, added from `x` onwards.
    pub open spec fn sum_spec(self) -> T {
        self.x.add_spec(self.y).add_spec(self.z)
    }

    /// Adds up the components.
    pub fn sum(self) -> (r: T)
        ensures
            r == self.sum_spec(),
    {
        self.x.add(self.y).add(self.z)
    }

    /// The vector of zeros.
    pub fn zero() -> (r: Vec3<T>)
        ensures
            r == (Vec3 { x: T::zero_spec(), y: T::zero_spec(), z: T::zero_spec() }),
    {
        Vec3::from_value(T::zero())
    }
}

impl<T: Copy> Vec4<T> {
    /// The number of components, four.
    pub fn len() -> (n: usize)
        ensures
            n == 4,
    {
        4
    }

    /// The vector whose components all equal `scalar`.
    pub fn from_value(scalar: T) -> (r: Vec4<T>)
        ensures
            r == (Vec4 { x: scalar, y: scalar, z: scalar, w: scalar }),
    {
        Vec4 { x: scalar, y: scalar, z: scalar, w: scalar }
    }
}

impl<T: BaseNum> Vec4<T> {
    /// The sum of the components, added from `x` onwards.
    pub open spec fn sum_spec(self) -> T {
        self.x.add_spec(self.y).add_spec(self.z).add_spec(self.w)
    }

    /// Adds up the components.
    pub fn sum(self) -> (r: T)
        ensures
            r == self.sum_spec(),
    {
        self.x.add(self.y).add(self.z).add(self.w)
    }

    /// The vector of zeros.
    pub fn zero() -> (r: Vec4<T>)
        ensures
            r == (Vec4 {
                x: T::zero_spec(),
                y: T::zero_spec(),
                z: T::zero_spec(),
                w: T::zero_spec(),
            }),
    {
        Vec4::from_value(T::zero())
    }
}

impl<T> vstd::std_specs::convert::FromSpecImpl<Vec1<T>> for [T; 1] {
    open spec fn obeys_from_spec() -> bool {
        true
    }

    /// The components in order, `x` first.
    open spec fn from_spec(v: Vec1<T>) -> [T; 1] {
        [v.x]
    }
}

impl<T> From<Vec1<T>> for [T; 1] {
    fn from(v: Vec1<T>) -> (r: [T; 1]) {
        [v.x]
    }
}

impl<T: Copy> vstd::std_specs::convert::FromSpecImpl<[T; 1]> for Vec1<T> {
    open spec fn obeys_from_spec() -> bool {
        true
    }

    /// The entries in order, the first as `x`.
    open spec fn from_spec(a: [T; 1]) -> Vec1<T> {
        Vec1 { x: a[0] }
    }
}

impl<T: Copy> From<[T; 1]> for Vec1<T> {
    fn from(a: [T; 1]) -> (r: Vec1<T>) {
        Vec1 { x: a[0] }
    }
}

impl<T> vstd::std_specs::convert::FromSpecImpl<Vec2<T>> for [T; 2] {
    open spec fn obeys_from_spec() -> bool {
        true
    }

    /// The components in order, `x` first.
    open spec fn from_spec(v: Vec2<T>) -> [T; 2] {
        [v.x, v.y]
    }
}

impl<T> From<Vec2<T>> for [T; 2] {
    fn from(v: Vec2<T>) -> (r: [T; 2]) {
        [v.x, v.y]
    }
}

impl<T: Copy> vstd::std_specs::convert::FromSpecImpl<[T; 2]> for Vec2<T> {
    open spec fn obeys_from_spec() -> bool {
        true
    }

    /// The entries in order, the first as `x`.
    open spec fn from_spec(a: [T; 2]) -> Vec2<T> {
        Vec2 { x: a[0], y: a[1] }
    }
}

impl<T: Copy> From<[T; 2]> for Vec2<T> {
    fn from(a: [T; 2]) -> (r: Vec2<T>) {
        Vec2 { x: a[0], y: a[1] }
    }
}

impl<T> vstd::std_specs::convert::FromSpecImpl<Vec3<T>> for [T; 3] {
    open spec fn obeys_from_spec() -> bool {
        true
    }

    /// The components in order, `x` first.
    open spec fn from_spec(v: Vec3<T>) -> [T; 3] {
        [v.x, v.y, v.z]
    }
}

impl<T> From<Vec3<T>> for [T; 3] {
    fn from(v: Vec3<T>) -> (r: [T; 3]) {
        [v.x, v.y, v.z]
    }
}

impl<T: Copy> vstd::std_specs::convert::FromSpecImpl<[T; 3]> for Vec3<T> {
    open spec fn obeys_from_spec() -> bool {
        true
    }

    /// The entries in order, the first as `x`.
    open spec fn from_spec(a: [T; 3]) -> Vec3<T> {
        Vec3 { x: a[0], y: a[1], z: a[2] }
    }
}

impl<T: Copy> From<[T; 3]> for Vec3<T> {
    fn from(a: [T; 3]) -> (r: Vec3<T>) {
        Vec3 { x: a[0], y: a[1], z: a[2] }
    }
}

impl<T> vstd::std_specs::convert::FromSpecImpl<Vec4<T>> for [T; 4] {
    open spec fn obeys_from_spec() -> bool {
        true
    }

    /// The components in order, `x` first.
    open spec fn from_spec(v: Vec4<T>) -> [T; 4] {
        [v.x, v.y, v.z, v.w]
    }
}

impl<T> From<Vec4<T>> for [T; 4] {
    fn from(v: Vec4<T>) -> (r: [T; 4]) {
        [v.x, v.y, v.z, v.w]
    }
}

impl<T: Copy> vstd::std_specs::convert::FromSpecImpl<[T; 4]> for Vec4<T> {
    open spec fn obeys_from_spec() -> bool {
        true
    }

    /// The entries in order, the first as `x`.
    open spec fn from_spec(a: [T; 4]) -> Vec4<T> {
        Vec4 { x: a[0], y: a[1], z: a[2], w: a[3] }
    }
}

impl<T: Copy> From<[T; 4]> for Vec4<T> {
    fn from(a: [T; 4]) -> (r: Vec4<T>) {
        Vec4 { x: a[0], y: a[1], z: a[2], w: a[3] }
    }
}

impl<T: BaseNum> vstd::std_specs::ops::MulSpecImpl<Vec1<T>> for Vec1<T> {
    open spec fn obeys_mul_spec() -> bool {
        true
    }

    open spec fn mul_req(self, rhs: Vec1<T>) -> bool {
        true
    }

    /// The component-wise product.
    open spec fn mul_spec(self, rhs: Vec1<T>) -> Vec1<T> {
        Vec1 { x: self.x.mul_spec(rhs.x) }
    }
}

impl<T: BaseNum> core::ops::Mul<Vec1<T>> for Vec1<T> {
    type Output = Vec1<T>;

    fn mul(self, rhs: Vec1<T>) -> (r: Vec1<T>) {
        Vec1 { x: self.x.mul(rhs.x) }
    }
}

impl<T: BaseNum> vstd::std_specs::ops::DivSpecImpl<Vec1<T>> for Vec1<T> {
    open spec fn obeys_div_spec() -> bool {
        true
    }

    /// Every component of `self` can be divided by its counterpart in `rhs`.
    open spec fn div_req(self, rhs: Vec1<T>) -> bool {
        self.x.div_req(rhs.x)
    }

    /// The component-wise quotient.
    open spec fn div_spec(self, rhs: Vec1<T>) -> Vec1<T> {
        Vec1 { x: self.x.div_spec(rhs.x) }
    }
}

impl<T: BaseNum> core::ops::Div<Vec1<T>> for Vec1<T> {
    type Output = Vec1<T>;

    fn div(self, rhs: Vec1<T>) -> (r: Vec1<T>) {
        Vec1 { x: self.x.div(rhs.x) }
    }
}

impl<T: BaseNum> vstd::std_specs::ops::AddSpecImpl<T> for Vec1<T> {
    open spec fn obeys_add_spec() -> bool {
        true
    }

    open spec fn add_req(self, rhs: T) -> bool {
        true
    }

    /// Every component with `rhs` added.
    open spec fn add_spec(self, rhs: T) -> Vec1<T> {
        Vec1 { x: self.x.add_spec(rhs) }
    }
}

impl<T: BaseNum> core::ops::Add<T> for Vec1<T> {
    type Output = Vec1<T>;

    fn add(self, rhs: T) -> (r: Vec1<T>) {
        Vec1 { x: self.x.add(rhs) }
    }
}

impl<T: BaseNum> vstd::std_specs::ops::SubSpecImpl<T> for Vec1<T> {
    open spec fn obeys_sub_spec() -> bool {
        true
    }

    open spec fn sub_req(self, rhs: T) -> bool {
        true
    }

    /// Every component with `rhs` subtracted.
    open spec fn sub_spec(self, rhs: T) -> Vec1<T> {
        Vec1 { x: self.x.sub_spec(rhs) }
    }
}

impl<T: BaseNum> core::ops::Sub<T> for Vec1<T> {
    type Output = Vec1<T>;

    fn sub(self, rhs: T) -> (r: Vec1<T>) {
        Vec1 { x: self.x.sub(rhs) }
    }
}

impl<T: BaseNum> vstd::std_specs::ops::MulSpecImpl<Vec2<T>> for Vec2<T> {
    open spec fn obeys_mul_spec() -> bool {
        true
    }

    open spec fn mul_req(self, rhs: Vec2<T>) -> bool {
        true
    }

    /// The component-wise product.
    open spec fn mul_spec(self, rhs: Vec2<T>) -> Vec2<T> {
        Vec2 { x: self.x.mul_spec(rhs.x), y: self.y.mul_spec(rhs.y) }
    }
}

impl<T: BaseNum> core::ops::Mul<Vec2<T>> for Vec2<T> {
    type Output = Vec2<T>;

    fn mul(self, rhs: Vec2<T>) -> (r: Vec2<T>) {
        Vec2 { x: self.x.mul(rhs.x), y: self.y.mul(rhs.y) }
    }
}

impl<T: BaseNum> vstd::std_specs::ops::DivSpecImpl<Vec2<T>> for Vec2<T> {
    open spec fn obeys_div_spec() -> bool {
        true
    }

    /// Every component of `self` can be divided by its counterpart in `rhs`.
    open spec fn div_req(self, rhs: Vec2<T>) -> bool {
        self.x.div_req(rhs.x) && self.y.div_req(rhs.y)
    }

    /// The component-wise quotient.
    open spec fn div_spec(self, rhs: Vec2<T>) -> Vec2<T> {
        Vec2 { x: self.x.div_spec(rhs.x), y: self.y.div_spec(rhs.y) }
    }
}

impl<T: BaseNum> core::ops::Div<Vec2<T>> for Vec2<T> {
    type Output = Vec2<T>;

    fn div(self, rhs: Vec2<T>) -> (r: Vec2<T>) {
        Vec2 { x: self.x.div(rhs.x), y: self.y.div(rhs.y) }
    }
}

impl<T: BaseNum> vstd::std_specs::ops::AddSpecImpl<T> for Vec2<T> {
    open spec fn obeys_add_spec() -> bool {
        true
    }

    open spec fn add_req(self, rhs: T) -> bool {
        true
    }

    /// Every component with `rhs` added.
    open spec fn add_spec(self, rhs: T) -> Vec2<T> {
        Vec2 { x: self.x.add_spec(rhs), y: self.y.add_spec(rhs) }
    }
}

impl<T: BaseNum> core::ops::Add<T> for Vec2<T> {
    type Output = Vec2<T>;

    fn add(self, rhs: T) -> (r: Vec2<T>) {
        Vec2 { x: self.x.add(rhs), y: self.y.add(rhs) }
    }
}

impl<T: BaseNum> vstd::std_specs::ops::SubSpecImpl<T> for Vec2<T> {
    open spec fn obeys_sub_spec() -> bool {
        true
    }

    open spec fn sub_req(self, rhs: T) -> bool {
        true
    }

    /// Every component with `rhs` subtracted.
    open spec fn sub_spec(self, rhs: T) -> Vec2<T> {
        Vec2 { x: self.x.sub_spec(rhs), y: self.y.sub_spec(rhs) }
    }
}

impl<T: BaseNum> core::ops::Sub<T> for Vec2<T> {
    type Output = Vec2<T>;

    fn sub(self, rhs: T) -> (r: Vec2<T>) {
        Vec2 { x: self.x.sub(rhs), y: self.y.sub(rhs) }
    }
}

impl<T: BaseNum> vstd::std_specs::ops::MulSpecImpl<Vec3<T>> for Vec3<T> {
    open spec fn obeys_mul_spec() -> bool {
        true
    }

    open spec fn mul_req(self, rhs: Vec3<T>) -> bool {
        true
    }

    /// The component-wise product.
    open spec fn mul_spec(self, rhs: Vec3<T>) -> Vec3<T> {
        Vec3 { x: self.x.mul_spec(rhs.x), y: self.y.mul_spec(rhs.y), z: self.z.mul_spec(rhs.z) }
    }
}

impl<T: BaseNum> core::ops::Mul<Vec3<T>> for Vec3<T> {
    type Output = Vec3<T>;

    fn mul(self, rhs: Vec3<T>) -> (r: Vec3<T>) {
        Vec3 { x: self.x.mul(rhs.x), y: self.y.mul(rhs.y), z: self.z.mul(rhs.z) }
    }
}

impl<T: BaseNum> vstd::std_specs::ops::DivSpecImpl<Vec3<T>> for Vec3<T> {
    open spec fn obeys_div_spec() -> bool {
        true
    }

    /// Every component of `self` can be divided by its counterpart in `rhs`.
    open spec fn div_req(self, rhs: Vec3<T>) -> bool {
        self.x.div_req(rhs.x) && self.y.div_req(rhs.y) && self.z.div_req(rhs.z)
    }

    /// The component-wise quotient.
    open spec fn div_spec(self, rhs: Vec3<T>) -> Vec3<T> {
        Vec3 { x: self.x.div_spec(rhs.x), y: self.y.div_spec(rhs.y), z: self.z.div_spec(rhs.z) }
    }
}

impl<T: BaseNum> core::ops::Div<Vec3<T>> for Vec3<T> {
    type Output = Vec3<T>;

    fn div(self, rhs: Vec3<T>) -> (r: Vec3<T>) {
        Vec3 { x: self.x.div(rhs.x), y: self.y.div(rhs.y), z: self.z.div(rhs.z) }
    }
}

impl<T: BaseNum> vstd::std_specs::ops::AddSpecImpl<T> for Vec3<T> {
    open spec fn obeys_add_spec() -> bool {
        true
    }

    open spec fn add_req(self, rhs: T) -> bool {
        true
    }

    /// Every component with `rhs` added.
    open spec fn add_spec(self, rhs: T) -> Vec3<T> {
        Vec3 { x: self.x.add_spec(rhs), y: self.y.add_spec(rhs), z: self.z.add_spec(rhs) }
    }
}

impl<T: BaseNum> core::ops::Add<T> for Vec3<T> {
    type Output = Vec3<T>;

    fn add(self, rhs: T) -> (r: Vec3<T>) {
        Vec3 { x: self.x.add(rhs), y: self.y.add(rhs), z: self.z.add(rhs) }
    }
}

impl<T: BaseNum> vstd::std_specs::ops::SubSpecImpl<T> for Vec3<T> {
    open spec fn obeys_sub_spec() -> bool {
        true
    }

    open spec fn sub_req(self, rhs: T) -> bool {
        true
    }

    /// Every component with `rhs` subtracted.
    open spec fn sub_spec(self, rhs: T) -> Vec3<T> {
        Vec3 { x: self.x.sub_spec(rhs), y: self.y.sub_spec(rhs), z: self.z.sub_spec(rhs) }
    }
}

impl<T: BaseNum> core::ops::Sub<T> for Vec3<T> {
    type Output = Vec3<T>;

    fn sub(self, rhs: T) -> (r: Vec3<T>) {
        Vec3 { x: self.x.sub(rhs), y: self.y.sub(rhs), z: self.z.sub(rhs) }
    }
}

impl<T: BaseNum> vstd::std_specs::ops::MulSpecImpl<Vec4<T>> for Vec4<T> {
    open spec fn obeys_mul_spec() -> bool {
        true
    }

    open spec fn mul_req(self, rhs: Vec4<T>) -> bool {
        true
    }

    /// The component-wise product.
    open spec fn mul_spec(self, rhs: Vec4<T>) -> Vec4<T> {
        Vec4 {
            x: self.x.mul_spec(rhs.x),
            y: self.y.mul_spec(rhs.y),
            z: self.z.mul_spec(rhs.z),
            w: self.w.mul_spec(rhs.w),
        }
    }
}

impl<T: BaseNum> core::ops::Mul<Vec4<T>> for Vec4<T> {
    type Output = Vec4<T>;

    fn mul(self, rhs: Vec4<T>) -> (r: Vec4<T>) {
        Vec4 {
            x: self.x.mul(rhs.x),
            y: self.y.mul(rhs.y),
            z: self.z.mul(rhs.z),
            w: self.w.mul(rhs.w),
        }
    }
}

impl<T: BaseNum> vstd::std_specs::ops::DivSpecImpl<Vec4<T>> for Vec4<T> {
    open spec fn obeys_div_spec() -> bool {
        true
    }

    /// Every component of `self` can be divided by its counterpart in `rhs`.
    open spec fn div_req(self, rhs: Vec4<T>) -> bool {
        self.x.div_req(rhs.x)
            && self.y.div_req(rhs.y)
            && self.z.div_req(rhs.z)
            && self.w.div_req(rhs.w)
    }

    /// The component-wise quotient.
    open spec fn div_spec(self, rhs: Vec4<T>) -> Vec4<T> {
        Vec4 {
            x: self.x.div_spec(rhs.x),
            y: self.y.div_spec(rhs.y),
            z: self.z.div_spec(rhs.z),
            w: self.w.div_spec(rhs.w),
        }
    }
}

impl<T: BaseNum> core::ops::Div<Vec4<T>> for Vec4<T> {
    type Output = Vec4<T>;

    fn div(self, rhs: Vec4<T>) -> (r: Vec4<T>) {
        Vec4 {
            x: self.x.div(rhs.x),
            y: self.y.div(rhs.y),
            z: self.z.div(rhs.z),
            w: self.w.div(rhs.w),
        }
    }
}

impl<T: BaseNum> vstd::std_specs::ops::AddSpecImpl<T> for Vec4<T> {
    open spec fn obeys_add_spec() -> bool {
        true
    }

    open spec fn add_req(self, rhs: T) -> bool {
        true
    }

    /// Every component with `rhs` added.
    open spec fn add_spec(self, rhs: T) -> Vec4<T> {
        Vec4 {
            x: self.x.add_spec(rhs),
            y: self.y.add_spec(rhs),
            z: self.z.add_spec(rhs),
            w: self.w.add_spec(rhs),
        }
    }
}

impl<T: BaseNum> core::ops::Add<T> for Vec4<T> {
    type Output = Vec4<T>;

    fn add(self, rhs: T) -> (r: Vec4<T>) {
        Vec4 { x: self.x.add(rhs), y: self.y.add(rhs), z: self.z.add(rhs), w: self.w.add(rhs) }
    }
}

impl<T: BaseNum> vstd::std_specs::ops::SubSpecImpl<T> for Vec4<T> {
    open spec fn obeys_sub_spec() -> bool {
        true
    }

    open spec fn sub_req(self, rhs: T) -> bool {
        true
    }

    /// Every component with `rhs` subtracted.
    open spec fn sub_spec(self, rhs: T) -> Vec4<T> {
        Vec4 {
            x: self.x.sub_spec(rhs),
            y: self.y.sub_spec(rhs),
            z: self.z.sub_spec(rhs),
            w: self.w.sub_spec(rhs),
        }
    }
}

impl<T: BaseNum> core::ops::Sub<T> for Vec4<T> {
    type Output = Vec4<T>;

    fn sub(self, rhs: T) -> (r: Vec4<T>) {
        Vec4 { x: self.x.sub(rhs), y: self.y.sub(rhs), z: self.z.sub(rhs), w: self.w.sub(rhs) }
    }
}

impl<T> vstd::std_specs::convert::FromSpecImpl<Vec1<T>> for (T,) {
    open spec fn obeys_from_spec() -> bool {
        true
    }

    /// The components in order, `x` first.
    open spec fn from_spec(v: Vec1<T>) -> (T,) {
        (v.x,)
    }
}

impl<T> From<Vec1<T>> for (T,) {
    fn from(v: Vec1<T>) -> (r: (T,)) {
        (v.x,)
    }
}

impl<T> vstd::std_specs::convert::FromSpecImpl<(T,)> for Vec1<T> {
    open spec fn obeys_from_spec() -> bool {
        true
    }

    /// The entries in order, the first for `x`.
    open spec fn from_spec(t: (T,)) -> Vec1<T> {
        Vec1 { x: t.0 }
    }
}

impl<T> From<(T,)> for Vec1<T> {
    fn from(t: (T,)) -> (r: Vec1<T>) {
        Vec1 { x: t.0 }
    }
}

impl<T> vstd::std_specs::convert::FromSpecImpl<Vec2<T>> for (T, T) {
    open spec fn obeys_from_spec() -> bool {
        true
    }

    /// The components in order, `x` first.
    open spec fn from_spec(v: Vec2<T>) -> (T, T) {
        (v.x, v.y)
    }
}

impl<T> From<Vec2<T>> for (T, T) {
    fn from(v: Vec2<T>) -> (r: (T, T)) {
        (v.x, v.y)
    }
}

impl<T> vstd::std_specs::convert::FromSpecImpl<(T, T)> for Vec2<T> {
    open spec fn obeys_from_spec() -> bool {
        true
    }

    /// The entries in order, the first for `x`.
    open spec fn from_spec(t: (T, T)) -> Vec2<T> {
        Vec2 { x: t.0, y: t.1 }
    }
}

impl<T> From<(T, T)> for Vec2<T> {
    fn from(t: (T, T)) -> (r: Vec2<T>) {
        Vec2 { x: t.0, y: t.1 }
    }
}

impl<T> vstd::std_specs::convert::FromSpecImpl<Vec3<T>> for (T, T, T) {
    open spec fn obeys_from_spec() -> bool {
        true
    }

    /// The components in order, `x` first.
    open spec fn from_spec(v: Vec3<T>) -> (T, T, T) {
        (v.x, v.y, v.z)
    }
}

impl<T> From<Vec3<T>> for (T, T, T) {
    fn from(v: Vec3<T>) -> (r: (T, T, T)) {
        (v.x, v.y, v.z)
    }
}

impl<T> vstd::std_specs::convert::FromSpecImpl<(T, T, T)> for Vec3<T> {
    open spec fn obeys_from_spec() -> bool {
        true
    }

    /// The entries in order, the first for `x`.
    open spec fn from_spec(t: (T, T, T)) -> Vec3<T> {
        Vec3 { x: t.0, y: t.1, z: t.2 }
    }
}

impl<T> From<(T, T, T)> for Vec3<T> {
    fn from(t: (T, T, T)) -> (r: Vec3<T>) {
        Vec3 { x: t.0, y: t.1, z: t.2 }
    }
}

impl<T> vstd::std_specs::convert::FromSpecImpl<Vec4<T>> for (T, T, T, T) {
    open spec fn obeys_from_spec() -> bool {
        true
    }

    /// The components in order, `x` first.
    open spec fn from_spec(v: Vec4<T>) -> (T, T, T, T) {
        (v.x, v.y, v.z, v.w)
    }
}

impl<T> From<Vec4<T>> for (T, T, T, T) {
    fn from(v: Vec4<T>) -> (r: (T, T, T, T)) {
        (v.x, v.y, v.z, v.w)
    }
}

impl<T> vstd::std_specs::convert::FromSpecImpl<(T, T, T, T)> for Vec4<T> {
    open spec fn obeys_from_spec() -> bool {
        true
    }

    /// The entries in order, the first for `x`.
    open spec fn from_spec(t: (T, T, T, T)) -> Vec4<T> {
        Vec4 { x: t.0, y: t.1, z: t.2, w: t.3 }
    }
}

impl<T> From<(T, T, T, T)> for Vec4<T> {
    fn from(t: (T, T, T, T)) -> (r: Vec4<T>) {
        Vec4 { x: t.0, y: t.1, z: t.2, w: t.3 }
    }
}

impl<T: BaseFloat> Vec1<T> {
    /// Every component is finite.
    pub open spec fn is_finite_spec(self) -> bool {
        self.x.is_finite_spec()
    }

    /// Tests whether every component is finite.
    pub fn is_finite(&self) -> (r: bool)
        ensures
            r == self.is_finite_spec(),
    {
        self.x.is_finite()
    }
}

impl<T: BaseFloat> Vec2<T> {
    /// Every component is finite.
    pub open spec fn is_finite_spec(self) -> bool {
        self.x.is_finite_spec() && self.y.is_finite_spec()
    }

    /// Tests whether every component is finite.
    pub fn is_finite(&self) -> (r: bool)
        ensures
            r == self.is_finite_spec(),
    {
        self.x.is_finite() && self.y.is_finite()
    }
}

impl<T: BaseFloat> Vec3<T> {
    /// Every component is finite.
    pub open spec fn is_finite_spec(self) -> bool {
        self.x.is_finite_spec() && self.y.is_finite_spec() && self.z.is_finite_spec()
    }

    /// Tests whether every component is finite.
    pub fn is_finite(&self) -> (r: bool)
        ensures
            r == self.is_finite_spec(),
    {
        self.x.is_finite() && self.y.is_finite() && self.z.is_finite()
    }
}

impl<T: BaseFloat> Vec4<T> {
    /// Every component is finite.
    pub open spec fn is_finite_spec(self) -> bool {
        self.x.is_finite_spec()
            && self.y.is_finite_spec()
            && self.z.is_finite_spec()
            && self.w.is_finite_spec()
    }

    /// Tests whether every component is finite.
    pub fn is_finite(&self) -> (r: bool)
        ensures
            r == self.is_finite_spec(),
    {
        self.x.is_finite() && self.y.is_finite() && self.z.is_finite() && self.w.is_finite()
    }
}

} // verus!
