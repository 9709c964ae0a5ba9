//! Points of one to three coordinates.
use crate::num::BaseNum;
use crate::vector::{Vec1, Vec2, Vec3, Vec4};
use vstd::prelude::*;
use vstd::std_specs::ops::MulSpec;

verus! {

/// A point on a line.
#[derive(PartialEq, Eq, Copy, Clone, Hash, Debug)]
pub struct Point1<T> {
    pub x: T,
}

/// A point in the plane.
#[derive(PartialEq, Eq, Copy, Clone, Hash, Debug)]
pub struct Point2<T> {
    pub x: T,
    pub y: T,
}

/// A point in space.
#[derive(PartialEq, Eq, Copy, Clone, Hash, Debug)]
pub struct Point3<T> {
    pub x: T,
    pub y: T,
    pub z: T,
}

impl<T> Point1<T> {
    pub fn new(x: T) -> (r: Point1<T>)
        ensures
            r == (Point1 { x }),
    {
        Point1 { x }
    }
}

impl<T> Point2<T> {
    pub fn new(x: T, y: T) -> (r: Point2<T>)
        ensures
            r == (Point2 { x, y }),
    {
        Point2 { x, y }
    }
}

impl<T> Point3<T> {
    pub fn new(x: T, y: T, z: T) -> (r: Point3<T>)
        ensures
            r == (Point3 { x, y, z }),
    {
        Point3 { x, y, z }
    }
}

impl<T: BaseNum> Point1<T> {
    /// The point at zero.
    pub fn origin() -> (r: Point1<T>)
        ensures
            r == (Point1 { x: T::zero_spec() }),
    {
        Point1 { x: T::zero() }
    }

    /// The point at the tip of `v`.
    pub fn from_vec(v: Vec1<T>) -> (r: Point1<T>)
        ensures
            r == (Point1 { x: v.x }),
    {
        Point1::new(v.x)
    }

    /// The vector from the origin to the point.
    pub fn to_vec(self) -> (r: Vec1<T>)
        ensures
            r == (Vec1 { x: self.x }),
    {
        Vec1::new(self.x)
    }

    /// The dot product of the point's position vector with `v`.
    pub fn dot(self, v: Vec1<T>) -> (r: T)
        ensures
            r == self.x.mul_spec(v.x),
    {
        self.x.mul(v.x)
    }
}

impl<T: BaseNum> Point2<T> {
    /// The point at zero.
    pub fn origin() -> (r: Point2<T>)
        ensures
            r == (Point2 { x: T::zero_spec(), y: T::zero_spec() }),
    {
        Point2 { x: T::zero(), y: T::zero() }
    }

    /// The point at the tip of `v`.
    pub fn from_vec(v: Vec2<T>) -> (r: Point2<T>)
        ensures
            r == (Point2 { x: v.x, y: v.y }),
    {
        Point2::new(v.x, v.y)
    }

    /// The vector from the origin to the point.
    pub fn to_vec(self) -> (r: Vec2<T>)
        ensures
            r == (Vec2 { x: self.x, y: self.y }),
    {
        Vec2::new(self.x, self.y)
    }

    /// The dot product of the point's position vector with `v`.
    pub fn dot(self, v: Vec2<T>) -> (r: T)
        ensures
            r == self.x.mul_spec(v.x).add_spec(self.y.mul_spec(v.y)),
    {
        self.x.mul(v.x).add(self.y.mul(v.y))
    }
}

impl<T: BaseNum> Point3<T> {
    /// The point that the homogeneous vector `v` stands for: its first three
    /// components, each multiplied by `1 / v.w`.
    pub open spec fn from_homogeneous_spec(v: Vec4<T>) -> Point3<T> {
        let k = T::one_spec().div_spec(v.w);
        Point3 { x: v.x.mul_spec(k), y: v.y.mul_spec(k), z: v.z.mul_spec(k) }
    }

    /// Projects a homogeneous vector back to a point.
    pub fn from_homogeneous(v: Vec4<T>) -> (r: Point3<T>)
        requires
            T::one_spec().div_req(v.w),
        ensures
            r == Self::from_homogeneous_spec(v),
    {
        let vec = v.truncate() * T::one().div(v.w);
        Point3::new(vec.x, vec.y, vec.z)
    }

    /// The point as a homogeneous vector, with `w` equal to one.
    pub fn to_homogeneous(self) -> (r: Vec4<T>)
        ensures
            r == (Vec4 { x: self.x, y: self.y, z: self.z, w: T::one_spec() }),
    {
        Vec4::new(self.x, self.y, self.z, T::one())
    }

    /// The point at zero.
    pub fn origin() -> (r: Point3<T>)
        ensures
            r == (Point3 { x: T::zero_spec(), y: T::zero_spec(), z: T::zero_spec() }),
    {
        Point3 { x: T::zero(), y: T::zero(), z: T::zero() }
    }

    /// The point at the tip of `v`.
    pub fn from_vec(v: Vec3<T>) -> (r: Point3<T>)
        ensures
            r == (Point3 { x: v.x, y: v.y, z: v.z }),
    {
        Point3::new(v.x, v.y, v.z)
    }

    /// The vector from the origin to the point.
    pub fn to_vec(self) -> (r: Vec3<T>)
        ensures
            r == (Vec3 { x: self.x, y: self.y, z: self.z }),
    {
        Vec3::new(self.x, self.y, self.z)
    }

    /// The dot product of the point's position vector with `v`.
    pub fn dot(self, v: Vec3<T>) -> (r: T)
        ensures
            r == (Vec3 { x: self.x, y: self.y, z: self.z }).dot_spec(v),
    {
        self.to_vec().dot(v)
    }
}

impl<T> vstd::std_specs::convert::FromSpecImpl<Point1<T>> for [T; 1] {
    open spec fn obeys_from_spec() -> bool {
        true
    }

    /// The components in order, `x` first.
    open spec fn from_spec(v: Point1<T>) -> [T; 1] {
        [v.x]
    }
}

impl<T> From<Point1<T>> for [T; 1] {
    fn from(v: Point1<T>) -> (r: [T; 1]) {
        [v.x]
    }
}

impl<T: Copy> vstd::std_specs::convert::FromSpecImpl<[T; 1]> for Point1<T> {
    open spec fn obeys_from_spec() -> bool {
        true
    }

    /// The entries in order, the first as `x`.
    open spec fn from_spec(a: [T; 1]) -> Point1<T> {
        Point1 { x: a[0] }
    }
}

impl<T: Copy> From<[T; 1]> for Point1<T> {
    fn from(a: [T; 1]) -> (r: Point1<T>) {
        Point1 { x: a[0] }
    }
}

impl<T> vstd::std_specs::convert::FromSpecImpl<Point2<T>> for [T; 2] {
    open spec fn obeys_from_spec() -> bool {
        true
    }

    /// The components in order, `x` first.
    open spec fn from_spec(v: Point2<T>) -> [T; 2] {
        [v.x, v.y]
    }
}

impl<T> From<Point2<T>> for [T; 2] {
    fn from(v: Point2<T>) -> (r: [T; 2]) {
        [v.x, v.y]
    }
}

impl<T: Copy> vstd::std_specs::convert::FromSpecImpl<[T; 2]> for Point2<T> {
    open spec fn obeys_from_spec() -> bool {
        true
    }

    /// The entries in order, the first as `x`.
    open spec fn from_spec(a: [T; 2]) -> Point2<T> {
        Point2 { x: a[0], y: a[1] }
    }
}

impl<T: Copy> From<[T; 2]> for Point2<T> {
    fn from(a: [T; 2]) -> (r: Point2<T>) {
        Point2 { x: a[0], y: a[1] }
    }
}

impl<T> vstd::std_specs::convert::FromSpecImpl<Point3<T>> for [T; 3] {
    open spec fn obeys_from_spec() -> bool {
        true
    }

    /// The components in order, `x` first.
    open spec fn from_spec(v: Point3<T>) -> [T; 3] {
        [v.x, v.y, v.z]
    }
}

impl<T> From<Point3<T>> for [T; 3] {
    fn from(v: Point3<T>) -> (r: [T; 3]) {
        [v.x, v.y, v.z]
    }
}

impl<T: Copy> vstd::std_specs::convert::FromSpecImpl<[T; 3]> for Point3<T> {
    open spec fn obeys_from_spec() -> bool {
        true
    }

    /// The entries in order, the first as `x`.
    open spec fn from_spec(a: [T; 3]) -> Point3<T> {
        Point3 { x: a[0], y: a[1], z: a[2] }
    }
}

impl<T: Copy> From<[T; 3]> for Point3<T> {
    fn from(a: [T; 3]) -> (r: Point3<T>) {
        Point3 { x: a[0], y: a[1], z: a[2] }
    }
}

impl<T> vstd::std_specs::convert::FromSpecImpl<Point1<T>> for (T,) {
    open spec fn obeys_from_spec() -> bool {
        true
    }

    /// The components in order, `x` first.
    open spec fn from_spec(v: Point1<T>) -> (T,) {
        (v.x,)
    }
}

impl<T> From<Point1<T>> for (T,) {
    fn from(v: Point1<T>) -> (r: (T,)) {
        (v.x,)
    }
}

impl<T> vstd::std_specs::convert::FromSpecImpl<(T,)> for Point1<T> {
    open spec fn obeys_from_spec() -> bool {
        true
    }

    /// The entries in order, the first for `x`.
    open spec fn from_spec(t: (T,)) -> Point1<T> {
        Point1 { x: t.0 }
    }
}

impl<T> From<(T,)> for Point1<T> {
    fn from(t: (T,)) -> (r: Point1<T>) {
        Point1 { x: t.0 }
    }
}

impl<T> vstd::std_specs::convert::FromSpecImpl<Point2<T>> for (T, T) {
    open spec fn obeys_from_spec() -> bool {
        true
    }

    /// The components in order, `x` first.
    open spec fn from_spec(v: Point2<T>) -> (T, T) {
        (v.x, v.y)
    }
}

impl<T> From<Point2<T>> for (T, T) {
    fn from(v: Point2<T>) -> (r: (T, T)) {
        (v.x, v.y)
    }
}

impl<T> vstd::std_specs::convert::FromSpecImpl<(T, T)> for Point2<T> {
    open spec fn obeys_from_spec() -> bool {
        true
    }

    /// The entries in order, the first for `x`.
    open spec fn from_spec(t: (T, T)) -> Point2<T> {
        Point2 { x: t.0, y: t.1 }
    }
}

impl<T> From<(T, T)> for Point2<T> {
    fn from(t: (T, T)) -> (r: Point2<T>) {
        Point2 { x: t.0, y: t.1 }
    }
}

impl<T> vstd::std_specs::convert::FromSpecImpl<Point3<T>> for (T, T, T) {
    open spec fn obeys_from_spec() -> bool {
        true
    }

    /// The components in order, `x` first.
    open spec fn from_spec(v: Point3<T>) -> (T, T, T) {
        (v.x, v.y, v.z)
    }
}

impl<T> From<Point3<T>> for (T, T, T) {
    fn from(v: Point3<T>) -> (r: (T, T, T)) {
        (v.x, v.y, v.z)
    }
}

impl<T> vstd::std_specs::convert::FromSpecImpl<(T, T, T)> for Point3<T> {
    open spec fn obeys_from_spec() -> bool {
        true
    }

    /// The entries in order, the first for `x`.
    open spec fn from_spec(t: (T, T, T)) -> Point3<T> {
        Point3 { x: t.0, y: t.1, z: t.2 }
    }
}

impl<T> From<(T, T, T)> for Point3<T> {
    fn from(t: (T, T, T)) -> (r: Point3<T>) {
        Point3 { x: t.0, y: t.1, z: t.2 }
    }
}

} // verus!
