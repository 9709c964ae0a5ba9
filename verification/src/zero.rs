//! Tests for the zero vector.
//!
//! Whether two scalars are equal is the scalar's own `==`. Where that operator
//! promises to agree with its specification, so does the test built on it.
use crate::num::BaseNum;
use crate::vector::{Vec1, Vec2, Vec3, Vec4};
use vstd::prelude::*;
use vstd::std_specs::cmp::PartialEqSpec;

verus! {

impl<T: BaseNum + PartialEq> Vec1<T> {
    /// Every component equals the scalar zero.
    pub open spec fn is_zero_spec(self) -> bool {
        self.x.eq_spec(&T::zero_spec())
    }

    /// Tests whether the vector is the zero vector.
    pub fn is_zero(&self) -> (r: bool)
        ensures
            T::obeys_eq_spec() ==> r == self.is_zero_spec(),
    {
        let zero = T::zero();
        self.x == zero
    }
}

impl<T: BaseNum + PartialEq> Vec2<T> {
    /// Every component equals the scalar zero.
    pub open spec fn is_zero_spec(self) -> bool {
        self.x.eq_spec(&T::zero_spec())
            && self.y.eq_spec(&T::zero_spec())
    }

    /// Tests whether the vector is the zero vector.
    pub fn is_zero(&self) -> (r: bool)
        ensures
            T::obeys_eq_spec() ==> r == self.is_zero_spec(),
    {
        let zero = T::zero();
        self.x == zero && self.y == zero
    }
}

impl<T: BaseNum + PartialEq> Vec3<T> {
    /// Every component equals the scalar zero.
    pub open spec fn is_zero_spec(self) -> bool {
        self.x.eq_spec(&T::zero_spec())
            && self.y.eq_spec(&T::zero_spec())
            && self.z.eq_spec(&T::zero_spec())
    }

    /// Tests whether the vector is the zero vector.
    pub fn is_zero(&self) -> (r: bool)
        ensures
            T::obeys_eq_spec() ==> r == self.is_zero_spec(),
    {
        let zero = T::zero();
        self.x == zero && self.y == zero && self.z == zero
    }
}

impl<T: BaseNum + PartialEq> Vec4<T> {
    /// Every component equals the scalar zero.
    pub open spec fn is_zero_spec(self) -> bool {
        self.x.eq_spec(&T::zero_spec())
            && self.y.eq_spec(&T::zero_spec())
            && self.z.eq_spec(&T::zero_spec())
            && self.w.eq_spec(&T::zero_spec())
    }

    /// Tests whether the vector is the zero vector.
    pub fn is_zero(&self) -> (r: bool)
        ensures
            T::obeys_eq_spec() ==> r == self.is_zero_spec(),
    {
        let zero = T::zero();
        self.x == zero && self.y == zero && self.z == zero && self.w == zero
    }
}

} // verus!
