//! Column-major 4x4 matrices and the elementary transforms built from them.
use crate::angle::Rad;
use crate::num::{BaseFloat, BaseNum};
use crate::point::Point3;
use crate::vector::{Vec3, Vec4};
use vstd::prelude::*;
use vstd::std_specs::ops::{AddSpec, MulSpec};

verus! {

/// A 4x4 matrix, stored as four column vectors.
#[derive(Copy, Clone, PartialEq, Debug)]
pub struct Matrix4x4<T> {
    pub c0: Vec4<T>,
    pub c1: Vec4<T>,
    pub c2: Vec4<T>,
    pub c3: Vec4<T>,
}

impl<T> Matrix4x4<T> {
    /// Builds a matrix from sixteen entries, column by column.
    #[allow(clippy::too_many_arguments)]
    pub fn new(
        c0r0: T,
        c0r1: T,
        c0r2: T,
        c0r3: T,
        c1r0: T,
        c1r1: T,
        c1r2: T,
        c1r3: T,
        c2r0: T,
        c2r1: T,
        c2r2: T,
        c2r3: T,
        c3r0: T,
        c3r1: T,
        c3r2: T,
        c3r3: T,
    ) -> (r: Matrix4x4<T>)
        ensures
            r.c0 == (Vec4 { x: c0r0, y: c0r1, z: c0r2, w: c0r3 }),
            r.c1 == (Vec4 { x: c1r0, y: c1r1, z: c1r2, w: c1r3 }),
            r.c2 == (Vec4 { x: c2r0, y: c2r1, z: c2r2, w: c2r3 }),
            r.c3 == (Vec4 { x: c3r0, y: c3r1, z: c3r2, w: c3r3 }),
    {
        Self::from_cols(
            Vec4::new(c0r0, c0r1, c0r2, c0r3),
            Vec4::new(c1r0, c1r1, c1r2, c1r3),
            Vec4::new(c2r0, c2r1, c2r2, c2r3),
            Vec4::new(c3r0, c3r1, c3r2, c3r3),
        )
    }

    /// Builds a matrix from its four columns.
    pub fn from_cols(c0: Vec4<T>, c1: Vec4<T>, c2: Vec4<T>, c3: Vec4<T>) -> (r: Matrix4x4<T>)
        ensures
            r == (Matrix4x4 { c0, c1, c2, c3 }),
    {
        Matrix4x4 { c0, c1, c2, c3 }
    }
}

impl<T: BaseNum> Matrix4x4<T> {
    /// Row `r` of the matrix; rows past the fourth read as the fourth.
    pub open spec fn row_spec(self, r: int) -> Vec4<T> {
        if r == 0 {
            Vec4 { x: self.c0.x, y: self.c1.x, z: self.c2.x, w: self.c3.x }
        } else if r == 1 {
            Vec4 { x: self.c0.y, y: self.c1.y, z: self.c2.y, w: self.c3.y }
        } else if r == 2 {
            Vec4 { x: self.c0.z, y: self.c1.z, z: self.c2.z, w: self.c3.z }
        } else {
            Vec4 { x: self.c0.w, y: self.c1.w, z: self.c2.w, w: self.c3.w }
        }
    }

    /// The identity matrix.
    pub open spec fn identity_spec() -> Matrix4x4<T> {
        let o = T::one_spec();
        let z = T::zero_spec();
        Matrix4x4 {
            c0: Vec4 { x: o, y: z, z: z, w: z },
            c1: Vec4 { x: z, y: o, z: z, w: z },
            c2: Vec4 { x: z, y: z, z: o, w: z },
            c3: Vec4 { x: z, y: z, z: z, w: o },
        }
    }

    /// The translation by `xyz`: the identity with `xyz` in the last column.
    pub open spec fn translate_spec(xyz: Vec3<T>) -> Matrix4x4<T> {
        let o = T::one_spec();
        let z = T::zero_spec();
        Matrix4x4 {
            c0: Vec4 { x: o, y: z, z: z, w: z },
            c1: Vec4 { x: z, y: o, z: z, w: z },
            c2: Vec4 { x: z, y: z, z: o, w: z },
            c3: Vec4 { x: xyz.x, y: xyz.y, z: xyz.z, w: o },
        }
    }

    /// The scaling by `xyz`: a diagonal of `xyz` and one.
    pub open spec fn scale_spec(xyz: Vec3<T>) -> Matrix4x4<T> {
        let o = T::one_spec();
        let z = T::zero_spec();
        Matrix4x4 {
            c0: Vec4 { x: xyz.x, y: z, z: z, w: z },
            c1: Vec4 { x: z, y: xyz.y, z: z, w: z },
            c2: Vec4 { x: z, y: z, z: xyz.z, w: z },
            c3: Vec4 { x: z, y: z, z: z, w: o },
        }
    }

    /// The linear combination of the columns of `self` with the components of
    /// `v` as weights, summed from the first column to the last.
    pub open spec fn combine_spec(self, v: Vec4<T>) -> Vec4<T> {
        self.c0.mul_spec(v.x).add_spec(self.c1.mul_spec(v.y)).add_spec(
            self.c2.mul_spec(v.z),
        ).add_spec(self.c3.mul_spec(v.w))
    }

    /// Every entry multiplied by `s`.
    pub open spec fn scaled_spec(self, s: T) -> Matrix4x4<T> {
        Matrix4x4 {
            c0: self.c0.mul_spec(s),
            c1: self.c1.mul_spec(s),
            c2: self.c2.mul_spec(s),
            c3: self.c3.mul_spec(s),
        }
    }

    /// Returns row `r` of the matrix.
    pub fn row(&self, r: usize) -> (v: Vec4<T>)
        requires
            r < 4,
        ensures
            v == self.row_spec(r as int),
    {
        if r == 0 {
            Vec4::new(self.c0.x, self.c1.x, self.c2.x, self.c3.x)
        } else if r == 1 {
            Vec4::new(self.c0.y, self.c1.y, self.c2.y, self.c3.y)
        } else if r == 2 {
            Vec4::new(self.c0.z, self.c1.z, self.c2.z, self.c3.z)
        } else {
            Vec4::new(self.c0.w, self.c1.w, self.c2.w, self.c3.w)
        }
    }

    /// Builds the identity matrix.
    pub fn identity() -> (r: Matrix4x4<T>)
        ensures
            r == Self::identity_spec(),
    {
        Self::from_cols(
            Vec4::new(T::one(), T::zero(), T::zero(), T::zero()),
            Vec4::new(T::zero(), T::one(), T::zero(), T::zero()),
            Vec4::new(T::zero(), T::zero(), T::one(), T::zero()),
            Vec4::new(T::zero(), T::zero(), T::zero(), T::one()),
        )
    }

    /// Builds the translation matrix for the offset `xyz`.
    pub fn from_translate(xyz: Vec3<T>) -> (r: Matrix4x4<T>)
        ensures
            r == Self::translate_spec(xyz),
    {
        Self::from_cols(
            Vec4::new(T::one(), T::zero(), T::zero(), T::zero()),
            Vec4::new(T::zero(), T::one(), T::zero(), T::zero()),
            Vec4::new(T::zero(), T::zero(), T::one(), T::zero()),
            Vec4::new(xyz.x, xyz.y, xyz.z, T::one()),
        )
    }

    /// Builds the scaling matrix for the factors `xyz`.
    pub fn from_scale(xyz: Vec3<T>) -> (r: Matrix4x4<T>)
        ensures
            r == Self::scale_spec(xyz),
    {
        Self::from_cols(
            Vec4::new(xyz.x, T::zero(), T::zero(), T::zero()),
            Vec4::new(T::zero(), xyz.y, T::zero(), T::zero()),
            Vec4::new(T::zero(), T::zero(), xyz.z, T::zero()),
            Vec4::new(T::zero(), T::zero(), T::zero(), T::one()),
        )
    }
}

impl<T: BaseFloat> Matrix4x4<T> {
    /// The rotation about the x axis whose angle has sine `sin` and cosine
    /// `cos`.
    pub open spec fn rotate_x_spec(sin: T, cos: T) -> Matrix4x4<T> {
        let o = T::one_spec();
        let z = T::zero_spec();
        Matrix4x4 {
            c0: Vec4 { x: o, y: z, z: z, w: z },
            c1: Vec4 { x: z, y: cos, z: sin, w: z },
            c2: Vec4 { x: z, y: sin.neg_spec(), z: cos, w: z },
            c3: Vec4 { x: z, y: z, z: z, w: o },
        }
    }

    /// The rotation about the y axis whose angle has sine `sin` and cosine
    /// `cos`.
    pub open spec fn rotate_y_spec(sin: T, cos: T) -> Matrix4x4<T> {
        let o = T::one_spec();
        let z = T::zero_spec();
        Matrix4x4 {
            c0: Vec4 { x: cos, y: z, z: sin, w: z },
            c1: Vec4 { x: z, y: o, z: z, w: z },
            c2: Vec4 { x: sin.neg_spec(), y: z, z: cos, w: z },
            c3: Vec4 { x: z, y: z, z: z, w: o },
        }
    }

    /// The rotation about the z axis whose angle has sine `sin` and cosine
    /// `cos`.
    pub open spec fn rotate_z_spec(sin: T, cos: T) -> Matrix4x4<T> {
        let o = T::one_spec();
        let z = T::zero_spec();
        Matrix4x4 {
            c0: Vec4 { x: cos, y: sin, z: z, w: z },
            c1: Vec4 { x: sin.neg_spec(), y: cos, z: z, w: z },
            c2: Vec4 { x: z, y: z, z: o, w: z },
            c3: Vec4 { x: z, y: z, z: z, w: o },
        }
    }

    /// The right-handed view matrix of a camera at `eye` whose z axis points
    /// along `direction`, with `up` as the vertical reference: the change of
    /// basis onto the camera's axes, applied after moving `eye` to the origin.
    pub open spec fn look_at_rh_spec(eye: Point3<T>, direction: Vec3<T>, up: Vec3<T>) -> Matrix4x4<
        T,
    > {
        let z = T::zero_spec();
        let dir = direction.normalize_spec();
        let right = up.cross_spec(dir).normalize_spec();
        let top = dir.cross_spec(right);
        let basis = Matrix4x4 {
            c0: Vec4 { x: right.x, y: top.x, z: dir.x, w: z },
            c1: Vec4 { x: right.y, y: top.y, z: dir.y, w: z },
            c2: Vec4 { x: right.z, y: top.z, z: dir.z, w: z },
            c3: Vec4 { x: z, y: z, z: z, w: T::one_spec() },
        };
        basis.mul_spec(
            Self::translate_spec(
                Vec3 { x: eye.x.neg_spec(), y: eye.y.neg_spec(), z: eye.z.neg_spec() },
            ),
        )
    }

    /// Builds the view matrix that looks from `eye` along `direction`, using
    /// `up` as the vertical reference.
    pub fn look_at_rh(eye: Point3<T>, direction: Vec3<T>, up: Vec3<T>) -> (r: Matrix4x4<T>)
        ensures
            r == Self::look_at_rh_spec(eye, direction, up),
    {
        // The camera's z axis.
        let dir = direction.normalize();
        // The camera's horizontal axis, perpendicular to `up` and `dir`.
        let right = up.cross(dir).normalize();
        // The camera's own vertical axis.
        let up = dir.cross(right);
        let look_at_matrix = Matrix4x4::new(
            right.x,
            up.x,
            dir.x,
            T::zero(),
            right.y,
            up.y,
            dir.y,
            T::zero(),
            right.z,
            up.z,
            dir.z,
            T::zero(),
            T::zero(),
            T::zero(),
            T::zero(),
            T::one(),
        );
        let translation_matrix = Self::from_translate(
            Vec3::new(eye.x.neg(), eye.y.neg(), eye.z.neg()),
        );
        look_at_matrix * translation_matrix
    }

    /// Builds the rotation about the x axis by `angle`.
    pub fn from_rotate_x(angle: Rad<T>) -> (r: Matrix4x4<T>)
        ensures
            r == Self::rotate_x_spec(angle.0.sin_spec(), angle.0.cos_spec()),
    {
        let (sin, cos) = angle.0.sin_cos();
        Self::from_cols(
            Vec4::new(T::one(), T::zero(), T::zero(), T::zero()),
            Vec4::new(T::zero(), cos, sin, T::zero()),
            Vec4::new(T::zero(), sin.neg(), cos, T::zero()),
            Vec4::new(T::zero(), T::zero(), T::zero(), T::one()),
        )
    }

    /// Builds the rotation about the y axis by `angle`.
    pub fn from_rotate_y(angle: Rad<T>) -> (r: Matrix4x4<T>)
        ensures
            r == Self::rotate_y_spec(angle.0.sin_spec(), angle.0.cos_spec()),
    {
        let (sin, cos) = angle.0.sin_cos();
        Self::from_cols(
            Vec4::new(cos, T::zero(), sin, T::zero()),
            Vec4::new(T::zero(), T::one(), T::zero(), T::zero()),
            Vec4::new(sin.neg(), T::zero(), cos, T::zero()),
            Vec4::new(T::zero(), T::zero(), T::zero(), T::one()),
        )
    }

    /// Builds the rotation about the z axis by `angle`.
    pub fn from_rotate_z(angle: Rad<T>) -> (r: Matrix4x4<T>)
        ensures
            r == Self::rotate_z_spec(angle.0.sin_spec(), angle.0.cos_spec()),
    {
        let (sin, cos) = angle.0.sin_cos();
        Self::from_cols(
            Vec4::new(cos, sin, T::zero(), T::zero()),
            Vec4::new(sin.neg(), cos, T::zero(), T::zero()),
            Vec4::new(T::zero(), T::zero(), T::one(), T::zero()),
            Vec4::new(T::zero(), T::zero(), T::zero(), T::one()),
        )
    }

    /// Builds the rotation about x by `angle_x`, then about y by `angle_y`,
    /// then about z by `angle_z`, composed in that order of multiplication.
    pub fn from_rotate(angle_x: Rad<T>, angle_y: Rad<T>, angle_z: Rad<T>) -> (r: Matrix4x4<T>)
        ensures
            r == Self::rotate_x_spec(angle_x.0.sin_spec(), angle_x.0.cos_spec()).mul_spec(
                Self::rotate_y_spec(angle_y.0.sin_spec(), angle_y.0.cos_spec()),
            ).mul_spec(Self::rotate_z_spec(angle_z.0.sin_spec(), angle_z.0.cos_spec())),
    {
        Self::from_rotate_x(angle_x) * Self::from_rotate_y(angle_y) * Self::from_rotate_z(angle_z)
    }
}

impl<T: BaseNum> vstd::std_specs::ops::MulSpecImpl<Matrix4x4<T>> for Matrix4x4<T> {
    open spec fn obeys_mul_spec() -> bool {
        true
    }

    open spec fn mul_req(self, rhs: Matrix4x4<T>) -> bool {
        true
    }

    /// The matrix product: column `j` of the result combines the columns of
    /// `self` with column `j` of `rhs` as weights.
    open spec fn mul_spec(self, rhs: Matrix4x4<T>) -> Matrix4x4<T> {
        Matrix4x4 {
            c0: self.combine_spec(rhs.c0),
            c1: self.combine_spec(rhs.c1),
            c2: self.combine_spec(rhs.c2),
            c3: self.combine_spec(rhs.c3),
        }
    }
}

impl<T: BaseNum> core::ops::Mul<Matrix4x4<T>> for Matrix4x4<T> {
    type Output = Matrix4x4<T>;

    fn mul(self, rhs: Matrix4x4<T>) -> (r: Matrix4x4<T>) {
        let a = self.c0;
        let b = self.c1;
        let c = self.c2;
        let d = self.c3;
        Matrix4x4::from_cols(
            a * rhs.c0.x + b * rhs.c0.y + c * rhs.c0.z + d * rhs.c0.w,
            a * rhs.c1.x + b * rhs.c1.y + c * rhs.c1.z + d * rhs.c1.w,
            a * rhs.c2.x + b * rhs.c2.y + c * rhs.c2.z + d * rhs.c2.w,
            a * rhs.c3.x + b * rhs.c3.y + c * rhs.c3.z + d * rhs.c3.w,
        )
    }
}

impl<T: BaseNum> vstd::std_specs::ops::MulSpecImpl<T> for Matrix4x4<T> {
    open spec fn obeys_mul_spec() -> bool {
        true
    }

    open spec fn mul_req(self, rhs: T) -> bool {
        true
    }

    /// Every entry multiplied by `rhs`.
    open spec fn mul_spec(self, rhs: T) -> Matrix4x4<T> {
        self.scaled_spec(rhs)
    }
}

impl<T: BaseNum> core::ops::Mul<T> for Matrix4x4<T> {
    type Output = Matrix4x4<T>;

    fn mul(self, rhs: T) -> (r: Matrix4x4<T>) {
        Matrix4x4 { c0: self.c0 * rhs, c1: self.c1 * rhs, c2: self.c2 * rhs, c3: self.c3 * rhs }
    }
}

impl<T: BaseNum> vstd::std_specs::ops::MulSpecImpl<Vec4<T>> for Matrix4x4<T> {
    open spec fn obeys_mul_spec() -> bool {
        true
    }

    open spec fn mul_req(self, rhs: Vec4<T>) -> bool {
        true
    }

    /// The matrix applied to a column vector: component `i` of the result is
    /// the dot product of row `i` with `rhs`.
    open spec fn mul_spec(self, rhs: Vec4<T>) -> Vec4<T> {
        Vec4 {
            x: self.row_spec(0).dot_spec(rhs),
            y: self.row_spec(1).dot_spec(rhs),
            z: self.row_spec(2).dot_spec(rhs),
            w: self.row_spec(3).dot_spec(rhs),
        }
    }
}

impl<T: BaseNum> core::ops::Mul<Vec4<T>> for Matrix4x4<T> {
    type Output = Vec4<T>;

    fn mul(self, rhs: Vec4<T>) -> (r: Vec4<T>) {
        Vec4::new(
            self.row(0).dot(rhs),
            self.row(1).dot(rhs),
            self.row(2).dot(rhs),
            self.row(3).dot(rhs),
        )
    }
}

impl<T> vstd::std_specs::convert::FromSpecImpl<Matrix4x4<T>> for [[T; 4]; 4] {
    open spec fn obeys_from_spec() -> bool {
        true
    }

    /// The columns in order, each with `x` first.
    open spec fn from_spec(m: Matrix4x4<T>) -> [[T; 4]; 4] {
        [
            [m.c0.x, m.c0.y, m.c0.z, m.c0.w],
            [m.c1.x, m.c1.y, m.c1.z, m.c1.w],
            [m.c2.x, m.c2.y, m.c2.z, m.c2.w],
            [m.c3.x, m.c3.y, m.c3.z, m.c3.w],
        ]
    }
}

impl<T> From<Matrix4x4<T>> for [[T; 4]; 4] {
    fn from(m: Matrix4x4<T>) -> (r: [[T; 4]; 4]) {
        [
            [m.c0.x, m.c0.y, m.c0.z, m.c0.w],
            [m.c1.x, m.c1.y, m.c1.z, m.c1.w],
            [m.c2.x, m.c2.y, m.c2.z, m.c2.w],
            [m.c3.x, m.c3.y, m.c3.z, m.c3.w],
        ]
    }
}

impl<T: Copy> vstd::std_specs::convert::FromSpecImpl<[[T; 4]; 4]> for Matrix4x4<T> {
    open spec fn obeys_from_spec() -> bool {
        true
    }

    /// The entries of `m` as columns, in order.
    open spec fn from_spec(m: [[T; 4]; 4]) -> Matrix4x4<T> {
        Matrix4x4 {
            c0: Vec4 { x: m[0][0], y: m[0][1], z: m[0][2], w: m[0][3] },
            c1: Vec4 { x: m[1][0], y: m[1][1], z: m[1][2], w: m[1][3] },
            c2: Vec4 { x: m[2][0], y: m[2][1], z: m[2][2], w: m[2][3] },
            c3: Vec4 { x: m[3][0], y: m[3][1], z: m[3][2], w: m[3][3] },
        }
    }
}

impl<T: Copy> From<[[T; 4]; 4]> for Matrix4x4<T> {
    fn from(m: [[T; 4]; 4]) -> (r: Matrix4x4<T>) {
        Matrix4x4 {
            c0: Vec4 { x: m[0][0], y: m[0][1], z: m[0][2], w: m[0][3] },
            c1: Vec4 { x: m[1][0], y: m[1][1], z: m[1][2], w: m[1][3] },
            c2: Vec4 { x: m[2][0], y: m[2][1], z: m[2][2], w: m[2][3] },
            c3: Vec4 { x: m[3][0], y: m[3][1], z: m[3][2], w: m[3][3] },
        }
    }
}

/// The three scalar laws, all for one scalar.
proof fn lemma_scalar<T: BaseNum>(a: T)
    ensures
        a.add_spec(T::zero_spec()) == a,
        T::zero_spec().add_spec(a) == a,
        a.mul_spec(T::one_spec()) == a,
        T::one_spec().mul_spec(a) == a,
        a.mul_spec(T::zero_spec()) == T::zero_spec(),
        T::zero_spec().mul_spec(a) == T::zero_spec(),
{
    T::lemma_add_zero(a);
    T::lemma_mul_one(a);
    T::lemma_mul_zero(a);
}

/// The three scalar laws for the four components of a vector.
proof fn lemma_scalars<T: BaseNum>(v: Vec4<T>)
    ensures
        v.x.add_spec(T::zero_spec()) == v.x && T::zero_spec().add_spec(v.x) == v.x,
        v.y.add_spec(T::zero_spec()) == v.y && T::zero_spec().add_spec(v.y) == v.y,
        v.z.add_spec(T::zero_spec()) == v.z && T::zero_spec().add_spec(v.z) == v.z,
        v.w.add_spec(T::zero_spec()) == v.w && T::zero_spec().add_spec(v.w) == v.w,
        v.x.mul_spec(T::one_spec()) == v.x && T::one_spec().mul_spec(v.x) == v.x,
        v.y.mul_spec(T::one_spec()) == v.y && T::one_spec().mul_spec(v.y) == v.y,
        v.z.mul_spec(T::one_spec()) == v.z && T::one_spec().mul_spec(v.z) == v.z,
        v.w.mul_spec(T::one_spec()) == v.w && T::one_spec().mul_spec(v.w) == v.w,
        v.x.mul_spec(T::zero_spec()) == T::zero_spec() && T::zero_spec().mul_spec(v.x)
            == T::zero_spec(),
        v.y.mul_spec(T::zero_spec()) == T::zero_spec() && T::zero_spec().mul_spec(v.y)
            == T::zero_spec(),
        v.z.mul_spec(T::zero_spec()) == T::zero_spec() && T::zero_spec().mul_spec(v.z)
            == T::zero_spec(),
        v.w.mul_spec(T::zero_spec()) == T::zero_spec() && T::zero_spec().mul_spec(v.w)
            == T::zero_spec(),
{
    lemma_scalar(v.x);
    lemma_scalar(v.y);
    lemma_scalar(v.z);
    lemma_scalar(v.w);
}

impl<T: BaseNum> Matrix4x4<T> {
    /// The identity leaves a vector as it is.
    pub proof fn lemma_identity_apply(v: Vec4<T>)
        ensures
            Self::identity_spec().mul_spec(v) == v,
            Self::identity_spec().combine_spec(v) == v,
    {
        lemma_scalars(v);
        lemma_scalar(T::zero_spec());
    }

    /// The identity is neutral on the left of a product.
    pub proof fn lemma_identity_left(m: Matrix4x4<T>)
        ensures
            Self::identity_spec().mul_spec(m) == m,
    {
        Self::lemma_identity_apply(m.c0);
        Self::lemma_identity_apply(m.c1);
        Self::lemma_identity_apply(m.c2);
        Self::lemma_identity_apply(m.c3);
    }

    /// The identity is neutral on the right of a product.
    pub proof fn lemma_identity_right(m: Matrix4x4<T>)
        ensures
            m.mul_spec(Self::identity_spec()) == m,
    {
        lemma_scalars(m.c0);
        lemma_scalars(m.c1);
        lemma_scalars(m.c2);
        lemma_scalars(m.c3);
        lemma_scalar(T::zero_spec());
    }

    /// A translation moves a point by its offset and leaves the fourth
    /// component at one.
    pub proof fn lemma_translate_apply(t: Vec3<T>, x: T, y: T, z: T)
        ensures
            Self::translate_spec(t).mul_spec(Vec4 { x, y, z, w: T::one_spec() }) == (Vec4 {
                x: x.add_spec(t.x),
                y: y.add_spec(t.y),
                z: z.add_spec(t.z),
                w: T::one_spec(),
            }),
    {
        lemma_scalar(x);
        lemma_scalar(y);
        lemma_scalar(z);
        lemma_scalar(t.x);
        lemma_scalar(t.y);
        lemma_scalar(t.z);
        lemma_scalar(T::zero_spec());
        lemma_scalar(T::one_spec());
    }

    /// A scaling followed on the right by a translation: the diagonal of the
    /// scaling, and in the last column the offset scaled component by
    /// component.
    pub proof fn lemma_scale_then_translate(s: Vec3<T>, t: Vec3<T>)
        ensures
            Self::scale_spec(s).mul_spec(Self::translate_spec(t)) == (Matrix4x4 {
                c3: Vec4 {
                    x: s.x.mul_spec(t.x),
                    y: s.y.mul_spec(t.y),
                    z: s.z.mul_spec(t.z),
                    w: T::one_spec(),
                },
                ..Self::scale_spec(s)
            }),
    {
        lemma_scalar(s.x);
        lemma_scalar(s.y);
        lemma_scalar(s.z);
        lemma_scalar(t.x);
        lemma_scalar(t.y);
        lemma_scalar(t.z);
        lemma_scalar(s.x.mul_spec(t.x));
        lemma_scalar(s.y.mul_spec(t.y));
        lemma_scalar(s.z.mul_spec(t.z));
        lemma_scalar(T::zero_spec());
        lemma_scalar(T::one_spec());
    }
}

} // verus!
