//! The transform applied to emitted vertices.
use crate::angle::Rad;
use crate::matrix::Matrix4x4;
use crate::num::{BaseFloat, BaseNum};
use crate::vector::Vec3;
use vstd::prelude::*;
use vstd::std_specs::ops::MulSpec;

verus! {

/// The accumulated local-to-world transform. Every operation multiplies the
/// current matrix on the right by an elementary matrix, so the operation
/// called last is the first to act on a vertex.
pub struct GraphicsTransform<T> {
    pub matrix: Matrix4x4<T>,
}

impl<T: BaseNum> Default for GraphicsTransform<T> {
    /// The identity transform.
    fn default() -> (r: GraphicsTransform<T>)
        ensures
            r.matrix == Matrix4x4::<T>::identity_spec(),
    {
        GraphicsTransform { matrix: Matrix4x4::identity() }
    }
}

impl<T: BaseNum> GraphicsTransform<T> {
    /// Composes a translation by `(x, y, z)` onto the current matrix.
    pub fn translate(&mut self, x: T, y: T, z: T)
        ensures
            final(self).matrix == old(self).matrix.mul_spec(
                Matrix4x4::translate_spec(Vec3 { x, y, z }),
            ),
    {
        self.matrix = self.matrix * Matrix4x4::from_translate(Vec3::new(x, y, z));
    }

    /// Composes a scaling by `(x, y, z)` onto the current matrix.
    pub fn scale(&mut self, x: T, y: T, z: T)
        ensures
            final(self).matrix == old(self).matrix.mul_spec(Matrix4x4::scale_spec(Vec3 {
                x,
                y,
                z,
            })),
    {
        self.matrix = self.matrix * Matrix4x4::from_scale(Vec3::new(x, y, z));
    }

    /// Resets the current matrix to the identity.
    pub fn load_identity(&mut self)
        ensures
            final(self).matrix == Matrix4x4::<T>::identity_spec(),
    {
        self.matrix = Matrix4x4::identity();
    }

    /// Replaces the current matrix by `matrix`.
    pub fn load(&mut self, matrix: Matrix4x4<T>)
        ensures
            final(self).matrix == matrix,
    {
        self.matrix = matrix;
    }
}

impl<T: BaseFloat> GraphicsTransform<T> {
    /// The rotation about the x axis by `angle`.
    pub open spec fn rotation_x(angle: Rad<T>) -> Matrix4x4<T> {
        Matrix4x4::rotate_x_spec(angle.0.sin_spec(), angle.0.cos_spec())
    }

    /// The rotation about the y axis by `angle`.
    pub open spec fn rotation_y(angle: Rad<T>) -> Matrix4x4<T> {
        Matrix4x4::rotate_y_spec(angle.0.sin_spec(), angle.0.cos_spec())
    }

    /// The rotation about the z axis by `angle`.
    pub open spec fn rotation_z(angle: Rad<T>) -> Matrix4x4<T> {
        Matrix4x4::rotate_z_spec(angle.0.sin_spec(), angle.0.cos_spec())
    }

    /// Composes three rotations onto the current matrix: about x, then about
    /// y, then about z, each multiplied on the right of the one before.
    pub fn rotate(&mut self, angle_x: Rad<T>, angle_y: Rad<T>, angle_z: Rad<T>)
        ensures
            final(self).matrix == old(self).matrix.mul_spec(
                Self::rotation_x(angle_x).mul_spec(Self::rotation_y(angle_y)).mul_spec(
                    Self::rotation_z(angle_z),
                ),
            ),
    {
        self.matrix = self.matrix * Matrix4x4::from_rotate(angle_x, angle_y, angle_z);
    }

    /// Composes a rotation about the x axis onto the current matrix.
    pub fn rotate_x(&mut self, angle: Rad<T>)
        ensures
            final(self).matrix == old(self).matrix.mul_spec(Self::rotation_x(angle)),
    {
        self.matrix = self.matrix * Matrix4x4::from_rotate_x(angle);
    }

    /// Composes a rotation about the y axis onto the current matrix.
    pub fn rotate_y(&mut self, angle: Rad<T>)
        ensures
            final(self).matrix == old(self).matrix.mul_spec(Self::rotation_y(angle)),
    {
        self.matrix = self.matrix * Matrix4x4::from_rotate_y(angle);
    }

    /// Composes a rotation about the z axis onto the current matrix.
    pub fn rotate_z(&mut self, angle: Rad<T>)
        ensures
            final(self).matrix == old(self).matrix.mul_spec(Self::rotation_z(angle)),
    {
        self.matrix = self.matrix * Matrix4x4::from_rotate_z(angle);
    }
}

} // verus!
