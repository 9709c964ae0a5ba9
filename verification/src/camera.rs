//! The camera interface and the values a camera is described by.
use crate::matrix::Matrix4x4;
use crate::num::BaseFloat;
use crate::point::Point3;
use crate::translate::Translate;
use crate::vector::Vec3;
use vstd::prelude::*;

verus! {

/// A source of view-projection matrices.
pub trait Camera<T: BaseFloat> {
    /// Computes the camera's view-projection matrix in world space.
    fn calc_view_proj(&mut self) -> Matrix4x4<T>;
}

/// How a camera is placed when the application starts.
pub struct CameraInitialAttributes<T> {
    /// The initial position, as `(x, y, z)`.
    pub position: (T, T, T),
    /// The point the camera looks at first, as `(x, y, z)`.
    pub target: Option<(T, T, T)>,
    /// The vertical rotation applied once the camera looks at the target.
    pub v_rotation: Option<T>,
    /// The horizontal rotation applied once the camera looks at the target.
    pub h_rotation: Option<T>,
}

/// Where a camera stands and what it looks at.
#[derive(Debug, Clone, Copy)]
pub struct CameraAttributes<T> {
    /// The direction that counts as up.
    pub up: Vec3<T>,
    /// The camera's position.
    pub position: Point3<T>,
    /// The point the camera looks at.
    pub target: Point3<T>,
}

impl<T: BaseFloat> CameraAttributes<T> {
    pub fn new(up: Vec3<T>, position: Point3<T>, target: Point3<T>) -> (r: CameraAttributes<T>)
        ensures
            r == (CameraAttributes { up, position, target }),
    {
        CameraAttributes { up, position, target }
    }

    /// The attributes after a move by `(x, y, z)`: position and target shift
    /// alike, up stays.
    pub open spec fn translated(self, x: T, y: T, z: T) -> CameraAttributes<T> {
        CameraAttributes {
            up: self.up,
            position: Point3 {
                x: self.position.x.add_spec(x),
                y: self.position.y.add_spec(y),
                z: self.position.z.add_spec(z),
            },
            target: Point3 {
                x: self.target.x.add_spec(x),
                y: self.target.y.add_spec(y),
                z: self.target.z.add_spec(z),
            },
        }
    }
}

impl<T: BaseFloat> Default for CameraAttributes<T> {
    /// A camera at the origin, looking at the origin, with the y axis up.
    fn default() -> (r: CameraAttributes<T>)
        ensures
            r.up == (Vec3 { x: T::zero_spec(), y: T::one_spec(), z: T::zero_spec() }),
            r.position == (Point3 { x: T::zero_spec(), y: T::zero_spec(), z: T::zero_spec() }),
            r.target == r.position,
    {
        CameraAttributes {
            up: Vec3::new(T::zero(), T::one(), T::zero()),
            position: Point3::new(T::zero(), T::zero(), T::zero()),
            target: Point3::new(T::zero(), T::zero(), T::zero()),
        }
    }
}

impl<T: BaseFloat> Translate<T> for CameraAttributes<T> {
    /// Moves position and target together.
    fn translate(&mut self, x: T, y: T, z: T)
        ensures
            *final(self) == old(self).translated(x, y, z),
    {
        self.position = Point3::new(
            self.position.x.add(x),
            self.position.y.add(y),
            self.position.z.add(z),
        );
        self.target = Point3::new(self.target.x.add(x), self.target.y.add(y), self.target.z.add(z));
    }
}

/// The camera's view-matrix construction.
pub struct CameraMatrix4x4 {}

impl CameraMatrix4x4 {
    /// Computes the view matrix of a camera at `eye` looking along
    /// `direction`, with `up` as the vertical reference.
    pub fn look_at_rh<T: BaseFloat>(eye: Point3<T>, direction: Vec3<T>, up: Vec3<T>) -> (r:
        Matrix4x4<T>)
        ensures
            r == Matrix4x4::look_at_rh_spec(eye, direction, up),
    {
        Matrix4x4::look_at_rh(eye, direction, up)
    }
}

} // verus!
