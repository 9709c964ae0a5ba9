//! Projection matrices for a clip space whose depth runs from zero to one.
use crate::angle::Rad;
use crate::matrix::Matrix4x4;
use crate::num::{BaseFloat, BaseNum};
use crate::vector::Vec4;
use vstd::prelude::*;
use vstd::std_specs::ops::MulSpec;

verus! {

/// The scalar two.
pub open spec fn two_spec<T: BaseFloat>() -> T {
    T::from_u8_spec(2)
}

/// The matrix that maps depths from `-1..1` to `0..1`: the identity with the
/// third row halved and half of the fourth row added to it.
pub open spec fn depth_remap_spec<T: BaseFloat>() -> Matrix4x4<T> {
    let o = T::one_spec();
    let z = T::zero_spec();
    let half = o.div_spec(two_spec::<T>());
    Matrix4x4 {
        c0: Vec4 { x: o, y: z, z: z, w: z },
        c1: Vec4 { x: z, y: o, z: z, w: z },
        c2: Vec4 { x: z, y: z, z: half, w: z },
        c3: Vec4 { x: z, y: z, z: half, w: o },
    }
}

/// The perspective matrix for depths in `-1..1`, before the depth remap.
pub open spec fn perspective_core_spec<T: BaseFloat>(aspect: T, fovy: Rad<T>, znear: T, zfar: T)
    -> Matrix4x4<T> {
    let z = T::zero_spec();
    let f = Rad(fovy.0.div_spec(two_spec::<T>())).cot_spec();
    let depth = znear.sub_spec(zfar);
    Matrix4x4 {
        c0: Vec4 { x: f.div_spec(aspect), y: z, z: z, w: z },
        c1: Vec4 { x: z, y: f, z: z, w: z },
        c2: Vec4 {
            x: z,
            y: z,
            z: zfar.add_spec(znear).div_spec(depth),
            w: T::one_spec().neg_spec(),
        },
        c3: Vec4 {
            x: z,
            y: z,
            z: two_spec::<T>().mul_spec(zfar).mul_spec(znear).div_spec(depth),
            w: z,
        },
    }
}

/// The orthographic matrix for depths in `-1..1`, before the depth remap.
pub open spec fn orthographic_core_spec<T: BaseFloat>(
    left: T,
    right: T,
    bottom: T,
    top: T,
    znear: T,
    zfar: T,
) -> Matrix4x4<T> {
    let z = T::zero_spec();
    let two = two_spec::<T>();
    let width = right.sub_spec(left);
    let height = top.sub_spec(bottom);
    let depth = zfar.sub_spec(znear);
    Matrix4x4 {
        c0: Vec4 { x: two.div_spec(width), y: z, z: z, w: z },
        c1: Vec4 { x: z, y: two.div_spec(height), z: z, w: z },
        c2: Vec4 { x: z, y: z, z: two.neg_spec().div_spec(depth), w: z },
        c3: Vec4 {
            x: right.add_spec(left).neg_spec().div_spec(width),
            y: top.add_spec(bottom).neg_spec().div_spec(height),
            z: zfar.add_spec(znear).neg_spec().div_spec(depth),
            w: T::one_spec(),
        },
    }
}

fn two<T: BaseFloat>() -> (r: T)
    ensures
        r == two_spec::<T>(),
{
    T::from_u8(2)
}

fn quotient<T: BaseFloat>(a: T, b: T) -> (r: T)
    ensures
        r == a.div_spec(b),
{
    proof {
        T::lemma_div_total(a, b);
    }
    a.div(b)
}

fn opengl_to_wgpu_matrix<T: BaseFloat>() -> (r: Matrix4x4<T>)
    ensures
        r == depth_remap_spec::<T>(),
{
    let half: T = quotient(T::one(), two());
    Matrix4x4::new(
        T::one(),
        T::zero(),
        T::zero(),
        T::zero(),
        T::zero(),
        T::one(),
        T::zero(),
        T::zero(),
        T::zero(),
        T::zero(),
        half,
        T::zero(),
        T::zero(),
        T::zero(),
        half,
        T::one(),
    )
}

/// Builds the perspective projection with vertical field of view `fovy`,
/// aspect ratio `aspect` and the clipping planes `znear` and `zfar`.
pub fn perspective<T: BaseFloat>(aspect: T, fovy: Rad<T>, znear: T, zfar: T) -> (r: Matrix4x4<T>)
    ensures
        r == depth_remap_spec::<T>().mul_spec(perspective_core_spec(aspect, fovy, znear, zfar)),
{
    let two: T = two();
    let f = Rad::cot(fovy / two);

    let c0r0 = quotient(f, aspect);
    let c0r1 = T::zero();
    let c0r2 = T::zero();
    let c0r3 = T::zero();

    let c1r0 = T::zero();
    let c1r1 = f;
    let c1r2 = T::zero();
    let c1r3 = T::zero();

    let c2r0 = T::zero();
    let c2r1 = T::zero();
    let c2r2 = quotient(zfar.add(znear), znear.sub(zfar));
    let c2r3 = T::one().neg();

    let c3r0 = T::zero();
    let c3r1 = T::zero();
    let c3r2 = quotient(two.mul(zfar).mul(znear), znear.sub(zfar));
    let c3r3 = T::zero();

    let perspective_matrix = Matrix4x4::new(
        c0r0,
        c0r1,
        c0r2,
        c0r3,
        c1r0,
        c1r1,
        c1r2,
        c1r3,
        c2r0,
        c2r1,
        c2r2,
        c2r3,
        c3r0,
        c3r1,
        c3r2,
        c3r3,
    );

    opengl_to_wgpu_matrix() * perspective_matrix
}

/// Builds the orthographic projection of the box between `left` and `right`,
/// `bottom` and `top`, `znear` and `zfar`.
pub fn orthographic<T: BaseFloat>(left: T, right: T, bottom: T, top: T, znear: T, zfar: T) -> (r:
    Matrix4x4<T>)
    ensures
        r == depth_remap_spec::<T>().mul_spec(
            orthographic_core_spec(left, right, bottom, top, znear, zfar),
        ),
{
    let two: T = two();

    let c0r0 = quotient(two, right.sub(left));
    let c0r1 = T::zero();
    let c0r2 = T::zero();
    let c0r3 = T::zero();

    let c1r0 = T::zero();
    let c1r1 = quotient(two, top.sub(bottom));
    let c1r2 = T::zero();
    let c1r3 = T::zero();

    let c2r0 = T::zero();
    let c2r1 = T::zero();
    let c2r2 = quotient(two.neg(), zfar.sub(znear));
    let c2r3 = T::zero();

    let c3r0 = quotient(right.add(left).neg(), right.sub(left));
    let c3r1 = quotient(top.add(bottom).neg(), top.sub(bottom));
    let c3r2 = quotient(zfar.add(znear).neg(), zfar.sub(znear));
    let c3r3 = T::one();

    let ortho_matrix = Matrix4x4::new(
        c0r0,
        c0r1,
        c0r2,
        c0r3,
        c1r0,
        c1r1,
        c1r2,
        c1r3,
        c2r0,
        c2r1,
        c2r2,
        c2r3,
        c3r0,
        c3r1,
        c3r2,
        c3r3,
    );

    opengl_to_wgpu_matrix() * ortho_matrix
}

} // verus!
