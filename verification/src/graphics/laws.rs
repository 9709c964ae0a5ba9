//! Theorems about batches and about the transform applied to emitted
//! vertices.
use crate::color::Color;
use crate::graphics::emitted_vertex;
use crate::graphics::step::{identity_indices, StepView};
use crate::matrix::Matrix4x4;
use crate::num::BaseNum;
use crate::vector::Vec3;
use vstd::prelude::*;
use vstd::std_specs::ops::MulSpec;

verus! {

/// A finished batch draws as many elements as it has explicit indices, where
/// it has any, and as many as it has vertices otherwise; in the second case
/// its indices are `0, 1, ..., n - 1`.
pub proof fn lemma_finished_elements<T>(step: StepView<T>)
    requires
        step.fits(),
    ensures
        step.indices.len() > 0 ==> step.finished().num_elements == step.indices.len()
            && step.finished().indices == step.indices,
        step.indices.len() == 0 ==> step.finished().num_elements == step.vertices.len()
            && step.finished().indices == identity_indices(step.vertices.len()),
        forall|i: int|
            step.indices.len() == 0 && 0 <= i < step.vertices.len() ==> step.finished().indices[i]
                == i,
        step.finished().vertices == step.vertices,
        step.finished().wf(),
{
}

/// A batch finished without vertices and without explicit indices draws
/// nothing.
pub proof fn lemma_finished_empty<T>(step: StepView<T>)
    requires
        step.vertices.len() == 0,
        step.indices.len() == 0,
    ensures
        step.fits(),
        step.finished().num_elements == 0,
        step.finished().indices.len() == 0,
{
}

/// After the transform is reset and a single translation by `(tx, ty, tz)` is
/// composed, the vertex emitted for `(x, y, z)` lies at
/// `(x + tx, y + ty, z + tz)`.
pub proof fn lemma_translated_vertex<T: BaseNum>(
    color: Color,
    tx: T,
    ty: T,
    tz: T,
    x: T,
    y: T,
    z: T,
)
    ensures
        emitted_vertex(
            Matrix4x4::<T>::identity_spec().mul_spec(
                Matrix4x4::translate_spec(Vec3 { x: tx, y: ty, z: tz }),
            ),
            color,
            x,
            y,
            z,
        ).position == (Vec3 { x: x.add_spec(tx), y: y.add_spec(ty), z: z.add_spec(tz) }),
{
    let t = Vec3 { x: tx, y: ty, z: tz };
    Matrix4x4::lemma_identity_left(Matrix4x4::translate_spec(t));
    Matrix4x4::lemma_translate_apply(t, x, y, z);
}

/// After the transform is reset, a uniform scaling by `s` composed and then a
/// translation by `(t, t, t)`, the vertex emitted for the origin lies at
/// `(s * t, s * t, s * t)`: the translation was composed last, so it acts on
/// the vertex first and the scaling acts on its result.
pub proof fn lemma_scaled_translated_origin<T: BaseNum>(color: Color, s: T, t: T)
    ensures
        emitted_vertex(
            Matrix4x4::<T>::identity_spec().mul_spec(
                Matrix4x4::scale_spec(Vec3 { x: s, y: s, z: s }),
            ).mul_spec(Matrix4x4::translate_spec(Vec3 { x: t, y: t, z: t })),
            color,
            T::zero_spec(),
            T::zero_spec(),
            T::zero_spec(),
        ).position == (Vec3 { x: s.mul_spec(t), y: s.mul_spec(t), z: s.mul_spec(t) }),
{
    let sv = Vec3 { x: s, y: s, z: s };
    let tv = Vec3 { x: t, y: t, z: t };
    Matrix4x4::lemma_identity_left(Matrix4x4::scale_spec(sv));
    Matrix4x4::lemma_scale_then_translate(sv, tv);
    T::lemma_add_zero(T::zero_spec());
    T::lemma_mul_zero(T::zero_spec());
    T::lemma_mul_zero(s);
    T::lemma_mul_one(s.mul_spec(t));
    T::lemma_add_zero(s.mul_spec(t));
}

/// Where scaling by `s` leaves `t` as it is, the vertex emitted for the origin
/// after a uniform scaling by `s` and a translation by `(t, t, t)` lies at
/// `(t, t, t)`.
pub proof fn lemma_translation_survives_scale<T: BaseNum>(color: Color, s: T, t: T)
    requires
        s.mul_spec(t) == t,
    ensures
        emitted_vertex(
            Matrix4x4::<T>::identity_spec().mul_spec(
                Matrix4x4::scale_spec(Vec3 { x: s, y: s, z: s }),
            ).mul_spec(Matrix4x4::translate_spec(Vec3 { x: t, y: t, z: t })),
            color,
            T::zero_spec(),
            T::zero_spec(),
            T::zero_spec(),
        ).position == (Vec3 { x: t, y: t, z: t }),
{
    lemma_scaled_translated_origin(color, s, t);
}

} // verus!
