//! The vertex format shared by every batch.
use crate::vector::Vec3;
use vstd::prelude::*;

verus! {

/// A vertex as uploaded: a position and a color, three scalars each.
#[derive(Debug, Copy, Clone)]
pub struct Vertex<T> {
    pub position: [T; 3],
    pub color: [T; 3],
}

/// What a [`Vertex`] stands for: a point in world space and its red, green and
/// blue channels.
pub struct VertexView<T> {
    pub position: Vec3<T>,
    pub color: Vec3<T>,
}

impl<T> View for Vertex<T> {
    type V = VertexView<T>;

    open spec fn view(&self) -> VertexView<T> {
        VertexView {
            position: Vec3 { x: self.position@[0], y: self.position@[1], z: self.position@[2] },
            color: Vec3 { x: self.color@[0], y: self.color@[1], z: self.color@[2] },
        }
    }
}

/// The views of a list of vertices, in order.
pub open spec fn vertex_views<T>(vertices: Seq<Vertex<T>>) -> Seq<VertexView<T>> {
    vertices.map_values(|v: Vertex<T>| v@)
}

/// The bytes of `indices` with the low byte of each index first.
pub open spec fn index_bytes_le(indices: Seq<u16>) -> Seq<u8> {
    Seq::new(
        2 * indices.len(),
        |i: int|
            if i % 2 == 0 {
                (indices[i / 2] % 256) as u8
            } else {
                (indices[i / 2] / 256) as u8
            },
    )
}

/// The bytes of `indices` with the high byte of each index first.
pub open spec fn index_bytes_be(indices: Seq<u16>) -> Seq<u8> {
    Seq::new(
        2 * indices.len(),
        |i: int|
            if i % 2 == 0 {
                (indices[i / 2] / 256) as u8
            } else {
                (indices[i / 2] % 256) as u8
            },
    )
}

/// Calls `bytemuck::cast_slice` to read a slice of sixteen-bit indices as
/// bytes, and copies the bytes out. The cast keeps the memory as it is, so
/// every index becomes its two bytes in the byte order of the machine: low
/// byte first throughout, or high byte first throughout. Casting to single
/// bytes cannot fail on alignment or on a remainder.
#[verifier::external_body]
fn cast_indices(indices: &Vec<u16>) -> (bytes: Vec<u8>)
    ensures
        bytes@ == index_bytes_le(indices@) || bytes@ == index_bytes_be(indices@),
{
    bytemuck::cast_slice::<u16, u8>(indices.as_slice()).to_vec()
}

impl<T> Vertex<T> {
    /// The contents of an index buffer for `indices`: two bytes per index, in
    /// the byte order of the machine.
    pub fn index_buffer_bytes(indices: &Vec<u16>) -> (bytes: Vec<u8>)
        ensures
            bytes@.len() == 2 * indices@.len(),
            bytes@ == index_bytes_le(indices@) || bytes@ == index_bytes_be(indices@),
    {
        cast_indices(indices)
    }
}

} // verus!
