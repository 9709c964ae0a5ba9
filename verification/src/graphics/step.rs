//! The batch under construction.
use crate::graphics::error::GraphicsError;
use crate::graphics::primitive::Primitive;
use crate::render::{BatchView, VertexBufferState};
use crate::vertex::{vertex_views, Vertex, VertexView};
use vstd::prelude::*;

verus! {

/// The largest number of vertices whose positions in the list all fit in a
/// sixteen-bit index.
pub const MAX_IMPLICIT_VERTICES: usize = 0x1_0000;

/// A batch under construction: a topology, the vertices emitted so far and the
/// explicit indices, if any were given.
pub struct GraphicRenderStepBuffer<T> {
    /// The topology of the batch; `None` until the batch is initialised.
    pub primitive: Option<Primitive>,
    /// The explicit indices; empty means draw the vertices in emission order.
    pub indices: Vec<u16>,
    /// The vertices, in emission order.
    pub vertices: Vec<Vertex<T>>,
}

/// What a batch under construction stands for.
pub struct StepView<T> {
    pub primitive: Option<Primitive>,
    pub vertices: Seq<VertexView<T>>,
    pub indices: Seq<u16>,
}

impl<T> View for GraphicRenderStepBuffer<T> {
    type V = StepView<T>;

    open spec fn view(&self) -> StepView<T> {
        StepView {
            primitive: self.primitive,
            vertices: vertex_views(self.vertices@),
            indices: self.indices@,
        }
    }
}

/// The indices `0, 1, ..., n - 1`.
pub open spec fn identity_indices(n: nat) -> Seq<u16> {
    Seq::new(n, |i: int| i as u16)
}

impl<T> StepView<T> {
    /// The empty batch with no topology.
    pub open spec fn cleared() -> StepView<T> {
        StepView { primitive: None, vertices: Seq::empty(), indices: Seq::empty() }
    }

    /// The empty batch with topology `primitive`.
    pub open spec fn started(primitive: Primitive) -> StepView<T> {
        StepView { primitive: Some(primitive), vertices: Seq::empty(), indices: Seq::empty() }
    }

    /// The indices the batch is drawn with: the explicit ones if there are any,
    /// otherwise every vertex once, in emission order.
    pub open spec fn effective_indices(self) -> Seq<u16> {
        if self.indices.len() == 0 {
            identity_indices(self.vertices.len())
        } else {
            self.indices
        }
    }

    /// Whether the batch can be finished: it has a topology, its effective
    /// indices exist as sixteen-bit numbers, and their count fits the element
    /// count.
    pub open spec fn can_finish(self) -> bool {
        &&& self.primitive is Some
        &&& self.fits()
    }

    /// Whether the batch is small enough to finish.
    pub open spec fn fits(self) -> bool {
        if self.indices.len() == 0 {
            self.vertices.len() <= MAX_IMPLICIT_VERTICES
        } else {
            self.indices.len() <= u32::MAX
        }
    }

    /// The finished form of the batch.
    pub open spec fn finished(self) -> BatchView<T> {
        BatchView {
            primitive: self.primitive->0,
            vertices: self.vertices,
            indices: self.effective_indices(),
            num_elements: self.effective_indices().len() as u32,
        }
    }
}

impl<T> Default for GraphicRenderStepBuffer<T> {
    /// An empty batch with no topology yet.
    fn default() -> (r: GraphicRenderStepBuffer<T>)
        ensures
            r@ == StepView::<T>::cleared(),
    {
        let r = GraphicRenderStepBuffer {
            primitive: None,
            indices: Vec::new(),
            vertices: Vec::new(),
        };
        assert(r@.vertices =~= Seq::empty());
        r
    }
}

impl<T> GraphicRenderStepBuffer<T> {
    /// Sets the topology of the batch.
    pub fn primitive(&mut self, primitive: Primitive)
        ensures
            final(self)@ == (StepView { primitive: Some(primitive), ..old(self)@ }),
    {
        self.primitive = Some(primitive);
    }

    /// Replaces the explicit indices of the batch.
    pub fn indices(&mut self, indices: Vec<u16>)
        ensures
            final(self)@ == (StepView { indices: indices@, ..old(self)@ }),
    {
        self.indices = indices;
    }

    /// Replaces the vertices of the batch.
    pub fn vertices(&mut self, vertices: Vec<Vertex<T>>)
        ensures
            final(self)@ == (StepView { vertices: vertex_views(vertices@), ..old(self)@ }),
    {
        self.vertices = vertices;
    }

    /// Starts the batch over: no vertices, no indices, and the given topology,
    /// or triangles where none is given.
    pub fn init(&mut self, primitive: Option<Primitive>)
        ensures
            final(self)@ == StepView::<T>::started(
                match primitive {
                    Some(p) => p,
                    None => Primitive::TriangleList,
                },
            ),
    {
        self.primitive =
        if let Some(p) = primitive {
            Some(p)
        } else {
            Some(Primitive::TriangleList)
        };
        self.indices.clear();
        self.vertices.clear();
        assert(self@.vertices =~= Seq::empty());
    }

    /// Appends one vertex to the batch.
    pub fn push_vertex(&mut self, vertex: Vertex<T>)
        ensures
            final(self)@ == (StepView {
                vertices: old(self)@.vertices.push(vertex@),
                ..old(self)@
            }),
    {
        self.vertices.push(vertex);
        assert(self@.vertices =~= old(self)@.vertices.push(vertex@));
    }

    /// Builds the indices `0, 1, ..., n - 1`.
    pub fn sequential_indices(n: usize) -> (indices: Vec<u16>)
        requires
            n <= MAX_IMPLICIT_VERTICES,
        ensures
            indices@ == identity_indices(n as nat),
    {
        let mut indices: Vec<u16> = Vec::new();
        let mut i: usize = 0;
        while i < n
            invariant
                i <= n <= MAX_IMPLICIT_VERTICES,
                indices@ =~= identity_indices(i as nat),
            decreases n - i,
        {
            indices.push(i as u16);
            i += 1;
        }
        indices
    }

    /// Finishes the batch and empties the buffer for reuse.
    ///
    /// Where no explicit indices were given, the vertices are numbered in
    /// emission order. A buffer without a topology was never started and is
    /// refused; so is one too large to finish. A refused buffer is left as it
    /// was.
    pub fn end(&mut self) -> (r: Result<VertexBufferState<T>, GraphicsError>)
        ensures
            old(self)@.primitive is None ==> r == Err::<VertexBufferState<T>, _>(
                GraphicsError::NotStarted,
            ),
            old(self)@.primitive is Some && !old(self)@.fits() ==> r == Err::<
                VertexBufferState<T>,
                _,
            >(GraphicsError::TooManyElements),
            old(self)@.can_finish() ==> r is Ok && r->Ok_0@ == old(self)@.finished(),
            r is Ok ==> final(self)@ == StepView::<T>::cleared(),
            r is Err ==> final(self)@ == old(self)@,
    {
        let primitive_topology = match self.primitive {
            Some(p) => p,
            None => {
                return Err(GraphicsError::NotStarted);
            },
        };
        let index_buffer = if self.indices.is_empty() {
            if self.vertices.len() > MAX_IMPLICIT_VERTICES {
                return Err(GraphicsError::TooManyElements);
            }
            // Number the vertices in the order they were emitted.
            Self::sequential_indices(self.vertices.len())
        } else {
            if self.indices.len() > u32::MAX as usize {
                return Err(GraphicsError::TooManyElements);
            }
            let mut given: Vec<u16> = Vec::new();
            core::mem::swap(&mut given, &mut self.indices);
            given
        };
        let mut vertex_buffer: Vec<Vertex<T>> = Vec::new();
        core::mem::swap(&mut vertex_buffer, &mut self.vertices);
        let num_elements = index_buffer.len() as u32;
        let vertex_buffer_state = VertexBufferState {
            vertex_buffer,
            index_buffer,
            num_elements,
            primitive_topology,
        };
        self.primitive = None;
        self.indices.clear();
        assert(self@.vertices =~= Seq::empty());
        Ok(vertex_buffer_state)
    }
}

} // verus!
