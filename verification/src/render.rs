//! The batches finished during a frame, kept in the order they will be drawn.
use crate::graphics::Primitive;
use crate::vertex::{vertex_views, Vertex, VertexView};
use vstd::prelude::*;

verus! {

/// A finished batch: the vertex data, the index data, how many indices to draw
/// and the topology to draw them with.
pub struct VertexBufferState<T> {
    /// The contents of the batch's vertex buffer.
    pub vertex_buffer: Vec<Vertex<T>>,
    /// The contents of the batch's index buffer.
    pub index_buffer: Vec<u16>,
    /// The number of indices one draw call consumes.
    pub num_elements: u32,
    /// The topology the indices are read with.
    pub primitive_topology: Primitive,
}

/// What a finished batch stands for.
pub struct BatchView<T> {
    pub primitive: Primitive,
    pub vertices: Seq<VertexView<T>>,
    pub indices: Seq<u16>,
    pub num_elements: u32,
}

impl<T> View for VertexBufferState<T> {
    type V = BatchView<T>;

    open spec fn view(&self) -> BatchView<T> {
        BatchView {
            primitive: self.primitive_topology,
            vertices: vertex_views(self.vertex_buffer@),
            indices: self.index_buffer@,
            num_elements: self.num_elements,
        }
    }
}

impl<T> BatchView<T> {
    /// A batch is consistent when it draws exactly its index list.
    pub open spec fn wf(self) -> bool {
        self.num_elements == self.indices.len()
    }
}

/// The finished batches of a frame.
pub struct BuffersState<T> {
    /// The batches, oldest first.
    pub vertices: Vec<VertexBufferState<T>>,
}

/// Everything a frame's render pass will draw.
pub struct RenderState<T> {
    pub buffers: BuffersState<T>,
}

/// One indexed draw call of the render pass.
#[derive(Clone, Copy, Debug, PartialEq, Eq, Structural)]
pub struct DrawCall {
    /// The position of the batch in the frame's list.
    pub batch: usize,
    /// The pipeline variant to bind, named by the topology it draws.
    pub pipeline: Primitive,
    /// The number of indices to draw, starting at the first.
    pub index_count: u32,
}

impl<T> View for RenderState<T> {
    type V = Seq<BatchView<T>>;

    open spec fn view(&self) -> Seq<BatchView<T>> {
        self.buffers.vertices@.map_values(|b: VertexBufferState<T>| b@)
    }
}

impl<T> Default for RenderState<T> {
    /// A frame with nothing to draw.
    fn default() -> (r: RenderState<T>)
        ensures
            r@ == Seq::<BatchView<T>>::empty(),
    {
        let buffers = BuffersState { vertices: Vec::new() };
        let r = RenderState { buffers };
        assert(r@ =~= Seq::<BatchView<T>>::empty());
        r
    }
}

impl<T> RenderState<T> {
    /// The draw call for batch number `i` of `batches`.
    pub open spec fn draw_call_spec(batches: Seq<BatchView<T>>, i: int) -> DrawCall {
        DrawCall {
            batch: i as usize,
            pipeline: batches[i].primitive,
            index_count: batches[i].num_elements,
        }
    }

    /// One draw call per batch, in the order of the batches.
    pub open spec fn all_draw_calls(batches: Seq<BatchView<T>>) -> Seq<DrawCall> {
        Seq::new(batches.len(), |i: int| Self::draw_call_spec(batches, i))
    }

    /// Appends a finished batch after those already held.
    pub fn add_vertex_buffer_state(&mut self, vertex_buffer_state: VertexBufferState<T>)
        ensures
            final(self)@ == old(self)@.push(vertex_buffer_state@),
    {
        self.buffers.vertices.push(vertex_buffer_state);
        assert(self@ =~= old(self)@.push(vertex_buffer_state@));
    }

    /// The number of batches held.
    pub fn len(&self) -> (n: usize)
        ensures
            n == self@.len(),
    {
        self.buffers.vertices.len()
    }

    /// Plans the render pass: one indexed draw call per batch, in the order
    /// the batches were added, each with the pipeline of its batch's topology
    /// and the batch's element count. A batch without elements gets its call
    /// like any other; the call covers no index and draws nothing.
    pub fn draw_calls(&self) -> (calls: Vec<DrawCall>)
        ensures
            calls@ == Self::all_draw_calls(self@),
    {
        let mut calls: Vec<DrawCall> = Vec::new();
        let n = self.buffers.vertices.len();
        let mut i: usize = 0;
        while i < n
            invariant
                n == self.buffers.vertices@.len(),
                n == self@.len(),
                i <= n,
                calls@ =~= Self::all_draw_calls(self@).take(i as int),
            decreases n - i,
        {
            let batch = &self.buffers.vertices[i];
            calls.push(
                DrawCall {
                    batch: i,
                    pipeline: batch.primitive_topology,
                    index_count: batch.num_elements,
                },
            );
            i += 1;
        }
        assert(Self::all_draw_calls(self@).take(n as int) =~= Self::all_draw_calls(self@));
        calls
    }

    /// The render pass draws the batches in the order they were added: there
    /// are as many calls as batches, and call number `i` is the call of batch
    /// number `i`, with that batch's topology and element count.
    pub proof fn lemma_draw_calls_keep_order(batches: Seq<BatchView<T>>)
        requires
            batches.len() <= usize::MAX,
        ensures
            Self::all_draw_calls(batches).len() == batches.len(),
            forall|i: int|
                0 <= i < batches.len() ==> {
                    let call = #[trigger] Self::all_draw_calls(batches)[i];
                    &&& call.batch == i
                    &&& call.pipeline == batches[i].primitive
                    &&& call.index_count == batches[i].num_elements
                },
            forall|j: int, k: int|
                0 <= j < k < batches.len() ==> (#[trigger] Self::all_draw_calls(batches)[j]).batch
                    < (#[trigger] Self::all_draw_calls(batches)[k]).batch,
    {
    }
}

/// What to do after asking the surface for the next frame.
#[derive(Clone, Copy, Debug, PartialEq, Eq, Structural)]
pub enum FrameAcquisition {
    /// A frame was handed out: draw into it.
    Draw,
    /// No frame was handed out: configure the surface again and ask once more.
    Reconfigure,
    /// No frame was handed out after the second request: give up.
    Fail,
}

impl FrameAcquisition {
    /// Decides how to go on after a request for the next frame. `acquired`
    /// says whether the request yielded a frame, `retried` whether it was
    /// already the second request. One failure is met by configuring the
    /// surface again; a second one is final.
    pub fn after_request(acquired: bool, retried: bool) -> (step: FrameAcquisition)
        ensures
            acquired ==> step == FrameAcquisition::Draw,
            !acquired && !retried ==> step == FrameAcquisition::Reconfigure,
            !acquired && retried ==> step == FrameAcquisition::Fail,
    {
        if acquired {
            FrameAcquisition::Draw
        } else if retried {
            FrameAcquisition::Fail
        } else {
            FrameAcquisition::Reconfigure
        }
    }
}

} // verus!
