use cgdraw::graphics::step::MAX_IMPLICIT_VERTICES;
use cgdraw::graphics::{GraphicRenderStepBuffer, Graphics, GraphicsError, Primitive};
use cgdraw::render::{DrawCall, FrameAcquisition, RenderState, VertexBufferState};
use cgdraw::vertex::Vertex;
use cgdraw::Color;

fn frame() -> Graphics<i64> {
    Graphics::new(RenderState::default())
}

#[test]
fn new_frame_is_idle_white_and_untransformed() {
    let g = frame();
    assert!(g.buffer_step.is_none());
    assert_eq!(g.graphics_state.color, Color::WHITE);
    assert_eq!(g.t.matrix, cgdraw::matrix::Matrix4x4::identity());
    assert_eq!(g.render_state.len(), 0);
}

#[test]
fn vertex_before_begin_is_refused() {
    let mut g = frame();
    assert_eq!(g.v3d(1, 2, 3), Err(GraphicsError::NotStarted));
    assert_eq!(g.save_vertice(1, 2, 3), Err(GraphicsError::NotStarted));
    assert!(g.buffer_step.is_none());
    assert_eq!(g.render_state.len(), 0);
}

#[test]
fn indices_before_begin_are_refused() {
    let mut g = frame();
    assert_eq!(g.indices(vec![0, 1, 2]), Err(GraphicsError::NotStarted));
    assert!(g.buffer_step.is_none());
}

#[test]
fn end_before_begin_is_refused() {
    let mut g = frame();
    assert_eq!(g.end(), Err(GraphicsError::NotStarted));
    assert_eq!(g.render_state.len(), 0);
}

#[test]
fn second_begin_is_refused_and_keeps_the_open_batch() {
    let mut g = frame();
    assert_eq!(g.begin(Primitive::TriangleList), Ok(()));
    assert_eq!(g.v3d(7, 8, 9), Ok(()));
    assert_eq!(g.begin(Primitive::TriangleList), Err(GraphicsError::AlreadyStarted));
    assert_eq!(g.begin(Primitive::LineList), Err(GraphicsError::AlreadyStarted));
    let step = g.buffer_step.as_ref().unwrap();
    assert_eq!(step.primitive, Some(Primitive::TriangleList));
    assert_eq!(step.vertices.len(), 1);
    assert_eq!(g.end(), Ok(()));
    assert_eq!(g.render_state.buffers.vertices[0].num_elements, 1);
}

#[test]
fn vertex_after_end_is_refused() {
    let mut g = frame();
    assert_eq!(g.begin(Primitive::PointList), Ok(()));
    assert_eq!(g.end(), Ok(()));
    assert_eq!(g.v3d(1, 1, 1), Err(GraphicsError::NotStarted));
    assert_eq!(g.end(), Err(GraphicsError::NotStarted));
    assert_eq!(g.render_state.len(), 1);
}

#[test]
fn quad_with_explicit_indices() {
    let mut g = frame();
    assert_eq!(g.begin(Primitive::TriangleList), Ok(()));
    g.color(Color::RED);
    assert_eq!(g.v3d(-1, 1, 0), Ok(()));
    assert_eq!(g.v3d(1, 1, 0), Ok(()));
    assert_eq!(g.v3d(1, -1, 0), Ok(()));
    assert_eq!(g.v3d(-1, -1, 0), Ok(()));
    assert_eq!(g.indices(vec![0, 1, 2, 2, 3, 0]), Ok(()));
    assert_eq!(g.end(), Ok(()));
    assert!(g.buffer_step.is_none());
    assert_eq!(g.render_state.len(), 1);
    let batch = &g.render_state.buffers.vertices[0];
    assert_eq!(batch.primitive_topology, Primitive::TriangleList);
    assert_eq!(batch.num_elements, 6);
    assert_eq!(batch.index_buffer, vec![0, 1, 2, 2, 3, 0]);
    assert_eq!(batch.vertex_buffer.len(), 4);
    assert_eq!(batch.vertex_buffer[0].position, [-1, 1, 0]);
    assert_eq!(batch.vertex_buffer[1].position, [1, 1, 0]);
    assert_eq!(batch.vertex_buffer[2].position, [1, -1, 0]);
    assert_eq!(batch.vertex_buffer[3].position, [-1, -1, 0]);
    for vertex in batch.vertex_buffer.iter() {
        assert_eq!(vertex.color, [1, 0, 0]);
    }
}

#[test]
fn indices_are_synthesized_in_emission_order() {
    let mut g = frame();
    assert_eq!(g.begin(Primitive::LineList), Ok(()));
    for i in 0..5 {
        assert_eq!(g.v3d(i, 0, 0), Ok(()));
    }
    assert_eq!(g.end(), Ok(()));
    let batch = &g.render_state.buffers.vertices[0];
    assert_eq!(batch.primitive_topology, Primitive::LineList);
    assert_eq!(batch.num_elements, 5);
    assert_eq!(batch.index_buffer, vec![0, 1, 2, 3, 4]);
}

#[test]
fn empty_explicit_indices_mean_emission_order() {
    let mut g = frame();
    assert_eq!(g.begin(Primitive::PointList), Ok(()));
    assert_eq!(g.v3d(1, 0, 0), Ok(()));
    assert_eq!(g.v3d(2, 0, 0), Ok(()));
    assert_eq!(g.indices(vec![1, 1, 0]), Ok(()));
    assert_eq!(g.indices(Vec::new()), Ok(()));
    assert_eq!(g.end(), Ok(()));
    let batch = &g.render_state.buffers.vertices[0];
    assert_eq!(batch.num_elements, 2);
    assert_eq!(batch.index_buffer, vec![0, 1]);
}

#[test]
fn later_indices_replace_earlier_ones() {
    let mut g = frame();
    assert_eq!(g.begin(Primitive::TriangleList), Ok(()));
    assert_eq!(g.v3d(0, 0, 0), Ok(()));
    assert_eq!(g.indices(vec![0, 0, 0, 0, 0, 0]), Ok(()));
    assert_eq!(g.indices(vec![0, 0, 0]), Ok(()));
    assert_eq!(g.end(), Ok(()));
    let batch = &g.render_state.buffers.vertices[0];
    assert_eq!(batch.num_elements, 3);
    assert_eq!(batch.index_buffer, vec![0, 0, 0]);
}

#[test]
fn empty_batch_draws_nothing() {
    let mut g = frame();
    assert_eq!(g.begin(Primitive::TriangleList), Ok(()));
    assert_eq!(g.end(), Ok(()));
    assert_eq!(g.render_state.len(), 1);
    let batch = &g.render_state.buffers.vertices[0];
    assert_eq!(batch.num_elements, 0);
    assert!(batch.index_buffer.is_empty());
    assert!(batch.vertex_buffer.is_empty());
    assert_eq!(
        g.render_state.draw_calls(),
        vec![DrawCall { batch: 0, pipeline: Primitive::TriangleList, index_count: 0 }]
    );
}

#[test]
fn color_applies_to_later_vertices_only() {
    let mut g = frame();
    assert_eq!(g.begin(Primitive::PointList), Ok(()));
    assert_eq!(g.v3d(0, 0, 0), Ok(()));
    g.color(Color::BLUE);
    assert_eq!(g.v3d(0, 0, 0), Ok(()));
    g.color(Color::BLACK);
    assert_eq!(g.v3d(0, 0, 0), Ok(()));
    assert_eq!(g.end(), Ok(()));
    let batch = &g.render_state.buffers.vertices[0];
    assert_eq!(batch.vertex_buffer[0].color, [1, 1, 1]);
    assert_eq!(batch.vertex_buffer[1].color, [0, 0, 1]);
    assert_eq!(batch.vertex_buffer[2].color, [0, 0, 0]);
}

#[test]
fn batches_are_kept_in_the_order_they_were_finished() {
    let mut g = frame();
    assert_eq!(g.begin(Primitive::TriangleList), Ok(()));
    assert_eq!(g.v3d(0, 0, 0), Ok(()));
    assert_eq!(g.v3d(1, 0, 0), Ok(()));
    assert_eq!(g.v3d(0, 1, 0), Ok(()));
    assert_eq!(g.end(), Ok(()));
    assert_eq!(g.begin(Primitive::LineList), Ok(()));
    assert_eq!(g.v3d(0, 0, 0), Ok(()));
    assert_eq!(g.v3d(0, 0, 1), Ok(()));
    assert_eq!(g.indices(vec![0, 1, 1, 0]), Ok(()));
    assert_eq!(g.end(), Ok(()));
    assert_eq!(g.begin(Primitive::PointList), Ok(()));
    assert_eq!(g.v3d(5, 5, 5), Ok(()));
    assert_eq!(g.end(), Ok(()));
    assert_eq!(g.render_state.len(), 3);
    assert_eq!(
        g.render_state.draw_calls(),
        vec![
            DrawCall { batch: 0, pipeline: Primitive::TriangleList, index_count: 3 },
            DrawCall { batch: 1, pipeline: Primitive::LineList, index_count: 4 },
            DrawCall { batch: 2, pipeline: Primitive::PointList, index_count: 1 },
        ]
    );
}

#[test]
fn batches_that_draw_nothing_keep_their_place_in_the_pass() {
    let mut g = frame();
    assert_eq!(g.begin(Primitive::TriangleList), Ok(()));
    assert_eq!(g.end(), Ok(()));
    assert_eq!(g.begin(Primitive::LineList), Ok(()));
    assert_eq!(g.v3d(0, 0, 0), Ok(()));
    assert_eq!(g.v3d(1, 1, 1), Ok(()));
    assert_eq!(g.end(), Ok(()));
    assert_eq!(g.begin(Primitive::PointList), Ok(()));
    assert_eq!(g.end(), Ok(()));
    assert_eq!(g.begin(Primitive::PointList), Ok(()));
    assert_eq!(g.v3d(2, 2, 2), Ok(()));
    assert_eq!(g.end(), Ok(()));
    assert_eq!(g.render_state.len(), 4);
    assert_eq!(
        g.render_state.draw_calls(),
        vec![
            DrawCall { batch: 0, pipeline: Primitive::TriangleList, index_count: 0 },
            DrawCall { batch: 1, pipeline: Primitive::LineList, index_count: 2 },
            DrawCall { batch: 2, pipeline: Primitive::PointList, index_count: 0 },
            DrawCall { batch: 3, pipeline: Primitive::PointList, index_count: 1 },
        ]
    );
}

#[test]
fn a_missing_frame_is_asked_for_once_more() {
    assert_eq!(FrameAcquisition::after_request(true, false), FrameAcquisition::Draw);
    assert_eq!(FrameAcquisition::after_request(true, true), FrameAcquisition::Draw);
    assert_eq!(FrameAcquisition::after_request(false, false), FrameAcquisition::Reconfigure);
    assert_eq!(FrameAcquisition::after_request(false, true), FrameAcquisition::Fail);
}

#[test]
fn is_open_follows_begin_and_end() {
    let mut g = frame();
    assert!(!g.is_open());
    assert_eq!(g.begin(Primitive::LineList), Ok(()));
    assert!(g.is_open());
    assert_eq!(g.end(), Ok(()));
    assert!(!g.is_open());
}

#[test]
fn a_frame_can_start_from_batches_already_finished() {
    let mut state = RenderState::<i64>::default();
    state.add_vertex_buffer_state(VertexBufferState {
        vertex_buffer: Vec::new(),
        index_buffer: vec![0, 0],
        num_elements: 2,
        primitive_topology: Primitive::LineList,
    });
    let mut g = Graphics::new(state);
    assert_eq!(g.begin(Primitive::PointList), Ok(()));
    assert_eq!(g.v3d(1, 1, 1), Ok(()));
    assert_eq!(g.end(), Ok(()));
    assert_eq!(g.render_state.len(), 2);
    assert_eq!(g.render_state.buffers.vertices[0].primitive_topology, Primitive::LineList);
    assert_eq!(g.render_state.buffers.vertices[1].primitive_topology, Primitive::PointList);
}

#[test]
fn the_largest_implicit_batch_numbers_every_vertex() {
    let mut g = frame();
    assert_eq!(g.begin(Primitive::PointList), Ok(()));
    for _ in 0..MAX_IMPLICIT_VERTICES {
        assert_eq!(g.v3d(0, 0, 0), Ok(()));
    }
    assert_eq!(g.end(), Ok(()));
    let batch = &g.render_state.buffers.vertices[0];
    assert_eq!(batch.num_elements, 65536);
    assert_eq!(batch.index_buffer.len(), 65536);
    assert_eq!(batch.index_buffer[0], 0);
    assert_eq!(batch.index_buffer[65535], 65535);
}

#[test]
fn too_many_implicit_vertices_are_refused_until_indices_are_given() {
    let mut g = frame();
    assert_eq!(g.begin(Primitive::PointList), Ok(()));
    for _ in 0..MAX_IMPLICIT_VERTICES + 1 {
        assert_eq!(g.v3d(0, 0, 0), Ok(()));
    }
    assert_eq!(g.end(), Err(GraphicsError::TooManyElements));
    assert_eq!(g.render_state.len(), 0);
    assert_eq!(g.buffer_step.as_ref().unwrap().vertices.len(), 65537);
    assert_eq!(g.indices(vec![65535, 0]), Ok(()));
    assert_eq!(g.end(), Ok(()));
    let batch = &g.render_state.buffers.vertices[0];
    assert_eq!(batch.num_elements, 2);
    assert_eq!(batch.vertex_buffer.len(), 65537);
}

#[test]
fn step_buffer_starts_without_topology() {
    let mut step = GraphicRenderStepBuffer::<i64>::default();
    assert_eq!(step.primitive, None);
    assert!(step.indices.is_empty());
    assert!(step.vertices.is_empty());
    assert!(matches!(step.end(), Err(GraphicsError::NotStarted)));
}

#[test]
fn step_buffer_init_defaults_to_triangles_and_clears() {
    let mut step = GraphicRenderStepBuffer::<i64>::default();
    step.indices(vec![3, 2, 1]);
    step.vertices(vec![Vertex { position: [1, 2, 3], color: [0, 0, 0] }]);
    step.primitive(Primitive::PointList);
    assert_eq!(step.primitive, Some(Primitive::PointList));
    step.init(None);
    assert_eq!(step.primitive, Some(Primitive::TriangleList));
    assert!(step.indices.is_empty());
    assert!(step.vertices.is_empty());
    step.init(Some(Primitive::LineList));
    assert_eq!(step.primitive, Some(Primitive::LineList));
}

#[test]
fn step_buffer_end_finishes_and_clears() {
    let mut step = GraphicRenderStepBuffer::<i64>::default();
    step.init(Some(Primitive::LineList));
    step.push_vertex(Vertex { position: [1, 2, 3], color: [1, 1, 1] });
    step.push_vertex(Vertex { position: [4, 5, 6], color: [1, 1, 1] });
    let batch = step.end().ok().unwrap();
    assert_eq!(batch.primitive_topology, Primitive::LineList);
    assert_eq!(batch.num_elements, 2);
    assert_eq!(batch.index_buffer, vec![0, 1]);
    assert_eq!(batch.vertex_buffer[1].position, [4, 5, 6]);
    assert_eq!(step.primitive, None);
    assert!(step.indices.is_empty());
    assert!(step.vertices.is_empty());
}

#[test]
fn sequential_indices_count_from_zero() {
    assert_eq!(GraphicRenderStepBuffer::<i64>::sequential_indices(0), Vec::<u16>::new());
    assert_eq!(GraphicRenderStepBuffer::<i64>::sequential_indices(4), vec![0, 1, 2, 3]);
}

#[test]
fn index_bytes_follow_the_machine_byte_order() {
    let indices: Vec<u16> = vec![0x0102, 0xA0B0, 0];
    let bytes = Vertex::<i64>::index_buffer_bytes(&indices);
    let mut expected: Vec<u8> = Vec::new();
    for index in indices.iter() {
        expected.extend_from_slice(&index.to_ne_bytes());
    }
    assert_eq!(bytes.len(), 6);
    assert_eq!(bytes, expected);
    let le = vec![0x02, 0x01, 0xB0, 0xA0, 0, 0];
    let be = vec![0x01, 0x02, 0xA0, 0xB0, 0, 0];
    assert!(bytes == le || bytes == be);
}

#[test]
fn draw_sets_the_indices_and_closes_the_batch() {
    let mut g = frame();
    assert_eq!(g.draw(vec![0, 1, 2]), Err(GraphicsError::NotStarted));
    assert_eq!(g.render_state.len(), 0);
    assert_eq!(g.begin(Primitive::TriangleList), Ok(()));
    assert_eq!(g.v3d(-1, 1, 0), Ok(()));
    assert_eq!(g.v3d(1, 1, 0), Ok(()));
    assert_eq!(g.v3d(1, -1, 0), Ok(()));
    assert_eq!(g.indices(vec![2, 2, 2]), Ok(()));
    assert_eq!(g.draw(vec![0, 1, 2, 2, 1, 0]), Ok(()));
    assert!(!g.is_open());
    assert_eq!(g.render_state.len(), 1);
    let batch = &g.render_state.buffers.vertices[0];
    assert_eq!(batch.num_elements, 6);
    assert_eq!(batch.index_buffer, vec![0, 1, 2, 2, 1, 0]);
    assert_eq!(batch.vertex_buffer.len(), 3);
    assert_eq!(g.draw(vec![0]), Err(GraphicsError::NotStarted));
}

#[test]
fn draw_without_indices_numbers_the_vertices() {
    let mut g = frame();
    assert_eq!(g.begin(Primitive::PointList), Ok(()));
    assert_eq!(g.v3d(1, 1, 1), Ok(()));
    assert_eq!(g.v3d(2, 2, 2), Ok(()));
    assert_eq!(g.indices(vec![1]), Ok(()));
    assert_eq!(g.draw(Vec::new()), Ok(()));
    let batch = &g.render_state.buffers.vertices[0];
    assert_eq!(batch.num_elements, 2);
    assert_eq!(batch.index_buffer, vec![0, 1]);
}

#[test]
fn draw_that_cannot_finish_keeps_the_new_indices() {
    let mut g = frame();
    assert_eq!(g.begin(Primitive::PointList), Ok(()));
    for _ in 0..MAX_IMPLICIT_VERTICES + 1 {
        assert_eq!(g.v3d(0, 0, 0), Ok(()));
    }
    assert_eq!(g.indices(vec![5]), Ok(()));
    assert_eq!(g.draw(Vec::new()), Err(GraphicsError::TooManyElements));
    assert!(g.is_open());
    assert!(g.buffer_step.as_ref().unwrap().indices.is_empty());
    assert_eq!(g.render_state.len(), 0);
}
