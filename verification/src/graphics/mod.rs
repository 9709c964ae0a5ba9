//! The drawing interface handed to the application once per frame.
//!
//! A frame is described as a series of batches. Each batch is opened with
//! [`Graphics::begin`], filled with [`Graphics::v3d`] and optionally
//! [`Graphics::indices`], and closed with [`Graphics::end`], which hands the
//! finished batch to the frame's [`RenderState`]. Calls made out of turn are
//! refused and change nothing.
pub mod error;
pub mod laws;
pub mod primitive;
pub mod state;
pub mod step;
pub mod transform;

pub use error::GraphicsError;
pub use primitive::Primitive;
pub use state::GraphicsState;
pub use step::GraphicRenderStepBuffer;
pub use transform::GraphicsTransform;

use crate::angle::Rad;
use crate::color::Color;
use crate::matrix::Matrix4x4;
use crate::num::{BaseFloat, BaseNum};
use crate::render::{BatchView, RenderState};
use crate::vector::{Vec3, Vec4};
use crate::vertex::{Vertex, VertexView};
use step::StepView;
use vstd::prelude::*;
use vstd::std_specs::ops::MulSpec;

verus! {

/// The drawing interface of one frame.
pub struct Graphics<T> {
    /// The batches finished so far in this frame.
    pub render_state: RenderState<T>,
    /// The batch under construction; `None` between batches.
    pub buffer_step: Option<GraphicRenderStepBuffer<T>>,
    /// The settings applied to emitted vertices.
    pub graphics_state: GraphicsState,
    /// The transform applied to emitted vertices.
    pub t: GraphicsTransform<T>,
}

/// What a [`Graphics`] stands for.
pub struct GraphicsView<T> {
    /// The finished batches, oldest first.
    pub batches: Seq<BatchView<T>>,
    /// The batch under construction, if one is open.
    pub open: Option<StepView<T>>,
    /// The color given to emitted vertices.
    pub color: Color,
    /// The transform applied to emitted vertices.
    pub transform: Matrix4x4<T>,
}

impl<T> View for Graphics<T> {
    type V = GraphicsView<T>;

    open spec fn view(&self) -> GraphicsView<T> {
        GraphicsView {
            batches: self.render_state@,
            open: match self.buffer_step {
                Some(step) => Some(step@),
                None => None,
            },
            color: self.graphics_state.color,
            transform: self.t.matrix,
        }
    }
}

/// The vertex emitted for the local point `(x, y, z)` under `transform` while
/// `color` is current: the point in homogeneous form multiplied by the
/// transform, without its fourth component, and the channels of the color.
pub open spec fn emitted_vertex<T: BaseNum>(
    transform: Matrix4x4<T>,
    color: Color,
    x: T,
    y: T,
    z: T,
) -> VertexView<T> {
    let p = transform.mul_spec(Vec4 { x, y, z, w: T::one_spec() });
    let c = color.srgb_spec::<T>();
    VertexView { position: Vec3 { x: p.x, y: p.y, z: p.z }, color: Vec3 { x: c.r, y: c.g, z: c.b } }
}

impl<T> GraphicsView<T> {
    /// The view with `step` as the batch under construction.
    pub open spec fn with_open(self, step: StepView<T>) -> GraphicsView<T> {
        GraphicsView { open: Some(step), ..self }
    }
}

impl<T: BaseNum> Graphics<T> {
    /// Starts a frame: no batch open, the color white, the identity transform,
    /// and `render_state` as the batches finished so far.
    pub fn new(render_state: RenderState<T>) -> (r: Graphics<T>)
        ensures
            r@ == (GraphicsView {
                batches: render_state@,
                open: None,
                color: Color::WHITE,
                transform: Matrix4x4::<T>::identity_spec(),
            }),
    {
        Graphics {
            render_state,
            // No batch is open until `begin` is called.
            buffer_step: None,
            graphics_state: GraphicsState { color: Color::WHITE },
            t: GraphicsTransform::default(),
        }
    }

    /// Whether a batch is open.
    pub fn is_open(&self) -> (open: bool)
        ensures
            open == (self@.open is Some),
    {
        self.buffer_step.is_some()
    }

    /// Emits the local point `(x, y, z)` into the open batch, transformed by
    /// the current matrix and tagged with the current color.
    pub fn v3d(&mut self, x: T, y: T, z: T) -> (r: Result<(), GraphicsError>)
        ensures
            old(self)@.open is None ==> r == Err::<(), _>(GraphicsError::NotStarted)
                && final(self)@ == old(self)@,
            old(self)@.open matches Some(step) ==> r is Ok && final(self)@ == old(self)@.with_open(
                StepView {
                    vertices: step.vertices.push(
                        emitted_vertex(old(self)@.transform, old(self)@.color, x, y, z),
                    ),
                    ..step
                },
            ),
    {
        let v4 = Vec4::new(x, y, z, T::one());
        let v3 = self.t.matrix * v4;
        let vertex = Vertex {
            position: [v3.x, v3.y, v3.z],
            color: self.graphics_state.color.to_vector(),
        };
        match &mut self.buffer_step {
            Some(step) => {
                step.push_vertex(vertex);
                Ok(())
            },
            None => Err(GraphicsError::NotStarted),
        }
    }

    /// Emits a vertex exactly as [`Graphics::v3d`] does.
    pub fn save_vertice(&mut self, x: T, y: T, z: T) -> (r: Result<(), GraphicsError>)
        ensures
            old(self)@.open is None ==> r == Err::<(), _>(GraphicsError::NotStarted)
                && final(self)@ == old(self)@,
            old(self)@.open matches Some(step) ==> r is Ok && final(self)@ == old(self)@.with_open(
                StepView {
                    vertices: step.vertices.push(
                        emitted_vertex(old(self)@.transform, old(self)@.color, x, y, z),
                    ),
                    ..step
                },
            ),
    {
        self.v3d(x, y, z)
    }

    /// Sets the explicit indices of the open batch, replacing any given
    /// before. An empty list means the vertices are drawn in emission order.
    pub fn indices(&mut self, indices: Vec<u16>) -> (r: Result<(), GraphicsError>)
        ensures
            old(self)@.open is None ==> r == Err::<(), _>(GraphicsError::NotStarted)
                && final(self)@ == old(self)@,
            old(self)@.open matches Some(step) ==> r is Ok && final(self)@ == old(self)@.with_open(
                StepView { indices: indices@, ..step },
            ),
    {
        match &mut self.buffer_step {
            Some(step) => {
                step.indices(indices);
                Ok(())
            },
            None => Err(GraphicsError::NotStarted),
        }
    }

    /// Sets the color given to the vertices emitted from now on.
    pub fn color(&mut self, color: Color)
        ensures
            final(self)@ == (GraphicsView { color, ..old(self)@ }),
    {
        self.graphics_state.color = color;
    }

    /// Opens a batch of topology `primitive`.
    pub fn begin(&mut self, primitive: Primitive) -> (r: Result<(), GraphicsError>)
        ensures
            old(self)@.open is Some ==> r == Err::<(), _>(GraphicsError::AlreadyStarted)
                && final(self)@ == old(self)@,
            old(self)@.open is None ==> r is Ok && final(self)@ == old(self)@.with_open(
                StepView::started(primitive),
            ),
    {
        if self.buffer_step.is_some() {
            return Err(GraphicsError::AlreadyStarted);
        }
        let mut step = GraphicRenderStepBuffer::default();
        step.init(Some(primitive));
        self.buffer_step = Some(step);
        Ok(())
    }

    /// Closes the open batch and appends its finished form to the frame's
    /// batches.
    ///
    /// The element count of the finished batch is the number of explicit
    /// indices where any were given, and the number of vertices otherwise, in
    /// which case the indices are `0, 1, ..., n - 1`.
    pub fn end(&mut self) -> (r: Result<(), GraphicsError>)
        ensures
            match old(self)@.open {
                None => r == Err::<(), _>(GraphicsError::NotStarted),
                Some(step) => if step.primitive is None {
                    r == Err::<(), _>(GraphicsError::NotStarted)
                } else if !step.fits() {
                    r == Err::<(), _>(GraphicsError::TooManyElements)
                } else {
                    r is Ok && final(self)@ == (GraphicsView {
                        batches: old(self)@.batches.push(step.finished()),
                        open: None,
                        ..old(self)@
                    })
                },
            },
            r is Err ==> final(self)@ == old(self)@,
    {
        match &mut self.buffer_step {
            None => Err(GraphicsError::NotStarted),
            Some(step) => {
                match step.end() {
                    Ok(vertex_buffer_state) => {
                        self.render_state.add_vertex_buffer_state(vertex_buffer_state);
                        self.buffer_step = None;
                        Ok(())
                    },
                    Err(e) => Err(e),
                }
            },
        }
    }
}

impl<T: BaseNum> Graphics<T> {
    /// Closes the open batch with `indices` as its explicit indices: the same
    /// as [`Graphics::indices`] followed by [`Graphics::end`].
    ///
    /// Without an open batch nothing changes. Where the batch is open but
    /// cannot be finished, the indices have been replaced and the batch stays
    /// open.
    pub fn draw(&mut self, indices: Vec<u16>) -> (r: Result<(), GraphicsError>)
        ensures
            match old(self)@.open {
                None => r == Err::<(), _>(GraphicsError::NotStarted)
                    && final(self)@ == old(self)@,
                Some(step) => {
                    let given = StepView { indices: indices@, ..step };
                    if given.primitive is None {
                        r == Err::<(), _>(GraphicsError::NotStarted)
                            && final(self)@ == old(self)@.with_open(given)
                    } else if !given.fits() {
                        r == Err::<(), _>(GraphicsError::TooManyElements)
                            && final(self)@ == old(self)@.with_open(given)
                    } else {
                        r is Ok && final(self)@ == (GraphicsView {
                            batches: old(self)@.batches.push(given.finished()),
                            open: None,
                            ..old(self)@
                        })
                    }
                },
            },
    {
        match self.indices(indices) {
            Ok(()) => self.end(),
            Err(e) => Err(e),
        }
    }

    /// Resets the transform to the identity.
    pub fn load_identity(&mut self)
        ensures
            final(self)@ == (GraphicsView {
                transform: Matrix4x4::<T>::identity_spec(),
                ..old(self)@
            }),
    {
        self.t.load_identity();
    }

    /// Composes a scaling by `scale` along the x axis onto the transform.
    pub fn scale_x(&mut self, scale: T)
        ensures
            final(self)@ == (GraphicsView {
                transform: old(self)@.transform.mul_spec(Matrix4x4::scale_spec(Vec3 {
                    x: scale,
                    y: T::one_spec(),
                    z: T::one_spec(),
                })),
                ..old(self)@
            }),
    {
        self.t.scale(scale, T::one(), T::one());
    }

    /// Composes a scaling by `scale` along the y axis onto the transform.
    pub fn scale_y(&mut self, scale: T)
        ensures
            final(self)@ == (GraphicsView {
                transform: old(self)@.transform.mul_spec(Matrix4x4::scale_spec(Vec3 {
                    x: T::one_spec(),
                    y: scale,
                    z: T::one_spec(),
                })),
                ..old(self)@
            }),
    {
        self.t.scale(T::one(), scale, T::one());
    }

    /// Composes a scaling by `scale` along the z axis onto the transform.
    pub fn scale_z(&mut self, scale: T)
        ensures
            final(self)@ == (GraphicsView {
                transform: old(self)@.transform.mul_spec(Matrix4x4::scale_spec(Vec3 {
                    x: T::one_spec(),
                    y: T::one_spec(),
                    z: scale,
                })),
                ..old(self)@
            }),
    {
        self.t.scale(T::one(), T::one(), scale);
    }

    /// Composes a translation by `translate` along the x axis onto the transform.
    pub fn translate_x(&mut self, translate: T)
        ensures
            final(self)@ == (GraphicsView {
                transform: old(self)@.transform.mul_spec(Matrix4x4::translate_spec(Vec3 {
                    x: translate,
                    y: T::zero_spec(),
                    z: T::zero_spec(),
                })),
                ..old(self)@
            }),
    {
        self.t.translate(translate, T::zero(), T::zero());
    }

    /// Composes a translation by `translate` along the y axis onto the transform.
    pub fn translate_y(&mut self, translate: T)
        ensures
            final(self)@ == (GraphicsView {
                transform: old(self)@.transform.mul_spec(Matrix4x4::translate_spec(Vec3 {
                    x: T::zero_spec(),
                    y: translate,
                    z: T::zero_spec(),
                })),
                ..old(self)@
            }),
    {
        self.t.translate(T::zero(), translate, T::zero());
    }

    /// Composes a translation by `translate` along the z axis onto the transform.
    pub fn translate_z(&mut self, translate: T)
        ensures
            final(self)@ == (GraphicsView {
                transform: old(self)@.transform.mul_spec(Matrix4x4::translate_spec(Vec3 {
                    x: T::zero_spec(),
                    y: T::zero_spec(),
                    z: translate,
                })),
                ..old(self)@
            }),
    {
        self.t.translate(T::zero(), T::zero(), translate);
    }
}

impl<T: BaseFloat> Graphics<T> {
    /// Composes a rotation about the x axis by `angle` onto the transform.
    pub fn rotate_x(&mut self, angle: Rad<T>)
        ensures
            final(self)@ == (GraphicsView {
                transform: old(self)@.transform.mul_spec(GraphicsTransform::rotation_x(angle)),
                ..old(self)@
            }),
    {
        self.t.rotate_x(angle);
    }

    /// Composes a rotation about the y axis by `angle` onto the transform.
    pub fn rotate_y(&mut self, angle: Rad<T>)
        ensures
            final(self)@ == (GraphicsView {
                transform: old(self)@.transform.mul_spec(GraphicsTransform::rotation_y(angle)),
                ..old(self)@
            }),
    {
        self.t.rotate_y(angle);
    }

    /// Composes a rotation about the z axis by `angle` onto the transform.
    pub fn rotate_z(&mut self, angle: Rad<T>)
        ensures
            final(self)@ == (GraphicsView {
                transform: old(self)@.transform.mul_spec(GraphicsTransform::rotation_z(angle)),
                ..old(self)@
            }),
    {
        self.t.rotate_z(angle);
    }
}

} // verus!
