use cgdraw::camera::CameraAttributes;
use cgdraw::color::SrgbColor;
use cgdraw::graphics::{Graphics, GraphicsTransform, Primitive};
use cgdraw::matrix::Matrix4x4;
use cgdraw::num::BaseNum;
use cgdraw::point::{Point1, Point2, Point3};
use cgdraw::render::RenderState;
use cgdraw::vector::{Vec1, Vec2, Vec3, Vec4};
use cgdraw::window::WindowPhysicalSize;
use cgdraw::{App, AppBuilder, Color};

fn emitted(g: &mut Graphics<i64>, x: i64, y: i64, z: i64) -> [i64; 3] {
    assert_eq!(g.begin(Primitive::PointList), Ok(()));
    assert_eq!(g.v3d(x, y, z), Ok(()));
    assert_eq!(g.end(), Ok(()));
    let batch = g.render_state.buffers.vertices.last().unwrap();
    batch.vertex_buffer[0].position
}

#[test]
fn translation_adds_its_offset_to_every_vertex() {
    let mut g = Graphics::<i64>::new(RenderState::default());
    g.t.load_identity();
    g.t.translate(10, -20, 30);
    assert_eq!(emitted(&mut g, 1, 2, 3), [11, -18, 33]);
    assert_eq!(emitted(&mut g, 0, 0, 0), [10, -20, 30]);
    assert_eq!(emitted(&mut g, -10, 20, -30), [0, 0, 0]);
    g.t.load_identity();
    assert_eq!(emitted(&mut g, 1, 2, 3), [1, 2, 3]);
}

#[test]
fn translation_composed_after_scale_is_scaled() {
    let mut g = Graphics::<i64>::new(RenderState::default());
    g.t.scale(2, 2, 2);
    g.t.translate(1, 1, 1);
    assert_eq!(emitted(&mut g, 0, 0, 0), [2, 2, 2]);
}

#[test]
fn translation_survives_a_scale_of_one() {
    let mut g = Graphics::<i64>::new(RenderState::default());
    g.t.scale(1, 1, 1);
    g.t.translate(7, 7, 7);
    assert_eq!(emitted(&mut g, 0, 0, 0), [7, 7, 7]);
}

#[test]
fn scale_composed_after_translation_leaves_the_offset() {
    let mut g = Graphics::<i64>::new(RenderState::default());
    g.t.translate(5, 6, 7);
    g.t.scale(2, 3, 4);
    assert_eq!(emitted(&mut g, 1, 1, 1), [7, 9, 11]);
}

#[test]
fn transform_multiplies_on_the_right() {
    let mut t = GraphicsTransform::<i64>::default();
    assert_eq!(t.matrix, Matrix4x4::identity());
    t.scale(2, 3, 4);
    t.translate(1, 1, 1);
    let expected = Matrix4x4::from_scale(Vec3::new(2, 3, 4))
        * Matrix4x4::from_translate(Vec3::new(1, 1, 1));
    assert_eq!(t.matrix, expected);
    assert_eq!(
        t.matrix,
        Matrix4x4::new(2, 0, 0, 0, 0, 3, 0, 0, 0, 0, 4, 0, 2, 3, 4, 1)
    );
}

#[test]
fn load_replaces_the_transform() {
    let mut t = GraphicsTransform::<i64>::default();
    t.translate(1, 2, 3);
    let m = Matrix4x4::new(1, 2, 3, 4, 5, 6, 7, 8, 9, 10, 11, 12, 13, 14, 15, 16);
    t.load(m);
    assert_eq!(t.matrix, m);
    t.load_identity();
    assert_eq!(t.matrix, Matrix4x4::identity());
}

#[test]
fn axis_shortcuts_compose_single_axis_transforms() {
    let mut g = Graphics::<i64>::new(RenderState::default());
    g.translate_x(1);
    g.translate_y(2);
    g.translate_z(3);
    assert_eq!(g.t.matrix, Matrix4x4::from_translate(Vec3::new(1, 2, 3)));
    g.load_identity();
    g.scale_x(2);
    g.scale_y(3);
    g.scale_z(4);
    assert_eq!(g.t.matrix, Matrix4x4::from_scale(Vec3::new(2, 3, 4)));
    g.load_identity();
    assert_eq!(g.t.matrix, Matrix4x4::identity());
}

#[test]
fn matrix_constructors_fill_columns() {
    let m = Matrix4x4::new(1, 2, 3, 4, 5, 6, 7, 8, 9, 10, 11, 12, 13, 14, 15, 16);
    assert_eq!(m.c0, Vec4::new(1, 2, 3, 4));
    assert_eq!(m.c1, Vec4::new(5, 6, 7, 8));
    assert_eq!(m.c2, Vec4::new(9, 10, 11, 12));
    assert_eq!(m.c3, Vec4::new(13, 14, 15, 16));
    assert_eq!(
        m,
        Matrix4x4::from_cols(
            Vec4::new(1, 2, 3, 4),
            Vec4::new(5, 6, 7, 8),
            Vec4::new(9, 10, 11, 12),
            Vec4::new(13, 14, 15, 16)
        )
    );
    assert_eq!(m.row(0), Vec4::new(1, 5, 9, 13));
    assert_eq!(m.row(1), Vec4::new(2, 6, 10, 14));
    assert_eq!(m.row(2), Vec4::new(3, 7, 11, 15));
    assert_eq!(m.row(3), Vec4::new(4, 8, 12, 16));
}

#[test]
fn elementary_matrices_have_the_expected_entries() {
    assert_eq!(
        Matrix4x4::<i64>::identity(),
        Matrix4x4::new(1, 0, 0, 0, 0, 1, 0, 0, 0, 0, 1, 0, 0, 0, 0, 1)
    );
    assert_eq!(
        Matrix4x4::from_translate(Vec3::new(7, 8, 9)),
        Matrix4x4::new(1, 0, 0, 0, 0, 1, 0, 0, 0, 0, 1, 0, 7, 8, 9, 1)
    );
    assert_eq!(
        Matrix4x4::from_scale(Vec3::new(7, 8, 9)),
        Matrix4x4::new(7, 0, 0, 0, 0, 8, 0, 0, 0, 0, 9, 0, 0, 0, 0, 1)
    );
}

#[test]
fn matrix_products() {
    let a = Matrix4x4::new(1, 2, 3, 4, 5, 6, 7, 8, 9, 10, 11, 12, 13, 14, 15, 16);
    let b = Matrix4x4::new(1, 0, 2, 0, 0, 1, 0, 3, 1, 1, 1, 1, 2, 0, 0, 2);
    assert_eq!(
        a * b,
        Matrix4x4::new(19, 22, 25, 28, 44, 48, 52, 56, 28, 32, 36, 40, 28, 32, 36, 40)
    );
    assert_eq!(a * Matrix4x4::identity(), a);
    assert_eq!(Matrix4x4::identity() * a, a);
    assert_eq!(a * Vec4::new(1, 0, 2, 0), Vec4::new(19, 22, 25, 28));
    assert_eq!(
        a * 2,
        Matrix4x4::new(2, 4, 6, 8, 10, 12, 14, 16, 18, 20, 22, 24, 26, 28, 30, 32)
    );
}

#[test]
fn vector_operations() {
    let a = Vec3::new(1i64, 2, 3);
    let b = Vec3::new(4i64, 5, 6);
    assert_eq!(a.cross(b), Vec3::new(-3, 6, -3));
    assert_eq!(Vec3::new(1i64, 0, 0).cross(Vec3::new(0, 1, 0)), Vec3::new(0, 0, 1));
    assert_eq!(a.dot(b), 32);
    assert_eq!(a.extend(9), Vec4::new(1, 2, 3, 9));
    assert_eq!(a.truncate(), Vec2::new(1, 2));
    assert_eq!(Vec4::new(1i64, 2, 3, 4).truncate(), a);
    assert_eq!(Vec4::new(1i64, 2, 3, 4).dot(Vec4::new(5, 6, 7, 8)), 70);
    assert_eq!(a + b, Vec3::new(5, 7, 9));
    assert_eq!(b - a, Vec3::new(3, 3, 3));
    assert_eq!(a * 3, Vec3::new(3, 6, 9));
    assert_eq!(b / 2, Vec3::new(2, 2, 3));
    assert_eq!(Vec4::new(1i64, 2, 3, 4) + Vec4::new(1, 1, 1, 1), Vec4::new(2, 3, 4, 5));
    assert_eq!(Vec4::new(1i64, 2, 3, 4) - Vec4::new(1, 1, 1, 1), Vec4::new(0, 1, 2, 3));
    assert_eq!(Vec4::new(1i64, 2, 3, 4) * 2, Vec4::new(2, 4, 6, 8));
    assert_eq!(Vec4::new(2i64, 4, 6, 8) / 2, Vec4::new(1, 2, 3, 4));
    assert_eq!(Vec1::new(5i64).x, 5);
    assert_eq!(Vec1::new(5i64) + Vec1::new(1), Vec1::new(6));
    assert_eq!(Vec2::new(5i64, 6) - Vec2::new(1, 1), Vec2::new(4, 5));
    assert_eq!(Vec2::new(5i64, 6) * 2, Vec2::new(10, 12));
    assert_eq!(Vec2::new(6i64, 9) / 3, Vec2::new(2, 3));
    assert_eq!(Vec1::<i64>::len(), 1);
    assert_eq!(Vec2::<i64>::len(), 2);
    assert_eq!(Vec3::<i64>::len(), 3);
    assert_eq!(Vec4::<i64>::len(), 4);
    assert_eq!(Vec3::from_value(7i64), Vec3::new(7, 7, 7));
    assert_eq!(Vec4::new(1i64, 2, 3, 4).sum(), 10);
    assert_eq!(Vec2::new(1i64, 2).sum(), 3);
    assert_eq!(Vec4::<i64>::zero(), Vec4::new(0, 0, 0, 0));
}

#[test]
fn vectors_combine_component_by_component() {
    assert_eq!(Vec1::new(3i64) * Vec1::new(4), Vec1::new(12));
    assert_eq!(Vec2::new(3i64, 4) * Vec2::new(5, 6), Vec2::new(15, 24));
    assert_eq!(Vec3::new(1i64, 2, 3) * Vec3::new(4, 5, 6), Vec3::new(4, 10, 18));
    assert_eq!(Vec4::new(1i64, 2, 3, 4) * Vec4::new(2, 2, 2, 2), Vec4::new(2, 4, 6, 8));
    assert_eq!(Vec1::new(12i64) / Vec1::new(4), Vec1::new(3));
    assert_eq!(Vec2::new(15i64, 24) / Vec2::new(5, 6), Vec2::new(3, 4));
    assert_eq!(Vec3::new(4i64, 10, 19) / Vec3::new(4, 5, 6), Vec3::new(1, 2, 3));
    assert_eq!(Vec4::new(2i64, 4, 6, 9) / Vec4::new(2, 2, 2, 2), Vec4::new(1, 2, 3, 4));
}

#[test]
fn vectors_take_a_scalar_on_every_component() {
    assert_eq!(Vec1::new(3i64) + 4, Vec1::new(7));
    assert_eq!(Vec2::new(3i64, 4) + 1, Vec2::new(4, 5));
    assert_eq!(Vec3::new(1i64, 2, 3) + 10, Vec3::new(11, 12, 13));
    assert_eq!(Vec4::new(1i64, 2, 3, 4) + -1, Vec4::new(0, 1, 2, 3));
    assert_eq!(Vec1::new(3i64) - 4, Vec1::new(-1));
    assert_eq!(Vec2::new(3i64, 4) - 1, Vec2::new(2, 3));
    assert_eq!(Vec3::new(1i64, 2, 3) - 10, Vec3::new(-9, -8, -7));
    assert_eq!(Vec4::new(1i64, 2, 3, 4) - 1, Vec4::new(0, 1, 2, 3));
}

#[test]
fn zero_vectors_are_recognised() {
    assert!(Vec1::new(0i64).is_zero());
    assert!(!Vec1::new(1i64).is_zero());
    assert!(Vec2::new(0i64, 0).is_zero());
    assert!(!Vec2::new(0i64, 1).is_zero());
    assert!(Vec3::<i64>::zero().is_zero());
    assert!(!Vec3::new(0i64, 0, -1).is_zero());
    assert!(!Vec3::new(2i64, 0, 0).is_zero());
    assert!(Vec4::<i64>::zero().is_zero());
    assert!(!Vec4::new(0i64, 0, 0, 1).is_zero());
}

#[test]
fn tuple_conversions_keep_the_order() {
    let t: (i64,) = Vec1::new(1i64).into();
    assert_eq!(t, (1,));
    let t: (i64, i64) = Vec2::new(1i64, 2).into();
    assert_eq!(t, (1, 2));
    let t: (i64, i64, i64) = Vec3::new(1i64, 2, 3).into();
    assert_eq!(t, (1, 2, 3));
    let t: (i64, i64, i64, i64) = Vec4::new(1i64, 2, 3, 4).into();
    assert_eq!(t, (1, 2, 3, 4));
    assert_eq!(Vec1::from((1i64,)), Vec1::new(1));
    assert_eq!(Vec2::from((1i64, 2)), Vec2::new(1, 2));
    assert_eq!(Vec3::from((1i64, 2, 3)), Vec3::new(1, 2, 3));
    assert_eq!(Vec4::from((1i64, 2, 3, 4)), Vec4::new(1, 2, 3, 4));
    let t: (i64,) = Point1::new(1i64).into();
    assert_eq!(t, (1,));
    let t: (i64, i64) = Point2::new(1i64, 2).into();
    assert_eq!(t, (1, 2));
    let t: (i64, i64, i64) = Point3::new(1i64, 2, 3).into();
    assert_eq!(t, (1, 2, 3));
    assert_eq!(Point1::from((1i64,)), Point1::new(1));
    assert_eq!(Point2::from((1i64, 2)), Point2::new(1, 2));
    assert_eq!(Point3::from((1i64, 2, 3)), Point3::new(1, 2, 3));
}

#[test]
fn array_conversions_keep_the_order() {
    let a: [i64; 4] = Vec4::new(1i64, 2, 3, 4).into();
    assert_eq!(a, [1, 2, 3, 4]);
    assert_eq!(Vec4::from([1i64, 2, 3, 4]), Vec4::new(1, 2, 3, 4));
    let a: [i64; 3] = Vec3::new(1i64, 2, 3).into();
    assert_eq!(a, [1, 2, 3]);
    assert_eq!(Vec3::from([1i64, 2, 3]), Vec3::new(1, 2, 3));
    let a: [i64; 2] = Vec2::new(1i64, 2).into();
    assert_eq!(a, [1, 2]);
    assert_eq!(Vec1::from([9i64]), Vec1::new(9));
    let a: [i64; 3] = Point3::new(1i64, 2, 3).into();
    assert_eq!(a, [1, 2, 3]);
    assert_eq!(Point3::from([1i64, 2, 3]), Point3::new(1, 2, 3));
    assert_eq!(Point2::from([1i64, 2]), Point2::new(1, 2));
    assert_eq!(Point1::from([1i64]), Point1::new(1));
    let m = Matrix4x4::new(1i64, 2, 3, 4, 5, 6, 7, 8, 9, 10, 11, 12, 13, 14, 15, 16);
    let a: [[i64; 4]; 4] = m.into();
    assert_eq!(a, [[1, 2, 3, 4], [5, 6, 7, 8], [9, 10, 11, 12], [13, 14, 15, 16]]);
    assert_eq!(Matrix4x4::from(a), m);
}

#[test]
fn point_operations() {
    let p = Point3::new(2i64, 4, 6);
    assert_eq!(p.to_homogeneous(), Vec4::new(2, 4, 6, 1));
    assert_eq!(Point3::from_homogeneous(Vec4::new(2i64, 4, 6, 1)), p);
    assert_eq!(Point3::<i64>::origin(), Point3::new(0, 0, 0));
    assert_eq!(Point3::from_vec(Vec3::new(2i64, 4, 6)), p);
    assert_eq!(p.to_vec(), Vec3::new(2, 4, 6));
    assert_eq!(p.dot(Vec3::new(1, 1, 1)), 12);
    assert_eq!(Point2::new(1i64, 2).dot(Vec2::new(3, 4)), 11);
    assert_eq!(Point2::<i64>::origin(), Point2::from_vec(Vec2::new(0, 0)));
    assert_eq!(Point2::new(1i64, 2).to_vec(), Vec2::new(1, 2));
    assert_eq!(Point1::new(3i64).dot(Vec1::new(4)), 12);
    assert_eq!(Point1::<i64>::origin(), Point1::from_vec(Vec1::new(0)));
    assert_eq!(Point1::new(3i64).to_vec(), Vec1::new(3));
}

#[test]
fn integer_scalars_wrap_and_truncate() {
    assert_eq!(<i64 as BaseNum>::zero(), 0);
    assert_eq!(<i64 as BaseNum>::one(), 1);
    assert_eq!(BaseNum::add(i64::MAX, 1), i64::MIN);
    assert_eq!(BaseNum::sub(i64::MIN, 1), i64::MAX);
    assert_eq!(BaseNum::mul(i64::MAX, 2), -2);
    assert_eq!(BaseNum::div(-7i64, 2), -3);
    assert_eq!(BaseNum::div(7i64, -2), -3);
    assert_eq!(<i64 as BaseNum>::from_u8(255), 255);
}

#[test]
fn color_levels_become_channel_ratios() {
    let white: SrgbColor<i64> = Color::WHITE.get_srgb();
    assert_eq!((white.r, white.g, white.b), (1, 1, 1));
    let gold: SrgbColor<i64> = Color::GOLD.get_srgb();
    assert_eq!((gold.r, gold.g, gold.b), (1, 0, 0));
    let custom: SrgbColor<i64> = Color::srgb(255, 254, 0);
    assert_eq!((custom.r, custom.g, custom.b), (1, 0, 0));
    let raw: SrgbColor<i64> = SrgbColor::from_raw(0, 255, 255);
    assert_eq!((raw.r, raw.g, raw.b), (0, 1, 1));
    assert_eq!(Color::CYAN.to_vector::<i64>(), [0, 1, 1]);
    assert_eq!(Color::MAGENTA.to_vector::<i64>(), [1, 0, 1]);
    assert_eq!(Color::YELLOW.to_vector::<i64>(), [1, 1, 0]);
    assert_eq!(Color::GREEN.to_vector::<i64>(), [0, 1, 0]);
}

#[test]
fn plain_values_are_built_as_given() {
    let size = WindowPhysicalSize::new(800, 600);
    assert_eq!((size.width, size.height), (800, 600));
    assert!(size.has_area());
    assert!(!WindowPhysicalSize::new(0, 600).has_area());
    assert!(!WindowPhysicalSize::new(800, 0).has_area());
    let _app: App = AppBuilder::default().build();
    let _attributes: Option<CameraAttributes<i64>> = None;
}
