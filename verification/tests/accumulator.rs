use rendercore::camera::Camera;
use rendercore::graphics::{Graphics, Primitive, Shape, Vertex};
use rendercore::math::{Color, Mat4, Vec2, Vec3, F_ONE, F_ZERO};
use rendercore::object::Object;

fn bits(x: f32) -> u32 {
    x.to_bits()
}

fn v3(x: f32, y: f32, z: f32) -> Vec3 {
    Vec3 { x: bits(x), y: bits(y), z: bits(z) }
}

fn v2(x: f32, y: f32) -> Vec2 {
    Vec2 { x: bits(x), y: bits(y) }
}

fn white() -> Color {
    Color { r: F_ONE, g: F_ONE, b: F_ONE, a: F_ONE }
}

fn vertex(x: f32, y: f32, z: f32) -> Vertex {
    Vertex { position: v3(x, y, z), color: white(), normal: v3(0.0, 0.0, 0.0) }
}

fn identity_entries_vec() -> Vec<u32> {
    glam::Mat4::IDENTITY.to_cols_array().iter().map(|f| f.to_bits()).collect()
}

#[test]
fn fresh_accumulator_flushes_empty() {
    let g = Graphics::new();
    assert!(g.flush_draws().is_empty());
}

#[test]
fn flush_returns_calls_in_submission_order() {
    let shape = Shape::new()
        .with_vertices(vec![vertex(0.0, 0.0, 0.0), vertex(1.0, 1.0, 1.0)])
        .with_indices(vec![0, 1]);
    let calls = Graphics::new()
        .draw(&shape, Mat4::identity())
        .draw_line(v3(-1.0, -1.0, 0.0), v3(1.0, 1.0, 0.0), white())
        .draw_rectangle(v2(10.0, 10.0), v2(100.0, 50.0), white())
        .flush_draws();
    assert_eq!(calls.len(), 3);

    // First call: the shape's buffers, copied.
    assert_eq!(calls[0].vertices.len(), 2);
    assert_eq!(calls[0].vertices[1].position, v3(1.0, 1.0, 1.0));
    assert_eq!(calls[0].indices.as_slice(), &[0u32, 1u32]);
    assert_eq!(calls[0].transform.entries(), identity_entries_vec());

    // Second call: the line's two endpoints, no indices.
    assert_eq!(calls[1].vertices.len(), 2);
    assert_eq!(calls[1].vertices[0].position, v3(-1.0, -1.0, 0.0));
    assert_eq!(calls[1].vertices[1].position, v3(1.0, 1.0, 0.0));
    assert!(calls[1].indices.is_empty());
    assert_eq!(calls[1].transform.entries(), identity_entries_vec());

    // Third call: the quad's four corners and six indices.
    assert_eq!(calls[2].vertices.len(), 4);
    assert_eq!(calls[2].vertices[0].position, v3(10.0, 10.0, 0.0));
    assert_eq!(calls[2].vertices[1].position, v3(10.0 + 100.0, 10.0 + 0.0, 0.0));
    assert_eq!(calls[2].vertices[2].position, v3(10.0 + 100.0, 10.0 + 50.0, 0.0));
    assert_eq!(calls[2].vertices[3].position, v3(10.0 + 0.0, 10.0 + 50.0, 0.0));
    assert_eq!(calls[2].indices.as_slice(), &[0u32, 1, 2, 0, 2, 3]);
    assert_eq!(calls[2].transform.entries(), identity_entries_vec());
}

#[test]
fn empty_buffers_are_valid_and_draw_nothing() {
    let calls = Graphics::new().draw(&Shape::new(), Mat4::identity()).flush_draws();
    assert_eq!(calls.len(), 1);
    assert!(calls[0].vertices.is_empty());
    assert!(calls[0].indices.is_empty());
}

#[test]
fn drawing_does_not_consume_the_shape() {
    let shape = Shape::new().with_vertices(vec![vertex(2.0, 0.0, 0.0)]);
    let calls = Graphics::new()
        .draw(&shape, Mat4::identity())
        .draw(&shape, Mat4::translation(v3(5.0, 0.0, 0.0)))
        .flush_draws();
    assert_eq!(calls.len(), 2);
    assert_eq!(calls[0].vertices[0], calls[1].vertices[0]);
    assert_eq!(shape.vertices().len(), 1);
    let expect: Vec<u32> = glam::Mat4::from_translation(glam::Vec3::new(5.0, 0.0, 0.0))
        .to_cols_array()
        .iter()
        .map(|f| f.to_bits())
        .collect();
    assert_eq!(calls[1].transform.entries(), expect);
}

#[test]
fn shape_builder_defaults_to_triangles_but_raw_primitive_to_unknown() {
    assert_eq!(Shape::new().primitive(), Primitive::Triangles);
    assert_eq!(Shape::default().primitive(), Primitive::Triangles);
    assert_eq!(Primitive::default(), Primitive::Unknown);
    let s = Shape::new().with_primitive(Primitive::Lines);
    assert_eq!(s.primitive(), Primitive::Lines);
}

#[test]
fn shape_builders_replace_one_field_each() {
    let s = Shape::new()
        .with_vertices(vec![vertex(1.0, 2.0, 3.0)])
        .with_indices(vec![7, 8]);
    assert_eq!(s.vertices().len(), 1);
    assert_eq!(s.indices().as_slice(), &[7u32, 8u32]);
    assert_eq!(s.primitive(), Primitive::Triangles);
    let s = s.with_primitive(Primitive::Points);
    assert_eq!(s.vertices().len(), 1);
    assert_eq!(s.indices().as_slice(), &[7u32, 8u32]);
    assert_eq!(s.primitive(), Primitive::Points);
}

#[test]
fn draw_object_reinterprets_signed_indices() {
    let o = Object::new_mesh(vec![vertex(0.0, 0.0, 0.0)], vec![0, -1, 5]);
    let calls = Graphics::new().draw_object(&o).flush_draws();
    assert_eq!(calls.len(), 1);
    assert_eq!(calls[0].indices.as_slice(), &[0u32, 4294967295, 5]);
    assert_eq!(calls[0].vertices.len(), 1);
    assert_eq!(calls[0].transform.entries(), identity_entries_vec());
}

#[test]
fn draw_object_snapshots_the_object_transform() {
    let mut o = Object::new_cube(white());
    o.translate(v3(1.0, 2.0, 3.0));
    let before = o.transform().entries();
    let calls = Graphics::new().draw_object(&o).flush_draws();
    assert_eq!(calls[0].transform.entries(), before);
    assert_eq!(calls[0].vertices.len(), 24);
    assert_eq!(calls[0].indices.len(), 36);
}

#[test]
fn set_camera_keeps_accumulated_calls_in_order() {
    let mut cam = Camera::new();
    cam.translate(v3(0.0, 1.0, 0.0));
    let calls = Graphics::new()
        .draw_line(v3(0.0, 0.0, 0.0), v3(1.0, 0.0, 0.0), white())
        .set_camera(&cam)
        .draw_line(v3(0.0, 0.0, 0.0), v3(0.0, 1.0, 0.0), white())
        .flush_draws();
    assert_eq!(calls.len(), 2);
    assert_eq!(calls[0].vertices[1].position, v3(1.0, 0.0, 0.0));
    assert_eq!(calls[1].vertices[1].position, v3(0.0, 1.0, 0.0));
}
