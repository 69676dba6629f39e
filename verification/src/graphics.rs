//! Shapes and the per-frame draw-call accumulator.
//!
//! A `Shape` pairs an immutable vertex/index buffer with a primitive
//! topology. `Graphics` collects one frame's draw submissions in order and
//! hands them out exactly once through `flush_draws`.

use vstd::prelude::*;

use crate::camera::Camera;
use crate::math::{
    identity_entries, sum_each_bits, vec3_sum_each, Color, Mat4, Vec2, Vec3, F_ZERO,
};
use crate::object::Object;
use crate::shapes::vert;

verus! {

/// One point of a mesh: position, color and normal, each component a raw
/// single-precision bit pattern.
#[derive(Clone, Copy, PartialEq, Eq, Structural, Debug)]
pub struct Vertex {
    pub position: Vec3,
    pub color: Color,
    pub normal: Vec3,
}

/// The primitive topology a shape's vertices describe.
#[derive(Clone, Copy, PartialEq, Eq, Structural, Debug)]
pub enum Primitive {
    Unknown,
    Points,
    Lines,
    LineStrips,
    LineLoops,
    Triangles,
    TriangleStrips,
    TriangleFans,
}

impl Default for Primitive {
    /// A directly default-initialized primitive is `Unknown`; the standard
    /// shape builder chooses `Triangles` instead.
    fn default() -> (r: Self)
        ensures
            r == Primitive::Unknown,
    {
        Primitive::Unknown
    }
}

/// An immutable mesh description: topology plus vertex and index buffers.
pub struct Shape {
    primitive: Primitive,
    vertices: Vec<Vertex>,
    indices: Vec<u32>,
}

impl Default for Shape {
    /// The standard builder entry point: empty buffers and `Triangles`.
    fn default() -> (r: Self)
        ensures
            r.primitive_view() == Primitive::Triangles,
            r.vertices_view() == Seq::<Vertex>::empty(),
            r.indices_view() == Seq::<u32>::empty(),
    {
        let r = Shape { primitive: Primitive::Triangles, vertices: Vec::new(), indices: Vec::new() };
        proof {
            assert(r.vertices_view() =~= Seq::<Vertex>::empty());
            assert(r.indices_view() =~= Seq::<u32>::empty());
        }
        r
    }
}

impl Shape {
    /// The shape's topology.
    pub closed spec fn primitive_view(&self) -> Primitive {
        self.primitive
    }

    /// The shape's vertices in order.
    pub closed spec fn vertices_view(&self) -> Seq<Vertex> {
        self.vertices@
    }

    /// The shape's indices in order.
    pub closed spec fn indices_view(&self) -> Seq<u32> {
        self.indices@
    }

    /// A fresh shape: empty buffers, `Triangles` topology.
    pub fn new() -> (r: Self)
        ensures
            r.primitive_view() == Primitive::Triangles,
            r.vertices_view() == Seq::<Vertex>::empty(),
            r.indices_view() == Seq::<u32>::empty(),
    {
        Default::default()
    }

    /// Replaces the topology, keeping the buffers.
    pub fn with_primitive(self, primitive: Primitive) -> (r: Self)
        ensures
            r.primitive_view() == primitive,
            r.vertices_view() == self.vertices_view(),
            r.indices_view() == self.indices_view(),
    {
        let mut s = self;
        s.primitive = primitive;
        s
    }

    /// Replaces the vertex buffer, keeping topology and indices.
    pub fn with_vertices(self, vertices: Vec<Vertex>) -> (r: Self)
        ensures
            r.primitive_view() == self.primitive_view(),
            r.vertices_view() == vertices@,
            r.indices_view() == self.indices_view(),
    {
        let mut s = self;
        s.vertices = vertices;
        s
    }

    /// Replaces the index buffer, keeping topology and vertices.
    pub fn with_indices(self, indices: Vec<u32>) -> (r: Self)
        ensures
            r.primitive_view() == self.primitive_view(),
            r.vertices_view() == self.vertices_view(),
            r.indices_view() == indices@,
    {
        let mut s = self;
        s.indices = indices;
        s
    }

    /// Read-only borrow of the vertices.
    pub fn vertices(&self) -> (r: &Vec<Vertex>)
        ensures
            r@ == self.vertices_view(),
    {
        &self.vertices
    }

    /// Read-only borrow of the indices.
    pub fn indices(&self) -> (r: &Vec<u32>)
        ensures
            r@ == self.indices_view(),
    {
        &self.indices
    }

    /// The topology.
    pub fn primitive(&self) -> (r: Primitive)
        ensures
            r == self.primitive_view(),
    {
        self.primitive
    }
}

/// One immutable unit of geometry plus transform, snapshotted for
/// submission; it keeps no tie to the shape that produced it.
pub struct DrawCall {
    pub vertices: Vec<Vertex>,
    pub indices: Vec<u32>,
    pub transform: Mat4,
}

/// The mathematical content of a draw call: the two buffers and the
/// transform entries.
#[verifier::ext_equal]
pub ghost struct DrawCallModel {
    pub vertices: Seq<Vertex>,
    pub indices: Seq<u32>,
    pub transform: Seq<u32>,
}

impl View for DrawCall {
    type V = DrawCallModel;

    open spec fn view(&self) -> DrawCallModel {
        DrawCallModel { vertices: self.vertices@, indices: self.indices@, transform: self.transform@ }
    }
}

/// The models of a sequence of draw calls, in order.
pub open spec fn calls_model(calls: Seq<DrawCall>) -> Seq<DrawCallModel> {
    calls.map_values(|dc: DrawCall| dc@)
}

/// Copies a buffer of plain values element by element.
fn duplicate<T: Copy>(v: &Vec<T>) -> (r: Vec<T>)
    ensures
        r@ == v@,
{
    let mut r: Vec<T> = Vec::new();
    let mut i: usize = 0;
    while i < v.len()
        invariant
            i <= v@.len(),
            r@ == v@.take(i as int),
        decreases v@.len() - i,
    {
        r.push(v[i]);
        proof {
            assert(r@ == v@.take(i + 1 as int));
        }
        i = i + 1;
    }
    proof {
        assert(v@.take(v@.len() as int) == v@);
    }
    r
}

/// The per-frame accumulator of draw calls, drained once per frame.
pub struct Graphics {
    draw_calls: Vec<DrawCall>,
    camera: Mat4,
}

impl View for Graphics {
    type V = Seq<DrawCallModel>;

    closed spec fn view(&self) -> Seq<DrawCallModel> {
        calls_model(self.draw_calls@)
    }
}

impl Default for Graphics {
    /// A fresh accumulator holds no draw calls and the identity camera.
    fn default() -> (r: Self)
        ensures
            r@ == Seq::<DrawCallModel>::empty(),
            r.camera_view() == crate::math::identity_entries(),
    {
        let r = Graphics { draw_calls: Vec::new(), camera: Mat4::identity() };
        proof {
            assert(r@ =~= Seq::<DrawCallModel>::empty());
        }
        r
    }
}

impl Graphics {
    /// The transform of the camera the following submissions are bound to.
    pub closed spec fn camera_view(&self) -> Seq<u32> {
        self.camera@
    }

    /// A fresh accumulator: no draw calls, identity camera.
    pub fn new() -> (r: Self)
        ensures
            r@ == Seq::<DrawCallModel>::empty(),
            r.camera_view() == crate::math::identity_entries(),
    {
        Default::default()
    }

    /// Appends one draw call holding copies of the shape's buffers and the
    /// given transform; earlier submissions are untouched.
    pub fn draw(self, shape: &Shape, transform: Mat4) -> (r: Self)
        ensures
            r@ == self@.push(DrawCallModel {
                vertices: shape.vertices_view(),
                indices: shape.indices_view(),
                transform: transform@,
            }),
            r.camera_view() == self.camera_view(),
    {
        let mut g = self;
        let dc = DrawCall {
            vertices: duplicate(&shape.vertices),
            indices: duplicate(&shape.indices),
            transform,
        };
        g.draw_calls.push(dc);
        proof {
            assert(g@ =~= self@.push(DrawCallModel {
                vertices: shape.vertices_view(),
                indices: shape.indices_view(),
                transform: transform@,
            }));
        }
        g
    }

    /// Consumes the accumulator and returns the accumulated draw calls,
    /// exactly those appended since its creation, in insertion order.
    pub fn flush_draws(self) -> (r: Vec<DrawCall>)
        ensures
            calls_model(r@) == self@,
    {
        self.draw_calls
    }

    /// Binds the following submissions to `camera`: the accumulated draw
    /// calls are untouched, so a camera switch affects only calls submitted
    /// after it.
    pub fn set_camera(self, camera: &Camera) -> (r: Self)
        ensures
            r@ == self@,
            r.camera_view() == camera.transform_view(),
    {
        let mut g = self;
        g.camera = *camera.transform();
        g
    }

    /// Appends one draw call for an object: its buffers with the indices
    /// reinterpreted as unsigned, under the object's own transform.
    pub fn draw_object(self, object: &Object) -> (r: Self)
        ensures
            r@ == self@.push(DrawCallModel {
                vertices: object.vertices_view(),
                indices: unsigned_indices(object.indices_view()),
                transform: object.transform_view(),
            }),
            r.camera_view() == self.camera_view(),
    {
        let mut g = self;
        let dc = DrawCall {
            vertices: duplicate(object.vertices()),
            indices: to_unsigned(object.indices()),
            transform: *object.transform(),
        };
        g.draw_calls.push(dc);
        proof {
            assert(g@ =~= self@.push(DrawCallModel {
                vertices: object.vertices_view(),
                indices: unsigned_indices(object.indices_view()),
                transform: object.transform_view(),
            }));
        }
        g
    }

    /// Appends one draw call for a line segment: two vertices under the
    /// identity transform.
    pub fn draw_line(self, from: Vec3, to: Vec3, color: Color) -> (r: Self)
        ensures
            r@ == self@.push(line_call(from, to, color)),
            r.camera_view() == self.camera_view(),
    {
        let shape = Shape::new().with_primitive(Primitive::Lines).with_vertices(
            line_vertices(from, to, color),
        );
        self.draw(&shape, Mat4::identity())
    }

    /// Appends one draw call for an axis-aligned rectangle at `position`
    /// with extent `size`: a four-vertex quad and its six indices, under
    /// the identity transform.
    pub fn draw_rectangle(self, position: Vec2, size: Vec2, color: Color) -> (r: Self)
        ensures
            r@ == self@.push(rectangle_call(position, size, color)),
            r.camera_view() == self.camera_view(),
    {
        let p0 = Vec3 { x: position.x, y: position.y, z: F_ZERO };
        let p1 = vec3_sum_each(p0, Vec3 { x: size.x, y: F_ZERO, z: F_ZERO });
        let p2 = vec3_sum_each(p0, Vec3 { x: size.x, y: size.y, z: F_ZERO });
        let p3 = vec3_sum_each(p0, Vec3 { x: F_ZERO, y: size.y, z: F_ZERO });
        let mut vertices: Vec<Vertex> = Vec::new();
        vertices.push(corner(p0, color));
        vertices.push(corner(p1, color));
        vertices.push(corner(p2, color));
        vertices.push(corner(p3, color));
        let mut indices: Vec<u32> = Vec::new();
        indices.push(0);
        indices.push(1);
        indices.push(2);
        indices.push(0);
        indices.push(2);
        indices.push(3);
        proof {
            assert(vertices@ =~= rectangle_call(position, size, color).vertices);
            assert(indices@ =~= rectangle_call(position, size, color).indices);
        }
        let shape = Shape::new().with_primitive(Primitive::Triangles).with_vertices(
            vertices,
        ).with_indices(indices);
        self.draw(&shape, Mat4::identity())
    }
}

/// A signed index reinterpreted as unsigned, two's complement.
pub open spec fn index_unsigned(i: i32) -> u32 {
    if i >= 0 {
        i as u32
    } else {
        (i as int + 0x1_0000_0000) as u32
    }
}

/// A signed index buffer reinterpreted as unsigned, element by element.
pub open spec fn unsigned_indices(s: Seq<i32>) -> Seq<u32> {
    s.map_values(|i: i32| index_unsigned(i))
}

/// Converts a signed index buffer to unsigned, two's complement.
fn to_unsigned(v: &Vec<i32>) -> (r: Vec<u32>)
    ensures
        r@ == unsigned_indices(v@),
{
    let mut r: Vec<u32> = Vec::new();
    let mut i: usize = 0;
    while i < v.len()
        invariant
            i <= v@.len(),
            r@ == unsigned_indices(v@.take(i as int)),
        decreases v@.len() - i,
    {
        let idx = v[i];
        let u: u32 = if idx >= 0 {
            idx as u32
        } else {
            ((idx as i64) + 0x1_0000_0000) as u32
        };
        r.push(u);
        proof {
            assert(unsigned_indices(v@.take(i + 1 as int)) =~= r@);
        }
        i = i + 1;
    }
    proof {
        assert(v@.take(v@.len() as int) == v@);
    }
    r
}

/// A rectangle or line vertex: a position with the given color and no
/// normal.
pub open spec fn flat_vertex(p: Vec3, color: Color) -> Vertex {
    vert(p.x, p.y, p.z, color, F_ZERO, F_ZERO, F_ZERO)
}

/// Builds a flat vertex.
fn corner(p: Vec3, color: Color) -> (r: Vertex)
    ensures
        r == flat_vertex(p, color),
{
    Vertex { position: p, color, normal: Vec3 { x: F_ZERO, y: F_ZERO, z: F_ZERO } }
}

/// The two line vertices: the endpoints, colored, with no normal.
pub open spec fn line_vertices_model(from: Vec3, to: Vec3, color: Color) -> Seq<Vertex> {
    seq![flat_vertex(from, color), flat_vertex(to, color)]
}

/// Builds the two line vertices.
fn line_vertices(from: Vec3, to: Vec3, color: Color) -> (r: Vec<Vertex>)
    ensures
        r@ == line_vertices_model(from, to, color),
{
    let mut r: Vec<Vertex> = Vec::new();
    r.push(corner(from, color));
    r.push(corner(to, color));
    proof {
        assert(r@ =~= line_vertices_model(from, to, color));
    }
    r
}

/// The draw call a line submission appends: its two endpoints, no indices,
/// the identity transform.
pub open spec fn line_call(from: Vec3, to: Vec3, color: Color) -> DrawCallModel {
    DrawCallModel {
        vertices: line_vertices_model(from, to, color),
        indices: Seq::<u32>::empty(),
        transform: identity_entries(),
    }
}

/// Law: a freshly constructed accumulator flushes to the empty sequence.
pub fn fresh_flush_is_empty() -> (r: Vec<DrawCall>)
    ensures
        r@.len() == 0,
        calls_model(r@) == Seq::<DrawCallModel>::empty(),
{
    let r = Graphics::new().flush_draws();
    proof {
        assert(calls_model(r@).len() == r@.len());
    }
    r
}

/// Law: `flush_draws` returns exactly the draw calls appended since the
/// accumulator's creation, in submission order, whatever each submission
/// holds: a shape, a line, then a rectangle flush to those three calls in
/// that order.
pub fn draws_flush_in_order(
    shape: &Shape,
    transform: Mat4,
    from: Vec3,
    to: Vec3,
    line_color: Color,
    position: Vec2,
    size: Vec2,
    fill_color: Color,
) -> (r: Vec<DrawCall>)
    ensures
        calls_model(r@) == seq![
            DrawCallModel {
                vertices: shape.vertices_view(),
                indices: shape.indices_view(),
                transform: transform@,
            },
            line_call(from, to, line_color),
            rectangle_call(position, size, fill_color),
        ],
{
    let g = Graphics::new().draw(shape, transform).draw_line(from, to, line_color)
        .draw_rectangle(position, size, fill_color);
    let r = g.flush_draws();
    proof {
        assert(calls_model(r@) =~= seq![
            DrawCallModel {
                vertices: shape.vertices_view(),
                indices: shape.indices_view(),
                transform: transform@,
            },
            line_call(from, to, line_color),
            rectangle_call(position, size, fill_color),
        ]);
    }
    r
}

/// The draw call a rectangle submission appends: the quad's four corners
/// (the far ones reached by component-wise sums), its six indices, the
/// identity transform.
pub open spec fn rectangle_call(position: Vec2, size: Vec2, color: Color) -> DrawCallModel {
    let p0 = Vec3 { x: position.x, y: position.y, z: F_ZERO };
    let p1 = sum_each_bits(p0, Vec3 { x: size.x, y: F_ZERO, z: F_ZERO });
    let p2 = sum_each_bits(p0, Vec3 { x: size.x, y: size.y, z: F_ZERO });
    let p3 = sum_each_bits(p0, Vec3 { x: F_ZERO, y: size.y, z: F_ZERO });
    DrawCallModel {
        vertices: seq![
            flat_vertex(p0, color),
            flat_vertex(p1, color),
            flat_vertex(p2, color),
            flat_vertex(p3, color),
        ],
        indices: seq![0u32, 1u32, 2u32, 0u32, 2u32, 3u32],
        transform: identity_entries(),
    }
}

} // verus!
