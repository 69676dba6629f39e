//! Static mesh tables for primitive shapes.
//!
//! A unit cube and a unit plane, both centered at the origin, with four
//! vertices per face and per-face normals. The tables are fixed data: every
//! coordinate is the bit pattern of 0.5, -0.5, 1.0, -1.0 or 0.0.

use vstd::prelude::*;

use crate::graphics::Vertex;
use crate::math::{Color, Vec3, F_ONE, F_ZERO};

verus! {

/// Bit pattern of 0.5f32.
pub const F_HALF: u32 = 0x3F00_0000;
/// Bit pattern of -0.5f32.
pub const F_NEG_HALF: u32 = 0xBF00_0000;
/// Bit pattern of -1.0f32.
pub const F_NEG_ONE: u32 = 0xBF80_0000;

/// A vertex from plain components.
pub open spec fn vert(x: u32, y: u32, z: u32, c: Color, nx: u32, ny: u32, nz: u32) -> Vertex {
    Vertex {
        position: Vec3 { x, y, z },
        color: c,
        normal: Vec3 { x: nx, y: ny, z: nz },
    }
}

/// Builds a vertex from plain components.
fn vert_at(x: u32, y: u32, z: u32, c: Color, nx: u32, ny: u32, nz: u32) -> (r: Vertex)
    ensures
        r == vert(x, y, z, c, nx, ny, nz),
{
    Vertex {
        position: Vec3 { x, y, z },
        color: c,
        normal: Vec3 { x: nx, y: ny, z: nz },
    }
}

/// The 24 vertices of the unit cube: six faces of four corners each, in
/// face order +X, -X, +Y, -Y, +Z, -Z, every vertex carrying `c` and its
/// face's outward normal.
pub open spec fn cube_vertices(c: Color) -> Seq<Vertex> {
    seq![
        vert(F_HALF, F_NEG_HALF, F_NEG_HALF, c, F_ONE, F_ZERO, F_ZERO),
        vert(F_HALF, F_HALF, F_NEG_HALF, c, F_ONE, F_ZERO, F_ZERO),
        vert(F_HALF, F_HALF, F_HALF, c, F_ONE, F_ZERO, F_ZERO),
        vert(F_HALF, F_NEG_HALF, F_HALF, c, F_ONE, F_ZERO, F_ZERO),
        vert(F_NEG_HALF, F_NEG_HALF, F_HALF, c, F_NEG_ONE, F_ZERO, F_ZERO),
        vert(F_NEG_HALF, F_HALF, F_HALF, c, F_NEG_ONE, F_ZERO, F_ZERO),
        vert(F_NEG_HALF, F_HALF, F_NEG_HALF, c, F_NEG_ONE, F_ZERO, F_ZERO),
        vert(F_NEG_HALF, F_NEG_HALF, F_NEG_HALF, c, F_NEG_ONE, F_ZERO, F_ZERO),
        vert(F_NEG_HALF, F_HALF, F_NEG_HALF, c, F_ZERO, F_ONE, F_ZERO),
        vert(F_NEG_HALF, F_HALF, F_HALF, c, F_ZERO, F_ONE, F_ZERO),
        vert(F_HALF, F_HALF, F_HALF, c, F_ZERO, F_ONE, F_ZERO),
        vert(F_HALF, F_HALF, F_NEG_HALF, c, F_ZERO, F_ONE, F_ZERO),
        vert(F_NEG_HALF, F_NEG_HALF, F_HALF, c, F_ZERO, F_NEG_ONE, F_ZERO),
        vert(F_NEG_HALF, F_NEG_HALF, F_NEG_HALF, c, F_ZERO, F_NEG_ONE, F_ZERO),
        vert(F_HALF, F_NEG_HALF, F_NEG_HALF, c, F_ZERO, F_NEG_ONE, F_ZERO),
        vert(F_HALF, F_NEG_HALF, F_HALF, c, F_ZERO, F_NEG_ONE, F_ZERO),
        vert(F_NEG_HALF, F_NEG_HALF, F_HALF, c, F_ZERO, F_ZERO, F_ONE),
        vert(F_HALF, F_NEG_HALF, F_HALF, c, F_ZERO, F_ZERO, F_ONE),
        vert(F_HALF, F_HALF, F_HALF, c, F_ZERO, F_ZERO, F_ONE),
        vert(F_NEG_HALF, F_HALF, F_HALF, c, F_ZERO, F_ZERO, F_ONE),
        vert(F_HALF, F_NEG_HALF, F_NEG_HALF, c, F_ZERO, F_ZERO, F_NEG_ONE),
        vert(F_NEG_HALF, F_NEG_HALF, F_NEG_HALF, c, F_ZERO, F_ZERO, F_NEG_ONE),
        vert(F_NEG_HALF, F_HALF, F_NEG_HALF, c, F_ZERO, F_ZERO, F_NEG_ONE),
        vert(F_HALF, F_HALF, F_NEG_HALF, c, F_ZERO, F_ZERO, F_NEG_ONE),
    ]
}

/// The 36 cube indices: two triangles per face, four vertices per face.
pub open spec fn cube_indices() -> Seq<i32> {
    seq![
        0, 1, 2, 0, 2, 3,
        4, 5, 6, 4, 6, 7,
        8, 9, 10, 8, 10, 11,
        12, 13, 14, 12, 14, 15,
        16, 17, 18, 16, 18, 19,
        20, 21, 22, 20, 22, 23,
    ]
}

/// The 4 vertices of the unit plane in the XZ plane, normal +Y.
pub open spec fn plane_vertices(c: Color) -> Seq<Vertex> {
    seq![
        vert(F_NEG_HALF, F_ZERO, F_NEG_HALF, c, F_ZERO, F_ONE, F_ZERO),
        vert(F_NEG_HALF, F_ZERO, F_HALF, c, F_ZERO, F_ONE, F_ZERO),
        vert(F_HALF, F_ZERO, F_HALF, c, F_ZERO, F_ONE, F_ZERO),
        vert(F_HALF, F_ZERO, F_NEG_HALF, c, F_ZERO, F_ONE, F_ZERO),
    ]
}

/// The 6 plane indices: the quad's two triangles.
pub open spec fn plane_indices() -> Seq<i32> {
    seq![0, 1, 2, 0, 2, 3]
}

/// Pushes one quad's corner vertices.
fn push_face(
    out: &mut Vec<Vertex>,
    a: Vertex,
    b: Vertex,
    c: Vertex,
    d: Vertex,
)
    ensures
        final(out)@ == old(out)@.push(a).push(b).push(c).push(d),
{
    out.push(a);
    out.push(b);
    out.push(c);
    out.push(d);
}

/// Pushes the two index triples of one quad face starting at vertex `base`.
fn push_face_indices(out: &mut Vec<i32>, base: i32)
    requires
        0 <= base <= 20,
    ensures
        final(out)@ == old(out)@.push(base).push((base + 1) as i32).push((base + 2) as i32)
            .push(base).push((base + 2) as i32).push((base + 3) as i32),
{
    out.push(base);
    out.push(base + 1);
    out.push(base + 2);
    out.push(base);
    out.push(base + 2);
    out.push(base + 3);
}

/// The unit cube mesh table.
pub struct Cube;

impl Cube {
    /// The cube's 24 vertices, every one colored `c`.
    pub fn vertices(c: Color) -> (r: Vec<Vertex>)
        ensures
            r@ == cube_vertices(c),
    {
        let mut r: Vec<Vertex> = Vec::new();
        push_face(
            &mut r,
            vert_at(F_HALF, F_NEG_HALF, F_NEG_HALF, c, F_ONE, F_ZERO, F_ZERO),
            vert_at(F_HALF, F_HALF, F_NEG_HALF, c, F_ONE, F_ZERO, F_ZERO),
            vert_at(F_HALF, F_HALF, F_HALF, c, F_ONE, F_ZERO, F_ZERO),
            vert_at(F_HALF, F_NEG_HALF, F_HALF, c, F_ONE, F_ZERO, F_ZERO),
        );
        push_face(
            &mut r,
            vert_at(F_NEG_HALF, F_NEG_HALF, F_HALF, c, F_NEG_ONE, F_ZERO, F_ZERO),
            vert_at(F_NEG_HALF, F_HALF, F_HALF, c, F_NEG_ONE, F_ZERO, F_ZERO),
            vert_at(F_NEG_HALF, F_HALF, F_NEG_HALF, c, F_NEG_ONE, F_ZERO, F_ZERO),
            vert_at(F_NEG_HALF, F_NEG_HALF, F_NEG_HALF, c, F_NEG_ONE, F_ZERO, F_ZERO),
        );
        push_face(
            &mut r,
            vert_at(F_NEG_HALF, F_HALF, F_NEG_HALF, c, F_ZERO, F_ONE, F_ZERO),
            vert_at(F_NEG_HALF, F_HALF, F_HALF, c, F_ZERO, F_ONE, F_ZERO),
            vert_at(F_HALF, F_HALF, F_HALF, c, F_ZERO, F_ONE, F_ZERO),
            vert_at(F_HALF, F_HALF, F_NEG_HALF, c, F_ZERO, F_ONE, F_ZERO),
        );
        push_face(
            &mut r,
            vert_at(F_NEG_HALF, F_NEG_HALF, F_HALF, c, F_ZERO, F_NEG_ONE, F_ZERO),
            vert_at(F_NEG_HALF, F_NEG_HALF, F_NEG_HALF, c, F_ZERO, F_NEG_ONE, F_ZERO),
            vert_at(F_HALF, F_NEG_HALF, F_NEG_HALF, c, F_ZERO, F_NEG_ONE, F_ZERO),
            vert_at(F_HALF, F_NEG_HALF, F_HALF, c, F_ZERO, F_NEG_ONE, F_ZERO),
        );
        push_face(
            &mut r,
            vert_at(F_NEG_HALF, F_NEG_HALF, F_HALF, c, F_ZERO, F_ZERO, F_ONE),
            vert_at(F_HALF, F_NEG_HALF, F_HALF, c, F_ZERO, F_ZERO, F_ONE),
            vert_at(F_HALF, F_HALF, F_HALF, c, F_ZERO, F_ZERO, F_ONE),
            vert_at(F_NEG_HALF, F_HALF, F_HALF, c, F_ZERO, F_ZERO, F_ONE),
        );
        push_face(
            &mut r,
            vert_at(F_HALF, F_NEG_HALF, F_NEG_HALF, c, F_ZERO, F_ZERO, F_NEG_ONE),
            vert_at(F_NEG_HALF, F_NEG_HALF, F_NEG_HALF, c, F_ZERO, F_ZERO, F_NEG_ONE),
            vert_at(F_NEG_HALF, F_HALF, F_NEG_HALF, c, F_ZERO, F_ZERO, F_NEG_ONE),
            vert_at(F_HALF, F_HALF, F_NEG_HALF, c, F_ZERO, F_ZERO, F_NEG_ONE),
        );
        proof {
            assert(r@ =~= cube_vertices(c));
        }
        r
    }

    /// The cube's 36 indices.
    pub fn indices() -> (r: Vec<i32>)
        ensures
            r@ == cube_indices(),
    {
        let mut r: Vec<i32> = Vec::new();
        push_face_indices(&mut r, 0);
        push_face_indices(&mut r, 4);
        push_face_indices(&mut r, 8);
        push_face_indices(&mut r, 12);
        push_face_indices(&mut r, 16);
        push_face_indices(&mut r, 20);
        proof {
            assert(r@ =~= cube_indices());
        }
        r
    }
}

/// The unit plane mesh table.
pub struct Plane;

impl Plane {
    /// The plane's 4 vertices, every one colored `c`.
    pub fn vertices(c: Color) -> (r: Vec<Vertex>)
        ensures
            r@ == plane_vertices(c),
    {
        let mut r: Vec<Vertex> = Vec::new();
        push_face(
            &mut r,
            vert_at(F_NEG_HALF, F_ZERO, F_NEG_HALF, c, F_ZERO, F_ONE, F_ZERO),
            vert_at(F_NEG_HALF, F_ZERO, F_HALF, c, F_ZERO, F_ONE, F_ZERO),
            vert_at(F_HALF, F_ZERO, F_HALF, c, F_ZERO, F_ONE, F_ZERO),
            vert_at(F_HALF, F_ZERO, F_NEG_HALF, c, F_ZERO, F_ONE, F_ZERO),
        );
        proof {
            assert(r@ =~= plane_vertices(c));
        }
        r
    }

    /// The plane's 6 indices.
    pub fn indices() -> (r: Vec<i32>)
        ensures
            r@ == plane_indices(),
    {
        let mut r: Vec<i32> = Vec::new();
        push_face_indices(&mut r, 0);
        proof {
            assert(r@ =~= plane_indices());
        }
        r
    }
}

} // verus!
