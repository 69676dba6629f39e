//! A 3D object: vertex/index buffers plus a world transform, with the two
//! transform-composition families.
//!
//! Construction-time operations (`with_*`) prepend their matrix to the
//! transform built so far; runtime operations (`translate`, `rotate_*`,
//! `scale`) append theirs to the current transform. The two orders differ
//! whenever the operations do not commute, and call sites rely on each.

use vstd::prelude::*;

use crate::graphics::Vertex;
use crate::math::{
    identity_entries, is_rotation_x, is_rotation_y, is_rotation_z, mat4_mul, mat4_rotation_x,
    mat4_rotation_y, mat4_rotation_z, mat_mul_bits, scale_entries, translation_entries, Color,
    Mat4, Vec3,
};
use crate::shapes::{cube_indices, cube_vertices, plane_indices, plane_vertices, Cube, Plane};

verus! {

/// `new_t` prepends some rotation about the X axis to `old_t`.
pub open spec fn prepends_rotation_x(old_t: Seq<u32>, new_t: Seq<u32>) -> bool {
    exists|m: Seq<u32>| #[trigger] is_rotation_x(m) && new_t == mat_mul_bits(m, old_t)
}

/// `new_t` prepends some rotation about the Y axis to `old_t`.
pub open spec fn prepends_rotation_y(old_t: Seq<u32>, new_t: Seq<u32>) -> bool {
    exists|m: Seq<u32>| #[trigger] is_rotation_y(m) && new_t == mat_mul_bits(m, old_t)
}

/// `new_t` prepends some rotation about the Z axis to `old_t`.
pub open spec fn prepends_rotation_z(old_t: Seq<u32>, new_t: Seq<u32>) -> bool {
    exists|m: Seq<u32>| #[trigger] is_rotation_z(m) && new_t == mat_mul_bits(m, old_t)
}

/// `new_t` appends some rotation about the X axis to `old_t`.
pub open spec fn appends_rotation_x(old_t: Seq<u32>, new_t: Seq<u32>) -> bool {
    exists|m: Seq<u32>| #[trigger] is_rotation_x(m) && new_t == mat_mul_bits(old_t, m)
}

/// `new_t` appends some rotation about the Y axis to `old_t`.
pub open spec fn appends_rotation_y(old_t: Seq<u32>, new_t: Seq<u32>) -> bool {
    exists|m: Seq<u32>| #[trigger] is_rotation_y(m) && new_t == mat_mul_bits(old_t, m)
}

/// `new_t` appends some rotation about the Z axis to `old_t`.
pub open spec fn appends_rotation_z(old_t: Seq<u32>, new_t: Seq<u32>) -> bool {
    exists|m: Seq<u32>| #[trigger] is_rotation_z(m) && new_t == mat_mul_bits(old_t, m)
}

/// A 3D object with vertices, indices, and a transform matrix.
pub struct Object {
    vertices: Vec<Vertex>,
    indices: Vec<i32>,
    transform: Mat4,
}

impl Default for Object {
    /// An empty mesh with the identity transform.
    fn default() -> (r: Self)
        ensures
            r.vertices_view() == Seq::<Vertex>::empty(),
            r.indices_view() == Seq::<i32>::empty(),
            r.transform_view() == identity_entries(),
    {
        let r = Object { vertices: Vec::new(), indices: Vec::new(), transform: Mat4::identity() };
        proof {
            assert(r.vertices_view() =~= Seq::<Vertex>::empty());
            assert(r.indices_view() =~= Seq::<i32>::empty());
        }
        r
    }
}

impl Object {
    /// The object's vertices in order.
    pub closed spec fn vertices_view(&self) -> Seq<Vertex> {
        self.vertices@
    }

    /// The object's indices in order.
    pub closed spec fn indices_view(&self) -> Seq<i32> {
        self.indices@
    }

    /// The entries of the object's world transform.
    pub closed spec fn transform_view(&self) -> Seq<u32> {
        self.transform@
    }

    /// Creates a new object from vertices and indices, with the identity
    /// transform.
    pub fn new_mesh(vertices: Vec<Vertex>, indices: Vec<i32>) -> (r: Self)
        ensures
            r.vertices_view() == vertices@,
            r.indices_view() == indices@,
            r.transform_view() == identity_entries(),
    {
        Object { vertices, indices, transform: Mat4::identity() }
    }

    /// Creates a new cube object with the specified color.
    pub fn new_cube(color: Color) -> (r: Self)
        ensures
            r.vertices_view() == cube_vertices(color),
            r.indices_view() == cube_indices(),
            r.transform_view() == identity_entries(),
    {
        Object {
            vertices: Cube::vertices(color),
            indices: Cube::indices(),
            transform: Mat4::identity(),
        }
    }

    /// Creates a new plane object with the specified color.
    pub fn new_plane(color: Color) -> (r: Self)
        ensures
            r.vertices_view() == plane_vertices(color),
            r.indices_view() == plane_indices(),
            r.transform_view() == identity_entries(),
    {
        Object {
            vertices: Plane::vertices(color),
            indices: Plane::indices(),
            transform: Mat4::identity(),
        }
    }

    /// Sets the transform matrix for the object.
    pub fn with_transform(self, transform: &Mat4) -> (r: Self)
        ensures
            r.vertices_view() == self.vertices_view(),
            r.indices_view() == self.indices_view(),
            r.transform_view() == transform@,
    {
        let mut o = self;
        o.transform = *transform;
        o
    }

    /// Prepends a translation: the translation is applied in the local
    /// space of the transform built so far.
    pub fn with_translation(self, translation: Vec3) -> (r: Self)
        ensures
            r.vertices_view() == self.vertices_view(),
            r.indices_view() == self.indices_view(),
            r.transform_view() == mat_mul_bits(
                translation_entries(translation),
                self.transform_view(),
            ),
    {
        let mut o = self;
        o.transform = mat4_mul(&Mat4::translation(translation), &o.transform);
        o
    }

    /// Prepends a rotation around the X axis.
    pub fn with_rotation_x(self, angle: u32) -> (r: Self)
        ensures
            r.vertices_view() == self.vertices_view(),
            r.indices_view() == self.indices_view(),
            prepends_rotation_x(self.transform_view(), r.transform_view()),
    {
        let mut o = self;
        let m = mat4_rotation_x(angle);
        o.transform = mat4_mul(&m, &o.transform);
        o
    }

    /// Prepends a rotation around the Y axis.
    pub fn with_rotation_y(self, angle: u32) -> (r: Self)
        ensures
            r.vertices_view() == self.vertices_view(),
            r.indices_view() == self.indices_view(),
            prepends_rotation_y(self.transform_view(), r.transform_view()),
    {
        let mut o = self;
        let m = mat4_rotation_y(angle);
        o.transform = mat4_mul(&m, &o.transform);
        o
    }

    /// Prepends a rotation around the Z axis.
    pub fn with_rotation_z(self, angle: u32) -> (r: Self)
        ensures
            r.vertices_view() == self.vertices_view(),
            r.indices_view() == self.indices_view(),
            prepends_rotation_z(self.transform_view(), r.transform_view()),
    {
        let mut o = self;
        let m = mat4_rotation_z(angle);
        o.transform = mat4_mul(&m, &o.transform);
        o
    }

    /// Prepends a non-uniform scaling.
    pub fn with_scale(&mut self, scale: Vec3)
        ensures
            final(self).vertices_view() == old(self).vertices_view(),
            final(self).indices_view() == old(self).indices_view(),
            final(self).transform_view() == mat_mul_bits(
                scale_entries(scale),
                old(self).transform_view(),
            ),
    {
        self.transform = mat4_mul(&Mat4::scaling(scale), &self.transform);
    }

    /// Appends a translation: the translation is applied in the object's
    /// current world-rotated frame.
    pub fn translate(&mut self, translation: Vec3)
        ensures
            final(self).vertices_view() == old(self).vertices_view(),
            final(self).indices_view() == old(self).indices_view(),
            final(self).transform_view() == mat_mul_bits(
                old(self).transform_view(),
                translation_entries(translation),
            ),
    {
        self.transform = mat4_mul(&self.transform, &Mat4::translation(translation));
    }

    /// Appends a rotation around the X axis.
    pub fn rotate_x(&mut self, angle: u32)
        ensures
            final(self).vertices_view() == old(self).vertices_view(),
            final(self).indices_view() == old(self).indices_view(),
            appends_rotation_x(old(self).transform_view(), final(self).transform_view()),
    {
        let m = mat4_rotation_x(angle);
        self.transform = mat4_mul(&self.transform, &m);
    }

    /// Appends a rotation around the Y axis.
    pub fn rotate_y(&mut self, angle: u32)
        ensures
            final(self).vertices_view() == old(self).vertices_view(),
            final(self).indices_view() == old(self).indices_view(),
            appends_rotation_y(old(self).transform_view(), final(self).transform_view()),
    {
        let m = mat4_rotation_y(angle);
        self.transform = mat4_mul(&self.transform, &m);
    }

    /// Appends a rotation around the Z axis.
    pub fn rotate_z(&mut self, angle: u32)
        ensures
            final(self).vertices_view() == old(self).vertices_view(),
            final(self).indices_view() == old(self).indices_view(),
            appends_rotation_z(old(self).transform_view(), final(self).transform_view()),
    {
        let m = mat4_rotation_z(angle);
        self.transform = mat4_mul(&self.transform, &m);
    }

    /// Appends a non-uniform scaling.
    pub fn scale(&mut self, scale: Vec3)
        ensures
            final(self).vertices_view() == old(self).vertices_view(),
            final(self).indices_view() == old(self).indices_view(),
            final(self).transform_view() == mat_mul_bits(
                old(self).transform_view(),
                scale_entries(scale),
            ),
    {
        self.transform = mat4_mul(&self.transform, &Mat4::scaling(scale));
    }

    /// Returns the transform matrix of the object.
    pub fn transform(&self) -> (r: &Mat4)
        ensures
            r@ == self.transform_view(),
    {
        &self.transform
    }

    /// Returns the vertices of the object.
    pub fn vertices(&self) -> (r: &Vec<Vertex>)
        ensures
            r@ == self.vertices_view(),
    {
        &self.vertices
    }

    /// Returns the indices of the object.
    pub fn indices(&self) -> (r: &Vec<i32>)
        ensures
            r@ == self.indices_view(),
    {
        &self.indices
    }
}

/// Law: the two composition families apply the same logical steps in
/// opposite orders. Running "translate by `t`, then scale by `s`" through
/// the construction-time family leaves `S * (T * I)`, while the runtime
/// family leaves `(I * T) * S`.
pub fn composition_orders(t: Vec3, s: Vec3) -> (r: (Object, Object))
    ensures
        r.0.transform_view() == mat_mul_bits(
            scale_entries(s),
            mat_mul_bits(translation_entries(t), identity_entries()),
        ),
        r.1.transform_view() == mat_mul_bits(
            mat_mul_bits(identity_entries(), translation_entries(t)),
            scale_entries(s),
        ),
{
    let mut built = Object::default().with_translation(t);
    built.with_scale(s);
    let mut mutated = Object::default();
    mutated.translate(t);
    mutated.scale(s);
    (built, mutated)
}

} // verus!
