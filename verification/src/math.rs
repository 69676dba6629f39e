//! Vectors, 4x4 matrices, and the trusted arithmetic on them.
//!
//! Scalars are raw IEEE 754 single-precision bit patterns held in `u32`.
//! Matrix and vector layout is fixed data the contracts state exactly;
//! products, normalization and trigonometry are computed by `glam` behind
//! trusted wrappers whose results the contracts name.

use vstd::prelude::*;

verus! {

/// Bit pattern of 1.0f32.
pub const F_ONE: u32 = 0x3F80_0000;
/// Bit pattern of 0.0f32.
pub const F_ZERO: u32 = 0;

/// A 2D vector of raw single-precision bit patterns.
#[derive(Clone, Copy, PartialEq, Eq, Structural, Debug)]
pub struct Vec2 {
    pub x: u32,
    pub y: u32,
}

/// A 3D vector of raw single-precision bit patterns.
#[derive(Clone, Copy, PartialEq, Eq, Structural, Debug)]
pub struct Vec3 {
    pub x: u32,
    pub y: u32,
    pub z: u32,
}

/// An RGBA color of raw single-precision bit patterns.
#[derive(Clone, Copy, PartialEq, Eq, Structural, Debug)]
pub struct Color {
    pub r: u32,
    pub g: u32,
    pub b: u32,
    pub a: u32,
}

/// A 4x4 column-major affine transform. Entry `4*c + r` holds the raw bit
/// pattern of the single-precision value at column `c`, row `r`.
#[derive(Clone, Copy)]
pub struct Mat4 {
    e: [u32; 16],
}

impl View for Mat4 {
    type V = Seq<u32>;

    closed spec fn view(&self) -> Seq<u32> {
        self.e@
    }
}

/// Entries of the identity transform.
pub open spec fn identity_entries() -> Seq<u32> {
    seq![
        F_ONE, F_ZERO, F_ZERO, F_ZERO,
        F_ZERO, F_ONE, F_ZERO, F_ZERO,
        F_ZERO, F_ZERO, F_ONE, F_ZERO,
        F_ZERO, F_ZERO, F_ZERO, F_ONE,
    ]
}

/// Entries of the translation by `t`: the identity with `t` as the fourth
/// column.
pub open spec fn translation_entries(t: Vec3) -> Seq<u32> {
    seq![
        F_ONE, F_ZERO, F_ZERO, F_ZERO,
        F_ZERO, F_ONE, F_ZERO, F_ZERO,
        F_ZERO, F_ZERO, F_ONE, F_ZERO,
        t.x, t.y, t.z, F_ONE,
    ]
}

impl Mat4 {
    /// The sixteen entries as a vector, column by column.
    pub fn entries(&self) -> (r: Vec<u32>)
        ensures
            r@ == self@,
    {
        let mut r: Vec<u32> = Vec::new();
        let mut i: usize = 0;
        while i < 16
            invariant
                i <= 16,
                r@ == self@.take(i as int),
            decreases 16 - i,
        {
            r.push(self.e[i]);
            proof {
                assert(r@ == self@.take(i + 1 as int));
            }
            i = i + 1;
        }
        proof {
            assert(self@.take(16) == self@);
        }
        r
    }

    /// One entry, by column-major position.
    pub fn entry(&self, i: usize) -> (r: u32)
        requires
            i < 16,
        ensures
            r == self@[i as int],
    {
        self.e[i]
    }

    /// Builds a matrix from sixteen column-major entries.
    pub fn from_entries(e: [u32; 16]) -> (r: Mat4)
        ensures
            r@ == e@,
    {
        Mat4 { e }
    }

    /// The identity transform.
    pub fn identity() -> (r: Mat4)
        ensures
            r@ == identity_entries(),
    {
        let r = Mat4 {
            e: [
                F_ONE, F_ZERO, F_ZERO, F_ZERO,
                F_ZERO, F_ONE, F_ZERO, F_ZERO,
                F_ZERO, F_ZERO, F_ONE, F_ZERO,
                F_ZERO, F_ZERO, F_ZERO, F_ONE,
            ],
        };
        proof {
            assert(r@ =~= identity_entries());
        }
        r
    }

    /// The translation by `t`.
    pub fn translation(t: Vec3) -> (r: Mat4)
        ensures
            r@ == translation_entries(t),
    {
        let r = Mat4 {
            e: [
                F_ONE, F_ZERO, F_ZERO, F_ZERO,
                F_ZERO, F_ONE, F_ZERO, F_ZERO,
                F_ZERO, F_ZERO, F_ONE, F_ZERO,
                t.x, t.y, t.z, F_ONE,
            ],
        };
        proof {
            assert(r@ =~= translation_entries(t));
        }
        r
    }
}

/// Flipping the sign bit of a single-precision pattern: exact IEEE 754
/// negation.
pub open spec fn flip_sign(b: u32) -> u32 {
    b ^ 0x8000_0000
}

/// Exact IEEE 754 negation of a bit pattern.
pub fn negate_bits(b: u32) -> (r: u32)
    ensures
        r == flip_sign(b),
{
    b ^ 0x8000_0000
}

/// Entries of the non-uniform scaling by `s`: the diagonal carries `s`.
pub open spec fn scale_entries(s: Vec3) -> Seq<u32> {
    seq![
        s.x, F_ZERO, F_ZERO, F_ZERO,
        F_ZERO, s.y, F_ZERO, F_ZERO,
        F_ZERO, F_ZERO, s.z, F_ZERO,
        F_ZERO, F_ZERO, F_ZERO, F_ONE,
    ]
}

/// Entries of a rotation about the X axis with cosine pattern `c` and sine
/// pattern `s`.
pub open spec fn rot_x_entries(c: u32, s: u32) -> Seq<u32> {
    seq![
        F_ONE, F_ZERO, F_ZERO, F_ZERO,
        F_ZERO, c, s, F_ZERO,
        F_ZERO, flip_sign(s), c, F_ZERO,
        F_ZERO, F_ZERO, F_ZERO, F_ONE,
    ]
}

/// Entries of a rotation about the Y axis with cosine pattern `c` and sine
/// pattern `s`.
pub open spec fn rot_y_entries(c: u32, s: u32) -> Seq<u32> {
    seq![
        c, F_ZERO, flip_sign(s), F_ZERO,
        F_ZERO, F_ONE, F_ZERO, F_ZERO,
        s, F_ZERO, c, F_ZERO,
        F_ZERO, F_ZERO, F_ZERO, F_ONE,
    ]
}

/// Entries of a rotation about the Z axis with cosine pattern `c` and sine
/// pattern `s`.
pub open spec fn rot_z_entries(c: u32, s: u32) -> Seq<u32> {
    seq![
        c, s, F_ZERO, F_ZERO,
        flip_sign(s), c, F_ZERO, F_ZERO,
        F_ZERO, F_ZERO, F_ONE, F_ZERO,
        F_ZERO, F_ZERO, F_ZERO, F_ONE,
    ]
}

/// The entries form a rotation about the X axis for some cosine/sine pair.
pub open spec fn is_rotation_x(m: Seq<u32>) -> bool {
    exists|c: u32, s: u32| m == #[trigger] rot_x_entries(c, s)
}

/// The entries form a rotation about the Y axis for some cosine/sine pair.
pub open spec fn is_rotation_y(m: Seq<u32>) -> bool {
    exists|c: u32, s: u32| m == #[trigger] rot_y_entries(c, s)
}

/// The entries form a rotation about the Z axis for some cosine/sine pair.
pub open spec fn is_rotation_z(m: Seq<u32>) -> bool {
    exists|c: u32, s: u32| m == #[trigger] rot_z_entries(c, s)
}

impl Mat4 {
    /// The non-uniform scaling by `s`.
    pub fn scaling(s: Vec3) -> (r: Mat4)
        ensures
            r@ == scale_entries(s),
    {
        let r = Mat4 {
            e: [
                s.x, F_ZERO, F_ZERO, F_ZERO,
                F_ZERO, s.y, F_ZERO, F_ZERO,
                F_ZERO, F_ZERO, s.z, F_ZERO,
                F_ZERO, F_ZERO, F_ZERO, F_ONE,
            ],
        };
        proof {
            assert(r@ =~= scale_entries(s));
        }
        r
    }
}

/// Bit pattern of the entries of the product `a * b` of two column-major
/// 4x4 single-precision matrices.
pub uninterp spec fn mat_mul_bits(a: Seq<u32>, b: Seq<u32>) -> Seq<u32>;

/// Relies on glam::Mat4's `Mul`: the product is a fixed IEEE 754 function
/// of the two operands' entries.
#[verifier::external_body]
pub(crate) fn mat4_mul(a: &Mat4, b: &Mat4) -> (r: Mat4)
    ensures
        r@ == mat_mul_bits(a@, b@),
{
    let fa: glam::Mat4 = bytemuck::cast(a.e);
    let fb: glam::Mat4 = bytemuck::cast(b.e);
    Mat4 { e: bytemuck::cast(fa * fb) }
}

/// Relies on glam::Mat4::from_rotation_x, which builds the rotation from
/// one cosine/sine pair of the angle, negation being a sign-bit flip.
#[verifier::external_body]
pub(crate) fn mat4_rotation_x(angle: u32) -> (r: Mat4)
    ensures
        is_rotation_x(r@),
{
    let m = glam::Mat4::from_rotation_x(bytemuck::cast(angle));
    Mat4 { e: bytemuck::cast(m) }
}

/// Relies on glam::Mat4::from_rotation_y, which builds the rotation from
/// one cosine/sine pair of the angle, negation being a sign-bit flip.
#[verifier::external_body]
pub(crate) fn mat4_rotation_y(angle: u32) -> (r: Mat4)
    ensures
        is_rotation_y(r@),
{
    let m = glam::Mat4::from_rotation_y(bytemuck::cast(angle));
    Mat4 { e: bytemuck::cast(m) }
}

/// Relies on glam::Mat4::from_rotation_z, which builds the rotation from
/// one cosine/sine pair of the angle, negation being a sign-bit flip.
#[verifier::external_body]
pub(crate) fn mat4_rotation_z(angle: u32) -> (r: Mat4)
    ensures
        is_rotation_z(r@),
{
    let m = glam::Mat4::from_rotation_z(bytemuck::cast(angle));
    Mat4 { e: bytemuck::cast(m) }
}

/// Bit patterns of the cross product `a x b` of two single-precision
/// vectors.
pub uninterp spec fn cross_bits(a: Vec3, b: Vec3) -> Vec3;

/// Relies on glam::Vec3::cross: a fixed IEEE 754 function of the two
/// operands' components.
#[verifier::external_body]
pub(crate) fn vec3_cross(a: Vec3, b: Vec3) -> (r: Vec3)
    ensures
        r == cross_bits(a, b),
{
    let fa = glam::Vec3::new(bytemuck::cast(a.x), bytemuck::cast(a.y), bytemuck::cast(a.z));
    let fb = glam::Vec3::new(bytemuck::cast(b.x), bytemuck::cast(b.y), bytemuck::cast(b.z));
    let p = fa.cross(fb);
    Vec3 { x: bytemuck::cast(p.x), y: bytemuck::cast(p.y), z: bytemuck::cast(p.z) }
}

/// Bit patterns of `v` scaled to unit length.
pub uninterp spec fn normalize_bits(v: Vec3) -> Vec3;

/// Relies on glam::Vec3::normalize: a fixed IEEE 754 function of the
/// operand's components (non-finite when the length is zero).
#[verifier::external_body]
pub(crate) fn vec3_normalize(v: Vec3) -> (r: Vec3)
    ensures
        r == normalize_bits(v),
{
    let fv = glam::Vec3::new(bytemuck::cast(v.x), bytemuck::cast(v.y), bytemuck::cast(v.z));
    let n = fv.normalize();
    Vec3 { x: bytemuck::cast(n.x), y: bytemuck::cast(n.y), z: bytemuck::cast(n.z) }
}

/// Bit patterns of the component-wise product of two single-precision
/// vectors.
pub uninterp spec fn mul_each_bits(a: Vec3, b: Vec3) -> Vec3;

/// Relies on glam::Vec3's `Mul`, the component-wise IEEE 754 product.
#[verifier::external_body]
pub(crate) fn vec3_mul_each(a: Vec3, b: Vec3) -> (r: Vec3)
    ensures
        r == mul_each_bits(a, b),
{
    let fa = glam::Vec3::new(bytemuck::cast(a.x), bytemuck::cast(a.y), bytemuck::cast(a.z));
    let fb = glam::Vec3::new(bytemuck::cast(b.x), bytemuck::cast(b.y), bytemuck::cast(b.z));
    let p = fa * fb;
    Vec3 { x: bytemuck::cast(p.x), y: bytemuck::cast(p.y), z: bytemuck::cast(p.z) }
}

/// Bit patterns of the component-wise sum of two single-precision vectors.
pub uninterp spec fn sum_each_bits(a: Vec3, b: Vec3) -> Vec3;

/// Relies on glam::Vec3's `Add`, the component-wise IEEE 754 sum.
#[verifier::external_body]
pub(crate) fn vec3_sum_each(a: Vec3, b: Vec3) -> (r: Vec3)
    ensures
        r == sum_each_bits(a, b),
{
    let fa = glam::Vec3::new(bytemuck::cast(a.x), bytemuck::cast(a.y), bytemuck::cast(a.z));
    let fb = glam::Vec3::new(bytemuck::cast(b.x), bytemuck::cast(b.y), bytemuck::cast(b.z));
    let p = fa + fb;
    Vec3 { x: bytemuck::cast(p.x), y: bytemuck::cast(p.y), z: bytemuck::cast(p.z) }
}

/// The pattern holds an IEEE 754 NaN: all exponent bits set and a nonzero
/// mantissa.
pub open spec fn is_nan_bits(b: u32) -> bool {
    (b / 0x80_0000) % 0x100 == 0xFF && b % 0x80_0000 != 0
}

/// A key that orders bit patterns as IEEE 754 orders their values: positive
/// patterns ascend with the pattern, negative ones descend, and the two
/// zeros share the key 0.
pub open spec fn order_key(b: u32) -> int {
    if b >= 0x8000_0000 {
        -((b - 0x8000_0000) as int)
    } else {
        b as int
    }
}

/// IEEE 754 `<` on the patterns' values: false whenever either is NaN.
pub open spec fn lt_bits(a: u32, b: u32) -> bool {
    !is_nan_bits(a) && !is_nan_bits(b) && order_key(a) < order_key(b)
}

/// What clamping `x` to [`lo`, `hi`] selects: the larger of `x` and `lo`,
/// then the smaller of that and `hi`, each comparison IEEE 754's.
pub open spec fn clamped_bits(x: u32, lo: u32, hi: u32) -> u32 {
    let m = if lt_bits(lo, x) {
        x
    } else {
        lo
    };
    if lt_bits(m, hi) {
        m
    } else {
        hi
    }
}

/// Relies on glam::Vec3::clamp, whose `max` then `min` pick one operand's
/// own pattern by an IEEE 754 comparison each.
#[verifier::external_body]
pub(crate) fn clamp_bits(x: u32, lo: u32, hi: u32) -> (r: u32)
    ensures
        r == clamped_bits(x, lo, hi),
{
    let v = glam::Vec3::splat(bytemuck::cast(x));
    let vlo = glam::Vec3::splat(bytemuck::cast(lo));
    let vhi = glam::Vec3::splat(bytemuck::cast(hi));
    bytemuck::cast(v.clamp(vlo, vhi).x)
}

/// Relies on glam::Vec2::from_angle, which returns the angle's cosine and
/// sine; their precision is the platform's, so nothing is promised of them.
#[verifier::external_body]
pub(crate) fn cos_sin(angle: u32) -> (r: (u32, u32))
{
    let v = glam::Vec2::from_angle(bytemuck::cast(angle));
    (bytemuck::cast(v.x), bytemuck::cast(v.y))
}

} // verus!
