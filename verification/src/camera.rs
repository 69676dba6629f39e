//! First-person camera: a transform with runtime composition, and the
//! orientation deriver that rebuilds the camera's basis from yaw and pitch
//! every frame.
//!
//! The deriver clamps pitch to [-1.5, 1.5] radians, computes the forward
//! direction from the angles' cosines and sines, completes it to a
//! right-handed orthonormal basis against the world up axis, and assembles
//! basis and position into one column-major transform.

use vstd::prelude::*;

use crate::math::{
    clamp_bits, clamped_bits, cos_sin, cross_bits, flip_sign, identity_entries, is_nan_bits,
    lt_bits, mat4_mul, mat4_rotation_y, mat_mul_bits, mul_each_bits, negate_bits, normalize_bits,
    order_key, sum_each_bits, translation_entries, vec3_cross, vec3_mul_each, vec3_normalize,
    vec3_sum_each, Mat4, Vec3, F_ONE, F_ZERO,
};
use crate::object::appends_rotation_y;

verus! {

/// Bit pattern of 1.5f32: the upper pitch bound, in radians.
pub const PITCH_MAX_BITS: u32 = 0x3FC0_0000;
/// Bit pattern of -1.5f32: the lower pitch bound, in radians.
pub const PITCH_MIN_BITS: u32 = 0xBFC0_0000;
/// Bit pattern of 0.1f32: the look speed.
pub const LOOK_SPEED_BITS: u32 = 0x3DCC_CCCD;
/// Bit pattern of 5.0f32: the move speed.
pub const MOVE_SPEED_BITS: u32 = 0x40A0_0000;
/// Bit pattern of half pi as f32: the turn rate, in radians per second.
pub const HALF_PI_BITS: u32 = 0x3FC9_0FDB;
/// Bit pattern of minus half pi as f32.
pub const NEG_HALF_PI_BITS: u32 = 0xBFC9_0FDB;

/// The world up direction (0, 1, 0).
pub open spec fn world_up() -> Vec3 {
    Vec3 { x: F_ZERO, y: F_ONE, z: F_ZERO }
}

/// The forward direction for cosine/sine patterns of yaw (`cy`, `sy`) and
/// pitch (`cp`, `sp`): normalize(cos yaw * cos pitch, sin pitch,
/// sin yaw * cos pitch).
pub open spec fn front_bits(cy: u32, sy: u32, cp: u32, sp: u32) -> Vec3 {
    normalize_bits(mul_each_bits(
        Vec3 { x: cy, y: sp, z: sy },
        Vec3 { x: cp, y: F_ONE, z: cp },
    ))
}

/// The right direction completing `front` against the world up axis.
pub open spec fn right_bits(front: Vec3) -> Vec3 {
    normalize_bits(cross_bits(front, world_up()))
}

/// The up direction completing `right` and `front`.
pub open spec fn up_bits(right: Vec3, front: Vec3) -> Vec3 {
    normalize_bits(cross_bits(right, front))
}

/// The (right, up, front) basis for one set of cosine/sine patterns.
pub open spec fn basis_of(cy: u32, sy: u32, cp: u32, sp: u32) -> (Vec3, Vec3, Vec3) {
    let front = front_bits(cy, sy, cp, sp);
    let right = right_bits(front);
    (right, up_bits(right, front), front)
}

/// The column-major entries of the camera's world transform: columns
/// (right, 0), (up, 0), (front, 0), (position, 1).
pub open spec fn view_entries(right: Vec3, up: Vec3, front: Vec3, position: Vec3) -> Seq<u32> {
    seq![
        right.x, right.y, right.z, F_ZERO,
        up.x, up.y, up.z, F_ZERO,
        front.x, front.y, front.z, F_ZERO,
        position.x, position.y, position.z, F_ONE,
    ]
}

/// The translation column of a column-major transform.
pub open spec fn pos3(m: Seq<u32>) -> Vec3 {
    Vec3 { x: m[12], y: m[13], z: m[14] }
}

/// Completes the given cosine/sine patterns to the orthonormal basis:
/// the verified step between the platform's trigonometry and the basis.
pub fn basis_from_trig(cy: u32, sy: u32, cp: u32, sp: u32) -> (r: (Vec3, Vec3, Vec3))
    ensures
        r == basis_of(cy, sy, cp, sp),
{
    let front = vec3_normalize(vec3_mul_each(
        Vec3 { x: cy, y: sp, z: sy },
        Vec3 { x: cp, y: F_ONE, z: cp },
    ));
    let right = vec3_normalize(vec3_cross(front, Vec3 { x: F_ZERO, y: F_ONE, z: F_ZERO }));
    let up = vec3_normalize(vec3_cross(right, front));
    (right, up, front)
}

/// Derives the (right, up, front) basis from yaw and pitch, through the
/// platform's cosine and sine.
pub fn orientation_basis(yaw: u32, pitch: u32) -> (r: (Vec3, Vec3, Vec3))
    ensures
        exists|cy: u32, sy: u32, cp: u32, sp: u32| r == #[trigger] basis_of(cy, sy, cp, sp),
{
    let (cy, sy) = cos_sin(yaw);
    let (cp, sp) = cos_sin(pitch);
    let r = basis_from_trig(cy, sy, cp, sp);
    proof {
        assert(r == basis_of(cy, sy, cp, sp));
    }
    r
}

/// Assembles basis and position into the camera's world transform.
pub fn view_transform(right: Vec3, up: Vec3, front: Vec3, position: Vec3) -> (r: Mat4)
    ensures
        r@ == view_entries(right, up, front, position),
{
    let m = Mat4::from_entries([
        right.x, right.y, right.z, F_ZERO,
        up.x, up.y, up.z, F_ZERO,
        front.x, front.y, front.z, F_ZERO,
        position.x, position.y, position.z, F_ONE,
    ]);
    proof {
        assert(m@ =~= view_entries(right, up, front, position));
    }
    m
}

/// Clamps a pitch pattern to the [-1.5, 1.5] radian guard band: a pitch
/// beyond a bound is pinned at exactly that bound's pattern, one within the
/// band comes back unchanged.
pub fn clamp_pitch(pitch: u32) -> (r: u32)
    ensures
        r == clamped_bits(pitch, PITCH_MIN_BITS, PITCH_MAX_BITS),
        lt_bits(PITCH_MAX_BITS, pitch) ==> r == PITCH_MAX_BITS,
        lt_bits(pitch, PITCH_MIN_BITS) ==> r == PITCH_MIN_BITS,
        !is_nan_bits(pitch) && !lt_bits(PITCH_MAX_BITS, pitch) && !lt_bits(
            pitch,
            PITCH_MIN_BITS,
        ) ==> r == pitch,
{
    let r = clamp_bits(pitch, PITCH_MIN_BITS, PITCH_MAX_BITS);
    proof {
        assert(!is_nan_bits(PITCH_MIN_BITS) && !is_nan_bits(PITCH_MAX_BITS));
        assert(order_key(PITCH_MIN_BITS) < order_key(PITCH_MAX_BITS));
        if !is_nan_bits(pitch) && !lt_bits(PITCH_MAX_BITS, pitch) && !lt_bits(
            pitch,
            PITCH_MIN_BITS,
        ) {
            if lt_bits(PITCH_MIN_BITS, pitch) {
                assert(r == pitch);
            } else {
                assert(order_key(pitch) == order_key(PITCH_MIN_BITS));
                assert(pitch == PITCH_MIN_BITS);
                assert(r == pitch);
            }
        }
    }
    r
}

/// The yaw/pitch pair after one frame of mouse input, before the pitch
/// clamp: yaw decreases by dx * look speed * dt, pitch increases by
/// dy * look speed * dt.
pub open spec fn updated_angles(yaw: u32, pitch: u32, dx: u32, dy: u32, dt: u32) -> Vec3 {
    let d = mul_each_bits(
        mul_each_bits(
            Vec3 { x: dx, y: dy, z: F_ZERO },
            Vec3 { x: LOOK_SPEED_BITS, y: LOOK_SPEED_BITS, z: F_ZERO },
        ),
        Vec3 { x: dt, y: dt, z: F_ZERO },
    );
    sum_each_bits(
        Vec3 { x: yaw, y: pitch, z: F_ZERO },
        Vec3 { x: flip_sign(d.x), y: d.y, z: F_ZERO },
    )
}

/// Applies one frame of mouse input to the look angles and clamps pitch.
pub fn update_look_angles(yaw: u32, pitch: u32, dx: u32, dy: u32, dt: u32) -> (r: (u32, u32))
    ensures
        r.0 == updated_angles(yaw, pitch, dx, dy, dt).x,
        r.1 == clamped_bits(
            updated_angles(yaw, pitch, dx, dy, dt).y,
            PITCH_MIN_BITS,
            PITCH_MAX_BITS,
        ),
{
    let d = vec3_mul_each(
        vec3_mul_each(
            Vec3 { x: dx, y: dy, z: F_ZERO },
            Vec3 { x: LOOK_SPEED_BITS, y: LOOK_SPEED_BITS, z: F_ZERO },
        ),
        Vec3 { x: dt, y: dt, z: F_ZERO },
    );
    let a = vec3_sum_each(
        Vec3 { x: yaw, y: pitch, z: F_ZERO },
        Vec3 { x: negate_bits(d.x), y: d.y, z: F_ZERO },
    );
    (a.x, clamp_pitch(a.y))
}

/// One frame's movement keys and look input, as plain values.
#[derive(Clone, Copy, PartialEq, Eq, Structural, Debug)]
pub struct FrameInput {
    pub move_forward: bool,
    pub move_back: bool,
    pub move_right: bool,
    pub move_left: bool,
    pub turn_left: bool,
    pub turn_right: bool,
    pub mouse_dx: u32,
    pub mouse_dy: u32,
    pub dt: u32,
}

/// The unscaled movement direction chosen by the keys, first match wins:
/// forward, back, right, left, none.
pub open spec fn move_dir(input: FrameInput) -> Vec3 {
    if input.move_forward {
        Vec3 { x: F_ZERO, y: F_ZERO, z: crate::shapes::F_NEG_ONE }
    } else if input.move_back {
        Vec3 { x: F_ZERO, y: F_ZERO, z: F_ONE }
    } else if input.move_right {
        Vec3 { x: F_ONE, y: F_ZERO, z: F_ZERO }
    } else if input.move_left {
        Vec3 { x: crate::shapes::F_NEG_ONE, y: F_ZERO, z: F_ZERO }
    } else {
        Vec3 { x: F_ZERO, y: F_ZERO, z: F_ZERO }
    }
}

/// The frame's translation: the chosen direction scaled by dt, then by the
/// move speed.
pub open spec fn move_step(input: FrameInput) -> Vec3 {
    mul_each_bits(
        mul_each_bits(move_dir(input), Vec3 { x: input.dt, y: input.dt, z: input.dt }),
        Vec3 { x: MOVE_SPEED_BITS, y: MOVE_SPEED_BITS, z: MOVE_SPEED_BITS },
    )
}

/// Computes the translation that the frame's movement keys ask for.
pub fn movement_step(input: FrameInput) -> (r: Vec3)
    ensures
        r == move_step(input),
{
    let dir = if input.move_forward {
        Vec3 { x: F_ZERO, y: F_ZERO, z: crate::shapes::F_NEG_ONE }
    } else if input.move_back {
        Vec3 { x: F_ZERO, y: F_ZERO, z: F_ONE }
    } else if input.move_right {
        Vec3 { x: F_ONE, y: F_ZERO, z: F_ZERO }
    } else if input.move_left {
        Vec3 { x: crate::shapes::F_NEG_ONE, y: F_ZERO, z: F_ZERO }
    } else {
        Vec3 { x: F_ZERO, y: F_ZERO, z: F_ZERO }
    };
    vec3_mul_each(
        vec3_mul_each(dir, Vec3 { x: input.dt, y: input.dt, z: input.dt }),
        Vec3 { x: MOVE_SPEED_BITS, y: MOVE_SPEED_BITS, z: MOVE_SPEED_BITS },
    )
}

/// The camera: a world transform composed at runtime, like an object's.
pub struct Camera {
    transform: Mat4,
}

impl Camera {
    /// The entries of the camera's world transform.
    pub closed spec fn transform_view(&self) -> Seq<u32> {
        self.transform@
    }

    /// A camera at the origin with the identity orientation.
    pub fn new() -> (r: Self)
        ensures
            r.transform_view() == identity_entries(),
    {
        Camera { transform: Mat4::identity() }
    }

    /// Appends a translation to the camera's transform.
    pub fn translate(&mut self, translation: Vec3)
        ensures
            final(self).transform_view() == mat_mul_bits(
                old(self).transform_view(),
                translation_entries(translation),
            ),
    {
        self.transform = mat4_mul(&self.transform, &Mat4::translation(translation));
    }

    /// Appends a rotation about the Y axis to the camera's transform.
    pub fn rotate_y(&mut self, angle: u32)
        ensures
            appends_rotation_y(old(self).transform_view(), final(self).transform_view()),
    {
        let m = mat4_rotation_y(angle);
        self.transform = mat4_mul(&self.transform, &m);
    }

    /// Replaces the camera's transform.
    pub fn set_transform(&mut self, transform: &Mat4)
        ensures
            final(self).transform_view() == transform@,
    {
        self.transform = *transform;
    }

    /// The camera's position: the transform's translation column.
    pub fn position(&self) -> (r: Vec3)
        ensures
            r == pos3(self.transform_view()),
    {
        Vec3 {
            x: self.transform.entry(12),
            y: self.transform.entry(13),
            z: self.transform.entry(14),
        }
    }

    /// Read-only borrow of the camera's transform.
    pub fn transform(&self) -> (r: &Mat4)
        ensures
            r@ == self.transform_view(),
    {
        &self.transform
    }
}

/// The transform `mid` follows from `moved` by the frame's turn keys: a
/// rotation about world Y is appended for each pressed key, and none
/// otherwise.
pub open spec fn turned(moved: Seq<u32>, mid: Seq<u32>, input: FrameInput) -> bool {
    if input.turn_left && input.turn_right {
        exists|t: Seq<u32>|
            #[trigger] appends_rotation_y(moved, t) && appends_rotation_y(t, mid)
    } else if input.turn_left || input.turn_right {
        appends_rotation_y(moved, mid)
    } else {
        mid == moved
    }
}

/// One frame of the camera update reached `new_t` from `old_t`: the
/// movement translation was appended, then any turn-key rotations, and the
/// result's translation column was reassembled with a basis derived from
/// some cosine/sine patterns.
pub open spec fn camera_frame_ok(old_t: Seq<u32>, new_t: Seq<u32>, input: FrameInput) -> bool {
    exists|mid: Seq<u32>, cy: u32, sy: u32, cp: u32, sp: u32|
        #![trigger basis_of(cy, sy, cp, sp), pos3(mid)]
        {
            let b = basis_of(cy, sy, cp, sp);
            &&& turned(mat_mul_bits(old_t, translation_entries(move_step(input))), mid, input)
            &&& new_t == view_entries(b.0, b.1, b.2, pos3(mid))
        }
}

/// Runs one frame of the camera update in the fixed order: translate by
/// the movement keys, rotate by the turn keys, update the look angles,
/// then overwrite the camera's orientation from the new angles while
/// keeping the position reached. Returns the new (yaw, pitch).
pub fn update_camera(cam: &mut Camera, yaw: u32, pitch: u32, input: FrameInput) -> (r: (u32, u32))
    ensures
        r.0 == updated_angles(yaw, pitch, input.mouse_dx, input.mouse_dy, input.dt).x,
        r.1 == clamped_bits(
            updated_angles(yaw, pitch, input.mouse_dx, input.mouse_dy, input.dt).y,
            PITCH_MIN_BITS,
            PITCH_MAX_BITS,
        ),
        camera_frame_ok(old(cam).transform_view(), final(cam).transform_view(), input),
{
    cam.translate(movement_step(input));
    let ghost moved = cam.transform_view();
    if input.turn_left {
        cam.rotate_y(mul_scalar(HALF_PI_BITS, input.dt));
    }
    let ghost once_turned = cam.transform_view();
    if input.turn_right {
        cam.rotate_y(mul_scalar(NEG_HALF_PI_BITS, input.dt));
    }
    let ghost mid = cam.transform_view();
    let angles = update_look_angles(yaw, pitch, input.mouse_dx, input.mouse_dy, input.dt);
    let position = cam.position();
    let (cy, sy) = cos_sin(angles.0);
    let (cp, sp) = cos_sin(angles.1);
    let (right, up, front) = basis_from_trig(cy, sy, cp, sp);
    let m = view_transform(right, up, front, position);
    cam.set_transform(&m);
    proof {
        let b = basis_of(cy, sy, cp, sp);
        if input.turn_left && input.turn_right {
            assert(appends_rotation_y(moved, once_turned) && appends_rotation_y(
                once_turned,
                mid,
            ));
        }
        assert(turned(moved, mid, input));
        assert(final(cam).transform_view() == view_entries(b.0, b.1, b.2, pos3(mid)));
    }
    angles
}

/// The product of two scalar patterns, through the component-wise vector
/// product.
fn mul_scalar(a: u32, b: u32) -> (r: u32)
    ensures
        r == mul_each_bits(
            Vec3 { x: a, y: F_ZERO, z: F_ZERO },
            Vec3 { x: b, y: F_ZERO, z: F_ZERO },
        ).x,
{
    vec3_mul_each(
        Vec3 { x: a, y: F_ZERO, z: F_ZERO },
        Vec3 { x: b, y: F_ZERO, z: F_ZERO },
    ).x
}

} // verus!
