use rendercore::camera::{
    basis_from_trig, clamp_pitch, movement_step, orientation_basis, update_camera,
    update_look_angles, view_transform, Camera, FrameInput, LOOK_SPEED_BITS, MOVE_SPEED_BITS,
    PITCH_MAX_BITS, PITCH_MIN_BITS,
};
use rendercore::math::Vec3;

fn bits(x: f32) -> u32 {
    x.to_bits()
}

fn v3(x: f32, y: f32, z: f32) -> Vec3 {
    Vec3 { x: bits(x), y: bits(y), z: bits(z) }
}

fn fv(v: Vec3) -> glam::Vec3 {
    glam::Vec3::new(f32::from_bits(v.x), f32::from_bits(v.y), f32::from_bits(v.z))
}

fn no_input() -> FrameInput {
    FrameInput {
        move_forward: false,
        move_back: false,
        move_right: false,
        move_left: false,
        turn_left: false,
        turn_right: false,
        mouse_dx: bits(0.0),
        mouse_dy: bits(0.0),
        dt: bits(0.016),
    }
}

#[test]
fn speed_constants_match_their_values() {
    assert_eq!(LOOK_SPEED_BITS, 0.1f32.to_bits());
    assert_eq!(MOVE_SPEED_BITS, 5.0f32.to_bits());
    assert_eq!(PITCH_MAX_BITS, 1.5f32.to_bits());
    assert_eq!(PITCH_MIN_BITS, (-1.5f32).to_bits());
}

#[test]
fn pitch_clamps_to_exactly_the_bounds() {
    assert_eq!(clamp_pitch(bits(2.0)), bits(1.5));
    assert_eq!(clamp_pitch(bits(100.0)), bits(1.5));
    assert_eq!(clamp_pitch(bits(-2.0)), bits(-1.5));
    assert_eq!(clamp_pitch(bits(-1.5000001)), bits(-1.5));
    assert_eq!(clamp_pitch(bits(0.3)), bits(0.3));
    assert_eq!(clamp_pitch(bits(-1.5)), bits(-1.5));
    assert_eq!(clamp_pitch(bits(1.5)), bits(1.5));
}

#[test]
fn look_angles_follow_the_mouse() {
    let (yaw, pitch) = update_look_angles(bits(1.0), bits(0.2), bits(3.0), bits(-1.0), bits(0.016));
    let expect_yaw = 1.0f32 - (3.0f32 * 0.1) * 0.016;
    let expect_pitch = 0.2f32 + (-1.0f32 * 0.1) * 0.016;
    assert_eq!(yaw, expect_yaw.to_bits());
    assert_eq!(pitch, expect_pitch.to_bits());
}

#[test]
fn look_angles_pin_pitch_at_the_guard_band() {
    let (_, pitch) = update_look_angles(bits(0.0), bits(1.49), bits(0.0), bits(1000.0), bits(1.0));
    assert_eq!(pitch, bits(1.5));
    let (_, pitch) = update_look_angles(bits(0.0), bits(-1.49), bits(0.0), bits(-1000.0), bits(1.0));
    assert_eq!(pitch, bits(-1.5));
}

#[test]
fn identity_like_basis_at_quarter_turn() {
    let (right, up, front) = orientation_basis(bits(std::f32::consts::FRAC_PI_2), bits(0.0));
    let tol = 1e-6;
    assert!((fv(front) - glam::Vec3::new(0.0, 0.0, 1.0)).length() < tol);
    // cross((0,0,1), world up) points along -X: the axis-aligned basis.
    assert!((fv(right) - glam::Vec3::new(-1.0, 0.0, 0.0)).length() < tol);
    assert!((fv(up) - glam::Vec3::new(0.0, 1.0, 0.0)).length() < tol);
}

#[test]
fn basis_is_orthonormal_across_the_angle_range() {
    let yaws = [-100.0f32, -3.0, -1.0, 0.0, 0.5, 1.57, 3.0, 42.0];
    let pitches = [-1.5f32, -0.7, 0.0, 0.2, 0.9, 1.5];
    let tol = 1e-5;
    for &yaw in &yaws {
        for &pitch in &pitches {
            let (right, up, front) = orientation_basis(bits(yaw), bits(pitch));
            let (r, u, f) = (fv(right), fv(up), fv(front));
            assert!((r.length() - 1.0).abs() < tol, "right not unit at {yaw},{pitch}");
            assert!((u.length() - 1.0).abs() < tol, "up not unit at {yaw},{pitch}");
            assert!((f.length() - 1.0).abs() < tol, "front not unit at {yaw},{pitch}");
            assert!(r.dot(u).abs() < tol, "right/up not orthogonal at {yaw},{pitch}");
            assert!(r.dot(f).abs() < tol, "right/front not orthogonal at {yaw},{pitch}");
            assert!(u.dot(f).abs() < tol, "up/front not orthogonal at {yaw},{pitch}");
            // The basis keeps one fixed orientation: right x front == up.
            assert!((r.cross(f) - u).length() < tol, "orientation flipped at {yaw},{pitch}");
        }
    }
}

#[test]
fn basis_from_trig_matches_the_documented_formula() {
    // cos yaw = 3, sin yaw = 4 (not a real angle, but the formula is total).
    let (right, up, front) = basis_from_trig(bits(3.0), bits(4.0), bits(1.0), bits(0.0));
    let ef = glam::Vec3::new(3.0, 0.0, 4.0).normalize();
    let er = ef.cross(glam::Vec3::Y).normalize();
    let eu = er.cross(ef).normalize();
    assert_eq!(fv(front), ef);
    assert_eq!(fv(right), er);
    assert_eq!(fv(up), eu);
}

#[test]
fn view_transform_assembles_the_columns() {
    let m = view_transform(
        v3(1.0, 2.0, 3.0),
        v3(4.0, 5.0, 6.0),
        v3(7.0, 8.0, 9.0),
        v3(10.0, 11.0, 12.0),
    );
    let e = m.entries();
    let expect: Vec<u32> = [
        1.0f32, 2.0, 3.0, 0.0, 4.0, 5.0, 6.0, 0.0, 7.0, 8.0, 9.0, 0.0, 10.0, 11.0, 12.0, 1.0,
    ]
    .iter()
    .map(|f| f.to_bits())
    .collect();
    assert_eq!(e, expect);
}

#[test]
fn camera_translate_appends_and_position_reads_the_column() {
    let mut cam = Camera::new();
    cam.translate(v3(1.0, 0.0, 0.0));
    assert_eq!(fv(cam.position()), glam::Vec3::new(1.0, 0.0, 0.0));
    cam.rotate_y(bits(std::f32::consts::FRAC_PI_2));
    // The appended rotation leaves the camera position untouched.
    assert_eq!(fv(cam.position()), glam::Vec3::new(1.0, 0.0, 0.0));
    let expect = (glam::Mat4::IDENTITY
        * glam::Mat4::from_translation(glam::Vec3::new(1.0, 0.0, 0.0)))
        * glam::Mat4::from_rotation_y(std::f32::consts::FRAC_PI_2);
    let eg: Vec<u32> = expect.to_cols_array().iter().map(|f| f.to_bits()).collect();
    assert_eq!(cam.transform().entries(), eg);
}

#[test]
fn movement_step_scales_the_chosen_direction() {
    let mut input = no_input();
    input.move_forward = true;
    input.dt = bits(0.5);
    let step = movement_step(input);
    assert_eq!(fv(step), glam::Vec3::new(0.0, 0.0, (-1.0 * 0.5) * 5.0));

    let mut input = no_input();
    input.move_left = true;
    input.dt = bits(0.5);
    assert_eq!(fv(movement_step(input)), glam::Vec3::new((-1.0 * 0.5) * 5.0, 0.0, 0.0));

    // Forward wins over the other keys, as in the original chain.
    let mut input = no_input();
    input.move_forward = true;
    input.move_right = true;
    input.dt = bits(0.5);
    assert_eq!(fv(movement_step(input)), glam::Vec3::new(0.0, 0.0, (-1.0 * 0.5) * 5.0));

    assert_eq!(fv(movement_step(no_input())), glam::Vec3::ZERO);
}

#[test]
fn update_camera_moves_then_rebuilds_the_orientation() {
    let mut cam = Camera::new();
    let mut input = no_input();
    input.move_forward = true;
    input.dt = bits(0.5);
    let yaw = std::f32::consts::FRAC_PI_2;
    let (new_yaw, new_pitch) = update_camera(&mut cam, bits(yaw), bits(0.0), input);
    assert_eq!(new_yaw, bits(yaw));
    assert_eq!(new_pitch, bits(0.0));

    // Position: moved along -Z by dt * speed.
    let pos = fv(cam.position());
    assert_eq!(pos, glam::Vec3::new(0.0, 0.0, (-1.0 * 0.5) * 5.0));

    // Orientation columns: the basis of (yaw, pitch).
    let e = cam.transform().entries();
    let front = glam::Vec3::new(
        f32::from_bits(e[8]),
        f32::from_bits(e[9]),
        f32::from_bits(e[10]),
    );
    assert!((front - glam::Vec3::new(0.0, 0.0, 1.0)).length() < 1e-6);
}

#[test]
fn turn_keys_are_overwritten_by_the_basis_rebuild() {
    let mut with_turn = Camera::new();
    let mut without_turn = Camera::new();
    let mut input = no_input();
    input.move_forward = true;
    input.dt = bits(0.25);
    let plain = input;
    input.turn_left = true;
    update_camera(&mut with_turn, bits(1.0), bits(0.1), input);
    update_camera(&mut without_turn, bits(1.0), bits(0.1), plain);
    // The turn-key rotation is discarded when the orientation is rebuilt,
    // and it does not move the camera either.
    assert_eq!(with_turn.transform().entries(), without_turn.transform().entries());
}
