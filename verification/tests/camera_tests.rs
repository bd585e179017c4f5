use camera::{fp, Camera};
use cgmath::{Deg, InnerSpace, PerspectiveFov, Rad, Rotation, Rotation3, Transform};
use std::f32::consts::{FRAC_PI_2, PI};

fn bits(x: f32) -> u32 {
    x.to_bits()
}

#[test]
fn constants_match_their_values() {
    assert_eq!(camera::SPEED_INIT_BITS, bits(10.0));
    assert_eq!(camera::SPEED_FLOOR_BITS, bits(0.01));
    assert_eq!(camera::TENTH_BITS, bits(0.1));
    assert_eq!(camera::TURNING_SPEED_BITS, bits(0.15));
    assert_eq!(camera::HUNDRED_BITS, bits(100.0));
    assert_eq!(camera::THOUSAND_BITS, bits(1000.0));
    assert_eq!(camera::TWO_PI_BITS, bits(2.0 * PI));
    assert_eq!(camera::DISP_Z_BITS, bits(150.0));
    assert_eq!(camera::FOVY_DEG_BITS, bits(45.0));
    assert_eq!(camera::NEAR_BITS, bits(0.1));
    assert_eq!(camera::FAR_BITS, bits(10000.0));
    assert_eq!(fp::ONE_BITS, bits(1.0));
    assert_eq!(fp::NEG_ONE_BITS, bits(-1.0));
    assert_eq!(fp::POS_ZERO, bits(0.0));
    assert_eq!(fp::NEG_ZERO, bits(-0.0));
}

#[test]
fn first_update_reports_motion_exactly_once() {
    let mut c = Camera::new(800, 600);
    assert!(c.update(0));
    assert!(!c.update(0));
    assert!(!c.update(0));
}

#[test]
fn resize_marks_dirty() {
    let mut c = Camera::new(800, 600);
    assert!(c.update(16));
    assert!(!c.update(16));
    c.set_size(1024, 768);
    assert!(c.update(16));
    assert!(!c.update(16));
}

#[test]
fn set_size_clamps_degenerate_viewports() {
    let mut c = Camera::new(800, 600);
    c.set_size(0, -5);
    assert_eq!(c.width, 1);
    assert_eq!(c.height, 1);
    c.set_size(i32::MAX, 10);
    assert_eq!(c.width, 4_194_304);
    assert_eq!(c.height, 10);
}

#[test]
fn drag_rotate_dominates_turning_keys() {
    let mut c = Camera::new(100, 100);
    c.update(0);
    c.turning_left = true;
    c.mouse_drag_rotate(10, 5);
    assert!(c.update(1000));
    let d_theta = 0.0f32 - (2.0 * PI * 10.0 / 100.0);
    let d_phi = 0.0f32 - (2.0 * PI * 5.0 / 100.0);
    assert_eq!(c.state().theta, bits(0.0 + d_theta));
    assert_eq!(c.state().phi, bits(0.0 + d_phi));
    // The key-driven increment (0.15 rad over one second) was not applied.
    assert_ne!(c.state().theta, bits(0.15));
}

#[test]
fn accumulators_drain_after_update() {
    let mut c = Camera::new(640, 480);
    c.pan(bits(1.0), bits(2.0), bits(3.0));
    c.rotate(bits(0.3), bits(0.2));
    c.mouse_drag_pan(5, 5);
    assert!(c.update(500));
    let s = c.state();
    assert!(!c.update(500));
    assert_eq!(c.state(), s);
    assert!(!c.update(500));
}

#[test]
fn opposed_movement_keys_cancel() {
    let mut c = Camera::new(100, 100);
    c.update(0);
    c.moving_right = true;
    c.moving_left = true;
    assert!(!c.update(1000));
}

#[test]
fn movement_keys_pan_with_unit_direction() {
    let mut c = Camera::new(100, 100);
    c.update(0);
    c.moving_right = true;
    c.moving_up = true;
    assert!(c.update(1000));
    let unit = cgmath::Vector3::new(1.0f32, 1.0, 0.0).normalize();
    let moved = unit * 10.0 * 1.0;
    let d = c.state().transform.disp;
    assert_eq!(d.x, bits(0.0 + moved.x));
    assert_eq!(d.y, bits(0.0 + moved.y));
    assert_eq!(d.z, bits(150.0 + moved.z));
}

#[test]
fn drag_pan_scales_inversely_with_viewport() {
    let mut a = Camera::new(100, 100);
    let mut b = Camera::new(200, 200);
    a.update(0);
    b.update(0);
    a.mouse_drag_pan(10, 0);
    b.mouse_drag_pan(10, 0);
    assert!(a.update(1000));
    assert!(b.update(1000));
    let ax = f32::from_bits(a.state().transform.disp.x);
    let bx = f32::from_bits(b.state().transform.disp.x);
    assert_eq!(ax, -100.0);
    assert_eq!(bx, -50.0);
    assert_eq!(ax, 2.0 * bx);
}

#[test]
fn drag_rotate_scales_inversely_with_viewport() {
    let mut a = Camera::new(100, 100);
    let mut b = Camera::new(200, 200);
    a.mouse_drag_rotate(10, 0);
    b.mouse_drag_rotate(10, 0);
    a.update(1000);
    b.update(1000);
    let ta = f32::from_bits(a.state().theta);
    let tb = f32::from_bits(b.state().theta);
    assert_eq!(ta, 2.0 * tb);
    assert_eq!(ta, 0.0 + (0.0 - (2.0 * PI * 10.0 / 100.0)));
}

#[test]
fn drag_pan_accumulates_across_calls() {
    let mut c = Camera::new(100, 100);
    c.update(0);
    c.mouse_drag_pan(3, 0);
    c.mouse_drag_pan(4, 10);
    assert!(c.update(1000));
    let d = c.state().transform.disp;
    // pan.x gathered -3 then -4; pan.y gathered +10; scaled by speed 10 over
    // one second.
    assert_eq!(f32::from_bits(d.x), -70.0);
    assert_eq!(f32::from_bits(d.y), 100.0);
}

#[test]
fn elapsed_milliseconds_scale_the_pan() {
    let mut c = Camera::new(100, 100);
    c.update(0);
    c.pan(bits(1.0), bits(0.0), bits(0.0));
    assert!(c.update(250));
    assert_eq!(f32::from_bits(c.state().transform.disp.x), 1.0 * 10.0 * 0.25);
}

#[test]
fn wheel_never_drives_speed_below_floor() {
    let mut c = Camera::new(800, 600);
    let mut expected = 10.0f32;
    for _ in 0..200 {
        c.mouse_wheel(-1);
        expected = (expected + (-1.0f32 * 0.1 * expected)).max(0.01);
        assert_eq!(c.movement_speed, expected.to_bits());
        assert!(f32::from_bits(c.movement_speed) >= 0.01);
    }
    assert_eq!(f32::from_bits(c.movement_speed), 0.01);
}

#[test]
fn wheel_steps_speed_by_a_tenth() {
    let mut c = Camera::new(800, 600);
    c.mouse_wheel(3);
    let s1 = (10.0f32 + 1.0 * 0.1 * 10.0).max(0.01);
    assert_eq!(c.movement_speed, s1.to_bits());
    c.mouse_wheel(-2);
    let s2 = (s1 + -1.0 * 0.1 * s1).max(0.01);
    assert_eq!(c.movement_speed, s2.to_bits());
    c.mouse_wheel(0);
    let s3 = (s2 + 0.0 * 0.1 * s2).max(0.01);
    assert_eq!(c.movement_speed, s3.to_bits());
    assert_eq!(s3, s2);
}

#[test]
fn wheel_recovers_from_an_infinite_speed() {
    let mut c = Camera::new(800, 600);
    c.movement_speed = f32::INFINITY.to_bits();
    // Infinity minus a tenth of infinity is a NaN; the clamp turns it into
    // the floor.
    c.mouse_wheel(-1);
    assert_eq!(c.movement_speed, bits(0.01));
}

#[test]
fn set_state_of_own_state_is_a_no_op() {
    let mut c = Camera::new(640, 480);
    c.rotate(bits(0.4), bits(1.1));
    c.update(100);
    c.mouse_wheel(1);
    c.turning_up = true;
    let speed = c.movement_speed;
    let s = c.state();
    c.set_state(s);
    assert_eq!(c.state(), s);
    assert_eq!(c.movement_speed, speed);
    assert!(c.turning_up);
    assert!(!c.turning_down);
}

#[test]
fn set_state_keeps_staged_gestures() {
    let mut c = Camera::new(100, 100);
    c.update(0);
    c.mouse_drag_rotate(10, 0);
    let s = c.state();
    c.set_state(s);
    // The staged drag survives the restore and blends into the next frame.
    assert!(c.update(0));
    let d_theta = 0.0f32 - (2.0 * PI * 10.0 / 100.0);
    assert_eq!(c.state().theta, bits(0.0 + d_theta));
}

#[test]
fn quarter_turn_scenario() {
    let mut c = Camera::new(100, 100);
    assert!(c.update(1000));
    c.rotate(bits(0.0), bits(FRAC_PI_2));
    assert!(c.update(1000));
    let s = c.state();
    assert_eq!(s.theta, bits(0.0 + FRAC_PI_2 * 1.0));
    assert_eq!(s.phi, bits(0.0));
    assert_eq!(s.transform.disp.x, bits(0.0));
    assert_eq!(s.transform.disp.y, bits(0.0));
    assert_eq!(s.transform.disp.z, bits(150.0));
    let expected = cgmath::Quaternion::from_angle_z(Rad(FRAC_PI_2))
        * cgmath::Quaternion::from_angle_x(Rad(0.0f32));
    assert_eq!(s.transform.rot.s, expected.s.to_bits());
    assert_eq!(s.transform.rot.x, expected.v.x.to_bits());
    assert_eq!(s.transform.rot.y, expected.v.y.to_bits());
    assert_eq!(s.transform.rot.z, expected.v.z.to_bits());
}

#[test]
fn pan_follows_the_orientation() {
    let mut c = Camera::new(100, 100);
    c.rotate(bits(0.0), bits(FRAC_PI_2));
    c.update(1000);
    c.pan(bits(1.0), bits(0.0), bits(0.0));
    assert!(c.update(1000));
    let q = cgmath::Quaternion::from_angle_z(Rad(0.0f32 + FRAC_PI_2 * 1.0))
        * cgmath::Quaternion::from_angle_x(Rad(0.0f32));
    let t = q.rotate_vector(cgmath::Vector3::new(1.0f32 * 10.0 * 1.0, 0.0, 0.0));
    let d = c.state().transform.disp;
    assert_eq!(d.x, bits(0.0 + t.x));
    assert_eq!(d.y, bits(0.0 + t.y));
    assert_eq!(d.z, bits(150.0 + t.z));
}

#[test]
fn view_projection_matches_the_reference_formula() {
    let mut c = Camera::new(640, 480);
    c.rotate(bits(0.2), bits(0.7));
    c.update(320);
    c.pan(bits(2.5), bits(-1.0), bits(0.5));
    c.update(640);
    let got = c.get_world_to_gl();

    let s = c.state();
    let proj = cgmath::Matrix4::from(PerspectiveFov {
        fovy: Rad::from(Deg(45.0f32)),
        aspect: 640.0f32 / 480.0f32,
        near: 0.1,
        far: 10000.0,
    });
    let pose = cgmath::Decomposed {
        scale: 1.0f32,
        rot: cgmath::Quaternion::new(
            f32::from_bits(s.transform.rot.s),
            f32::from_bits(s.transform.rot.x),
            f32::from_bits(s.transform.rot.y),
            f32::from_bits(s.transform.rot.z),
        ),
        disp: cgmath::Vector3::new(
            f32::from_bits(s.transform.disp.x),
            f32::from_bits(s.transform.disp.y),
            f32::from_bits(s.transform.disp.z),
        ),
    };
    let world_to_camera: cgmath::Matrix4<f32> = pose.inverse_transform().unwrap().into();
    let expected = proj * world_to_camera;
    let e: &[f32; 16] = expected.as_ref();
    for i in 0..16 {
        assert_eq!(got[i], e[i].to_bits());
    }
}

#[test]
fn turning_keys_rotate_at_fixed_speed() {
    let mut c = Camera::new(100, 100);
    c.update(0);
    c.turning_left = true;
    assert!(c.update(500));
    let t1 = 0.0f32 + (0.0f32 + 0.15) * 0.5;
    assert_eq!(c.state().theta, bits(t1));
    // The key is still held, so the next frame turns again.
    assert!(c.update(500));
    assert_eq!(c.state().theta, bits(t1 + (0.0f32 + 0.15) * 0.5));
    c.turning_left = false;
    c.turning_down = true;
    assert!(c.update(1000));
    assert_eq!(c.state().phi, bits(0.0 + (0.0f32 - 0.15) * 1.0));
}

#[test]
fn programmatic_rotate_composes_with_turning_keys() {
    let mut c = Camera::new(100, 100);
    c.update(0);
    c.rotate(bits(0.0), bits(0.1));
    c.turning_left = true;
    assert!(c.update(1000));
    assert_eq!(c.state().theta, bits(0.0 + ((0.0f32 + 0.1) + 0.15) * 1.0));
}

#[test]
fn moving_forward_pans_toward_negative_z() {
    let mut c = Camera::new(100, 100);
    c.update(0);
    c.moving_forward = true;
    assert!(c.update(1000));
    let unit = cgmath::Vector3::new(0.0f32, 0.0, -1.0).normalize();
    let d = c.state().transform.disp;
    assert_eq!(d.z, bits(150.0 + unit.z * 10.0 * 1.0));
    assert_eq!(d.x, bits(0.0 + unit.x * 10.0 * 1.0));
}

#[test]
fn rotation_angle_zero_is_zero() {
    let z = camera::RotationAngle::zero();
    assert_eq!(z.theta, bits(0.0));
    assert_eq!(z.phi, bits(0.0));
}
