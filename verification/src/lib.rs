//! An interactive 3D camera controller: discrete input events (key holds,
//! mouse drags, scroll wheel, programmatic pan and rotate calls) accumulate
//! into per-frame deltas, and a per-frame `update` integrates them into a
//! rigid-body pose (displacement plus orientation) and reports whether the
//! view changed since it was last drawn.
//!
//! Every scalar the camera works with is a single-precision value carried as
//! its 32-bit pattern (see `fp`); the arithmetic itself is done by the real
//! floating-point operations behind trusted wrappers (`fp`, `geom`), and the
//! control logic around them — which inputs are staged, which accumulator
//! drives the orientation, when the dirty flag is set and cleared — is
//! verified against the spec functions below. The angles, the displacement
//! and the movement speed are pinned bit for bit (NaNs canonicalized, see
//! `fp`); the orientation quaternion and the projection matrix pass through
//! the platform's trigonometry, whose precision the language leaves
//! unspecified, so their entries carry no bit-level contract (see `geom`).

pub mod fp;
pub mod geom;

use vstd::prelude::*;
use crate::geom::{Quat, Vec3};

verus! {

/// Pattern of 10.0: the initial movement speed.
pub const SPEED_INIT_BITS: u32 = 0x4120_0000;
/// Pattern of 0.01: the floor the movement speed is clamped to.
pub const SPEED_FLOOR_BITS: u32 = 0x3C23_D70A;
/// Pattern of 0.1: the relative speed step of one wheel notch.
pub const TENTH_BITS: u32 = 0x3DCC_CCCD;
/// Pattern of 0.15: the angular speed (radians per second) one held turning
/// key contributes per `update` call.
pub const TURNING_SPEED_BITS: u32 = 0x3E19_999A;
/// Pattern of 100.0: the drag-pan scale, so pan amounts are
/// resolution-independent.
pub const HUNDRED_BITS: u32 = 0x42C8_0000;
/// Pattern of 1000.0: milliseconds per second.
pub const THOUSAND_BITS: u32 = 0x447A_0000;
/// Pattern of two pi: a drag across the whole viewport is one full turn.
pub const TWO_PI_BITS: u32 = 0x40C9_0FDB;
/// Pattern of 150.0: the camera starts backed away from the origin along z.
pub const DISP_Z_BITS: u32 = 0x4316_0000;
/// Pattern of 45.0: the vertical field of view in degrees.
pub const FOVY_DEG_BITS: u32 = 0x4234_0000;
/// Pattern of 0.1: the near plane distance.
pub const NEAR_BITS: u32 = 0x3DCC_CCCD;
/// Pattern of 10000.0: the far plane distance.
pub const FAR_BITS: u32 = 0x461C_4000;
/// Largest accepted viewport dimension (2^22 pixels): keeps the aspect ratio
/// of two accepted dimensions away from zero and from infinity.
pub const MAX_DIM: i32 = 0x40_0000;

/// A pair of angular amounts, yaw (`theta`) and pitch (`phi`), each a
/// single-precision pattern in radians.
#[derive(Clone, Copy, PartialEq, Eq, Structural, Debug)]
pub struct RotationAngle {
    pub theta: u32,
    pub phi: u32,
}

/// Both angles zero.
pub open spec fn rot_zero() -> RotationAngle {
    RotationAngle { theta: fp::POS_ZERO, phi: fp::POS_ZERO }
}

impl RotationAngle {
    /// The zero pair.
    pub fn zero() -> (r: Self)
        ensures
            r == rot_zero(),
    {
        RotationAngle { theta: 0, phi: 0 }
    }
}

/// A rigid-body pose: displacement plus orientation quaternion, with the
/// uniform scale fixed at one (it is not stored, so the pose is always
/// invertible).
#[derive(Clone, Copy, PartialEq, Eq, Structural, Debug)]
pub struct Pose {
    pub disp: Vec3,
    pub rot: Quat,
}

/// The serializable snapshot of the camera's orientation and position:
/// enough to restore both exactly. Transient accumulators and the movement
/// speed are runtime-only and are not part of it.
#[derive(Clone, Copy, PartialEq, Eq, Structural, Debug)]
pub struct State {
    pub transform: Pose,
    pub phi: u32,
    pub theta: u32,
}

/// The camera state machine: latched key flags, staged per-frame input
/// accumulators, the authoritative pose, and the projection matrix for the
/// current viewport.
#[derive(Clone, Copy, Debug)]
pub struct Camera {
    pub moving_backward: bool,
    pub moving_forward: bool,
    pub moving_left: bool,
    pub moving_right: bool,
    pub moving_down: bool,
    pub moving_up: bool,
    pub turning_left: bool,
    pub turning_right: bool,
    pub turning_down: bool,
    pub turning_up: bool,
    pub width: i32,
    pub height: i32,
    pub movement_speed: u32,
    pub theta: u32,
    pub phi: u32,
    pub pan: Vec3,
    /// The angular speed to turn at, multiplied by the elapsed seconds on
    /// `update`; fed by turning keys and by `rotate`.
    pub rotation_speed: RotationAngle,
    /// An absolute angle to turn by, staged by mouse dragging; when pending
    /// it wins outright over `rotation_speed` for the frame.
    pub delta_rotation: RotationAngle,
    pub moved: bool,
    pub transform: Pose,
    pub projection_matrix: [u32; 16],
}

/// The pose the camera is constructed with: displacement (0, 0, 150),
/// identity rotation.
pub open spec fn initial_pose() -> Pose {
    Pose {
        disp: Vec3 { x: fp::POS_ZERO, y: fp::POS_ZERO, z: DISP_Z_BITS },
        rot: geom::quat_one(),
    }
}

/// A viewport dimension clamped into [1, 2^22].
pub open spec fn clamp_dim(v: int) -> int {
    if v < 1 {
        1
    } else if v > MAX_DIM {
        MAX_DIM as int
    } else {
        v
    }
}

/// The pattern (-1.0, 0.0 or 1.0) one axis of the movement keys contributes:
/// the two opposed keys cancel.
pub open spec fn axis_bits(pos: bool, neg: bool) -> u32 {
    if pos == neg {
        fp::POS_ZERO
    } else if pos {
        fp::ONE_BITS
    } else {
        fp::NEG_ONE_BITS
    }
}

/// The pan accumulator after the held movement keys are folded in: the key
/// direction (x from right/left, y from up/down, z from backward/forward),
/// normalized to unit length, is added once — or nothing, if no key
/// direction is active.
pub open spec fn staged_pan(c: Camera) -> Vec3 {
    let dx = axis_bits(c.moving_right, c.moving_left);
    let dy = axis_bits(c.moving_up, c.moving_down);
    let dz = axis_bits(c.moving_backward, c.moving_forward);
    if dx == fp::POS_ZERO && dy == fp::POS_ZERO && dz == fp::POS_ZERO {
        c.pan
    } else {
        let u = geom::unit3_c(dx, dy, dz);
        geom::vec3_add(c.pan, Vec3 { x: u.0, y: u.1, z: u.2 })
    }
}

/// The rotation speed after the held turning keys add their fixed increment,
/// each signed by its direction.
pub open spec fn staged_speed(c: Camera) -> RotationAngle {
    let t1 = if c.turning_left {
        fp::add_c(c.rotation_speed.theta, TURNING_SPEED_BITS)
    } else {
        c.rotation_speed.theta
    };
    let t2 = if c.turning_right {
        fp::sub_c(t1, TURNING_SPEED_BITS)
    } else {
        t1
    };
    let p1 = if c.turning_up {
        fp::add_c(c.rotation_speed.phi, TURNING_SPEED_BITS)
    } else {
        c.rotation_speed.phi
    };
    let p2 = if c.turning_down {
        fp::sub_c(p1, TURNING_SPEED_BITS)
    } else {
        p1
    };
    RotationAngle { theta: t2, phi: p2 }
}

/// Whether a pair of angular amounts stages any rotation: some component is
/// a nonzero pattern.
pub open spec fn angle_pending(r: RotationAngle) -> bool {
    !fp::is_zero_bits(r.theta) || !fp::is_zero_bits(r.phi)
}

/// Whether `update` applies a pan this frame: the staged pan has positive
/// squared magnitude (an all-zero pan has squared magnitude zero).
pub open spec fn pan_applies(c: Camera) -> bool {
    let p = staged_pan(c);
    !geom::vec3_is_zero(p) && fp::f32_gt_zero(geom::mag2_c(p))
}

/// Whether `update` applies a rotation this frame: some angular input is
/// staged, by keys, by `rotate` or by a drag.
pub open spec fn rotation_applies(c: Camera) -> bool {
    angle_pending(staged_speed(c)) || angle_pending(c.delta_rotation)
}

/// What `update` returns: the camera moved since the last call, or some
/// staged input moves it now.
pub open spec fn update_reports(c: Camera) -> bool {
    c.moved || pan_applies(c) || rotation_applies(c)
}

/// The pattern of the elapsed milliseconds converted to seconds.
pub open spec fn elapsed_bits(ms: int) -> u32 {
    fp::div_c(fp::f32_of_i64(ms), THOUSAND_BITS)
}

/// The yaw after `update`: the drag delta wins outright when pending;
/// otherwise the rotation speed scaled by the elapsed seconds; otherwise
/// unchanged.
pub open spec fn next_theta(c: Camera, ms: int) -> u32 {
    let rs = staged_speed(c);
    if !(angle_pending(rs) || angle_pending(c.delta_rotation)) {
        c.theta
    } else if angle_pending(c.delta_rotation) {
        fp::add_c(c.theta, c.delta_rotation.theta)
    } else {
        fp::add_c(c.theta, fp::mul_c(rs.theta, elapsed_bits(ms)))
    }
}

/// The pitch after `update`, under the same precedence as the yaw.
pub open spec fn next_phi(c: Camera, ms: int) -> u32 {
    let rs = staged_speed(c);
    if !(angle_pending(rs) || angle_pending(c.delta_rotation)) {
        c.phi
    } else if angle_pending(c.delta_rotation) {
        fp::add_c(c.phi, c.delta_rotation.phi)
    } else {
        fp::add_c(c.phi, fp::mul_c(rs.phi, elapsed_bits(ms)))
    }
}

/// The displacement after `update`: when a pan applies, the staged pan is
/// scaled by the movement speed and the elapsed seconds, rotated into the
/// camera's current orientation, and added.
pub open spec fn next_disp(c: Camera, ms: int) -> Vec3 {
    if pan_applies(c) {
        let p = staged_pan(c);
        let s = geom::vec3_scale(geom::vec3_scale(p, c.movement_speed), elapsed_bits(ms));
        let t = geom::rotated_c(c.transform.rot, s);
        geom::vec3_add(c.transform.disp, Vec3 { x: t.0, y: t.1, z: t.2 })
    } else {
        c.transform.disp
    }
}

/// A camera with nothing staged — as `update` leaves every camera: the pan
/// and both rotation accumulators zero and the dirty flag clear.
pub open spec fn drained(c: Camera) -> bool {
    c.pan == geom::vec3_zero() && c.rotation_speed == rot_zero() && c.delta_rotation
        == rot_zero() && !c.moved
}

/// The snapshot `state` returns.
pub open spec fn snapshot(c: Camera) -> State {
    State { transform: c.transform, phi: c.phi, theta: c.theta }
}

/// The camera after `set_state`: pose and angles overwritten, the dirty flag
/// set, everything else — accumulators, speed, flags, viewport — untouched.
pub open spec fn with_state(c: Camera, s: State) -> Camera {
    Camera { transform: s.transform, theta: s.theta, phi: s.phi, moved: true, ..c }
}

/// The pan accumulator after `mouse_drag_pan`: each pixel delta is
/// normalized by the viewport dimension and scaled by 100, x against the
/// drag direction, y with it.
pub open spec fn drag_panned(c: Camera, dx: int, dy: int) -> Vec3 {
    Vec3 {
        x: fp::sub_c(
            c.pan.x,
            fp::div_c(fp::mul_c(HUNDRED_BITS, fp::f32_of_i32(dx)), fp::f32_of_i32(c.width as int)),
        ),
        y: fp::add_c(
            c.pan.y,
            fp::div_c(fp::mul_c(HUNDRED_BITS, fp::f32_of_i32(dy)), fp::f32_of_i32(c.height as int)),
        ),
        z: c.pan.z,
    }
}

/// The drag rotation after `mouse_drag_rotate`: a drag across the full
/// viewport dimension is one full turn, negated so the view follows the
/// drag.
pub open spec fn drag_rotated(c: Camera, dx: int, dy: int) -> RotationAngle {
    RotationAngle {
        theta: fp::sub_c(
            c.delta_rotation.theta,
            fp::div_c(fp::mul_c(TWO_PI_BITS, fp::f32_of_i32(dx)), fp::f32_of_i32(c.width as int)),
        ),
        phi: fp::sub_c(
            c.delta_rotation.phi,
            fp::div_c(fp::mul_c(TWO_PI_BITS, fp::f32_of_i32(dy)), fp::f32_of_i32(c.height as int)),
        ),
    }
}

/// The pattern (-1.0, 0.0 or 1.0) of the sign of the wheel delta.
pub open spec fn wheel_sign_bits(delta: int) -> u32 {
    if delta > 0 {
        fp::ONE_BITS
    } else if delta < 0 {
        fp::NEG_ONE_BITS
    } else {
        fp::POS_ZERO
    }
}

/// The movement speed after the wheel step, before the floor clamp: grown or
/// shrunk by a tenth of itself according to the sign of the delta.
pub open spec fn wheel_adjusted(speed: u32, delta: int) -> u32 {
    fp::add_c(speed, fp::mul_c(fp::mul_c(wheel_sign_bits(delta), TENTH_BITS), speed))
}

/// The 16 ideal patterns of the matrix of the camera's inverted pose, at the
/// fixed scale of one.
pub open spec fn pose_matrix_ideal(c: Camera) -> Seq<u32> {
    geom::world_to_camera_bits(
        fp::ONE_BITS,
        c.transform.rot.s,
        c.transform.rot.x,
        c.transform.rot.y,
        c.transform.rot.z,
        c.transform.disp.x,
        c.transform.disp.y,
        c.transform.disp.z,
    )
}

/// Whether the inverted pose's ideal matrix is NaN-free; then the machine's
/// entries are exactly the ideal ones.
pub open spec fn pose_matrix_real(c: Camera) -> bool {
    forall|i: int| 0 <= i < 16 ==> !fp::is_nan_bits(#[trigger] pose_matrix_ideal(c)[i])
}

/// The 16 ideal patterns of the view-projection matrix: the stored
/// projection times the matrix of the inverted pose.
pub open spec fn view_projection_ideal(c: Camera) -> Seq<u32> {
    geom::mat4_mul_bits(c.projection_matrix@, pose_matrix_ideal(c))
}

impl Camera {
    /// A camera looking at the origin from (0, 0, 150), speed 10, no input
    /// staged, marked moved so the first frame is drawn, sized to the given
    /// viewport.
    pub fn new(width: i32, height: i32) -> (c: Camera)
        ensures
            !c.moving_backward && !c.moving_forward && !c.moving_left && !c.moving_right,
            !c.moving_down && !c.moving_up,
            !c.turning_left && !c.turning_right && !c.turning_down && !c.turning_up,
            c.movement_speed == SPEED_INIT_BITS,
            c.moved,
            c.theta == fp::POS_ZERO,
            c.phi == fp::POS_ZERO,
            c.pan == geom::vec3_zero(),
            c.rotation_speed == rot_zero(),
            c.delta_rotation == rot_zero(),
            c.transform == initial_pose(),
            c.width as int == clamp_dim(width as int),
            c.height as int == clamp_dim(height as int),
    {
        let mut camera = Camera {
            movement_speed: SPEED_INIT_BITS,
            moving_backward: false,
            moving_forward: false,
            moving_left: false,
            moving_right: false,
            moving_down: false,
            moving_up: false,
            turning_left: false,
            turning_right: false,
            turning_down: false,
            turning_up: false,
            moved: true,
            theta: 0,
            phi: 0,
            pan: Vec3 { x: 0, y: 0, z: 0 },
            rotation_speed: RotationAngle { theta: 0, phi: 0 },
            delta_rotation: RotationAngle { theta: 0, phi: 0 },
            transform: Pose {
                disp: Vec3 { x: 0, y: 0, z: DISP_Z_BITS },
                rot: Quat { s: fp::ONE_BITS, x: 0, y: 0, z: 0 },
            },
            // set_size fills these in.
            projection_matrix: [0u32; 16],
            width: 0,
            height: 0,
        };
        camera.set_size(width, height);
        camera
    }

    /// A snapshot of the pose and the two angles; pure.
    pub fn state(&self) -> (s: State)
        ensures
            s == snapshot(*self),
    {
        State { transform: self.transform, phi: self.phi, theta: self.theta }
    }

    /// Overwrite the pose and the two angles and mark the view dirty. Staged
    /// accumulators are deliberately not reset: in-flight gestures blend
    /// into the restored state.
    pub fn set_state(&mut self, state: State)
        ensures
            *final(self) == with_state(*old(self), state),
    {
        self.transform = state.transform;
        self.phi = state.phi;
        self.theta = state.theta;
        self.moved = true;
    }

    /// Store the viewport dimensions, clamped into [1, 2^22] so the aspect
    /// ratio stays well-formed, recompute the projection matrix (whose
    /// entries come from the platform's trigonometry and so carry no
    /// contract), and mark the view dirty. The caller applies the new
    /// dimensions to its rendering backend.
    pub fn set_size(&mut self, width: i32, height: i32)
        ensures
            final(self).width as int == clamp_dim(width as int),
            final(self).height as int == clamp_dim(height as int),
            *final(self) == (Camera {
                width: final(self).width,
                height: final(self).height,
                projection_matrix: final(self).projection_matrix,
                moved: true,
                ..*old(self)
            }),
    {
        let w: i32 = if width < 1 { 1 } else if width > MAX_DIM { MAX_DIM } else { width };
        let h: i32 = if height < 1 { 1 } else if height > MAX_DIM { MAX_DIM } else { height };
        self.width = w;
        self.height = h;
        let fw = fp::i32_to_f32(w);
        let fh = fp::i32_to_f32(h);
        let aspect = fp::f32_div(fw, fh);
        self.projection_matrix = geom::perspective_matrix(FOVY_DEG_BITS, aspect, NEAR_BITS, FAR_BITS);
        self.moved = true;
    }

    /// The view-projection matrix: projection times inverse pose, in the
    /// convention with -z forward. The pose's scale is fixed at one, so the
    /// inverse always exists; whenever the inverted pose's ideal entries are
    /// NaN-free, the result is the ideal product up to NaN-ness of each
    /// entry.
    pub fn get_world_to_gl(&self) -> (r: [u32; 16])
        ensures
            pose_matrix_real(*self) ==> forall|i: int|
                0 <= i < 16 ==> fp::matches_ideal(r@[i], #[trigger] view_projection_ideal(*self)[i]),
    {
        let inv = geom::pose_world_to_camera(fp::ONE_BITS, &self.transform.rot, &self.transform.disp);
        match inv {
            Some(m) => {
                let r = geom::mat4_mul(&self.projection_matrix, &m);
                proof {
                    if pose_matrix_real(*self) {
                        assert(m@ =~= pose_matrix_ideal(*self));
                    }
                }
                r
            },
            None => unreached(),
        }
    }

    /// Advance the camera by the elapsed milliseconds: fold held keys into
    /// the staged accumulators, apply the staged pan and rotation to the
    /// pose, drain every accumulator, clear the dirty flag, and report
    /// whether anything moved. The two angles, the displacement and the
    /// report are pinned exactly; the rotation quaternion, rebuilt from the
    /// angles through the platform's trigonometry whenever a rotation
    /// applies, is pinned only when none does.
    #[verifier::rlimit(100)]
    pub fn update(&mut self, elapsed_ms: i64) -> (moved: bool)
        ensures
            moved == update_reports(*old(self)),
            final(self).theta == next_theta(*old(self), elapsed_ms as int),
            final(self).phi == next_phi(*old(self), elapsed_ms as int),
            final(self).transform.disp == next_disp(*old(self), elapsed_ms as int),
            !rotation_applies(*old(self))
                ==> final(self).transform.rot == old(self).transform.rot,
            *final(self) == (Camera {
                theta: final(self).theta,
                phi: final(self).phi,
                transform: (Pose {
                    disp: final(self).transform.disp,
                    rot: final(self).transform.rot,
                }),
                pan: geom::vec3_zero(),
                rotation_speed: rot_zero(),
                delta_rotation: rot_zero(),
                moved: false,
                ..*old(self)
            }),
    {
        let mut result = self.moved;
        self.moved = false;

        // Fold the held movement keys into the pan accumulator.
        let dx = axis(self.moving_right, self.moving_left);
        let dy = axis(self.moving_up, self.moving_down);
        let dz = axis(self.moving_backward, self.moving_forward);
        if !(dx == 0 && dy == 0 && dz == 0) {
            let u = geom::vec3_unit(&Vec3 { x: dx, y: dy, z: dz });
            self.pan = Vec3 {
                x: fp::f32_add(self.pan.x, u.0),
                y: fp::f32_add(self.pan.y, u.1),
                z: fp::f32_add(self.pan.z, u.2),
            };
        }

        let secs = fp::f32_div(fp::i64_to_f32(elapsed_ms), THOUSAND_BITS);

        // Fold the held turning keys into the rotation speed.
        if self.turning_left {
            self.rotation_speed.theta = fp::f32_add(self.rotation_speed.theta, TURNING_SPEED_BITS);
        }
        if self.turning_right {
            self.rotation_speed.theta = fp::f32_sub(self.rotation_speed.theta, TURNING_SPEED_BITS);
        }
        if self.turning_up {
            self.rotation_speed.phi = fp::f32_add(self.rotation_speed.phi, TURNING_SPEED_BITS);
        }
        if self.turning_down {
            self.rotation_speed.phi = fp::f32_sub(self.rotation_speed.phi, TURNING_SPEED_BITS);
        }

        // Apply the staged pan, rotated into the current orientation.
        let m2 = geom::vec3_mag2(&self.pan);
        if fp::f32_is_pos(m2) {
            result = true;
            let scaled = Vec3 {
                x: fp::f32_mul(fp::f32_mul(self.pan.x, self.movement_speed), secs),
                y: fp::f32_mul(fp::f32_mul(self.pan.y, self.movement_speed), secs),
                z: fp::f32_mul(fp::f32_mul(self.pan.z, self.movement_speed), secs),
            };
            let t = geom::quat_rotate_vec3(&self.transform.rot, &scaled);
            self.transform.disp = Vec3 {
                x: fp::f32_add(self.transform.disp.x, t.0),
                y: fp::f32_add(self.transform.disp.y, t.1),
                z: fp::f32_add(self.transform.disp.z, t.2),
            };
        }

        // Apply the staged rotation: a pending drag delta wins outright over
        // the key- and joystick-driven speed.
        let speed_pending = !(fp::f32_eq_zero(self.rotation_speed.theta)
            && fp::f32_eq_zero(self.rotation_speed.phi));
        let drag_pending = !(fp::f32_eq_zero(self.delta_rotation.theta)
            && fp::f32_eq_zero(self.delta_rotation.phi));
        if speed_pending || drag_pending {
            result = true;
            if drag_pending {
                self.theta = fp::f32_add(self.theta, self.delta_rotation.theta);
                self.phi = fp::f32_add(self.phi, self.delta_rotation.phi);
            } else {
                self.theta = fp::f32_add(self.theta, fp::f32_mul(self.rotation_speed.theta, secs));
                self.phi = fp::f32_add(self.phi, fp::f32_mul(self.rotation_speed.phi, secs));
            }
            let zq = geom::quat_from_angle_z(self.theta);
            let xq = geom::quat_from_angle_x(self.phi);
            let q = geom::quat_mul(&zq, &xq);
            self.transform.rot = Quat { s: q.0, x: q.1, y: q.2, z: q.3 };
        }

        // Drain every staged accumulator, applied or not.
        self.pan = Vec3 { x: 0, y: 0, z: 0 };
        self.rotation_speed = RotationAngle { theta: 0, phi: 0 };
        self.delta_rotation = RotationAngle { theta: 0, phi: 0 };
        result
    }

    /// Stage a drag pan: pixel deltas normalized by the viewport dimensions
    /// and scaled by 100.
    pub fn mouse_drag_pan(&mut self, delta_x: i32, delta_y: i32)
        ensures
            *final(self) == (Camera {
                pan: drag_panned(*old(self), delta_x as int, delta_y as int),
                ..*old(self)
            }),
    {
        let fw = fp::i32_to_f32(self.width);
        let fh = fp::i32_to_f32(self.height);
        self.pan.x = fp::f32_sub(
            self.pan.x,
            fp::f32_div(fp::f32_mul(HUNDRED_BITS, fp::i32_to_f32(delta_x)), fw),
        );
        self.pan.y = fp::f32_add(
            self.pan.y,
            fp::f32_div(fp::f32_mul(HUNDRED_BITS, fp::i32_to_f32(delta_y)), fh),
        );
    }

    /// Stage a drag rotation: a drag across the full viewport dimension is
    /// one full turn, negated so the view follows the drag.
    pub fn mouse_drag_rotate(&mut self, delta_x: i32, delta_y: i32)
        ensures
            *final(self) == (Camera {
                delta_rotation: drag_rotated(*old(self), delta_x as int, delta_y as int),
                ..*old(self)
            }),
    {
        let fw = fp::i32_to_f32(self.width);
        let fh = fp::i32_to_f32(self.height);
        self.delta_rotation.theta = fp::f32_sub(
            self.delta_rotation.theta,
            fp::f32_div(fp::f32_mul(TWO_PI_BITS, fp::i32_to_f32(delta_x)), fw),
        );
        self.delta_rotation.phi = fp::f32_sub(
            self.delta_rotation.phi,
            fp::f32_div(fp::f32_mul(TWO_PI_BITS, fp::i32_to_f32(delta_y)), fh),
        );
    }

    /// Step the movement speed by a tenth of itself, up for a positive
    /// delta, down for a negative one, and clamp it to the floor 0.01: the
    /// speed never ends up below the floor, whatever was staged before.
    pub fn mouse_wheel(&mut self, delta: i32)
        ensures
            fp::f32_le_bits(SPEED_FLOOR_BITS, final(self).movement_speed),
            ({
                let a = wheel_adjusted(old(self).movement_speed, delta as int);
                &&& (fp::is_nan_bits(a) ==> final(self).movement_speed == SPEED_FLOOR_BITS)
                &&& (!fp::is_nan_bits(a) ==> final(self).movement_speed == a
                    || final(self).movement_speed == SPEED_FLOOR_BITS)
                &&& (!fp::is_nan_bits(a) ==> fp::f32_le_bits(a, final(self).movement_speed))
            }),
            *final(self) == (Camera { movement_speed: final(self).movement_speed, ..*old(self) }),
    {
        // The original sign is `delta.signum()` cast to single precision,
        // which is exactly one of these three patterns.
        let sign: u32 = if delta > 0 {
            fp::ONE_BITS
        } else if delta < 0 {
            fp::NEG_ONE_BITS
        } else {
            fp::POS_ZERO
        };
        let bump = fp::f32_mul(fp::f32_mul(sign, TENTH_BITS), self.movement_speed);
        let adjusted = fp::f32_add(self.movement_speed, bump);
        self.movement_speed = fp::f32_max(adjusted, SPEED_FLOOR_BITS);
    }

    /// Stage a programmatic pan into the same accumulator as drag and key
    /// pans.
    pub fn pan(&mut self, x: u32, y: u32, z: u32)
        ensures
            *final(self) == (Camera {
                pan: geom::vec3_add(old(self).pan, (Vec3 { x: x, y: y, z: z })),
                ..*old(self)
            }),
    {
        self.pan.x = fp::f32_add(self.pan.x, x);
        self.pan.y = fp::f32_add(self.pan.y, y);
        self.pan.z = fp::f32_add(self.pan.z, z);
    }

    /// Stage a programmatic angular speed (`up` into pitch, `around` into
    /// yaw): a velocity that composes with key-driven turning, not an
    /// absolute delta.
    pub fn rotate(&mut self, up: u32, around: u32)
        ensures
            *final(self) == (Camera {
                rotation_speed: (RotationAngle {
                    theta: fp::add_c(old(self).rotation_speed.theta, around),
                    phi: fp::add_c(old(self).rotation_speed.phi, up),
                }),
                ..*old(self)
            }),
    {
        self.rotation_speed.phi = fp::f32_add(self.rotation_speed.phi, up);
        self.rotation_speed.theta = fp::f32_add(self.rotation_speed.theta, around);
    }
}

/// A camera whose dirty flag is set — as it is right after construction,
/// after a resize and after `set_state` — reports motion on its next
/// `update`, whatever the elapsed time and whether or not any input is
/// staged.
pub proof fn lemma_dirty_camera_reports_motion(c: Camera)
    requires
        c.moved,
    ensures
        update_reports(c),
{
}

/// `update` drains everything it integrates (its contract leaves every
/// camera `drained`), so a camera it left behind, with no keys held and no
/// input staged since, reports no motion on its next `update` and keeps its
/// displacement and both angles exactly; and since no rotation applies, its
/// orientation is kept too.
pub proof fn lemma_drained_camera_idles(c: Camera, ms: int)
    requires
        drained(c),
        !c.moving_backward && !c.moving_forward && !c.moving_left && !c.moving_right,
        !c.moving_down && !c.moving_up,
        !c.turning_left && !c.turning_right && !c.turning_down && !c.turning_up,
    ensures
        !pan_applies(c),
        !rotation_applies(c),
        !update_reports(c),
        next_theta(c, ms) == c.theta,
        next_phi(c, ms) == c.phi,
        next_disp(c, ms) == c.transform.disp,
{
    assert(staged_pan(c) == c.pan);
    assert(staged_speed(c) == c.rotation_speed);
}

/// When a drag rotation is pending, the frame's orientation change is
/// exactly the drag's absolute delta added to each angle — the key- and
/// joystick-driven rotation speed plays no part, whatever it holds and
/// whatever the elapsed time.
pub proof fn lemma_drag_rotate_wins(c: Camera, ms: int)
    requires
        angle_pending(c.delta_rotation),
    ensures
        next_theta(c, ms) == fp::add_c(c.theta, c.delta_rotation.theta),
        next_phi(c, ms) == fp::add_c(c.phi, c.delta_rotation.phi),
{
}

/// Restoring a camera's own snapshot is a no-op on the pose and both angles
/// — bit for bit — and touches neither the movement speed, nor any input
/// flag, nor the staged accumulators, nor the viewport: it only sets the
/// dirty flag.
pub proof fn lemma_state_round_trip(c: Camera)
    ensures
        with_state(c, snapshot(c)) == (Camera { moved: true, ..c }),
        with_state(c, snapshot(c)).transform == c.transform,
        with_state(c, snapshot(c)).theta == c.theta,
        with_state(c, snapshot(c)).phi == c.phi,
        with_state(c, snapshot(c)).movement_speed == c.movement_speed,
{
}

/// The axis contribution of two opposed movement keys.
fn axis(pos: bool, neg: bool) -> (r: u32)
    ensures
        r == axis_bits(pos, neg),
{
    if pos == neg {
        0
    } else if pos {
        fp::ONE_BITS
    } else {
        fp::NEG_ONE_BITS
    }
}

} // verus!
