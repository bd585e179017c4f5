//! Vectors, quaternions and matrices over the scalar model of `fp`: each
//! component is a single-precision bit pattern. The geometric operations are
//! done by `cgmath` on the real values behind trusted wrappers.
//!
//! The operations built from `+ - * /` and square root (squared magnitude,
//! normalization, rotating a vector, quaternion and matrix products, the
//! pose inverse) have every non-NaN result determined by their operands, so
//! their results are named and pinned up to NaN-ness, and the library keeps
//! the canonicalized patterns (see `fp`). The quaternions built from an angle
//! and the perspective matrix go through the platform math library's sine,
//! cosine and tangent, whose precision the language leaves unspecified:
//! nothing is stated of those results, and the camera's contracts weaken
//! accordingly wherever they flow.

use vstd::prelude::*;
use crate::fp;
use byteorder::ByteOrder;
use cgmath::{Deg, InnerSpace, PerspectiveFov, Rad, Rotation, Rotation3, Transform};

verus! {

/// A 3-vector of single-precision bit patterns.
#[derive(Clone, Copy, PartialEq, Eq, Structural, Debug)]
pub struct Vec3 {
    pub x: u32,
    pub y: u32,
    pub z: u32,
}

/// A quaternion of single-precision bit patterns: scalar part `s`, vector
/// part `(x, y, z)`.
#[derive(Clone, Copy, PartialEq, Eq, Structural, Debug)]
pub struct Quat {
    pub s: u32,
    pub x: u32,
    pub y: u32,
    pub z: u32,
}

/// The all-zero vector.
pub open spec fn vec3_zero() -> Vec3 {
    Vec3 { x: fp::POS_ZERO, y: fp::POS_ZERO, z: fp::POS_ZERO }
}

/// The identity rotation.
pub open spec fn quat_one() -> Quat {
    Quat { s: fp::ONE_BITS, x: fp::POS_ZERO, y: fp::POS_ZERO, z: fp::POS_ZERO }
}

/// Every component's pattern stands for a zero value.
pub open spec fn vec3_is_zero(v: Vec3) -> bool {
    fp::is_zero_bits(v.x) && fp::is_zero_bits(v.y) && fp::is_zero_bits(v.z)
}

/// Componentwise canonicalized sum.
pub open spec fn vec3_add(a: Vec3, b: Vec3) -> Vec3 {
    Vec3 { x: fp::add_c(a.x, b.x), y: fp::add_c(a.y, b.y), z: fp::add_c(a.z, b.z) }
}

/// Each component scaled by `k` (componentwise canonicalized product).
pub open spec fn vec3_scale(v: Vec3, k: u32) -> Vec3 {
    Vec3 { x: fp::mul_c(v.x, k), y: fp::mul_c(v.y, k), z: fp::mul_c(v.z, k) }
}

/// The pattern of the squared magnitude `x*x + y*y + z*z` (pinned up to
/// NaN-ness, like the scalar names).
pub uninterp spec fn mag2_bits(x: u32, y: u32, z: u32) -> u32;

/// The canonicalized squared magnitude the library keeps.
pub open spec fn mag2_c(v: Vec3) -> u32 {
    fp::canon_bits(mag2_bits(v.x, v.y, v.z))
}

/// The patterns of the unit-length rescaling of the vector.
pub uninterp spec fn unit3_bits(x: u32, y: u32, z: u32) -> (u32, u32, u32);

/// The canonicalized unit vector the library keeps (the all-zero vector
/// rescales to NaN components, which canonicalize to the quiet NaN).
pub open spec fn unit3_c(x: u32, y: u32, z: u32) -> (u32, u32, u32) {
    let u = unit3_bits(x, y, z);
    (fp::canon_bits(u.0), fp::canon_bits(u.1), fp::canon_bits(u.2))
}

/// The patterns of the vector rotated by the quaternion.
pub uninterp spec fn rotated_bits(
    qs: u32, qx: u32, qy: u32, qz: u32, x: u32, y: u32, z: u32,
) -> (u32, u32, u32);

/// The canonicalized rotated vector the library keeps.
pub open spec fn rotated_c(q: Quat, v: Vec3) -> (u32, u32, u32) {
    let t = rotated_bits(q.s, q.x, q.y, q.z, v.x, v.y, v.z);
    (fp::canon_bits(t.0), fp::canon_bits(t.1), fp::canon_bits(t.2))
}

/// The patterns of the Hamilton product of the two quaternions.
pub uninterp spec fn quat_mul_bits(
    as_: u32, ax: u32, ay: u32, az: u32, bs: u32, bx: u32, by: u32, bz: u32,
) -> (u32, u32, u32, u32);

/// The 16 patterns, column-major, of the matrix of the inverse of the pose
/// with the given uniform scale, rotation and displacement.
pub uninterp spec fn world_to_camera_bits(
    scale: u32, qs: u32, qx: u32, qy: u32, qz: u32, dx: u32, dy: u32, dz: u32,
) -> Seq<u32>;

/// The 16 patterns, column-major, of the matrix product `a * b`.
pub uninterp spec fn mat4_mul_bits(a: Seq<u32>, b: Seq<u32>) -> Seq<u32>;

/// Relies on cgmath's `InnerSpace::magnitude2` for `Vector3`: the dot product
/// of the vector with itself, a sum of squares whose non-NaN result depends
/// on the components alone (a NaN result is only a NaN); on an all-zero
/// vector every term and so the sum is positive zero.
#[verifier::external_body]
fn vec3_mag2_raw(v: &Vec3) -> (r: u32)
    ensures
        fp::matches_ideal(r, mag2_bits(v.x, v.y, v.z)),
        vec3_is_zero(*v) ==> r == fp::POS_ZERO,
{
    let w = cgmath::Vector3::new(
        byteorder::LittleEndian::read_f32(&v.x.to_le_bytes()),
        byteorder::LittleEndian::read_f32(&v.y.to_le_bytes()),
        byteorder::LittleEndian::read_f32(&v.z.to_le_bytes()),
    );
    w.magnitude2().to_bits()
}

/// The canonicalized squared magnitude.
pub(crate) fn vec3_mag2(v: &Vec3) -> (r: u32)
    ensures
        r == mag2_c(*v),
        vec3_is_zero(*v) ==> r == fp::POS_ZERO,
{
    fp::canon(vec3_mag2_raw(v))
}

/// Relies on cgmath's `InnerSpace::normalize` for `Vector3`: the vector
/// scaled by one over its magnitude — arithmetic and a correctly rounded
/// square root, so every non-NaN component depends on the input alone, and a
/// NaN component (as the all-zero vector gives) is only a NaN.
#[verifier::external_body]
fn vec3_unit_raw(v: &Vec3) -> (r: (u32, u32, u32))
    ensures
        fp::matches_ideal(r.0, unit3_bits(v.x, v.y, v.z).0),
        fp::matches_ideal(r.1, unit3_bits(v.x, v.y, v.z).1),
        fp::matches_ideal(r.2, unit3_bits(v.x, v.y, v.z).2),
{
    let w = cgmath::Vector3::new(
        byteorder::LittleEndian::read_f32(&v.x.to_le_bytes()),
        byteorder::LittleEndian::read_f32(&v.y.to_le_bytes()),
        byteorder::LittleEndian::read_f32(&v.z.to_le_bytes()),
    );
    let u = w.normalize();
    (u.x.to_bits(), u.y.to_bits(), u.z.to_bits())
}

/// The canonicalized unit vector.
pub(crate) fn vec3_unit(v: &Vec3) -> (r: (u32, u32, u32))
    ensures
        r == unit3_c(v.x, v.y, v.z),
{
    let u = vec3_unit_raw(v);
    (fp::canon(u.0), fp::canon(u.1), fp::canon(u.2))
}

/// Relies on cgmath's `Rotation::rotate_vector` for `Quaternion`: the
/// quaternion-vector product, arithmetic whose non-NaN components depend on
/// the operands alone (a NaN component is only a NaN).
#[verifier::external_body]
fn quat_rotate_vec3_raw(q: &Quat, v: &Vec3) -> (r: (u32, u32, u32))
    ensures
        fp::matches_ideal(r.0, rotated_bits(q.s, q.x, q.y, q.z, v.x, v.y, v.z).0),
        fp::matches_ideal(r.1, rotated_bits(q.s, q.x, q.y, q.z, v.x, v.y, v.z).1),
        fp::matches_ideal(r.2, rotated_bits(q.s, q.x, q.y, q.z, v.x, v.y, v.z).2),
{
    let f = |b: u32| byteorder::LittleEndian::read_f32(&b.to_le_bytes());
    let rot = cgmath::Quaternion::new(f(q.s), f(q.x), f(q.y), f(q.z));
    let u = rot.rotate_vector(cgmath::Vector3::new(f(v.x), f(v.y), f(v.z)));
    (u.x.to_bits(), u.y.to_bits(), u.z.to_bits())
}

/// The canonicalized rotated vector.
pub(crate) fn quat_rotate_vec3(q: &Quat, v: &Vec3) -> (r: (u32, u32, u32))
    ensures
        r == rotated_c(*q, *v),
{
    let t = quat_rotate_vec3_raw(q, v);
    (fp::canon(t.0), fp::canon(t.1), fp::canon(t.2))
}

/// Relies on cgmath's `Rotation3::from_angle_z` for `Quaternion`, built from
/// the sine and cosine of half the angle. The platform math library computes
/// those with unspecified precision — the result can differ between machines
/// and toolchains — so nothing is stated of it.
#[verifier::external_body]
pub(crate) fn quat_from_angle_z(theta: u32) -> (r: (u32, u32, u32, u32)) {
    let q: cgmath::Quaternion<_> = cgmath::Quaternion::from_angle_z(Rad(
        byteorder::LittleEndian::read_f32(&theta.to_le_bytes()),
    ));
    (q.s.to_bits(), q.v.x.to_bits(), q.v.y.to_bits(), q.v.z.to_bits())
}

/// Relies on cgmath's `Rotation3::from_angle_x` for `Quaternion`, built from
/// the sine and cosine of half the angle; as with the yaw quaternion, the
/// platform's unspecified trigonometric precision leaves nothing to state.
#[verifier::external_body]
pub(crate) fn quat_from_angle_x(phi: u32) -> (r: (u32, u32, u32, u32)) {
    let q: cgmath::Quaternion<_> = cgmath::Quaternion::from_angle_x(Rad(
        byteorder::LittleEndian::read_f32(&phi.to_le_bytes()),
    ));
    (q.s.to_bits(), q.v.x.to_bits(), q.v.y.to_bits(), q.v.z.to_bits())
}

/// Relies on cgmath's `Mul` for `Quaternion`: the Hamilton product,
/// arithmetic whose non-NaN components depend on the two operands alone (a
/// NaN component is only a NaN).
#[verifier::external_body]
pub(crate) fn quat_mul(a: &(u32, u32, u32, u32), b: &(u32, u32, u32, u32)) -> (r: (u32, u32, u32, u32))
    ensures
        fp::matches_ideal(r.0, quat_mul_bits(a.0, a.1, a.2, a.3, b.0, b.1, b.2, b.3).0),
        fp::matches_ideal(r.1, quat_mul_bits(a.0, a.1, a.2, a.3, b.0, b.1, b.2, b.3).1),
        fp::matches_ideal(r.2, quat_mul_bits(a.0, a.1, a.2, a.3, b.0, b.1, b.2, b.3).2),
        fp::matches_ideal(r.3, quat_mul_bits(a.0, a.1, a.2, a.3, b.0, b.1, b.2, b.3).3),
{
    let f = |v: u32| byteorder::LittleEndian::read_f32(&v.to_le_bytes());
    let qa = cgmath::Quaternion::new(f(a.0), f(a.1), f(a.2), f(a.3));
    let qb = cgmath::Quaternion::new(f(b.0), f(b.1), f(b.2), f(b.3));
    let q = qa * qb;
    (q.s.to_bits(), q.v.x.to_bits(), q.v.y.to_bits(), q.v.z.to_bits())
}

/// Relies on cgmath's `Matrix4::from` for `PerspectiveFov`, with the `Deg`
/// to `Rad` conversion. Its assertions cannot fire under the preconditions:
/// the field of view is pinned to 45 degrees, the near and far planes to 0.1
/// and 10000, and the aspect ratio is positive, finite and greater than
/// 2^-23 (the machine epsilon the constructor compares against). The entries
/// come from the platform's tangent, of unspecified precision, so nothing is
/// stated of the result.
#[verifier::external_body]
pub(crate) fn perspective_matrix(fovy_deg: u32, aspect: u32, near: u32, far: u32) -> (r: [u32; 16])
    requires
        fovy_deg == 0x4234_0000,
        near == 0x3DCC_CCCD,
        far == 0x461C_4000,
        0x3400_0000 < aspect && aspect < 0x7F80_0000,
{
    let m = cgmath::Matrix4::from(PerspectiveFov {
        fovy: Rad::from(Deg(byteorder::LittleEndian::read_f32(&fovy_deg.to_le_bytes()))),
        aspect: byteorder::LittleEndian::read_f32(&aspect.to_le_bytes()),
        near: byteorder::LittleEndian::read_f32(&near.to_le_bytes()),
        far: byteorder::LittleEndian::read_f32(&far.to_le_bytes()),
    });
    let o: &[_; 16] = m.as_ref();
    o.map(|v| v.to_bits())
}

/// Relies on cgmath's `Transform::inverse_transform` and `Matrix4::from` for
/// `Decomposed`: `None` exactly when the scale is within one ulp of zero —
/// never for scale one — and otherwise the matrix of the inverted pose,
/// arithmetic whose non-NaN entries depend on the pose alone (a NaN entry is
/// only a NaN).
#[verifier::external_body]
pub(crate) fn pose_world_to_camera(scale: u32, rot: &Quat, disp: &Vec3) -> (r: Option<[u32; 16]>)
    ensures
        scale == fp::ONE_BITS ==> r is Some,
        r matches Some(m) ==> world_to_camera_bits(
            scale, rot.s, rot.x, rot.y, rot.z, disp.x, disp.y, disp.z,
        ).len() == 16,
        r matches Some(m) ==> forall|i: int|
            0 <= i < 16 ==> fp::matches_ideal(
                m@[i],
                world_to_camera_bits(scale, rot.s, rot.x, rot.y, rot.z, disp.x, disp.y, disp.z)[i],
            ),
{
    let f = |v: u32| byteorder::LittleEndian::read_f32(&v.to_le_bytes());
    let d = cgmath::Decomposed {
        scale: f(scale),
        rot: cgmath::Quaternion::new(f(rot.s), f(rot.x), f(rot.y), f(rot.z)),
        disp: cgmath::Vector3::new(f(disp.x), f(disp.y), f(disp.z)),
    };
    let inv = d.inverse_transform()?;
    let m: cgmath::Matrix4<_> = inv.into();
    let o: &[_; 16] = m.as_ref();
    Some(o.map(|v| v.to_bits()))
}

/// Relies on cgmath's `Mul` for `Matrix4`: the matrix product, arithmetic
/// whose non-NaN entries depend on the two operands alone (a NaN entry is
/// only a NaN).
#[verifier::external_body]
pub(crate) fn mat4_mul(a: &[u32; 16], b: &[u32; 16]) -> (r: [u32; 16])
    ensures
        r@.len() == mat4_mul_bits(a@, b@).len(),
        forall|i: int| 0 <= i < 16 ==> fp::matches_ideal(r@[i], mat4_mul_bits(a@, b@)[i]),
{
    let fa = a.map(|v| byteorder::LittleEndian::read_f32(&v.to_le_bytes()));
    let fb = b.map(|v| byteorder::LittleEndian::read_f32(&v.to_le_bytes()));
    let m = *<&cgmath::Matrix4<_>>::from(&fa) * *<&cgmath::Matrix4<_>>::from(&fb);
    let o: &[_; 16] = m.as_ref();
    o.map(|v| v.to_bits())
}

} // verus!
