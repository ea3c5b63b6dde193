//! Rigid transforms. Positions and rotations are `glam` values; this module
//! declares them and gives names to the few `glam` operations that the pose
//! store composes transforms with.

use vstd::prelude::*;

verus! {

/// `glam::Quat`, a rotation; the verifier sees nothing inside it.
#[verifier::external_type_specification]
#[verifier::external_body]
pub struct ExQuat(glam::Quat);

/// `glam::Vec3A`, a position or direction; the verifier sees nothing inside
/// it.
#[verifier::external_type_specification]
#[verifier::external_body]
pub struct ExVec3A(glam::Vec3A);

/// Trusted: `glam::Quat` is `Copy`, and its `clone` returns the value itself.
pub assume_specification[ <glam::Quat as Clone>::clone ](q: &glam::Quat) -> (r: glam::Quat)
    ensures
        r == *q,
;

/// Trusted: `glam::Vec3A` is `Copy`, and its `clone` returns the value itself.
pub assume_specification[ <glam::Vec3A as Clone>::clone ](v: &glam::Vec3A) -> (r: glam::Vec3A)
    ensures
        r == *v,
;

/// The vector whose three components are the given whole numbers.
pub uninterp spec fn vec3a_of_ints(x: i32, y: i32, z: i32) -> glam::Vec3A;

/// The quaternion whose four components are the given whole numbers.
pub uninterp spec fn quat_of_ints(x: i32, y: i32, z: i32, w: i32) -> glam::Quat;

/// The sum of two vectors.
pub uninterp spec fn vec3a_sum(a: glam::Vec3A, b: glam::Vec3A) -> glam::Vec3A;

/// The vector `v` turned by the rotation `q`.
pub uninterp spec fn quat_rotate(q: glam::Quat, v: glam::Vec3A) -> glam::Vec3A;

/// The rotation that applies `b` first and `a` second.
pub uninterp spec fn quat_product(a: glam::Quat, b: glam::Quat) -> glam::Quat;

/// The quaternion `q` scaled to unit length.
pub uninterp spec fn quat_unit(q: glam::Quat) -> glam::Quat;

/// The rotation that undoes the unit quaternion `q`.
pub uninterp spec fn quat_inverse(q: glam::Quat) -> glam::Quat;

/// Trusted: `glam::IVec3::as_vec3a` casts each component of an integer vector
/// to a float; the result depends on the three integers alone.
#[verifier::external_body]
pub(crate) fn vec3a_from_ints(x: i32, y: i32, z: i32) -> (r: glam::Vec3A)
    ensures
        r == vec3a_of_ints(x, y, z),
{
    glam::IVec3::new(x, y, z).as_vec3a()
}

/// Trusted: `glam::IVec4::as_vec4` casts each component of an integer vector
/// to a float, and `glam::Quat::from_vec4` takes the four floats as they are;
/// the result depends on the four integers alone.
#[verifier::external_body]
pub(crate) fn quat_from_ints(x: i32, y: i32, z: i32, w: i32) -> (r: glam::Quat)
    ensures
        r == quat_of_ints(x, y, z, w),
{
    glam::Quat::from_vec4(glam::IVec4::new(x, y, z, w).as_vec4())
}

/// Trusted: `glam::Vec3A`'s `+` adds component by component; the result
/// depends on the two vectors alone.
#[verifier::external_body]
pub(crate) fn vec3a_add(a: glam::Vec3A, b: glam::Vec3A) -> (r: glam::Vec3A)
    ensures
        r == vec3a_sum(a, b),
{
    a + b
}

/// Trusted: `glam::Quat::mul_vec3a` turns a vector by a quaternion; it does
/// not panic in a build without `glam`'s assertion features, and the result
/// depends on the two arguments alone.
#[verifier::external_body]
pub(crate) fn quat_mul_vec3a(q: glam::Quat, v: glam::Vec3A) -> (r: glam::Vec3A)
    ensures
        r == quat_rotate(q, v),
{
    q.mul_vec3a(v)
}

/// Trusted: `glam::Quat::mul_quat` multiplies two quaternions; the result
/// depends on the two arguments alone.
#[verifier::external_body]
pub(crate) fn quat_mul(a: glam::Quat, b: glam::Quat) -> (r: glam::Quat)
    ensures
        r == quat_product(a, b),
{
    a.mul_quat(b)
}

/// Trusted: `glam::Quat::normalize` divides a quaternion by its length; it
/// does not panic in a build without `glam`'s assertion features, and the
/// result depends on the argument alone.
#[verifier::external_body]
pub(crate) fn quat_normalize(q: glam::Quat) -> (r: glam::Quat)
    ensures
        r == quat_unit(q),
{
    q.normalize()
}

/// Trusted: `glam::Quat::inverse` returns the conjugate of its argument; it
/// does not panic in a build without `glam`'s assertion features, and the
/// result depends on the argument alone.
#[verifier::external_body]
pub(crate) fn quat_invert(q: glam::Quat) -> (r: glam::Quat)
    ensures
        r == quat_inverse(q),
{
    q.inverse()
}

/// A position and an orientation.
#[derive(Clone, Copy, Debug)]
pub struct TrackingPoint {
    pub pos: glam::Vec3A,
    pub rot: glam::Quat,
}

/// The transform of a frame that is given by `local` relative to its parent,
/// where the parent's own transform is `parent`: the local position turned
/// and moved by the parent, and the product of the two rotations scaled to
/// unit length.
pub open spec fn compose(parent: (glam::Vec3A, glam::Quat), local: (glam::Vec3A, glam::Quat)) -> (
    glam::Vec3A,
    glam::Quat,
) {
    (
        vec3a_sum(parent.0, quat_rotate(parent.1, local.0)),
        quat_unit(quat_product(parent.1, local.1)),
    )
}

/// The transform that moves nothing: position zero, rotation identity.
pub open spec fn identity_transform() -> (glam::Vec3A, glam::Quat) {
    (vec3a_of_ints(0, 0, 0), quat_of_ints(0, 0, 0, 1))
}

/// Places a child frame, given relative to its parent, in the frame that the
/// parent is given in.
pub fn compose_transforms(
    parent: (glam::Vec3A, glam::Quat),
    local: (glam::Vec3A, glam::Quat),
) -> (r: (glam::Vec3A, glam::Quat))
    ensures
        r == compose(parent, local),
{
    (
        vec3a_add(parent.0, quat_mul_vec3a(parent.1, local.0)),
        quat_normalize(quat_mul(parent.1, local.1)),
    )
}

impl TrackingPoint {
    pub fn new(pos: glam::Vec3A, rot: glam::Quat) -> (r: TrackingPoint)
        ensures
            r.pos == pos,
            r.rot == rot,
    {
        TrackingPoint { pos, rot }
    }

    /// The point at the origin with no rotation.
    pub fn identity() -> (r: TrackingPoint)
        ensures
            (r.pos, r.rot) == identity_transform(),
    {
        TrackingPoint { pos: vec3a_from_ints(0, 0, 0), rot: quat_from_ints(0, 0, 0, 1) }
    }
}

} // verus!
