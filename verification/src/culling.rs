//! The two visibility tests: is a body's anchor inside the view volume, and
//! does a fragment's surface face the eye.
use crate::fixed::ONE;
use crate::vector::{Mat4, Vec3, Vec4};
use vstd::prelude::*;

verus! {

/// The least dot product of normal and viewing direction, exclusive, of a
/// fragment that is shaded: the greatest scalar not above one hundredth.
pub const FACING_THRESHOLD: i32 = 655;

/// Whether the quotient `c / w` lies in the closed interval from minus one
/// to one. It is decided exactly, without dividing; with `w` zero there is
/// no quotient and the answer is no.
pub open spec fn within_unit(c: i32, w: i32) -> bool {
    if w > 0 {
        -w <= c <= w
    } else if w < 0 {
        w <= c <= -w
    } else {
        false
    }
}

fn is_within_unit(c: i32, w: i32) -> (r: bool)
    ensures
        r == within_unit(c, w),
{
    let c: i64 = c as i64;
    let w: i64 = w as i64;
    if w > 0 {
        -w <= c && c <= w
    } else if w < 0 {
        w <= c && c <= -w
    } else {
        false
    }
}

/// A position in clip space: projection · (view · position).
pub open spec fn anchor_clip_position(position: Vec3, view: Mat4, projection: Mat4) -> Vec4 {
    projection.transform_spec(
        view.transform_spec(Vec4 { x: position.x, y: position.y, z: position.z, w: ONE }),
    )
}

/// Whether a position lies inside the view volume: after the homogeneous
/// division all three of its normalized coordinates lie between minus one
/// and one. A position with a zero homogeneous coordinate is outside.
pub open spec fn in_view_spec(position: Vec3, view: Mat4, projection: Mat4) -> bool {
    let clip = anchor_clip_position(position, view, projection);
    within_unit(clip.x, clip.w) && within_unit(clip.y, clip.w) && within_unit(clip.z, clip.w)
}

/// Object-level culling: decides whether a body's anchor is in view.
pub fn is_in_view(position: &Vec3, view_matrix: &Mat4, projection_matrix: &Mat4) -> (r: bool)
    ensures
        r == in_view_spec(*position, *view_matrix, *projection_matrix),
{
    let pos4: Vec4 = Vec4::new(position.x, position.y, position.z, ONE);

    let view_position: Vec4 = view_matrix.transform(&pos4);
    let clip_position: Vec4 = projection_matrix.transform(&view_position);

    if clip_position.w == 0 {
        return false;
    }
    is_within_unit(clip_position.x, clip_position.w) && is_within_unit(
        clip_position.y,
        clip_position.w,
    ) && is_within_unit(clip_position.z, clip_position.w)
}

/// Whether a surface with the given normal faces the eye: the dot product
/// of the normal and the viewing direction exceeds the threshold.
pub open spec fn faces_spec(normal: Vec3, looking_dir: Vec3) -> bool {
    normal.dot_spec(looking_dir) > FACING_THRESHOLD
}

/// Fragment-level culling: decides whether a surface faces the eye.
pub fn faces(normal: &Vec3, looking_dir: &Vec3) -> (r: bool)
    ensures
        r == faces_spec(*normal, *looking_dir),
{
    normal.dot(looking_dir) > FACING_THRESHOLD
}

} // verus!
