//! The matrices that place a body in the world and the world on the
//! screen.
use crate::fixed::{div_floor, saturate, saturate_i32, ONE};
use crate::vector::{Angle, Mat4, Vec3, Vec4};
use vstd::prelude::*;

verus! {

/// The sines and cosines of three Euler angles.
#[derive(Clone, Copy, Debug, PartialEq, Eq, Structural)]
pub struct EulerTrig {
    pub x: Angle,
    pub y: Angle,
    pub z: Angle,
}

/// The transform that scales by `scale` and then moves by `translation`.
pub open spec fn scale_translate_spec(translation: Vec3, scale: i32) -> Mat4 {
    Mat4 {
        r0: Vec4 { x: scale, y: 0, z: 0, w: translation.x },
        r1: Vec4 { x: 0, y: scale, z: 0, w: translation.y },
        r2: Vec4 { x: 0, y: 0, z: scale, w: translation.z },
        r3: Vec4 { x: 0, y: 0, z: 0, w: ONE },
    }
}

/// The rotation by three Euler angles: about x first, then y, then z.
pub open spec fn euler_rotation_spec(rotation: EulerTrig) -> Mat4 {
    Mat4::rotation_z_spec(rotation.z).times_spec(Mat4::rotation_y_spec(rotation.y)).times_spec(
        Mat4::rotation_x_spec(rotation.x),
    )
}

/// The model matrix of a body: rotate, then scale, then move.
pub open spec fn model_matrix_spec(translation: Vec3, scale: i32, rotation: EulerTrig) -> Mat4 {
    scale_translate_spec(translation, scale).times_spec(euler_rotation_spec(rotation))
}

/// Builds the model matrix of a body from its position, its scale and the
/// sines and cosines of its rotation.
pub fn create_model_matrix(translation: &Vec3, scale: i32, rotation: &EulerTrig) -> (m: Mat4)
    ensures
        m == model_matrix_spec(*translation, scale, *rotation),
{
    let rotation_matrix_x: Mat4 = Mat4::rotation_x(&rotation.x);
    let rotation_matrix_y: Mat4 = Mat4::rotation_y(&rotation.y);
    let rotation_matrix_z: Mat4 = Mat4::rotation_z(&rotation.z);

    let rotation_matrix: Mat4 = rotation_matrix_z.times(&rotation_matrix_y).times(
        &rotation_matrix_x,
    );

    let transform_matrix: Mat4 = Mat4 {
        r0: Vec4 { x: scale, y: 0, z: 0, w: translation.x },
        r1: Vec4 { x: 0, y: scale, z: 0, w: translation.y },
        r2: Vec4 { x: 0, y: 0, z: scale, w: translation.z },
        r3: Vec4 { x: 0, y: 0, z: 0, w: ONE },
    };

    transform_matrix.times(&rotation_matrix)
}

/// Half of a scalar, rounded down.
pub open spec fn half_spec(v: int) -> i32 {
    saturate(v / 2)
}

/// The matrix that maps normalized device coordinates to pixels: `x` from
/// `-1..1` to `0..width`, `y` from `1..-1` to `0..height`, `z` as it is.
pub open spec fn viewport_matrix_spec(width: i32, height: i32) -> Mat4 {
    Mat4 {
        r0: Vec4 { x: half_spec(width as int), y: 0, z: 0, w: half_spec(width as int) },
        r1: Vec4 { x: 0, y: half_spec(-height), z: 0, w: half_spec(height as int) },
        r2: Vec4 { x: 0, y: 0, z: ONE, w: 0 },
        r3: Vec4 { x: 0, y: 0, z: 0, w: ONE },
    }
}

/// Builds the viewport matrix of a screen whose width and height are given
/// as scalars.
pub fn create_viewport_matrix(width: i32, height: i32) -> (m: Mat4)
    ensures
        m == viewport_matrix_spec(width, height),
{
    let half_width: i32 = saturate_i32(div_floor(width as i128, 2));
    let half_height: i32 = saturate_i32(div_floor(height as i128, 2));
    let minus_half_height: i32 = saturate_i32(div_floor(-(height as i128), 2));
    Mat4 {
        r0: Vec4 { x: half_width, y: 0, z: 0, w: half_width },
        r1: Vec4 { x: 0, y: minus_half_height, z: 0, w: half_height },
        r2: Vec4 { x: 0, y: 0, z: ONE, w: 0 },
        r3: Vec4 { x: 0, y: 0, z: 0, w: ONE },
    }
}

} // verus!
