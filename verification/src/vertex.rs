//! Mesh vertices, before and after the transform stage.
use crate::screen::color::Color;
use crate::vector::{Vec2, Vec3};
use vstd::prelude::*;

verus! {

/// One vertex of a mesh: what the model gives, and what the transform stage
/// adds to it.
#[derive(Clone, Copy, Debug, PartialEq, Eq, Structural)]
pub struct Vertex {
    /// Position in object space.
    pub position: Vec3,
    /// Surface normal in object space.
    pub normal: Vec3,
    /// Texture coordinate.
    pub tex_coords: Vec2,
    pub color: Color,
    /// Position on the screen: `x` and `y` in pixels, `z` the normalized
    /// depth.
    pub transformed_position: Vec3,
    /// Surface normal in world space.
    pub transformed_normal: Vec3,
    /// Set by the transform stage when the homogeneous coordinate was zero:
    /// the vertex lies in the plane of the eye and has no place on the
    /// screen. A triangle with such a vertex is not drawn.
    pub degenerate: bool,
}

impl Vertex {
    /// A vertex as the model gives it: black, and not yet transformed, so
    /// that its screen position is its own position and its world normal
    /// its own normal.
    pub open spec fn new_spec(position: Vec3, normal: Vec3, tex_coords: Vec2) -> Vertex {
        Vertex {
            position,
            normal,
            tex_coords,
            color: Color { r: 0, g: 0, b: 0 },
            transformed_position: position,
            transformed_normal: normal,
            degenerate: false,
        }
    }

    pub fn new(position: Vec3, normal: Vec3, tex_coords: Vec2) -> (v: Vertex)
        ensures
            v == Vertex::new_spec(position, normal, tex_coords),
    {
        Vertex {
            position,
            normal,
            tex_coords,
            color: Color::black(),
            transformed_position: position,
            transformed_normal: normal,
            degenerate: false,
        }
    }
}

} // verus!
