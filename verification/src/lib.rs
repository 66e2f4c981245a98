//! A software rendering core for a small animated solar system, in 16.16
//! fixed-point arithmetic: vertex transform, triangle rasterisation,
//! depth-buffered shading, and the orbital motion that feeds them.
pub mod algebra;
pub mod bounding_box;
pub mod celestial_bodies;
pub mod controls;
pub mod culling;
pub mod fixed;
pub mod fragments;
pub mod loaders;
pub mod registry;
pub mod screen;
pub mod shader;
pub mod stars;
pub mod texture;
pub mod transform;
pub mod uniforms;
pub mod vector;
pub mod vertex;
