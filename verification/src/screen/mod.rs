//! The drawing surface: colours and the depth-tested framebuffer.
pub mod color;
pub mod framebuffer;
