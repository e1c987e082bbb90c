//! The decisions of a viewer that draws one colored cube: the cube's mesh,
//! the presentation surface's configuration, and the frame controller that
//! keeps the uniform matrix in step with the surface's size.

pub mod frame;
pub mod mesh;
pub mod surface;
