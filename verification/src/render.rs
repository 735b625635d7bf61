//! The render pipeline: the `Canvas` drawing API, the command model it records, text layout,
//! and the software rasterizer that turns a frame of commands into pixels.

pub mod canvas;
pub mod coverage;
pub mod frame;
pub mod model;
pub mod raster;
pub mod surface;
pub mod style;
pub mod text;
