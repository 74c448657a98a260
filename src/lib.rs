//! A scrolling multi-trace line plot: a fixed-capacity circular sample buffer,
//! the per-frame schedule that refreshes and draws it, and the shader pipeline
//! setup that turns its points into geometry.

pub mod buffer;
pub mod pipeline;
pub mod frame;
pub mod shader;
