//! The GPU side: the trusted boundary to the graphics API and the renderer
//! that hot-swaps its pipeline over it.

pub mod backend;
pub mod gpu_state;
pub mod renderer;
