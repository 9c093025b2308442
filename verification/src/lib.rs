//! Live editing of a WGSL fragment shader: the hot-reload core that rebuilds
//! the render pipeline from new source text and swaps it in only once it has
//! been validated, together with the decisions of the file watcher and of the
//! frame loop around it.

pub mod gpu;
pub mod poll_new_fragment_code;
pub mod swap;
pub mod window;
