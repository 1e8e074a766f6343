//! GPU resource management for a small OpenGL renderer: packed vertex attribute
//! codecs, attribute layouts, shader and program lifecycles, vertex buffers and
//! viewport state. The library decides which calls the graphics context receives
//! (`context::GlCall`) and proves what they do to a model of that context; the
//! program that owns the context performs them.

pub mod buffer;
pub mod context;
pub mod data;
pub mod shader;
pub mod viewport;
