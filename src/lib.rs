//! The `VK_KHR_surface` instance extension: a table of resolved entry points
//! and the marshalling around each call into it.
pub mod surface;
pub mod vk;
