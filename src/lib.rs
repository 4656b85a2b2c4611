//! Host-side logic of a small Vulkan renderer: resource negotiation, the
//! fence-guarded command submission protocol, resource lifecycles and mesh
//! deduplication, each with a verified contract.

pub mod memory;
pub mod vertex;
pub mod obj_scan;
pub mod model;
pub mod device;
pub mod swapchain;
pub mod submit;
pub mod buffer;
pub mod texture;
pub mod render;
