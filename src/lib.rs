//! Core logic of a small Vulkan renderer: memory-type selection, device and
//! swapchain property negotiation, image layout barriers and mip chains,
//! the in-flight frame ring, the per-frame protocol and the ownership rules
//! that decide when GPU resources may be released.
use vstd::prelude::*;

pub mod device;
pub mod frame_loop;
pub mod frames;
pub mod image;
pub mod layout;
pub mod memory;
pub mod ownership;
pub mod swapchain;
pub mod teardown;

verus! {

} // verus!
