//! The decisions of a small Vulkan renderer, verified: queue family selection,
//! swapchain negotiation, memory type search, command recording and the per-frame
//! synchronization engine. The caller performs the GPU calls that these decide.
pub mod buffer;
pub mod constant;
pub mod device;
pub mod frame;
pub mod pipeline;
pub mod queue;
pub mod structs;
pub mod swapchain;
pub mod utility;

pub use queue::QueueFamilyIndices;
pub use swapchain::SwapChainSupportDetails;
