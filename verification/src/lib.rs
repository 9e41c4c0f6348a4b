//! Decision core of a small Vulkan bootstrap layer: library loading, instance
//! and device negotiation, queue-family selection, surface and swapchain
//! creation results, and teardown ordering, all over plain values.

pub mod device;
pub mod error;
pub mod extension;
pub mod instance;
pub mod lifecycle;
pub mod loader;
pub mod name;
pub mod physical_device;
pub mod renderer;
pub mod selection;
pub mod surface;
pub mod swapchain;
