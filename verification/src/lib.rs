//! Keeps a presentable image available for a window drawn with Vulkan.
//!
//! The library holds the decisions of a presentation pipeline: which physical
//! device and queue families to use, how the chain of presentable images is
//! set up for a surface, how one generation of the chain replaces another when
//! the surface changes size, and in which order a frame is acquired, submitted
//! and presented. The driver calls themselves are made by the caller, which
//! hands their results in as plain values.

pub mod assembly;
pub mod attachments;
pub mod device;
pub mod error;
pub mod extensions;
pub mod features;
pub mod gfx;
pub mod renderer;
pub mod surface;
pub mod swapchain;
