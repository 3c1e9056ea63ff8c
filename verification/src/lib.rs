//! Device-selection, swapchain and framebuffer lifecycle core of a graphics
//! engine.
//!
//! The crate holds the decision logic of the engine: choosing the best
//! physical device and queue family for a surface, planning a swapchain
//! configuration from surface capabilities, keeping swapchain images and
//! framebuffers in step across recreation, and the phase discipline of a
//! synchronous compute dispatch. The graphics driver itself is a collaborator:
//! callers enumerate devices and perform the creation calls, hand the plain
//! facts (device types, queue-family capabilities, surface capabilities,
//! creation outcomes) to this crate, and this crate decides.

pub mod device;
pub mod dispatch;
pub mod engine;
pub mod select;
pub mod swapchain;
