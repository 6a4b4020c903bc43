//! Verified bookkeeping for a double-buffered real-time renderer.
//!
//! The renderer itself drives a native graphics API: device, swapchain,
//! command queue, fence. Those calls live with the caller. What this crate
//! holds is the state the CPU side must keep exactly right between those
//! calls: which back buffer is current, which fence value tags the work
//! submitted for each buffer, when the command allocator may be reused,
//! how a resource-transition barrier is filled in, what a descriptor heap
//! remembers, and which files of a shader directory are compiled and to
//! what target profile.

pub mod app;
pub mod barrier;
pub mod device;
pub mod events;
pub mod frame;
pub mod heap;
pub mod shaders;
