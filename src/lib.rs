//! Host-side core of a GPU voxel renderer: the sparse chunk directory and
//! pool addressing, host-visible buffer writes, generator dispatch checks,
//! swapchain negotiation and the per-frame synchronisation schedule.
pub mod buffer;
pub mod device;
pub mod frame;
pub mod generator;
pub mod surface;
pub mod wire;
pub mod world;
