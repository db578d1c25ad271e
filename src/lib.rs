//! Host-side logic of a GPU pixel-sorting pipeline: pixel buffers and their
//! codec boundary, surface descriptions and upload checks, tile-grid
//! planning, the run's state machine, and readback of a staging buffer.

pub mod codec;
pub mod dispatch;
pub mod error;
pub mod job;
pub mod kernel;
pub mod layout;
pub mod pixels;
pub mod texture;
