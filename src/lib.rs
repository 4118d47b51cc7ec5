//! User-space driver core for a USB pen tablet: report decoding, virtual
//! event batches, per-device session decisions and the device registry.

pub mod report;
pub mod emitter;
pub mod session;
pub mod registry;
