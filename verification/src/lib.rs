//! A verified model of a driver-independent texture object: creation with
//! storage-versus-image allocation strategy selection, mipmap bookkeeping,
//! sub-region pixel upload, read-back, compressed-data download and ordered
//! teardown, all stated against an explicit device-context state.

pub mod context;
pub mod dimensions;
pub mod image_format;
pub mod pixels;
pub mod texture;
