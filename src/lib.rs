//! Monitor preview: aspect-preserving downscaling of a captured frame and its
//! packaging as an inline JPEG data URL.

pub mod error;
pub mod fit;
pub mod bitmap;
pub mod codec;
pub mod monitor;
pub mod preview;
