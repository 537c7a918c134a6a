//! Animation decoder and encoder logic around the native WebP codec.

pub mod decode;
pub mod encode;
pub mod quality;
pub mod roundtrip;
