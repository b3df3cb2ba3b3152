//! Canonical fingerprints of PNG images.
//!
//! An image is decoded to 8-bit RGBA pixels, encoded again with one fixed set
//! of encoder parameters, and fingerprinted with SHA-256 digests of the file,
//! of the pixels and of the canonical encoding.

pub mod decode;
pub mod digest;
pub mod encode;
pub mod hex;
pub mod pixels;
pub mod report;
