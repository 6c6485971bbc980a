//! Format-aware raw-image buffer model and encoder-session protocol for a
//! multi-format HDR/SDR image pipeline.
//!
//! The library computes per-plane byte extents and strides for the supported
//! pixel layouts, models raw and compressed image values under explicit
//! ownership regimes, normalizes foreign codec status descriptors into
//! structured errors, and tracks the encoder session's configuration
//! protocol, including the exactly-once release of the codec handle.
//! The foreign codec itself is driven by unverified bridging code outside
//! this crate; everything here works on plain values.

pub mod compressed_image;
pub mod encoder;
pub mod error;
pub mod format;
pub mod layout;
pub mod raw_image;
