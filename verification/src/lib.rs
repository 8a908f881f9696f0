//! Decoder for the Fujifilm maker-note block: the vendor-private byte buffer
//! embedded in a photograph's metadata that records in-camera processing
//! settings (film simulation, white balance, sharpness, and so on).
//!
//! The byte layout, the per-field code tables and the validation policy live
//! here, fully specified and verified; file access and rendering are left to
//! the surrounding application.

pub mod bytes;
pub mod decode;
pub mod error;
pub mod fields;
pub mod settings;
