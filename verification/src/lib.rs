//! Session handling and data interchange for a VP9 codec behind a C interface.
//!
//! The native codec is driven by the caller. This crate holds everything
//! around the native calls: what is handed to each call, how its status and
//! its output records are turned into owned values, where the emission
//! cursor stands, and who owns a payload that travels with a compressed unit.

pub mod codec;
pub mod common;
pub mod cursor;
pub mod decoder;
pub mod encoder;
pub mod frame;
pub mod image;
pub mod packet;
pub mod params;
