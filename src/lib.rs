//! Verified marshalling logic for a LERC raster codec binding: header field
//! conversion, mapping of native status codes to typed errors, and planning of
//! the buffers handed to the native decoder and encoder.

pub mod error;
pub mod header;
pub mod decode;
pub mod encode;
pub mod lemmas;
