//! The safe core of a binding to the WebP codec.
//!
//! The codec is a foreign library that hands out buffers it allocated itself
//! and reports geometry as plain signed integers. Everything that a binding
//! has to decide about such a call is decided here, on plain values: whether
//! a call succeeded, how long each returned region is, which regions a handle
//! owns and which pointer releases them, how the wire values of the codec's
//! enumerations map to variants, and in which phase an incremental decoder is
//! after each feed. The foreign calls themselves are made by the caller.

pub mod boxed;
pub mod decode;
pub mod encode;
pub mod error;
pub mod incremental;

pub use crate::boxed::{wrap_bytes, RawBytes, WebpBox, WebpYuvBox};
pub use crate::decode::{
    decoded_into, decoded_pixels, decoded_yuv, header_info, VP8StatusCode, WebPIsAlphaMode,
    WebPIsPremultipliedMode, WebPIsRGBMode, WEBP_CSP_MODE,
};
pub use crate::encode::{encode_geometry, encode_size_check, encoded_bytes, encodes};
pub use crate::error::WebPSimpleError;
pub use crate::incremental::{
    chunk_accepted, partial_rgb, partial_yuva, RawYUVA, WebPIDecGetRGBResult,
    WebPIDecGetYUVAResult, WebPIDecoderBox, WebPIDecoderPhase,
};
