//! The driver of the JPEG XL decoder: what it decides between two calls of
//! the decoder, and the plain records it reports with.

pub mod api;
pub mod decoder;
