//! Encoder-side data types of a Brotli implementation, with the one-shot
//! decompression helpers that exercise the decoder.

pub mod enc;
