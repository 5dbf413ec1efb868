//! Decoder for a proprietary audio container ("package") file: a fixed-size
//! header, a table of per-entry offsets, and a sequence of length-prefixed,
//! byte-obfuscated payloads.
//!
//! The [`stream`] module models the byte-addressable, seekable input that the
//! decoder reads from; the [`package`] module holds the header and entry
//! decoders together with the value types they produce.

pub mod package;
pub mod stream;
