//! A texture cache and sprite-catalog builder for sprite-sheet rendering.
//!
//! The cache guarantees single-decode-per-path semantics: the first request
//! for a path stores the decoded resource under a stable handle, and every
//! later request for the same path returns that same handle without touching
//! the decoder again. The catalog builder turns a parsed sheet description
//! into one sprite per entry, all sharing the sheet's cached resource. A
//! sprite renders by issuing a copy request whose destination rectangle has
//! exactly the size of its source sub-rectangle.
//!
//! Decoding, uploading and copying are the host rendering library's work:
//! callers hand them in as a loader callback and carry the produced copy
//! requests out, so everything here is ordinary, checkable logic over plain
//! values.

pub mod errors;
pub mod pixels;
pub mod rect;
pub mod sprite;
pub mod texture;
