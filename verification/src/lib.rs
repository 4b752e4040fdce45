//! Digital-rain animation core: falling glyph streams, their placement on the
//! terminal grid, per-frame advancement, and reclamation of streams that have
//! scrolled off screen. Terminal output itself is left to the caller; every
//! frame step is computed here as plain cell writes.

pub mod config;
pub mod glyph;
pub mod rng;
pub mod stream;
pub mod streams;
