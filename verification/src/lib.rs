//! Real-time neural spike-count streaming: the framed wire protocol that
//! negotiates a vector width and exchanges fixed-size binary frames, and the
//! adaptive predictors that consume the streamed vectors.
//!
//! Prediction samples are IEEE-754 doubles on the wire; this crate works on
//! their 64-bit big-endian bit patterns (`u64`), which carry every double
//! bit-for-bit. Callers that need the numeric values convert at the boundary
//! with `f64::from_bits` / `f64::to_bits`.

pub mod codec;
pub mod errors;
pub mod filters;
pub mod protocol;
