//! A deterministic, resumable chain of fixed-size byte chunks.
//!
//! Each step expands the current 32-byte seed into `chunk_size`
//! pseudo-random bytes, folds them into the previous chunk by byte-wise
//! XOR, and digests the result to obtain the next seed. The whole
//! sequence is a pure function of the initial state, so persisting the
//! state at any point and resuming later continues the stream
//! byte-for-byte as if it had never stopped.

pub mod chain;
pub mod generator;
pub mod hexfmt;
pub mod store;
