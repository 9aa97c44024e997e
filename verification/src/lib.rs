//! Statistical identification of CPU instruction-set architectures in raw
//! binary buffers.
//!
//! The engine compares the byte n-gram statistics of a candidate buffer
//! against a set of labeled reference models, one per known architecture.
//! Divergence values are handled as order codes (see `classify`), so that
//! the ranking and disambiguation policy, the n-gram counting, and the
//! adaptive windowed scan are all verified here; the caller supplies the
//! divergence arithmetic.

pub mod classify;
pub mod model;
pub mod ngram;
pub mod scan;
