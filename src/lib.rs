//! Signed, Python-style indexing for sequences.
//!
//! A signed index counts from the start when it is non-negative and from the
//! end when it is negative. The functions here turn such indices into offsets
//! that are always safe to use against a sequence of known length: single
//! positions, half-open ranges for slicing, and even partitions of a sequence
//! into contiguous chunks for parallel work.

pub mod chunk;
pub mod normalize;
pub mod range;
pub mod seq_ext;

pub use chunk::plan;
pub use normalize::{cast_or, saturation_cast};
pub use range::{from_end, resolve};
pub use seq_ext::SignedIndex;
