//! Verified core of a small peptide activity classifier.
//!
//! The library encodes amino-acid sequences and activity-class labels as
//! fixed-width integer vectors, and carries the integer-valued decisions of
//! the evaluator (argmax with a first-index tie-break, one-hot decoding,
//! counting correct predictions). The floating-point network that consumes
//! these encodings lives outside the verified library.

use vstd::prelude::*;

pub mod encoding;
pub mod evaluation;

verus! {

pub use crate::encoding::Peptide;
pub use crate::encoding::encode_peptide_sequence;
pub use crate::encoding::encode_class;

/// Width of every encoded sequence: shorter inputs are padded, longer
/// inputs truncated, so the network always sees the same shape.
pub const ENCODED_LEN: usize = 20;

/// Out-of-alphabet marker, used both for unknown symbols and for padding.
pub const SENTINEL: u8 = 20;

} // verus!
