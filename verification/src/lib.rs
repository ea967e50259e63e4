//! Two small fixtures exercising array and slice semantics: zeroing a
//! two-dimensional integer grid by nested traversal, and taking a sub-range
//! view of a byte array and checking its length.

pub mod range_len;
pub mod zeroing;
