//! A growable vector of double-precision numbers and an expression transform
//! that rewrites such a vector element by element.
//!
//! The library never computes on floating-point values itself. An element is
//! held as the 64-bit IEEE-754 bit pattern of the double it stands for, so
//! that every operation on the sequence (indexing, slicing, concatenation,
//! in-place rewriting) has an exact statement over `Seq<u64>`.

pub mod error;
pub mod vector;
pub mod engine;
pub mod transform;
pub mod laws;
