//! Absolute values of IEEE-754 double-precision numbers.
//!
//! A double is held by its binary64 encoding, a `u64` (what `f64::to_bits`
//! gives and `f64::from_bits` takes back). The predicates that the contracts
//! use, and the order and negation of doubles, are stated over that encoding
//! in `binary64`; `magnitude` computes absolute values of one number and of a
//! sequence of them.

pub mod binary64;
pub mod magnitude;
