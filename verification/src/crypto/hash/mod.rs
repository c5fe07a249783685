//! Hash functions.

pub mod sha3_256;
