//! Signature schemes.

pub mod ml_dsa_65;
pub mod slh_dsa_128s;
