//! Key-encapsulation mechanisms.

pub mod ml_kem_768;
