//! Post-quantum primitives (ML-KEM-768, ML-DSA-65, SLH-DSA-128s) and SHA3-256.

pub mod error;
pub mod hash;
pub mod kem;
pub mod sig;

pub use error::CryptoError;
