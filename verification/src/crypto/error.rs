use vstd::prelude::*;

verus! {

/// Crate-wide cryptographic failures.
#[derive(Debug, Clone, Copy, PartialEq, Eq, Structural)]
pub enum CryptoError {
    /// ML-KEM encapsulation or decapsulation failed after parsing inputs.
    KemFailed,
    /// ML-DSA / SLH-DSA verification rejected the signature.
    SigInvalid,
    /// A compare-by-hash check rejected a digest.
    HashMismatch,
    /// Length or structural parse failure before any primitive ran.
    MalformedInput,
}

} // verus!
