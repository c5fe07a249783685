//! SHA3-256 (NIST FIPS 202) through the `sha3` crate.

use sha3::{Digest, Sha3_256};
use vstd::prelude::*;

verus! {

/// Hash verification failures at typed digest boundaries.
#[derive(Debug, Clone, Copy, PartialEq, Eq, Structural)]
pub enum HashError {
    /// A digest did not match the expected value.
    Mismatch,
}

/// The SHA3-256 digest of a byte string, as FIPS 202 defines it.
pub uninterp spec fn sha3_256_of(msg: Seq<u8>) -> Seq<u8>;

/// Calls `<sha3::Sha3_256 as digest::Digest>::digest` on `msg`.
/// Trusted: the 32 bytes returned are the SHA3-256 digest of `msg`, which
/// depends on `msg` alone.
#[verifier::external_body]
fn sha3_256_digest(msg: &[u8]) -> (res: [u8; 32])
    ensures
        res@ == sha3_256_of(msg@),
{
    Sha3_256::digest(msg).into()
}

/// Compute the SHA3-256 digest (256 bits) of `msg`; it never fails.
pub fn digest(msg: &[u8]) -> (res: Result<[u8; 32], HashError>)
    ensures
        res matches Ok(d) && d@ == sha3_256_of(msg@),
{
    Ok(sha3_256_digest(msg))
}

} // verus!
