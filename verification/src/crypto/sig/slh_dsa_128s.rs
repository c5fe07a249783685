//! SLH-DSA-128s through PQClean SPHINCS+-SHA2-128s-simple (`pqcrypto-sphincsplus`).

use pqcrypto_sphincsplus::sphincssha2128ssimple;
use pqcrypto_traits::sign::{
    DetachedSignature as DetSigTrait, PublicKey as SignPk, SecretKey as SignSk,
};
use pqcrypto_traits::Error as PqError;
use vstd::prelude::*;

verus! {

/// SLH-DSA-128s public key byte length.
pub const SLH_DSA_128S_PUBLIC_KEY_BYTES: usize = 32;
/// SLH-DSA-128s secret key byte length.
pub const SLH_DSA_128S_SECRET_KEY_BYTES: usize = 64;
/// SLH-DSA-128s detached signature byte length: signing always produces this
/// many bytes, and verification takes at most this many.
pub const SLH_DSA_128S_SIGNATURE_BYTES: usize = 7856;

/// SLH-DSA (SPHINCS+ SHA2-128s) signature-specific errors.
#[derive(Debug, Clone, Copy, PartialEq, Eq, Structural)]
pub enum SigError {
    /// A key or signature had the wrong length.
    MalformedInput,
    /// Verification rejected the signature.
    Invalid,
}

/// Whether SPHINCS+-SHA2-128s-simple verification accepts the detached signature `sig` on
/// `msg` under the public key `pk` (verification is deterministic).
pub uninterp spec fn sphincs_sha2_128s_accepts(sig: Seq<u8>, msg: Seq<u8>, pk: Seq<u8>) -> bool;

/// The public key `PUB_SEED || root` that SPHINCS+-SHA2-128s-simple seeded key
/// generation (`crypto_sign_seed_keypair`) derives from its 48-byte seed
/// `SK_SEED || SK_PRF || PUB_SEED`.
pub uninterp spec fn sphincs_sha2_128s_seed_public_key(seed: Seq<u8>) -> Seq<u8>;

/// A well-formed SLH-DSA-128s secret key `SK_SEED || SK_PRF || PUB_SEED || root`:
/// 64 bytes whose last 32 are the public key that seeded key generation
/// derives from the first 48.
pub open spec fn is_slh_dsa_128s_secret_key(sk: Seq<u8>) -> bool {
    &&& sk.len() == SLH_DSA_128S_SECRET_KEY_BYTES
    &&& sk.subrange(32, 64) == sphincs_sha2_128s_seed_public_key(sk.subrange(0, 48))
}

/// What holds of every SLH-DSA-128s keypair that key generation hands out:
/// the secret key is well formed and ends with the public key.
pub open spec fn is_slh_dsa_128s_keypair(pk: Seq<u8>, sk: Seq<u8>) -> bool {
    &&& pk.len() == SLH_DSA_128S_PUBLIC_KEY_BYTES
    &&& is_slh_dsa_128s_secret_key(sk)
    &&& sk.subrange(32, 64) == pk
}

/// Calls `SecretKey::from_bytes` and then `pqcrypto_sphincsplus::sphincssha2128ssimple::detached_sign`,
/// returning the signature bytes.
/// Trusted: the parse fails exactly when the secret key is not 64 bytes; the
/// signature is exactly 7856 bytes (every variant of the signing code sets the
/// length to the signature size); and when the secret key is well formed, the
/// signature verifies under the public key that the secret key ends with (the
/// correctness of the scheme, which the crate's own detached-signature test
/// checks). Signing draws a fresh randomiser from the system random source, so
/// nothing else is stated of the bytes.
#[verifier::external_body]
fn sphincs_sha2_128s_detached_sign(msg: &[u8], sk: &[u8]) -> (res: Result<Vec<u8>, PqError>)
    ensures
        res is Err <==> sk@.len() != SLH_DSA_128S_SECRET_KEY_BYTES,
        res matches Ok(sig) ==> sig@.len() == SLH_DSA_128S_SIGNATURE_BYTES,
        res matches Ok(sig) ==> (is_slh_dsa_128s_secret_key(sk@) ==> sphincs_sha2_128s_accepts(
            sig@,
            msg@,
            sk@.subrange(32, 64),
        )),
{
    let sk = <sphincssha2128ssimple::SecretKey as SignSk>::from_bytes(sk)?;
    let sig = sphincssha2128ssimple::detached_sign(msg, &sk);
    Ok(DetSigTrait::as_bytes(&sig).to_vec())
}

/// Calls `PublicKey::from_bytes`, `DetachedSignature::from_bytes` and then
/// `pqcrypto_sphincsplus::sphincssha2128ssimple::verify_detached_signature`; `Ok(true)` when it
/// returns `Ok(())`, `Ok(false)` on either `VerificationError`.
/// Trusted: the parse fails exactly when the public key is not 32 bytes or
/// the signature is longer than 7856 bytes; otherwise the answer is the named
/// verdict of the three arguments.
#[verifier::external_body]
fn sphincs_sha2_128s_verify(sig: &[u8], msg: &[u8], pk: &[u8]) -> (res: Result<bool, PqError>)
    ensures
        res is Err <==> (pk@.len() != SLH_DSA_128S_PUBLIC_KEY_BYTES
            || sig@.len() > SLH_DSA_128S_SIGNATURE_BYTES),
        res matches Ok(ok) ==> ok == sphincs_sha2_128s_accepts(sig@, msg@, pk@),
{
    let pk = <sphincssha2128ssimple::PublicKey as SignPk>::from_bytes(pk)?;
    let sig = <sphincssha2128ssimple::DetachedSignature as DetSigTrait>::from_bytes(sig)?;
    Ok(sphincssha2128ssimple::verify_detached_signature(&sig, msg, &pk).is_ok())
}

/// Calls `pqcrypto_sphincsplus::sphincssha2128ssimple::keypair`, returning `(public, secret)` bytes.
/// Trusted: the keys are 32 and 64 bytes long; key generation draws a random
/// 48-byte seed, which starts the secret key, and then (`crypto_sign_seed_keypair`,
/// in every variant) writes the public key derived from that seed both as
/// the public key and as the last 32 bytes of the secret key. The seed is
/// random; nothing else is stated of it.
#[verifier::external_body]
fn sphincs_sha2_128s_keypair() -> (res: (Vec<u8>, Vec<u8>))
    ensures
        res.0@.len() == SLH_DSA_128S_PUBLIC_KEY_BYTES,
        res.1@.len() == SLH_DSA_128S_SECRET_KEY_BYTES,
        res.1@.subrange(32, 64) == res.0@,
        res.0@ == sphincs_sha2_128s_seed_public_key(res.1@.subrange(0, 48)),
{
    let (pk, sk) = sphincssha2128ssimple::keypair();
    (SignPk::as_bytes(&pk).to_vec(), SignSk::as_bytes(&sk).to_vec())
}

/// Check a freshly made signature against `pk` before handing it out: the
/// signature is returned exactly when verification accepts it; a verification
/// refusal means the public key does not belong to the signing key.
pub fn check_fresh_signature(sig: Vec<u8>, msg: &[u8], pk: &[u8]) -> (res: Result<Vec<u8>, SigError>)
    ensures
        res == Err::<Vec<u8>, SigError>(SigError::MalformedInput) <==> (pk@.len()
            != SLH_DSA_128S_PUBLIC_KEY_BYTES || sig@.len() > SLH_DSA_128S_SIGNATURE_BYTES),
        res is Ok <==> (pk@.len() == SLH_DSA_128S_PUBLIC_KEY_BYTES && sig@.len()
            <= SLH_DSA_128S_SIGNATURE_BYTES && sphincs_sha2_128s_accepts(sig@, msg@, pk@)),
        res matches Ok(s) ==> s@ == sig@,
{
    match sphincs_sha2_128s_verify(sig.as_slice(), msg, pk) {
        Ok(true) => Ok(sig),
        Ok(false) => Err(SigError::Invalid),
        Err(_) => Err(SigError::MalformedInput),
    }
}

/// Detached-sign `msg` with `sk`, then check the signature against `pk`
/// (pair-wise consistency) before returning it.
///
/// `MalformedInput` exactly when a key has the wrong length. A returned
/// signature always verifies under `pk`; `Invalid` means the fresh signature
/// did not, which cannot happen when `sk` is well formed and ends with `pk`.
pub fn sign(msg: &[u8], sk: &[u8], pk: &[u8]) -> (res: Result<Vec<u8>, SigError>)
    ensures
        res == Err::<Vec<u8>, SigError>(SigError::MalformedInput) <==> (sk@.len()
            != SLH_DSA_128S_SECRET_KEY_BYTES || pk@.len() != SLH_DSA_128S_PUBLIC_KEY_BYTES),
        (pk@.len() == SLH_DSA_128S_PUBLIC_KEY_BYTES && is_slh_dsa_128s_secret_key(sk@)
            && sk@.subrange(32, 64) == pk@) ==> res is Ok,
        res matches Ok(sig) ==> sphincs_sha2_128s_accepts(sig@, msg@, pk@),
        res matches Ok(sig) ==> sig@.len() == SLH_DSA_128S_SIGNATURE_BYTES,
{
    match sphincs_sha2_128s_detached_sign(msg, sk) {
        Ok(sig) => check_fresh_signature(sig, msg, pk),
        Err(_) => Err(SigError::MalformedInput),
    }
}

/// A fresh random SLH-DSA-128s keypair `(public, secret)`: the two keys belong
/// together (see `is_slh_dsa_128s_keypair`).
pub fn keypair_bytes() -> (res: (Vec<u8>, Vec<u8>))
    ensures
        is_slh_dsa_128s_keypair(res.0@, res.1@),
{
    sphincs_sha2_128s_keypair()
}

/// Signing with the secret key of a keypair and checking against its public
/// key always succeeds: such keys meet the condition under which `sign`
/// promises `Ok`, for every message.
pub proof fn lemma_keypair_signs(pk: Seq<u8>, sk: Seq<u8>)
    requires
        is_slh_dsa_128s_keypair(pk, sk),
    ensures
        pk.len() == SLH_DSA_128S_PUBLIC_KEY_BYTES,
        is_slh_dsa_128s_secret_key(sk),
        sk.subrange(32, 64) == pk,
{
}

/// Verify a detached SLH-DSA-128s signature on `msg` under `pk`.
///
/// `MalformedInput` exactly when the public key has the wrong length or the
/// signature is too long; otherwise `Ok(())` exactly when verification accepts.
pub fn verify(sig: &[u8], msg: &[u8], pk: &[u8]) -> (res: Result<(), SigError>)
    ensures
        res == Err::<(), SigError>(SigError::MalformedInput) <==> (pk@.len()
            != SLH_DSA_128S_PUBLIC_KEY_BYTES || sig@.len() > SLH_DSA_128S_SIGNATURE_BYTES),
        res is Ok <==> (pk@.len() == SLH_DSA_128S_PUBLIC_KEY_BYTES && sig@.len()
            <= SLH_DSA_128S_SIGNATURE_BYTES && sphincs_sha2_128s_accepts(sig@, msg@, pk@)),
{
    match sphincs_sha2_128s_verify(sig, msg, pk) {
        Ok(true) => Ok(()),
        Ok(false) => Err(SigError::Invalid),
        Err(_) => Err(SigError::MalformedInput),
    }
}

} // verus!
