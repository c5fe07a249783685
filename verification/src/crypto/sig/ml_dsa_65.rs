//! ML-DSA-65 through PQClean Dilithium3 (`pqcrypto-dilithium`).

use pqcrypto_dilithium::dilithium3;
use pqcrypto_traits::sign::{
    DetachedSignature as DetSigTrait, PublicKey as SignPk, SecretKey as SignSk,
};
use pqcrypto_traits::Error as PqError;
use vstd::prelude::*;

verus! {

/// ML-DSA-65 public key byte length.
pub const ML_DSA_65_PUBLIC_KEY_BYTES: usize = 1952;
/// ML-DSA-65 secret key byte length.
pub const ML_DSA_65_SECRET_KEY_BYTES: usize = 4032;
/// ML-DSA-65 detached signature byte length: signing always produces this
/// many bytes, and verification takes at most this many.
pub const ML_DSA_65_SIGNATURE_BYTES: usize = 3309;

/// ML-DSA (Dilithium3) signature-specific errors.
#[derive(Debug, Clone, Copy, PartialEq, Eq, Structural)]
pub enum SigError {
    /// A key or signature had the wrong length.
    MalformedInput,
    /// Verification rejected the signature.
    Invalid,
}

/// Whether Dilithium3 verification accepts the detached signature `sig` on
/// `msg` under the public key `pk` (verification is deterministic).
pub uninterp spec fn dilithium3_accepts(sig: Seq<u8>, msg: Seq<u8>, pk: Seq<u8>) -> bool;

/// The detached Dilithium3 signature of `msg` under the secret key `sk`.
/// Signing is deterministic: every variant of the signing code zeroes its
/// randomiser, so the signature depends on the message and key alone.
pub uninterp spec fn dilithium3_signature(msg: Seq<u8>, sk: Seq<u8>) -> Seq<u8>;

/// The first 64 bytes of SHAKE256 output on `msg` (Dilithium's `tr`, the hash
/// of the public key that the secret key carries).
pub uninterp spec fn shake256_64_of(msg: Seq<u8>) -> Seq<u8>;

/// What holds of every ML-DSA-65 keypair that key generation hands out: the
/// two lengths; the secret key starts with the public key's seed `rho`
/// (bytes 0..32 of both) and carries the SHAKE256 hash of the public key at
/// bytes 64..128; and every message signed with the secret key verifies under
/// the public key.
pub open spec fn is_ml_dsa_65_keypair(pk: Seq<u8>, sk: Seq<u8>) -> bool {
    &&& pk.len() == ML_DSA_65_PUBLIC_KEY_BYTES
    &&& sk.len() == ML_DSA_65_SECRET_KEY_BYTES
    &&& sk.subrange(0, 32) == pk.subrange(0, 32)
    &&& sk.subrange(64, 128) == shake256_64_of(pk)
    &&& forall|m: Seq<u8>| #![trigger dilithium3_signature(m, sk)]
        dilithium3_accepts(dilithium3_signature(m, sk), m, pk)
}

/// Calls `SecretKey::from_bytes` and then `pqcrypto_dilithium::dilithium3::detached_sign`,
/// returning the signature bytes.
/// Trusted: the parse fails exactly when the secret key is not 4032 bytes;
/// otherwise the bytes are the named signature of the message under the key,
/// exactly 3309 of them (every variant of the signing code sets the length to
/// the signature size).
#[verifier::external_body]
fn dilithium3_detached_sign(msg: &[u8], sk: &[u8]) -> (res: Result<Vec<u8>, PqError>)
    ensures
        res is Err <==> sk@.len() != ML_DSA_65_SECRET_KEY_BYTES,
        res matches Ok(sig) ==> sig@ == dilithium3_signature(msg@, sk@) && sig@.len()
            == ML_DSA_65_SIGNATURE_BYTES,
{
    let sk = <dilithium3::SecretKey as SignSk>::from_bytes(sk)?;
    let sig = dilithium3::detached_sign(msg, &sk);
    Ok(DetSigTrait::as_bytes(&sig).to_vec())
}

/// Calls `PublicKey::from_bytes`, `DetachedSignature::from_bytes` and then
/// `pqcrypto_dilithium::dilithium3::verify_detached_signature`; `Ok(true)` when it
/// returns `Ok(())`, `Ok(false)` on either `VerificationError`.
/// Trusted: the parse fails exactly when the public key is not 1952 bytes or
/// the signature is longer than 3309 bytes; otherwise the answer is the named
/// verdict of the three arguments.
#[verifier::external_body]
fn dilithium3_verify(sig: &[u8], msg: &[u8], pk: &[u8]) -> (res: Result<bool, PqError>)
    ensures
        res is Err <==> (pk@.len() != ML_DSA_65_PUBLIC_KEY_BYTES
            || sig@.len() > ML_DSA_65_SIGNATURE_BYTES),
        res matches Ok(ok) ==> ok == dilithium3_accepts(sig@, msg@, pk@),
{
    let pk = <dilithium3::PublicKey as SignPk>::from_bytes(pk)?;
    let sig = <dilithium3::DetachedSignature as DetSigTrait>::from_bytes(sig)?;
    Ok(dilithium3::verify_detached_signature(&sig, msg, &pk).is_ok())
}

/// Calls `pqcrypto_dilithium::dilithium3::keypair`, returning `(public, secret)` bytes.
/// Trusted: the keys are 1952 and 4032 bytes long; key generation copies the
/// seed `rho` to the front of both keys and writes `shake256(pk)` (64 bytes)
/// at bytes 64..128 of the secret key, in every variant; and a signature made
/// with the secret key verifies under the public key, for every message (the
/// correctness of the scheme, which the crate's own detached-signature test
/// checks). The key material is random; nothing else is stated of it.
#[verifier::external_body]
fn dilithium3_keypair() -> (res: (Vec<u8>, Vec<u8>))
    ensures
        res.0@.len() == ML_DSA_65_PUBLIC_KEY_BYTES,
        res.1@.len() == ML_DSA_65_SECRET_KEY_BYTES,
        res.1@.subrange(0, 32) == res.0@.subrange(0, 32),
        res.1@.subrange(64, 128) == shake256_64_of(res.0@),
        forall|m: Seq<u8>| #![trigger dilithium3_signature(m, res.1@)]
            dilithium3_accepts(dilithium3_signature(m, res.1@), m, res.0@),
{
    let (pk, sk) = dilithium3::keypair();
    (SignPk::as_bytes(&pk).to_vec(), SignSk::as_bytes(&sk).to_vec())
}

/// The verdict when a freshly made signature does not verify under `pk`:
/// the public key does not belong to the secret key.
pub fn bad_pk_sk_pair() -> (res: SigError)
    ensures
        res == SigError::Invalid,
{
    SigError::Invalid
}

/// Check a freshly made signature against `pk` before handing it out: the
/// signature is returned exactly when verification accepts it; a verification
/// refusal means the public key does not belong to the signing key.
pub fn check_fresh_signature(sig: Vec<u8>, msg: &[u8], pk: &[u8]) -> (res: Result<Vec<u8>, SigError>)
    ensures
        res == Err::<Vec<u8>, SigError>(SigError::MalformedInput) <==> (pk@.len()
            != ML_DSA_65_PUBLIC_KEY_BYTES || sig@.len() > ML_DSA_65_SIGNATURE_BYTES),
        res is Ok <==> (pk@.len() == ML_DSA_65_PUBLIC_KEY_BYTES && sig@.len()
            <= ML_DSA_65_SIGNATURE_BYTES && dilithium3_accepts(sig@, msg@, pk@)),
        res matches Ok(s) ==> s@ == sig@,
{
    match dilithium3_verify(sig.as_slice(), msg, pk) {
        Ok(true) => Ok(sig),
        Ok(false) => Err(bad_pk_sk_pair()),
        Err(_) => Err(SigError::MalformedInput),
    }
}

/// Detached-sign `msg` with `sk`, then check the signature against `pk`
/// (pair-wise consistency) before returning it.
///
/// `MalformedInput` exactly when a key has the wrong length. Otherwise the
/// signature of `msg` under `sk` is returned exactly when it verifies under
/// `pk`, and `Invalid` when it does not.
pub fn sign(msg: &[u8], sk: &[u8], pk: &[u8]) -> (res: Result<Vec<u8>, SigError>)
    ensures
        res == Err::<Vec<u8>, SigError>(SigError::MalformedInput) <==> (sk@.len()
            != ML_DSA_65_SECRET_KEY_BYTES || pk@.len() != ML_DSA_65_PUBLIC_KEY_BYTES),
        res is Ok <==> (sk@.len() == ML_DSA_65_SECRET_KEY_BYTES && pk@.len()
            == ML_DSA_65_PUBLIC_KEY_BYTES && dilithium3_accepts(
            dilithium3_signature(msg@, sk@),
            msg@,
            pk@,
        )),
        res matches Ok(sig) ==> sig@ == dilithium3_signature(msg@, sk@),
        res matches Ok(sig) ==> dilithium3_accepts(sig@, msg@, pk@),
        res matches Ok(sig) ==> sig@.len() == ML_DSA_65_SIGNATURE_BYTES,
{
    match dilithium3_detached_sign(msg, sk) {
        Ok(sig) => check_fresh_signature(sig, msg, pk),
        Err(_) => Err(SigError::MalformedInput),
    }
}

/// A fresh random ML-DSA-65 keypair `(public, secret)`: the two keys belong
/// together (see `is_ml_dsa_65_keypair`).
pub fn keypair_bytes() -> (res: (Vec<u8>, Vec<u8>))
    ensures
        is_ml_dsa_65_keypair(res.0@, res.1@),
{
    dilithium3_keypair()
}

/// Signing with the secret key of a keypair and checking against its public
/// key always succeeds: for such keys, every message meets the condition under
/// which `sign` returns `Ok`, and the signature it returns verifies.
pub proof fn lemma_keypair_signs_every_message(pk: Seq<u8>, sk: Seq<u8>, msg: Seq<u8>)
    requires
        is_ml_dsa_65_keypair(pk, sk),
    ensures
        sk.len() == ML_DSA_65_SECRET_KEY_BYTES,
        pk.len() == ML_DSA_65_PUBLIC_KEY_BYTES,
        dilithium3_accepts(dilithium3_signature(msg, sk), msg, pk),
{
}

/// Verify a detached ML-DSA-65 signature on `msg` under `pk`.
///
/// `MalformedInput` exactly when the public key has the wrong length or the
/// signature is too long; otherwise `Ok(())` exactly when verification accepts.
pub fn verify(sig: &[u8], msg: &[u8], pk: &[u8]) -> (res: Result<(), SigError>)
    ensures
        res == Err::<(), SigError>(SigError::MalformedInput) <==> (pk@.len()
            != ML_DSA_65_PUBLIC_KEY_BYTES || sig@.len() > ML_DSA_65_SIGNATURE_BYTES),
        res is Ok <==> (pk@.len() == ML_DSA_65_PUBLIC_KEY_BYTES && sig@.len()
            <= ML_DSA_65_SIGNATURE_BYTES && dilithium3_accepts(sig@, msg@, pk@)),
{
    match dilithium3_verify(sig, msg, pk) {
        Ok(true) => Ok(()),
        Ok(false) => Err(SigError::Invalid),
        Err(_) => Err(SigError::MalformedInput),
    }
}

} // verus!
