//! ML-KEM-768 through PQClean `kyber768` (`pqcrypto-kyber`).

use pqcrypto_kyber::kyber768;
use pqcrypto_traits::kem::{
    Ciphertext as KemCt, PublicKey as KemPk, SecretKey as KemSk, SharedSecret as KemSs,
};
use pqcrypto_traits::Error as PqError;
use vstd::prelude::*;

use crate::crypto::hash::sha3_256::sha3_256_of;

verus! {

/// ML-KEM-768 public key byte length.
pub const ML_KEM_768_PUBLIC_KEY_BYTES: usize = 1184;
/// ML-KEM-768 secret key byte length.
pub const ML_KEM_768_SECRET_KEY_BYTES: usize = 2400;
/// ML-KEM-768 ciphertext byte length.
pub const ML_KEM_768_CIPHERTEXT_BYTES: usize = 1088;
/// ML-KEM-768 shared-secret byte length.
pub const ML_KEM_768_SHARED_SECRET_BYTES: usize = 32;

/// The length error of `pqcrypto_traits` (`BadLength`), carried opaquely.
#[verifier::external_type_specification]
#[verifier::external_body]
pub struct ExPqTraitsError(pqcrypto_traits::Error);

/// ML-KEM-specific error lane.
#[derive(Debug, Clone, Copy, PartialEq, Eq, Structural)]
pub enum KemError {
    /// A key or ciphertext had the wrong length.
    MalformedInput,
    /// Encapsulation or decapsulation failed.
    KemFailed,
}

/// The shared secret that Kyber768 decapsulation derives from a ciphertext and
/// a secret key (deterministic: implicit rejection uses the secret key only).
pub uninterp spec fn kyber768_shared_secret(ct: Seq<u8>, sk: Seq<u8>) -> Seq<u8>;

/// The `(shared_secret, ciphertext)` pair that Kyber768 derandomised
/// encapsulation (`crypto_kem_enc_derand`) computes from a public key and 32
/// bytes of coins.
pub uninterp spec fn kyber768_encapsulation(pk: Seq<u8>, coins: Seq<u8>) -> (Seq<u8>, Seq<u8>);

/// Whether `(ss, ct)` is an outcome of encapsulating to `pk`: the
/// derandomised encapsulation of `pk` under some 32 bytes of coins.
pub open spec fn is_kyber768_encapsulation_of(pk: Seq<u8>, ss: Seq<u8>, ct: Seq<u8>) -> bool {
    exists|coins: Seq<u8>|
        coins.len() == 32 && #[trigger] kyber768_encapsulation(pk, coins) == (ss, ct)
}

/// Calls `PublicKey::from_bytes` and then `pqcrypto_kyber::kyber768::encapsulate`,
/// returning the shared secret and ciphertext as bytes.
/// Trusted: `from_bytes` fails exactly when the key is not 1184 bytes long
/// (its source compares the length with the key size); the shared secret has
/// 32 bytes and the ciphertext 1088; and the pair is the derandomised
/// encapsulation of the key under 32 coins (`crypto_kem_enc` draws the coins
/// from the system random source and calls `crypto_kem_enc_derand`, in every
/// variant). Which coins were drawn is not stated.
#[verifier::external_body]
fn kyber768_encapsulate(pk: &[u8]) -> (res: Result<(Vec<u8>, Vec<u8>), PqError>)
    ensures
        res is Err <==> pk@.len() != ML_KEM_768_PUBLIC_KEY_BYTES,
        res matches Ok((ss, ct)) ==> ss@.len() == ML_KEM_768_SHARED_SECRET_BYTES
            && ct@.len() == ML_KEM_768_CIPHERTEXT_BYTES,
        res matches Ok((ss, ct)) ==> exists|coins: Seq<u8>|
            coins.len() == 32 && #[trigger] kyber768_encapsulation(pk@, coins) == (ss@, ct@),
{
    let pk = <kyber768::PublicKey as KemPk>::from_bytes(pk)?;
    let (ss, ct) = kyber768::encapsulate(&pk);
    Ok((KemSs::as_bytes(&ss).to_vec(), KemCt::as_bytes(&ct).to_vec()))
}

/// Calls `SecretKey::from_bytes`, `Ciphertext::from_bytes` and then
/// `pqcrypto_kyber::kyber768::decapsulate`, returning the shared secret as bytes.
/// Trusted: the parse fails exactly when the secret key is not 2400 bytes or the
/// ciphertext not 1088 bytes; otherwise the 32 bytes returned are the named
/// shared secret of the two arguments.
#[verifier::external_body]
fn kyber768_decapsulate(sk: &[u8], ct: &[u8]) -> (res: Result<Vec<u8>, PqError>)
    ensures
        res is Err <==> (sk@.len() != ML_KEM_768_SECRET_KEY_BYTES
            || ct@.len() != ML_KEM_768_CIPHERTEXT_BYTES),
        res matches Ok(ss) ==> ss@ == kyber768_shared_secret(ct@, sk@)
            && ss@.len() == ML_KEM_768_SHARED_SECRET_BYTES,
{
    let sk = <kyber768::SecretKey as KemSk>::from_bytes(sk)?;
    let ct = <kyber768::Ciphertext as KemCt>::from_bytes(ct)?;
    let ss = kyber768::decapsulate(&ct, &sk);
    Ok(KemSs::as_bytes(&ss).to_vec())
}

/// Where the public key sits inside an ML-KEM-768 secret key: after the
/// 1152-byte IND-CPA secret part.
pub open spec fn embedded_public_key(sk: Seq<u8>) -> Seq<u8> {
    sk.subrange(1152, 1152 + ML_KEM_768_PUBLIC_KEY_BYTES as int)
}

/// Where the hash of the public key sits inside an ML-KEM-768 secret key:
/// the 32 bytes after the embedded public key.
pub open spec fn embedded_public_key_hash(sk: Seq<u8>) -> Seq<u8> {
    sk.subrange(2336, 2368)
}

/// What holds of every ML-KEM-768 keypair that key generation hands out: the
/// two lengths, and the secret key carries the public key and its SHA3-256
/// hash.
pub open spec fn is_ml_kem_768_keypair(pk: Seq<u8>, sk: Seq<u8>) -> bool {
    &&& pk.len() == ML_KEM_768_PUBLIC_KEY_BYTES
    &&& sk.len() == ML_KEM_768_SECRET_KEY_BYTES
    &&& embedded_public_key(sk) == pk
    &&& embedded_public_key_hash(sk) == sha3_256_of(pk)
}

/// Calls `pqcrypto_kyber::kyber768::keypair`, returning `(public, secret)` bytes.
/// Trusted: the keys are 1184 and 2400 bytes long; the secret key carries the
/// public key at bytes 1152..2336 and `hash_h(pk)` at bytes 2336..2368, where
/// `hash_h` is SHA3-256 (every variant of the key generation writes them
/// there). The keys are random; nothing else is stated of them, and in
/// particular not that decapsulation inverts encapsulation: the source does
/// not show it, and the scheme has a small decryption-failure probability.
#[verifier::external_body]
fn kyber768_keypair() -> (res: (Vec<u8>, Vec<u8>))
    ensures
        res.0@.len() == ML_KEM_768_PUBLIC_KEY_BYTES,
        res.1@.len() == ML_KEM_768_SECRET_KEY_BYTES,
        embedded_public_key(res.1@) == res.0@,
        embedded_public_key_hash(res.1@) == sha3_256_of(res.0@),
{
    let (pk, sk) = kyber768::keypair();
    (KemPk::as_bytes(&pk).to_vec(), KemSk::as_bytes(&sk).to_vec())
}

/// Map a parse failure of the primitive into the ML-KEM error lane.
pub fn map_parse<T>(r: Result<T, PqError>) -> (res: Result<T, KemError>)
    ensures
        r is Ok <==> res is Ok,
        r matches Ok(v) ==> res == Ok::<T, KemError>(v),
        r is Err ==> res == Err::<T, KemError>(KemError::MalformedInput),
{
    match r {
        Ok(v) => Ok(v),
        Err(_) => Err(KemError::MalformedInput),
    }
}

/// Encapsulate to a peer ML-KEM-768 public key, using the system random source.
///
/// `_entropy` is reserved for deterministic harness modes and is not read.
/// Returns `(shared_secret, ciphertext)`, the encapsulation of `pk` under
/// freshly drawn coins. Fails with `MalformedInput` exactly when the public
/// key does not have the ML-KEM-768 length.
pub fn encapsulate(pk: &[u8], _entropy: &[u8]) -> (res: Result<(Vec<u8>, Vec<u8>), KemError>)
    ensures
        res is Err <==> pk@.len() != ML_KEM_768_PUBLIC_KEY_BYTES,
        res matches Err(e) ==> e == KemError::MalformedInput,
        res matches Ok((ss, ct)) ==> ss@.len() == ML_KEM_768_SHARED_SECRET_BYTES
            && ct@.len() == ML_KEM_768_CIPHERTEXT_BYTES,
        res matches Ok((ss, ct)) ==> is_kyber768_encapsulation_of(pk@, ss@, ct@),
{
    map_parse(kyber768_encapsulate(pk))
}

/// Decapsulate an ML-KEM-768 ciphertext with a secret key.
///
/// Fails with `MalformedInput` exactly when the secret key or the ciphertext
/// has the wrong length; otherwise returns the shared secret of the two.
pub fn decapsulate(sk: &[u8], ct: &[u8]) -> (res: Result<Vec<u8>, KemError>)
    ensures
        res is Err <==> (sk@.len() != ML_KEM_768_SECRET_KEY_BYTES
            || ct@.len() != ML_KEM_768_CIPHERTEXT_BYTES),
        res matches Err(e) ==> e == KemError::MalformedInput,
        res matches Ok(ss) ==> ss@ == kyber768_shared_secret(ct@, sk@)
            && ss@.len() == ML_KEM_768_SHARED_SECRET_BYTES,
{
    map_parse(kyber768_decapsulate(sk, ct))
}

/// A fresh random ML-KEM-768 keypair `(public, secret)`; it never fails, and
/// the two keys belong together (see `is_ml_kem_768_keypair`).
pub fn keypair_bytes() -> (res: Result<(Vec<u8>, Vec<u8>), KemError>)
    ensures
        res matches Ok((pk, sk)) && is_ml_kem_768_keypair(pk@, sk@),
{
    Ok(kyber768_keypair())
}

} // verus!
