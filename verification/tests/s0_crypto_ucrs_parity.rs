use umst_ucrs::crypto::hash::sha3_256::digest as ucrs_digest;
use umst_ucrs::crypto::kem::ml_kem_768::{
    decapsulate as u_decap, encapsulate as u_encap, keypair_bytes as kem_keypair, KemError,
};
use umst_ucrs::crypto::sig::ml_dsa_65::{
    keypair_bytes as dsa_keypair, sign as u_sign, verify as u_verify, SigError,
};
use umst_ucrs::crypto::kem::ml_kem_768::map_parse;
use umst_ucrs::crypto::sig::ml_dsa_65::{bad_pk_sk_pair, check_fresh_signature};
use umst_ucrs::crypto::sig::slh_dsa_128s;

const SHA3_256_EMPTY: [u8; 32] = [
    0xa7, 0xff, 0xc6, 0xf8, 0xbf, 0x1e, 0xd7, 0x66, 0x51, 0xc1, 0x47, 0x56, 0xa0, 0x61, 0xd6, 0x62,
    0xf5, 0x80, 0xff, 0x4d, 0xe4, 0x3b, 0x49, 0xfa, 0x82, 0xd8, 0x0a, 0x4b, 0x80, 0xf8, 0x43, 0x4a,
];

#[test]
fn r391_ucrs_kem_surface() {
    let _ = u_encap;
    let _ = u_decap;
}

#[test]
fn r392_ucrs_sig_surface() {
    let _ = u_sign;
    let _ = u_verify;
}

#[test]
fn r393_ucrs_hash_surface() {
    let _ = ucrs_digest(&[]);
}

#[test]
fn parity_sha3_256_empty_digest_math_ucrs() {
    assert_eq!(ucrs_digest(&[]).unwrap(), SHA3_256_EMPTY);
}

#[test]
fn parity_ml_kem_decaps_matches_math_encaps() {
    let (pk, sk) = kem_keypair().expect("kp");
    let (ss, ct) = u_encap(&pk, &[]).expect("enc");
    let ss_u = u_decap(&sk, &ct).expect("ucrs decap");
    assert_eq!(ss, ss_u);
}

#[test]
fn parity_ml_dsa_verify_across_crates() {
    let msg = b"ucrs/math ML-DSA cross-verify";
    let (pk, sk) = dsa_keypair();
    let sig = u_sign(msg, &sk, &pk).expect("sign");
    u_verify(&sig, msg, &pk).expect("ucrs verify");
}

#[test]
fn sha3_256_abc_digest() {
    let d = ucrs_digest(b"abc").unwrap();
    assert_eq!(
        d[..4],
        [0x3a, 0x98, 0x5d, 0xa7],
        "SHA3-256(abc) starts 3a985da7"
    );
    assert_eq!(d[31], 0x32);
}

#[test]
fn kem_key_and_ciphertext_lengths() {
    let (pk, sk) = kem_keypair().unwrap();
    assert_eq!(pk.len(), 1184);
    assert_eq!(sk.len(), 2400);
    assert_eq!(&sk[1152..2336], &pk[..]);
    let (ss, ct) = u_encap(&pk, &[]).unwrap();
    assert_eq!(ss.len(), 32);
    assert_eq!(ct.len(), 1088);
}

#[test]
fn kem_rejects_malformed_inputs() {
    assert_eq!(u_encap(&[0u8; 10], &[]), Err(KemError::MalformedInput));
    let (_, sk) = kem_keypair().unwrap();
    assert_eq!(u_decap(&sk, &[0u8; 5]), Err(KemError::MalformedInput));
    assert_eq!(u_decap(&[1u8; 3], &[0u8; 1088]), Err(KemError::MalformedInput));
}

#[test]
fn kem_decapsulation_is_deterministic() {
    let (pk, sk) = kem_keypair().unwrap();
    let (_, ct) = u_encap(&pk, &[]).unwrap();
    assert_eq!(u_decap(&sk, &ct).unwrap(), u_decap(&sk, &ct).unwrap());
}

#[test]
fn ml_dsa_sign_with_foreign_public_key_is_invalid() {
    let msg = b"pair-wise consistency";
    let (_, sk) = dsa_keypair();
    let (other_pk, _) = dsa_keypair();
    assert_eq!(u_sign(msg, &sk, &other_pk), Err(SigError::Invalid));
}

#[test]
fn ml_dsa_rejects_tampered_message_and_bad_lengths() {
    let (pk, sk) = dsa_keypair();
    let sig = u_sign(b"signed message", &sk, &pk).unwrap();
    assert_eq!(u_verify(&sig, b"tampered", &pk), Err(SigError::Invalid));
    assert_eq!(u_verify(&sig, b"signed message", &pk[..10]), Err(SigError::MalformedInput));
    assert_eq!(u_sign(b"m", &sk[..10], &pk), Err(SigError::MalformedInput));
    assert_eq!(u_sign(b"m", &sk, &pk[..10]), Err(SigError::MalformedInput));
    let long = vec![0u8; 4000];
    assert_eq!(u_verify(&long, b"signed message", &pk), Err(SigError::MalformedInput));
}

#[test]
fn slh_dsa_sign_then_verify() {
    let msg = b"slh-dsa roundtrip";
    let (pk, sk) = slh_dsa_128s::keypair_bytes();
    assert_eq!(pk.len(), 32);
    assert_eq!(sk.len(), 64);
    let sig = slh_dsa_128s::sign(msg, &sk, &pk).expect("sign");
    assert_eq!(sig.len(), 7856);
    assert_eq!(slh_dsa_128s::verify(&sig, msg, &pk), Ok(()));
    assert_eq!(
        slh_dsa_128s::verify(&sig, b"other", &pk),
        Err(slh_dsa_128s::SigError::Invalid)
    );
    assert_eq!(
        slh_dsa_128s::sign(msg, &sk[..3], &pk),
        Err(slh_dsa_128s::SigError::MalformedInput)
    );
}

#[test]
fn kem_map_parse_and_pair_error() {
    assert_eq!(map_parse::<u8>(Ok(3)), Ok(3));
    let bad = pqcrypto_traits::Error::BadLength {
        name: "PublicKey",
        actual: 1,
        expected: 1184,
    };
    assert_eq!(map_parse::<u8>(Err(bad)), Err(KemError::MalformedInput));
    assert_eq!(bad_pk_sk_pair(), SigError::Invalid);
}

#[test]
fn fresh_signature_check_verdicts() {
    let msg = b"fresh";
    let (pk, sk) = dsa_keypair();
    let sig = u_sign(msg, &sk, &pk).unwrap();
    assert_eq!(check_fresh_signature(sig.clone(), msg, &pk), Ok(sig.clone()));
    assert_eq!(check_fresh_signature(vec![0u8; 3309], msg, &pk), Err(SigError::Invalid));
    assert_eq!(check_fresh_signature(vec![0u8; 3310], msg, &pk), Err(SigError::MalformedInput));
    assert_eq!(check_fresh_signature(sig, msg, &pk[1..]), Err(SigError::MalformedInput));
}

#[test]
fn kem_secret_key_carries_public_key_hash() {
    let (pk, sk) = kem_keypair().unwrap();
    let h = ucrs_digest(&pk).unwrap();
    assert_eq!(&sk[2336..2368], &h[..]);
}

#[test]
fn kem_encapsulations_differ_between_calls() {
    let (pk, _) = kem_keypair().unwrap();
    let (ss1, ct1) = u_encap(&pk, &[]).unwrap();
    let (ss2, ct2) = u_encap(&pk, &[]).unwrap();
    assert_ne!(ct1, ct2);
    assert_ne!(ss1, ss2);
}

#[test]
fn ml_dsa_keypair_shares_seed_and_signature_length() {
    let (pk, sk) = dsa_keypair();
    assert_eq!(pk.len(), 1952);
    assert_eq!(sk.len(), 4032);
    assert_eq!(&sk[..32], &pk[..32]);
    let sig = u_sign(b"length", &sk, &pk).unwrap();
    assert_eq!(sig.len(), 3309);
}

#[test]
fn ml_dsa_fresh_keypairs_sign_every_message() {
    let (pk, sk) = dsa_keypair();
    for msg in [&b""[..], &b"a"[..], &[0u8; 1000][..]] {
        let sig = u_sign(msg, &sk, &pk).unwrap();
        assert_eq!(u_verify(&sig, msg, &pk), Ok(()));
    }
}

#[test]
fn ml_dsa_short_signature_is_invalid() {
    let (pk, sk) = dsa_keypair();
    let sig = u_sign(b"short", &sk, &pk).unwrap();
    assert_eq!(u_verify(&sig[..3308], b"short", &pk), Err(SigError::Invalid));
}

#[test]
fn slh_dsa_secret_key_ends_with_public_key() {
    let (pk, sk) = slh_dsa_128s::keypair_bytes();
    assert_eq!(&sk[32..64], &pk[..]);
    let sig = slh_dsa_128s::sign(b"", &sk, &pk).unwrap();
    assert_eq!(sig.len(), 7856);
    assert_eq!(slh_dsa_128s::verify(&sig, b"", &pk), Ok(()));
}
