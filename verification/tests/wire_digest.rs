use umst_ucrs::wire::{inbound_merge_outcome, mix_digest, verify_tick_payload, MergeOutcome};

const PAYLOAD: &[u8] = b"{\"agent_id\":7}";

#[test]
fn mix_digest_known_values() {
    let d = mix_digest(b"k", b"abc");
    let mut expected = [107u8; 32];
    expected[0] = 116;
    expected[1] = 123;
    expected[2] = 137;
    assert_eq!(d, expected);

    let d2 = mix_digest(b"test-secret", PAYLOAD);
    assert_eq!(
        d2,
        [
            117, 179, 33, 46, 19, 114, 203, 189, 180, 34, 242, 141, 200, 110, 116, 45, 115, 101,
            99, 114, 101, 116, 116, 101, 115, 116, 45, 115, 101, 99, 114, 101
        ]
    );
}

#[test]
fn mix_digest_empty_message_is_secret_mask() {
    let d = mix_digest(b"ab", b"");
    for (j, b) in d.iter().enumerate() {
        assert_eq!(*b, b"ab"[j % 2]);
    }
}

#[test]
fn signed_payload_verifies_and_tampering_is_detected() {
    let secret = b"test-secret";
    let sig = mix_digest(secret, PAYLOAD);
    assert!(verify_tick_payload(secret, PAYLOAD, &sig));
    assert!(!verify_tick_payload(b"other-secret", PAYLOAD, &sig));
    assert!(!verify_tick_payload(secret, b"{\"agent_id\":8}", &sig));
    let mut bad = sig;
    bad[31] ^= 1;
    assert!(!verify_tick_payload(secret, PAYLOAD, &bad));
}

#[test]
fn inbound_outcomes_follow_check_order() {
    let secret = b"k";
    let sig = mix_digest(secret, PAYLOAD);
    assert_eq!(
        inbound_merge_outcome(1, 1, b"", PAYLOAD, &[0; 32], true),
        MergeOutcome::RejectedSelf
    );
    assert_eq!(
        inbound_merge_outcome(1, 2, secret, PAYLOAD, &[0; 32], true),
        MergeOutcome::RejectedBadSig
    );
    assert_eq!(
        inbound_merge_outcome(1, 2, secret, PAYLOAD, &sig, false),
        MergeOutcome::RejectedGate
    );
    assert_eq!(
        inbound_merge_outcome(1, 2, secret, PAYLOAD, &sig, true),
        MergeOutcome::Accepted
    );
}
