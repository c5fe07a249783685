use umst_ucrs::p2p::{localhost_mesh_bootstrap, GatedSyncOutcome, LOCALHOST_MESH_PORTS};
use umst_ucrs::text::{push_decimal, str_contains};
use umst_ucrs::wire::MergeOutcome;

#[test]
fn three_peer_localhost_bootstrap_excludes_self() {
    let b0 = localhost_mesh_bootstrap(0);
    assert_eq!(b0.len(), 2);
    assert!(b0.iter().all(|a| a.contains("4002") || a.contains("4003")));
}

#[test]
fn bootstrap_addresses_are_exact() {
    let b1 = localhost_mesh_bootstrap(1);
    assert_eq!(
        b1,
        vec![
            "/ip4/127.0.0.1/tcp/4001/p2p/peer-0".to_string(),
            "/ip4/127.0.0.1/tcp/4003/p2p/peer-2".to_string(),
        ]
    );
    assert_eq!(localhost_mesh_bootstrap(7).len(), 3);
    assert_eq!(LOCALHOST_MESH_PORTS, [4001, 4002, 4003]);
}

#[test]
fn decimal_and_substring_helpers() {
    let mut s = String::from("x");
    push_decimal(&mut s, 0);
    push_decimal(&mut s, 18_446_744_073_709_551_615);
    assert_eq!(s, "x018446744073709551615");
    assert!(str_contains("compression_inadmissible_envelope", "inadmissible"));
    assert!(!str_contains("admissible", "inadmissible"));
    assert!(str_contains("abc", ""));
    assert!(!str_contains("", "a"));
}

#[test]
fn gated_outcome_wraps_merge() {
    let o = GatedSyncOutcome::Admitted(MergeOutcome::Accepted);
    assert_ne!(o, GatedSyncOutcome::RejectedByGate);
}
