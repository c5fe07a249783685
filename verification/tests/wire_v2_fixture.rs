use umst_ucrs::observation::{
    epoch_ms_from_millis, wall_epoch_ms, ObservedAtV2Wire, StampSequence, StampTier, UcrsObservedAt, WIRE_SCALE,
};

fn fixture_wire() -> ObservedAtV2Wire {
    ObservedAtV2Wire {
        schema_version: "observed_at.v2".to_string(),
        stamp_tier: "UcrsTier2".to_string(),
        ucrs_seq: Some(42),
        phase_entropy_bits_q: Some(123_456_789),
        phase_entropy_bits_scale: Some(WIRE_SCALE),
        credit_head_bits_q: Some(0),
        credit_head_bits_scale: Some(WIRE_SCALE),
        wall_ms: Some(1_718_745_600_123),
    }
}

#[test]
fn wire_v2_fixture_json_roundtrip() {
    let wire = fixture_wire();
    assert_eq!(wire.schema_version, "observed_at.v2");
    assert_eq!(wire.phase_entropy_bits_scale, Some(WIRE_SCALE));

    let obs = UcrsObservedAt::from_v2_wire(&wire);
    let back = obs.to_v2_wire();
    assert_eq!(back, wire);
    assert_eq!(obs.ucrs_seq, wire.ucrs_seq);
}

#[test]
fn synthetic_maps_to_v2_integers() {
    let phase_q = (2.5_f64 * WIRE_SCALE as f64).round() as i64;
    let obs = UcrsObservedAt::synthetic(7, phase_q);
    let v2 = obs.to_v2_wire();
    assert_eq!(v2.ucrs_seq, Some(7));
    assert_eq!(v2.phase_entropy_bits_q, Some(2_500_000));
    assert_eq!(v2.schema_version, "observed_at.v2");
    assert_eq!(v2.stamp_tier, "Synthetic");
}

#[test]
fn tier_labels_roundtrip_and_unknown_label_is_synthetic() {
    for tier in [
        StampTier::UcrsTier2,
        StampTier::WallOnly,
        StampTier::Absent,
        StampTier::Synthetic,
    ] {
        let obs = UcrsObservedAt {
            stamp_tier: tier,
            ucrs_seq: None,
            phase_entropy_bits_q: None,
            phase_entropy_bits_scale: None,
            credit_head_bits_q: None,
            credit_head_bits_scale: None,
            wall_ms: None,
        };
        let w = obs.to_v2_wire();
        assert_eq!(w.stamp_tier, tier.as_wire_str());
        assert_eq!(UcrsObservedAt::from_v2_wire(&w), obs);
    }
    let mut w = fixture_wire();
    w.stamp_tier = "Tier9".to_string();
    assert_eq!(UcrsObservedAt::from_v2_wire(&w).stamp_tier, StampTier::Synthetic);
}

#[test]
fn wall_only_stamp_has_only_wall_clock() {
    let obs = UcrsObservedAt::wall_only();
    assert_eq!(obs.stamp_tier, StampTier::WallOnly);
    assert_eq!(obs.ucrs_seq, None);
    assert_eq!(obs.phase_entropy_bits_q, None);
    assert!(obs.wall_ms.unwrap() > 1_600_000_000_000);
    assert!(wall_epoch_ms() >= obs.wall_ms.unwrap());
}

#[test]
fn stamp_sequence_is_monotonic() {
    let mut s = StampSequence::new();
    assert_eq!(s.last(), 0);
    let a = s.stamp(10, 0);
    let b = s.stamp(5, 3);
    assert_eq!(a.ucrs_seq, Some(1));
    assert_eq!(b.ucrs_seq, Some(2));
    assert!(b.ucrs_seq.unwrap() > a.ucrs_seq.unwrap());
    assert_eq!(b.stamp_tier, StampTier::UcrsTier2);
    assert_eq!(b.credit_head_bits_q, Some(3));
    assert_eq!(b.phase_entropy_bits_scale, Some(WIRE_SCALE));
    assert_eq!(s.last(), 2);
}

#[test]
fn epoch_ms_conversion() {
    assert_eq!(epoch_ms_from_millis(None), 0);
    assert_eq!(epoch_ms_from_millis(Some(1_718_745_600_123)), 1_718_745_600_123);
    assert_eq!(epoch_ms_from_millis(Some((1u128 << 64) + 5)), 5);
}
