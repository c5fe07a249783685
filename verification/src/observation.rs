//! Immutable observation stamps for durable logs (`UcrsObservedAt`) and their
//! integer-only `observed_at.v2` wire form.

use std::time::{Duration, SystemTime, SystemTimeError, UNIX_EPOCH};
use vstd::prelude::*;

verus! {

/// Fixed-point scale for entropy / credit fields on the public wire.
pub const WIRE_SCALE: i64 = 1_000_000;

/// Declares `std::time::SystemTime` for the wall-clock wrappers.
#[verifier::external_type_specification]
#[verifier::external_body]
pub struct ExSystemTime(SystemTime);

/// Declares `std::time::SystemTimeError` for the wall-clock wrappers.
#[verifier::external_type_specification]
#[verifier::external_body]
pub struct ExSystemTimeError(SystemTimeError);

/// Tier tag for observation stamps (never omitted on durable writes).
#[derive(Debug, Clone, Copy, PartialEq, Eq, Structural)]
pub enum StampTier {
    UcrsTier2,
    WallOnly,
    Absent,
    Synthetic,
}

impl StampTier {
    /// The wire label of a tier.
    pub open spec fn wire_label(self) -> Seq<char> {
        match self {
            StampTier::UcrsTier2 => "UcrsTier2"@,
            StampTier::WallOnly => "WallOnly"@,
            StampTier::Absent => "Absent"@,
            StampTier::Synthetic => "Synthetic"@,
        }
    }

    /// The tier a wire label decodes to; a label that names no tier decodes
    /// to `Synthetic`, which production merges never accept.
    pub open spec fn from_wire_label(label: Seq<char>) -> StampTier {
        if label == "UcrsTier2"@ {
            StampTier::UcrsTier2
        } else if label == "WallOnly"@ {
            StampTier::WallOnly
        } else if label == "Absent"@ {
            StampTier::Absent
        } else {
            StampTier::Synthetic
        }
    }

    /// Whether a label is the wire label of some tier.
    pub open spec fn is_wire_label(label: Seq<char>) -> bool {
        label == "UcrsTier2"@ || label == "WallOnly"@ || label == "Absent"@ || label
            == "Synthetic"@
    }

    /// The wire label of this tier.
    pub fn as_wire_str(self) -> (s: &'static str)
        ensures
            s@ == self.wire_label(),
    {
        match self {
            StampTier::UcrsTier2 => "UcrsTier2",
            StampTier::WallOnly => "WallOnly",
            StampTier::Absent => "Absent",
            StampTier::Synthetic => "Synthetic",
        }
    }
}

/// Canonical UCRS observation stamp (Tier-2 default for open contributors).
#[derive(Debug, Clone, PartialEq, Eq)]
pub struct UcrsObservedAt {
    pub stamp_tier: StampTier,
    pub ucrs_seq: Option<u64>,
    pub phase_entropy_bits_q: Option<i64>,
    pub phase_entropy_bits_scale: Option<i64>,
    pub credit_head_bits_q: Option<i64>,
    pub credit_head_bits_scale: Option<i64>,
    pub wall_ms: Option<u64>,
}

/// Integer-only `observed_at.v2` wire record.
#[derive(Debug, Clone, PartialEq, Eq)]
pub struct ObservedAtV2Wire {
    pub schema_version: String,
    pub stamp_tier: String,
    pub ucrs_seq: Option<u64>,
    pub phase_entropy_bits_q: Option<i64>,
    pub phase_entropy_bits_scale: Option<i64>,
    pub credit_head_bits_q: Option<i64>,
    pub credit_head_bits_scale: Option<i64>,
    pub wall_ms: Option<u64>,
}

/// The mathematical content of an `observed_at.v2` record: its strings as
/// character sequences.
pub struct ObservedAtV2View {
    pub schema_version: Seq<char>,
    pub stamp_tier: Seq<char>,
    pub ucrs_seq: Option<u64>,
    pub phase_entropy_bits_q: Option<i64>,
    pub phase_entropy_bits_scale: Option<i64>,
    pub credit_head_bits_q: Option<i64>,
    pub credit_head_bits_scale: Option<i64>,
    pub wall_ms: Option<u64>,
}

impl View for ObservedAtV2Wire {
    type V = ObservedAtV2View;

    open spec fn view(&self) -> ObservedAtV2View {
        ObservedAtV2View {
            schema_version: self.schema_version@,
            stamp_tier: self.stamp_tier@,
            ucrs_seq: self.ucrs_seq,
            phase_entropy_bits_q: self.phase_entropy_bits_q,
            phase_entropy_bits_scale: self.phase_entropy_bits_scale,
            credit_head_bits_q: self.credit_head_bits_q,
            credit_head_bits_scale: self.credit_head_bits_scale,
            wall_ms: self.wall_ms,
        }
    }
}

/// The schema tag of the v2 wire record.
pub open spec fn v2_schema() -> Seq<char> {
    "observed_at.v2"@
}

/// Calls `std::time::SystemTime::now`. Nothing is stated: the result is the
/// machine's clock.
#[verifier::external_body]
fn system_time_now() -> SystemTime {
    SystemTime::now()
}

/// Calls `SystemTime::duration_since(UNIX_EPOCH)`. Nothing is stated: whether
/// it fails depends on the clock reading.
#[verifier::external_body]
fn duration_since_unix_epoch(t: &SystemTime) -> Result<Duration, SystemTimeError> {
    t.duration_since(UNIX_EPOCH)
}

/// Calls `Duration::as_millis`. Nothing is stated of the count.
#[verifier::external_body]
fn duration_as_millis(d: &Duration) -> u128 {
    d.as_millis()
}

/// Milliseconds since the Unix epoch as a stamp carries them: the count
/// truncated to 64 bits, or 0 when the clock read before the epoch (`None`).
pub fn epoch_ms_from_millis(since_epoch_ms: Option<u128>) -> (r: u64)
    ensures
        r == match since_epoch_ms {
            Some(ms) => ms as u64,
            None => 0u64,
        },
{
    match since_epoch_ms {
        Some(ms) => {
            #[verifier::truncate]
            (ms as u64)
        },
        None => 0,
    }
}

/// Whether `r` is what a clock reading `now` gives as epoch milliseconds: the
/// millisecond count of its distance from the Unix epoch, truncated to 64
/// bits, or 0 when the reading lies before the epoch.
pub closed spec fn epoch_ms_of_reading(now: SystemTime, r: u64) -> bool {
    ||| exists|e: SystemTimeError|
        #[trigger] call_ensures(duration_since_unix_epoch, (&now,), Err(e)) && r == 0
    ||| exists|d: Duration, ms: u128|
        #[trigger] call_ensures(duration_since_unix_epoch, (&now,), Ok(d)) && #[trigger]
        call_ensures(duration_as_millis, (&d,), ms) && r == ms as u64
}

/// Whether `r` is the epoch-millisecond value of some reading of the
/// machine's clock.
pub closed spec fn is_clock_epoch_ms(r: u64) -> bool {
    exists|now: SystemTime|
        #[trigger] call_ensures(system_time_now, (), now) && epoch_ms_of_reading(now, r)
}

/// Wall-clock milliseconds since the Unix epoch, truncated to 64 bits, or 0
/// when the clock reads before the epoch (see `epoch_ms_from_millis`). The
/// value is the machine's clock reading: the clause says that it is derived
/// from a reading of the clock, not which reading that was.
pub fn wall_epoch_ms() -> (r: u64)
    ensures
        is_clock_epoch_ms(r),
{
    let now = system_time_now();
    let since = duration_since_unix_epoch(&now);
    let since_epoch_ms = match &since {
        Ok(d) => Some(duration_as_millis(d)),
        Err(_) => None,
    };
    let r = epoch_ms_from_millis(since_epoch_ms);
    proof {
        match since {
            Ok(d) => {
                let ms = since_epoch_ms.unwrap();
                assert(call_ensures(duration_since_unix_epoch, (&now,), Ok(d)));
                assert(call_ensures(duration_as_millis, (&d,), ms));
            },
            Err(e) => {
                assert(call_ensures(duration_since_unix_epoch, (&now,), Err(e)));
            },
        }
        assert(epoch_ms_of_reading(now, r));
        assert(call_ensures(system_time_now, (), now));
    }
    r
}

/// Whether `later` may follow `earlier` in a durable log: a larger sequence
/// number, or the same one with no less phase entropy.
pub open spec fn observed_after(later: UcrsObservedAt, earlier: UcrsObservedAt) -> bool {
    match (later.ucrs_seq, earlier.ucrs_seq) {
        (Some(a), Some(b)) => a > b || (a == b && match (
            later.phase_entropy_bits_q,
            earlier.phase_entropy_bits_q,
        ) {
            (Some(p), Some(q)) => p >= q,
            _ => false,
        }),
        _ => false,
    }
}

impl UcrsObservedAt {
    /// The v2 wire record of a stamp.
    pub open spec fn v2_view(self) -> ObservedAtV2View {
        ObservedAtV2View {
            schema_version: v2_schema(),
            stamp_tier: self.stamp_tier.wire_label(),
            ucrs_seq: self.ucrs_seq,
            phase_entropy_bits_q: self.phase_entropy_bits_q,
            phase_entropy_bits_scale: self.phase_entropy_bits_scale,
            credit_head_bits_q: self.credit_head_bits_q,
            credit_head_bits_scale: self.credit_head_bits_scale,
            wall_ms: self.wall_ms,
        }
    }

    /// The stamp a v2 wire record decodes to (the schema tag is not read).
    pub open spec fn from_v2_view(w: ObservedAtV2View) -> UcrsObservedAt {
        UcrsObservedAt {
            stamp_tier: StampTier::from_wire_label(w.stamp_tier),
            ucrs_seq: w.ucrs_seq,
            phase_entropy_bits_q: w.phase_entropy_bits_q,
            phase_entropy_bits_scale: w.phase_entropy_bits_scale,
            credit_head_bits_q: w.credit_head_bits_q,
            credit_head_bits_scale: w.credit_head_bits_scale,
            wall_ms: w.wall_ms,
        }
    }

    /// Wire v2 JSON shape (`observed_at.v2` integer fields).
    pub fn to_v2_wire(&self) -> (w: ObservedAtV2Wire)
        ensures
            w@ == self.v2_view(),
    {
        ObservedAtV2Wire {
            schema_version: "observed_at.v2".to_owned(),
            stamp_tier: self.stamp_tier.as_wire_str().to_owned(),
            ucrs_seq: self.ucrs_seq,
            phase_entropy_bits_q: self.phase_entropy_bits_q,
            phase_entropy_bits_scale: self.phase_entropy_bits_scale,
            credit_head_bits_q: self.credit_head_bits_q,
            credit_head_bits_scale: self.credit_head_bits_scale,
            wall_ms: self.wall_ms,
        }
    }

    /// Decode a v2 wire record; an unknown tier label decodes to `Synthetic`.
    pub fn from_v2_wire(w: &ObservedAtV2Wire) -> (obs: Self)
        ensures
            obs == Self::from_v2_view(w@),
    {
        let stamp_tier = if w.stamp_tier == "UcrsTier2".to_owned() {
            StampTier::UcrsTier2
        } else if w.stamp_tier == "WallOnly".to_owned() {
            StampTier::WallOnly
        } else if w.stamp_tier == "Absent".to_owned() {
            StampTier::Absent
        } else {
            StampTier::Synthetic
        };
        UcrsObservedAt {
            stamp_tier,
            ucrs_seq: w.ucrs_seq,
            phase_entropy_bits_q: w.phase_entropy_bits_q,
            phase_entropy_bits_scale: w.phase_entropy_bits_scale,
            credit_head_bits_q: w.credit_head_bits_q,
            credit_head_bits_scale: w.credit_head_bits_scale,
            wall_ms: w.wall_ms,
        }
    }

    /// Wall-clock-only fallback when the UCRS agent loop is unavailable.
    pub fn wall_only() -> (obs: Self)
        ensures
            obs.stamp_tier == StampTier::WallOnly,
            obs.ucrs_seq is None,
            obs.phase_entropy_bits_q is None,
            obs.phase_entropy_bits_scale is None,
            obs.credit_head_bits_q is None,
            obs.credit_head_bits_scale is None,
            obs.wall_ms matches Some(w) && call_ensures(wall_epoch_ms, (), w)
                && is_clock_epoch_ms(w),
    {
        UcrsObservedAt {
            stamp_tier: StampTier::WallOnly,
            ucrs_seq: None,
            phase_entropy_bits_q: None,
            phase_entropy_bits_scale: None,
            credit_head_bits_q: None,
            credit_head_bits_scale: None,
            wall_ms: Some(wall_epoch_ms()),
        }
    }

    /// Deterministic test / fixture stamp (isolated from production merge),
    /// carrying the phase entropy already in `WIRE_SCALE` fixed point.
    pub fn synthetic(seq: u64, phase_entropy_bits_q: i64) -> (obs: Self)
        ensures
            obs.stamp_tier == StampTier::Synthetic,
            obs.ucrs_seq == Some(seq),
            obs.phase_entropy_bits_q == Some(phase_entropy_bits_q),
            obs.phase_entropy_bits_scale == Some(WIRE_SCALE),
            obs.credit_head_bits_q == Some(0i64),
            obs.credit_head_bits_scale == Some(WIRE_SCALE),
            obs.wall_ms matches Some(w) && call_ensures(wall_epoch_ms, (), w)
                && is_clock_epoch_ms(w),
    {
        UcrsObservedAt {
            stamp_tier: StampTier::Synthetic,
            ucrs_seq: Some(seq),
            phase_entropy_bits_q: Some(phase_entropy_bits_q),
            phase_entropy_bits_scale: Some(WIRE_SCALE),
            credit_head_bits_q: Some(0),
            credit_head_bits_scale: Some(WIRE_SCALE),
            wall_ms: Some(wall_epoch_ms()),
        }
    }
}

/// The sequence number that follows `seq`; it saturates at `u64::MAX`.
pub open spec fn next_seq(seq: u64) -> u64 {
    if seq < u64::MAX {
        (seq + 1) as u64
    } else {
        seq
    }
}

/// The monotone `ucrs_seq` allocator behind a temporal witness.
#[derive(Debug)]
pub struct StampSequence {
    seq: u64,
}

impl StampSequence {
    /// The last sequence number issued (0 before any stamp).
    pub closed spec fn last_issued(&self) -> u64 {
        self.seq
    }

    /// A fresh allocator; the first stamp gets sequence number 1.
    pub fn new() -> (s: Self)
        ensures
            s.last_issued() == 0,
    {
        StampSequence { seq: 0 }
    }

    /// The last sequence number issued.
    pub fn last(&self) -> (r: u64)
        ensures
            r == self.last_issued(),
    {
        self.seq
    }

    /// Advance the sequence and emit a Tier-2 stamp carrying the phase entropy
    /// and credit head in `WIRE_SCALE` fixed point, and the wall clock: its
    /// `wall_ms` is a reading that `wall_epoch_ms` returned during the call.
    pub fn stamp(&mut self, phase_entropy_bits_q: i64, credit_head_bits_q: i64) -> (obs:
        UcrsObservedAt)
        ensures
            final(self).last_issued() == next_seq(old(self).last_issued()),
            obs.stamp_tier == StampTier::UcrsTier2,
            obs.ucrs_seq == Some(final(self).last_issued()),
            obs.phase_entropy_bits_q == Some(phase_entropy_bits_q),
            obs.phase_entropy_bits_scale == Some(WIRE_SCALE),
            obs.credit_head_bits_q == Some(credit_head_bits_q),
            obs.credit_head_bits_scale == Some(WIRE_SCALE),
            obs.wall_ms matches Some(w) && call_ensures(wall_epoch_ms, (), w)
                && is_clock_epoch_ms(w),
    {
        self.seq = self.seq.saturating_add(1);
        UcrsObservedAt {
            stamp_tier: StampTier::UcrsTier2,
            ucrs_seq: Some(self.seq),
            phase_entropy_bits_q: Some(phase_entropy_bits_q),
            phase_entropy_bits_scale: Some(WIRE_SCALE),
            credit_head_bits_q: Some(credit_head_bits_q),
            credit_head_bits_scale: Some(WIRE_SCALE),
            wall_ms: Some(wall_epoch_ms()),
        }
    }
}

proof fn lemma_tier_labels_distinct()
    ensures
        "UcrsTier2"@ != "WallOnly"@,
        "UcrsTier2"@ != "Absent"@,
        "UcrsTier2"@ != "Synthetic"@,
        "WallOnly"@ != "Absent"@,
        "WallOnly"@ != "Synthetic"@,
        "Absent"@ != "Synthetic"@,
{
    reveal_strlit("UcrsTier2");
    reveal_strlit("WallOnly");
    reveal_strlit("Absent");
    reveal_strlit("Synthetic");
    assert("UcrsTier2"@[0] != "WallOnly"@[0]);
    assert("UcrsTier2"@[0] != "Absent"@[0]);
    assert("UcrsTier2"@[0] != "Synthetic"@[0]);
    assert("WallOnly"@[0] != "Absent"@[0]);
    assert("WallOnly"@[0] != "Synthetic"@[0]);
    assert("Absent"@[0] != "Synthetic"@[0]);
}

/// Decoding the v2 wire record of a stamp gives the stamp back.
pub proof fn lemma_v2_wire_roundtrip(obs: UcrsObservedAt)
    ensures
        UcrsObservedAt::from_v2_view(obs.v2_view()) == obs,
{
    lemma_tier_labels_distinct();
}

/// A v2 record with the `observed_at.v2` schema tag and a known tier label is
/// reproduced exactly by decoding and re-encoding it.
pub proof fn lemma_v2_canonical_record_roundtrip(w: ObservedAtV2View)
    requires
        w.schema_version == v2_schema(),
        StampTier::is_wire_label(w.stamp_tier),
    ensures
        UcrsObservedAt::from_v2_view(w).v2_view() == w,
{
    lemma_tier_labels_distinct();
}

/// Each tier's wire label decodes to that tier, and distinct tiers have
/// distinct labels.
pub proof fn lemma_wire_labels_decode(t: StampTier, u: StampTier)
    ensures
        StampTier::from_wire_label(t.wire_label()) == t,
        StampTier::is_wire_label(t.wire_label()),
        t != u ==> t.wire_label() != u.wire_label(),
{
    lemma_tier_labels_distinct();
}

/// Sequence numbers never decrease, and strictly increase until they reach
/// `u64::MAX`.
pub proof fn lemma_next_seq_monotone(seq: u64)
    ensures
        next_seq(seq) >= seq,
        seq < u64::MAX ==> next_seq(seq) > seq,
{
}

/// Two successive Tier-2 stamps of one allocator, issued from last number
/// `seq` with the second number still below `u64::MAX`, are in log order: the
/// later may follow the earlier.
pub proof fn lemma_successive_stamps_ordered(
    seq: u64,
    first: UcrsObservedAt,
    second: UcrsObservedAt,
)
    requires
        first.ucrs_seq == Some(next_seq(seq)),
        second.ucrs_seq == Some(next_seq(next_seq(seq))),
        next_seq(seq) < u64::MAX,
    ensures
        observed_after(second, first),
        !observed_after(first, second),
{
}

} // verus!
