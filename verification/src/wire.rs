//! Authentication of gossip clock ticks: the keyed 32-byte digest carried in a
//! tick's `sig` field, and the verdict on an inbound tick.
//!
//! A tick is signed over its serialised form with the `sig` field zeroed; the
//! serialisation itself is done by the embedding application, which hands the
//! payload bytes to the functions here.

use vstd::prelude::*;
use vstd::wrapping::{u64_specs, u8_specs};

verus! {

/// Length of the keyed digest carried by a clock tick.
pub const DIGEST_BYTES: usize = 32;

/// Starting value of the digest accumulator.
pub const MIX_OFFSET: u64 = 0xcbf29ce484222325;

/// Multiplier applied to the accumulator before each absorbed byte.
pub const MIX_PRIME: u64 = 0x100000001b3;

/// Result of applying a remote tick to the local agent (after the signature
/// check and the thermodynamic gate).
#[derive(Debug, Clone, Copy, PartialEq, Eq, Structural)]
pub enum MergeOutcome {
    /// The tick was admitted and credited to its sender.
    Accepted,
    /// The tick's digest did not match its payload under the shared secret.
    RejectedBadSig,
    /// The thermodynamic gate refused the sync the tick proposes.
    RejectedGate,
    /// The tick came from this agent itself.
    RejectedSelf,
}

/// One absorption step: `acc * MIX_PRIME + b`, wrapping at 64 bits.
pub open spec fn absorb_byte(acc: u64, b: u8) -> u64 {
    u64_specs::wrapping_add(u64_specs::wrapping_mul(acc, MIX_PRIME), b as u64)
}

/// The accumulator after absorbing the first `n` bytes of `bytes`, starting from `init`.
pub open spec fn absorb(init: u64, bytes: Seq<u8>, n: nat) -> u64
    decreases n,
{
    if n == 0 {
        init
    } else {
        absorb_byte(absorb(init, bytes, (n - 1) as nat), bytes[n - 1])
    }
}

/// The accumulator once the whole secret has been absorbed.
pub open spec fn keyed_start(secret: Seq<u8>) -> u64 {
    absorb(MIX_OFFSET, secret, secret.len())
}

/// The byte folded into the digest for message position `i`: the low byte of
/// the accumulator after absorbing `msg[i]`, plus `i` (both wrapping at 8 bits).
pub open spec fn lane_byte(secret: Seq<u8>, msg: Seq<u8>, i: nat) -> u8 {
    u8_specs::wrapping_add(absorb(keyed_start(secret), msg, i + 1) as u8, i as u8)
}

/// The 32 digest lanes after folding in the first `n` message bytes: byte `i`
/// is xor-ed into lane `i % 32`.
pub open spec fn folded_lanes(secret: Seq<u8>, msg: Seq<u8>, n: nat) -> Seq<u8>
    decreases n,
{
    if n == 0 {
        Seq::new(32, |j: int| 0u8)
    } else {
        let prev = folded_lanes(secret, msg, (n - 1) as nat);
        let k = ((n - 1) as nat % 32) as int;
        prev.update(k, prev[k] ^ lane_byte(secret, msg, (n - 1) as nat))
    }
}

/// The keyed digest of `msg` under a non-empty `secret`: the folded lanes,
/// each xor-ed with the secret byte `secret[j % secret.len()]`.
pub open spec fn mix_digest_of(secret: Seq<u8>, msg: Seq<u8>) -> Seq<u8> {
    let lanes = folded_lanes(secret, msg, msg.len());
    Seq::new(32, |j: int| lanes[j] ^ secret[j % (secret.len() as int)])
}

proof fn lemma_folded_lanes_len(secret: Seq<u8>, msg: Seq<u8>, n: nat)
    ensures
        folded_lanes(secret, msg, n).len() == 32,
    decreases n,
{
    if n > 0 {
        lemma_folded_lanes_len(secret, msg, (n - 1) as nat);
    }
}

/// Keyed 32-byte digest of `msg` under `secret` (a lab-grade MAC: an FNV-style
/// accumulator over secret then message, folded into 32 lanes, then masked
/// with the secret).
///
/// The secret must not be empty: the final mask reads `secret[j % len]`.
pub fn mix_digest(secret: &[u8], msg: &[u8]) -> (out: [u8; 32])
    requires
        secret@.len() > 0,
    ensures
        out@ == mix_digest_of(secret@, msg@),
{
    let mut out = [0u8; 32];
    let mut acc: u64 = MIX_OFFSET;
    let mut k: usize = 0;
    while k < secret.len()
        invariant
            k <= secret@.len(),
            acc == absorb(MIX_OFFSET, secret@, k as nat),
        decreases secret@.len() - k,
    {
        acc = acc.wrapping_mul(MIX_PRIME).wrapping_add(secret[k] as u64);
        k = k + 1;
    }
    assert(out@ =~= folded_lanes(secret@, msg@, 0));
    let mut i: usize = 0;
    while i < msg.len()
        invariant
            i <= msg@.len(),
            acc == absorb(keyed_start(secret@), msg@, i as nat),
            out@ == folded_lanes(secret@, msg@, i as nat),
        decreases msg@.len() - i,
    {
        proof {
            lemma_folded_lanes_len(secret@, msg@, i as nat);
        }
        acc = acc.wrapping_mul(MIX_PRIME).wrapping_add(msg[i] as u64);
        let lane = i % 32;
        let b = (acc as u8).wrapping_add(i as u8);
        out[lane] = out[lane] ^ b;
        i = i + 1;
        assert(out@ =~= folded_lanes(secret@, msg@, i as nat));
    }
    proof {
        lemma_folded_lanes_len(secret@, msg@, msg@.len());
    }
    let ghost lanes = out@;
    let mut j: usize = 0;
    while j < 32
        invariant
            j <= 32,
            secret@.len() > 0,
            lanes.len() == 32,
            out@.len() == 32,
            lanes == folded_lanes(secret@, msg@, msg@.len()),
            forall|t: int| 0 <= t < j ==> out@[t] == lanes[t] ^ secret@[t % (secret@.len() as int)],
            forall|t: int| j <= t < 32 ==> out@[t] == lanes[t],
        decreases 32 - j,
    {
        out[j] = out[j] ^ secret[j % secret.len()];
        j = j + 1;
    }
    assert(out@ =~= mix_digest_of(secret@, msg@));
    out
}

proof fn lemma_absorb_push_prefix(init: u64, s: Seq<u8>, b: u8, n: nat)
    requires
        n <= s.len(),
    ensures
        absorb(init, s.push(b), n) == absorb(init, s, n),
    decreases n,
{
    if n > 0 {
        lemma_absorb_push_prefix(init, s, b, (n - 1) as nat);
        assert(s.push(b)[n - 1] == s[n - 1]);
    }
}

proof fn lemma_folded_lanes_push_prefix(secret: Seq<u8>, msg: Seq<u8>, b: u8, n: nat)
    requires
        n <= msg.len(),
    ensures
        folded_lanes(secret, msg.push(b), n) == folded_lanes(secret, msg, n),
    decreases n,
{
    if n > 0 {
        lemma_folded_lanes_push_prefix(secret, msg, b, (n - 1) as nat);
        lemma_absorb_push_prefix(keyed_start(secret), msg, b, n);
    }
}

/// The accumulator runs over the secret and then the message as one byte
/// string: after `n` message bytes it equals the accumulator over
/// `secret + msg` after `secret.len() + n` bytes.
pub proof fn lemma_accumulator_runs_over_secret_then_message(
    secret: Seq<u8>,
    msg: Seq<u8>,
    n: nat,
)
    requires
        n <= msg.len(),
    ensures
        absorb(keyed_start(secret), msg, n) == absorb(
            MIX_OFFSET,
            secret + msg,
            secret.len() + n,
        ),
    decreases n,
{
    let joined = secret + msg;
    if n == 0 {
        assert forall|k: nat| k <= secret.len() implies absorb(MIX_OFFSET, joined, k) == absorb(
            MIX_OFFSET,
            secret,
            k,
        ) by {
            lemma_absorb_same_prefix(MIX_OFFSET, joined, secret, k);
        }
    } else {
        lemma_accumulator_runs_over_secret_then_message(secret, msg, (n - 1) as nat);
        assert(joined[secret.len() + n - 1] == msg[n - 1]);
    }
}

proof fn lemma_absorb_same_prefix(init: u64, s: Seq<u8>, t: Seq<u8>, k: nat)
    requires
        k <= s.len(),
        k <= t.len(),
        forall|i: int| 0 <= i < k ==> s[i] == t[i],
    ensures
        absorb(init, s, k) == absorb(init, t, k),
    decreases k,
{
    if k > 0 {
        lemma_absorb_same_prefix(init, s, t, (k - 1) as nat);
    }
}

/// The digest of the empty message is the secret repeated over the 32 bytes.
pub proof fn lemma_mix_digest_of_empty_message(secret: Seq<u8>)
    requires
        secret.len() > 0,
    ensures
        mix_digest_of(secret, Seq::empty()).len() == DIGEST_BYTES,
        forall|j: int|
            0 <= j < 32 ==> #[trigger] mix_digest_of(secret, Seq::empty())[j] == secret[j
                % (secret.len() as int)],
{
    let d = mix_digest_of(secret, Seq::empty());
    assert forall|j: int| 0 <= j < 32 implies #[trigger] d[j] == secret[j % (secret.len() as int)] by {
        let x = secret[j % (secret.len() as int)];
        assert(0u8 ^ x == x) by (bit_vector);
    }
}

/// Appending one byte to a message of length `n` changes exactly one digest
/// byte, the one at lane `n % 32`: it is xor-ed with the low byte of the
/// accumulator after that byte plus `n`, both taken modulo 256. This holds at
/// every position, past the 32nd as well, so together with the empty-message
/// law it fixes the digest of every message.
pub proof fn lemma_mix_digest_of_push(secret: Seq<u8>, msg: Seq<u8>, b: u8)
    requires
        secret.len() > 0,
    ensures
        mix_digest_of(secret, msg).len() == DIGEST_BYTES,
        mix_digest_of(secret, msg.push(b)).len() == DIGEST_BYTES,
        forall|j: int|
            0 <= j < 32 && j != (msg.len() % 32) as int ==> #[trigger] mix_digest_of(
                secret,
                msg.push(b),
            )[j] == mix_digest_of(secret, msg)[j],
        mix_digest_of(secret, msg.push(b))[(msg.len() % 32) as int] == mix_digest_of(secret, msg)[(
        msg.len() % 32) as int] ^ u8_specs::wrapping_add(
            absorb(keyed_start(secret), msg.push(b), msg.len() + 1) as u8,
            msg.len() as u8,
        ),
{
    let n = msg.len();
    let k = (n % 32) as int;
    let m2 = msg.push(b);
    lemma_folded_lanes_push_prefix(secret, msg, b, n);
    lemma_folded_lanes_len(secret, msg, n);
    lemma_folded_lanes_len(secret, m2, n + 1);
    let before = mix_digest_of(secret, msg);
    let after = mix_digest_of(secret, m2);
    let lanes = folded_lanes(secret, msg, n);
    let lb = lane_byte(secret, m2, n);
    assert(folded_lanes(secret, m2, n + 1) == lanes.update(k, lanes[k] ^ lb));
    let x = lanes[k];
    let mk = secret[k % (secret.len() as int)];
    assert((x ^ lb) ^ mk == (x ^ mk) ^ lb) by (bit_vector);
    assert(after[k] == before[k] ^ lb);
}

/// Whether `sig` is the keyed digest of `payload` under `secret`.
pub open spec fn digest_matches(secret: Seq<u8>, payload: Seq<u8>, sig: Seq<u8>) -> bool {
    mix_digest_of(secret, payload) == sig
}

/// Check the digest carried by a tick against its signing payload.
pub fn verify_tick_payload(secret: &[u8], payload: &[u8], sig: &[u8; 32]) -> (ok: bool)
    requires
        secret@.len() > 0,
    ensures
        ok == digest_matches(secret@, payload@, sig@),
{
    let d = mix_digest(secret, payload);
    let mut i: usize = 0;
    while i < DIGEST_BYTES
        invariant
            i <= DIGEST_BYTES,
            d@ == mix_digest_of(secret@, payload@),
            d@.len() == 32,
            sig@.len() == 32,
            forall|t: int| 0 <= t < i ==> d@[t] == sig@[t],
        decreases DIGEST_BYTES - i,
    {
        if d[i] != sig[i] {
            assert(d@[i as int] != sig@[i as int]);
            return false;
        }
        i = i + 1;
    }
    assert(d@ =~= sig@);
    true
}

/// The verdict on an inbound tick: ticks from this agent itself are refused
/// first, then ticks whose digest does not match, then ticks the thermodynamic check refuses.
pub open spec fn inbound_outcome(
    local_peer_id: u64,
    agent_id: u64,
    secret: Seq<u8>,
    payload: Seq<u8>,
    sig: Seq<u8>,
    gate_admits: bool,
) -> MergeOutcome {
    if agent_id == local_peer_id {
        MergeOutcome::RejectedSelf
    } else if !digest_matches(secret, payload, sig) {
        MergeOutcome::RejectedBadSig
    } else if !gate_admits {
        MergeOutcome::RejectedGate
    } else {
        MergeOutcome::Accepted
    }
}

/// Decide what becomes of an inbound tick from `agent_id`, given its signing
/// payload and digest, and whether the thermodynamic gate admits the sync it
/// proposes. Only an `Accepted` tick may be credited to its sender.
///
/// The secret is read only for ticks from another agent, and must then be
/// non-empty.
pub fn inbound_merge_outcome(
    local_peer_id: u64,
    agent_id: u64,
    secret: &[u8],
    payload: &[u8],
    sig: &[u8; 32],
    gate_admits: bool,
) -> (res: MergeOutcome)
    requires
        agent_id != local_peer_id ==> secret@.len() > 0,
    ensures
        res == inbound_outcome(local_peer_id, agent_id, secret@, payload@, sig@, gate_admits),
        res == MergeOutcome::RejectedSelf <==> agent_id == local_peer_id,
        res == MergeOutcome::RejectedBadSig <==> (agent_id != local_peer_id && mix_digest_of(
            secret@,
            payload@,
        ) != sig@),
        res == MergeOutcome::RejectedGate <==> (agent_id != local_peer_id && mix_digest_of(
            secret@,
            payload@,
        ) == sig@ && !gate_admits),
        res == MergeOutcome::Accepted <==> (agent_id != local_peer_id && mix_digest_of(
            secret@,
            payload@,
        ) == sig@ && gate_admits),
{
    if agent_id == local_peer_id {
        return MergeOutcome::RejectedSelf;
    }
    if !verify_tick_payload(secret, payload, sig) {
        return MergeOutcome::RejectedBadSig;
    }
    if !gate_admits {
        return MergeOutcome::RejectedGate;
    }
    MergeOutcome::Accepted
}

/// A payload signed with a secret verifies under that same secret.
pub proof fn lemma_signed_payload_verifies(secret: Seq<u8>, payload: Seq<u8>)
    requires
        secret.len() > 0,
    ensures
        digest_matches(secret, payload, mix_digest_of(secret, payload)),
        mix_digest_of(secret, payload).len() == DIGEST_BYTES,
{
}

/// An inbound tick is accepted only when it comes from another agent, its
/// digest matches its payload and the thermodynamic check admits it; a tick carrying this
/// agent's own id is refused whatever else holds.
pub proof fn lemma_inbound_accepts_only_verified(
    local_peer_id: u64,
    agent_id: u64,
    secret: Seq<u8>,
    payload: Seq<u8>,
    sig: Seq<u8>,
    gate_admits: bool,
)
    ensures
        inbound_outcome(local_peer_id, agent_id, secret, payload, sig, gate_admits)
            == MergeOutcome::Accepted <==> (agent_id != local_peer_id && digest_matches(
            secret,
            payload,
            sig,
        ) && gate_admits),
        agent_id == local_peer_id ==> inbound_outcome(
            local_peer_id,
            agent_id,
            secret,
            payload,
            sig,
            gate_admits,
        ) == MergeOutcome::RejectedSelf,
{
}

/// The signature is checked before the thermodynamic check: a tick from
/// another agent whose digest does not match its payload is `RejectedBadSig`
/// whatever that check decides, and its refusal is reported only for ticks
/// that verify.
pub proof fn lemma_bad_signature_checked_before_gate(
    local_peer_id: u64,
    agent_id: u64,
    secret: Seq<u8>,
    payload: Seq<u8>,
    sig: Seq<u8>,
    gate_admits: bool,
)
    ensures
        (agent_id != local_peer_id && mix_digest_of(secret, payload) != sig) ==> inbound_outcome(
            local_peer_id,
            agent_id,
            secret,
            payload,
            sig,
            gate_admits,
        ) == MergeOutcome::RejectedBadSig,
        inbound_outcome(local_peer_id, agent_id, secret, payload, sig, gate_admits)
            == MergeOutcome::RejectedGate <==> (agent_id != local_peer_id && mix_digest_of(
            secret,
            payload,
        ) == sig && !gate_admits),
        inbound_outcome(local_peer_id, agent_id, secret, payload, sig, true) == inbound_outcome(
            local_peer_id,
            agent_id,
            secret,
            payload,
            sig,
            false,
        ) <==> (agent_id == local_peer_id || mix_digest_of(secret, payload) != sig),
{
}

} // verus!
