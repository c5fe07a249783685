# umst_ucrs

Constitutional time for multi-agent clock synchronisation, as a Verus-verified
library with a thin daemon around it.

## Layout

- `src/` — the verified library.
  - `crypto/` — SHA3-256, ML-KEM-768, ML-DSA-65 and SLH-DSA-128s over the
    `sha3` and `pqcrypto-*` crates; key, ciphertext and signature lengths,
    error lanes, and that a signature handed out verifies and fits the
    scheme's signature length are proved; ML-DSA signing is deterministic and
    its result is stated exactly.
  - `wire` — the keyed 32-byte digest that authenticates gossip ticks, its
    check, and the verdict on an inbound tick.
  - `observation` — observation stamps, their integer `observed_at.v2` wire
    form (with both round trips proved) and the monotone stamp sequence.
  - `decision_tree`, `design_sheaf`, `frame_spine` — the steering branches of
    the cast spine and the sheaf facets.
  - `p2p` — localhost mesh bootstrap addresses.
  - `rapl` — energy counter readings, wrap-aware deltas, counter-text parse.
  - `gate` — the admissibility verdict type.
  - `text` — substring search and decimal rendering used above.
- `tests/` — tests of the library.
- `app/` — the daemon: clock drift, Landauer costs, the credit ledger and the
  admissibility check (all floating point), serde forms, Prometheus metrics,
  and the Tokio loop.

The clock, credit-ledger, admissibility-check, Landauer-cost and telemetry
APIs, and `witness_for_agent`, compute in floating point; they are not part of
the library's public surface but live in the daemon under `app/`. Downstream
crates that want them must take them from there.
