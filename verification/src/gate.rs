//! The admissibility verdict of the thermodynamic gate for clock syncs.

use vstd::prelude::*;

verus! {

/// Verdict of the thermodynamic admissibility check on a proposed sync.
#[derive(Debug, Clone, Copy, PartialEq, Eq, Structural)]
pub enum GateVerdict {
    /// Sync is admissible — desync energy within budget.
    Admit,
    /// Sync is rejected — free-run until drift accumulates enough to justify
    /// the correction cost.
    Reject,
}

} // verus!
