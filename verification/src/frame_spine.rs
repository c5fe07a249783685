//! Frame / spine contract: the time origin event of a cast spine.

use vstd::prelude::*;

verus! {

/// Time origin t = 0 event (recorded in the stamp context of a spine).
#[derive(Debug, Clone, PartialEq, Eq)]
pub struct OriginEvent {
    pub label: String,
}

impl OriginEvent {
    /// The formwork strike: the t = 0 event of a cast vault.
    pub fn formwork_strike() -> (e: Self)
        ensures
            e.label@ == "formwork_strike"@,
    {
        OriginEvent { label: "formwork_strike".to_owned() }
    }
}

} // verus!
