//! Cast spine decision tree: which steering branch an agent edit takes.
//!
//! The measurements that feed the tree (thrust deltas, load offset, thickness
//! band, equilibrium residual) are computed by the caller; this module fixes
//! the order in which the branches are tried.

use vstd::prelude::*;

verus! {

/// Thrust-network objective lane (string-stable for JSON witnesses).
#[derive(Debug, Clone, Copy, PartialEq, Eq, Structural)]
pub enum SteerObjectiveLane {
    ThrustNetworkBlock,
    ThrustNetworkStrip,
    ComplianceMinArchived,
}

impl SteerObjectiveLane {
    /// The label of a lane.
    pub open spec fn label(self) -> Seq<char> {
        match self {
            SteerObjectiveLane::ThrustNetworkBlock => "ThrustNetworkBlock"@,
            SteerObjectiveLane::ThrustNetworkStrip => "ThrustNetworkStrip"@,
            SteerObjectiveLane::ComplianceMinArchived => "ComplianceMinArchived"@,
        }
    }

    /// The label of this lane.
    pub fn as_label(self) -> (s: &'static str)
        ensures
            s@ == self.label(),
    {
        match self {
            SteerObjectiveLane::ThrustNetworkBlock => "ThrustNetworkBlock",
            SteerObjectiveLane::ThrustNetworkStrip => "ThrustNetworkStrip",
            SteerObjectiveLane::ComplianceMinArchived => "ComplianceMinArchived",
        }
    }
}

/// The branch of the decision tree an agent edit takes.
#[derive(Debug, Clone, Copy, PartialEq, Eq, Structural)]
pub enum SteerBranch {
    /// Phase gate rejected: the agent must back off the edit.
    GateReject,
    /// Thickness or load morph changed equilibrium: re-solve the thrust network.
    ReSolveThrust,
    /// Morph the live-load centroid along the span.
    MorphLoadOffset,
    /// Sweep the thickness bracket.
    SweepThicknessBracket,
    /// Advance to the next vertebra of the cast spine.
    AdvanceVertebra,
}

/// The branch taken, given the four measured conditions in the order the
/// tree tries them: an inadmissible witness (gate failed or equilibrium
/// residual too large) rejects first; then a thrust or block-ratio shift from
/// the prior witness; then an off-centre live load; then a thickness outside
/// the working band; otherwise the spine advances.
pub open spec fn steer_branch_of(
    witness_inadmissible: bool,
    thrust_shifted: bool,
    load_off_centre: bool,
    thickness_out_of_band: bool,
) -> SteerBranch {
    if witness_inadmissible {
        SteerBranch::GateReject
    } else if thrust_shifted {
        SteerBranch::ReSolveThrust
    } else if load_off_centre {
        SteerBranch::MorphLoadOffset
    } else if thickness_out_of_band {
        SteerBranch::SweepThicknessBracket
    } else {
        SteerBranch::AdvanceVertebra
    }
}

/// Select the decision-tree branch for one agent edit step.
pub fn select_steer_branch(
    witness_inadmissible: bool,
    thrust_shifted: bool,
    load_off_centre: bool,
    thickness_out_of_band: bool,
) -> (b: SteerBranch)
    ensures
        b == steer_branch_of(
            witness_inadmissible,
            thrust_shifted,
            load_off_centre,
            thickness_out_of_band,
        ),
        b == SteerBranch::GateReject <==> witness_inadmissible,
        b == SteerBranch::ReSolveThrust <==> (!witness_inadmissible && thrust_shifted),
        b == SteerBranch::MorphLoadOffset <==> (!witness_inadmissible && !thrust_shifted
            && load_off_centre),
        b == SteerBranch::SweepThicknessBracket <==> (!witness_inadmissible && !thrust_shifted
            && !load_off_centre && thickness_out_of_band),
        b == SteerBranch::AdvanceVertebra <==> (!witness_inadmissible && !thrust_shifted
            && !load_off_centre && !thickness_out_of_band),
{
    if witness_inadmissible {
        SteerBranch::GateReject
    } else if thrust_shifted {
        SteerBranch::ReSolveThrust
    } else if load_off_centre {
        SteerBranch::MorphLoadOffset
    } else if thickness_out_of_band {
        SteerBranch::SweepThicknessBracket
    } else {
        SteerBranch::AdvanceVertebra
    }
}

/// An inadmissible witness is rejected whatever else the edit changed, and
/// the spine only advances when no condition fires.
pub proof fn lemma_gate_reject_dominates(a: bool, b: bool, c: bool, d: bool)
    ensures
        a ==> steer_branch_of(a, b, c, d) == SteerBranch::GateReject,
        steer_branch_of(a, b, c, d) == SteerBranch::AdvanceVertebra <==> (!a && !b && !c && !d),
{
}

/// The branches are tried in a fixed order of priority: each condition wins
/// over every condition after it. An admissible edit with a thrust shift
/// re-solves whatever the load and thickness; an admissible, unshifted edit
/// with an off-centre load morphs the load whatever the thickness band; the
/// thickness bracket is swept only when nothing before it fires.
pub proof fn lemma_steer_branch_priority(a: bool, b: bool, c: bool, d: bool)
    ensures
        (!a && b) ==> steer_branch_of(a, b, c, d) == SteerBranch::ReSolveThrust,
        (!a && !b && c) ==> steer_branch_of(a, b, c, d) == SteerBranch::MorphLoadOffset,
        steer_branch_of(a, b, c, d) == SteerBranch::SweepThicknessBracket <==> (!a && !b && !c
            && d),
        steer_branch_of(a, b, c, true) == steer_branch_of(a, b, c, false) <==> (a || b || c),
{
}

} // verus!
