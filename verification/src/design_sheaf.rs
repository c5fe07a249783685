//! Design sheaf facets: the spine is the time axis of the admissibility sheaf.
//!
//! | Facet | Role in cast lifecycle |
//! |-------|------------------------|
//! | Section | per-vertebra gate = local section of admissibility |
//! | Gluing | DEC conservation (`d∘d=0`) glues local fluxes to global conservation |
//! | Restriction | `hex_coarsen_cell_field` coarse-grains across scale |
//! | Cohomology | obstruction-to-gluing / memory / symmetry-break = H¹ (seam only) |

use crate::text::{has_substring, str_contains};
use vstd::prelude::*;

verus! {

/// GLUING — DEC conservation (`d∘d=0`) is the gluing axiom.
#[derive(Debug, Clone, PartialEq, Eq)]
pub struct SheafGluingWitness {
    pub conservation_axiom: String,
    pub sections_glue: bool,
}

impl SheafGluingWitness {
    /// The DEC conservation witness: sections glue under `d∘d=0`.
    pub fn dec_conservation() -> (w: Self)
        ensures
            w.conservation_axiom@ == "d∘d=0"@,
            w.sections_glue,
    {
        SheafGluingWitness { conservation_axiom: "d∘d=0".to_owned(), sections_glue: true }
    }
}

/// RESTRICTION — coarse-graining across scale.
#[derive(Debug, Clone, PartialEq, Eq)]
pub struct SheafRestriction {
    pub map_name: String,
}

impl SheafRestriction {
    /// The hexagonal cell-field coarsening map.
    pub fn hex_coarsen_cell_field() -> (r: Self)
        ensures
            r.map_name@ == "hex_coarsen_cell_field"@,
    {
        SheafRestriction { map_name: "hex_coarsen_cell_field".to_owned() }
    }
}

/// COHOMOLOGY — obstruction seam (H¹ of this sheaf); the memory sheaf itself
/// is not built here.
#[derive(Debug, Clone, PartialEq, Eq)]
pub struct SheafCohomologySeam {
    pub degree: u8,
    pub role: String,
    pub built: bool,
}

impl SheafCohomologySeam {
    /// The degree-one memory seam, recorded as not built.
    pub fn memory_h1_seam() -> (s: Self)
        ensures
            s.degree == 1,
            s.role@ == "obstruction-to-gluing / symmetry-break memory"@,
            !s.built,
    {
        SheafCohomologySeam {
            degree: 1,
            role: "obstruction-to-gluing / symmetry-break memory".to_owned(),
            built: false,
        }
    }
}

/// Continuous material evolution between vertebrae — a frontier, not built.
#[derive(Debug, Clone, PartialEq, Eq)]
pub struct MaterialEvolutionFrontier {
    pub models: Vec<String>,
    pub built: bool,
}

impl MaterialEvolutionFrontier {
    /// The cartridge's frontier models, recorded as not built.
    pub fn cartridge_frontier() -> (f: Self)
        ensures
            f.models@.len() == 5,
            f.models@[0]@ == "hydration α(t)"@,
            f.models@[1]@ == "creep"@,
            f.models@[2]@ == "drying shrinkage"@,
            f.models@[3]@ == "thermal"@,
            f.models@[4]@ == "as-cast→service camber"@,
            !f.built,
    {
        let mut models: Vec<String> = Vec::new();
        models.push("hydration α(t)".to_owned());
        models.push("creep".to_owned());
        models.push("drying shrinkage".to_owned());
        models.push("thermal".to_owned());
        models.push("as-cast→service camber".to_owned());
        MaterialEvolutionFrontier { models, built: false }
    }
}

/// Steerability branch selected from thrust-network metrics and the spine's
/// phase gate.
#[derive(Debug, Clone, Copy, PartialEq, Eq, Structural)]
pub enum SteerabilityBranch {
    HoldSymmetric,
    ExploreLoadOffset,
    WidenBracketSweep,
    RejectInadmissible,
}

/// Whether a phase-gate label reports a failure or an inadmissible envelope.
pub open spec fn phase_gate_rejects(phase_gate: Seq<char>) -> bool {
    has_substring(phase_gate, "fail"@) || has_substring(phase_gate, "inadmissible"@)
}

/// The routed branch: a failing phase gate rejects; otherwise a narrow thrust
/// bracket holds the symmetric solution; a wide bracket on the block LP lane
/// explores a load offset; anything else widens the bracket sweep.
pub open spec fn steerability_branch_of(
    phase_gate: Seq<char>,
    objective_lane: Seq<char>,
    bracket_narrow: bool,
    bracket_wide: bool,
) -> SteerabilityBranch {
    if phase_gate_rejects(phase_gate) {
        SteerabilityBranch::RejectInadmissible
    } else if bracket_narrow {
        SteerabilityBranch::HoldSymmetric
    } else if objective_lane == "block_lp"@ && bracket_wide {
        SteerabilityBranch::ExploreLoadOffset
    } else {
        SteerabilityBranch::WidenBracketSweep
    }
}

/// Route steerability from the phase-gate label, the objective lane, and
/// whether the thrust bracket is narrow (below the hold width) or wide (above
/// the exploration width).
pub fn steerability_branch(
    phase_gate: &str,
    objective_lane: &str,
    bracket_narrow: bool,
    bracket_wide: bool,
) -> (b: SteerabilityBranch)
    ensures
        b == steerability_branch_of(phase_gate@, objective_lane@, bracket_narrow, bracket_wide),
        b == SteerabilityBranch::RejectInadmissible <==> (has_substring(phase_gate@, "fail"@)
            || has_substring(phase_gate@, "inadmissible"@)),
        b == SteerabilityBranch::HoldSymmetric <==> (!has_substring(phase_gate@, "fail"@)
            && !has_substring(phase_gate@, "inadmissible"@) && bracket_narrow),
        b == SteerabilityBranch::ExploreLoadOffset <==> (!has_substring(phase_gate@, "fail"@)
            && !has_substring(phase_gate@, "inadmissible"@) && !bracket_narrow && objective_lane@
            == "block_lp"@ && bracket_wide),
        b == SteerabilityBranch::WidenBracketSweep <==> (!has_substring(phase_gate@, "fail"@)
            && !has_substring(phase_gate@, "inadmissible"@) && !bracket_narrow && !(
        objective_lane@ == "block_lp"@ && bracket_wide)),
{
    if str_contains(phase_gate, "fail") || str_contains(phase_gate, "inadmissible") {
        SteerabilityBranch::RejectInadmissible
    } else if bracket_narrow {
        SteerabilityBranch::HoldSymmetric
    } else if objective_lane.to_owned() == "block_lp".to_owned() && bracket_wide {
        SteerabilityBranch::ExploreLoadOffset
    } else {
        SteerabilityBranch::WidenBracketSweep
    }
}

/// A phase gate that reports an inadmissible envelope or a failure is
/// rejected, whatever the bracket width and lane.
pub proof fn lemma_failing_phase_gate_rejects(
    phase_gate: Seq<char>,
    objective_lane: Seq<char>,
    bracket_narrow: bool,
    bracket_wide: bool,
)
    requires
        has_substring(phase_gate, "inadmissible"@) || has_substring(phase_gate, "fail"@),
    ensures
        steerability_branch_of(phase_gate, objective_lane, bracket_narrow, bracket_wide)
            == SteerabilityBranch::RejectInadmissible,
{
}

/// A narrow bracket holds the symmetric solution on every objective lane,
/// once the phase gate reports no failure: the lane only matters for a
/// bracket that is not narrow, and the load offset is explored only on the
/// block LP lane with a wide bracket.
pub proof fn lemma_narrow_bracket_holds_on_every_lane(
    phase_gate: Seq<char>,
    objective_lane: Seq<char>,
    other_lane: Seq<char>,
    bracket_wide: bool,
)
    requires
        !has_substring(phase_gate, "fail"@),
        !has_substring(phase_gate, "inadmissible"@),
    ensures
        steerability_branch_of(phase_gate, objective_lane, true, bracket_wide)
            == SteerabilityBranch::HoldSymmetric,
        steerability_branch_of(phase_gate, objective_lane, true, bracket_wide)
            == steerability_branch_of(phase_gate, other_lane, true, bracket_wide),
        steerability_branch_of(phase_gate, objective_lane, false, bracket_wide)
            == SteerabilityBranch::ExploreLoadOffset <==> (objective_lane == "block_lp"@
            && bracket_wide),
{
}

} // verus!
