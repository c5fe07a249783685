use umst_ucrs::decision_tree::{select_steer_branch, SteerBranch, SteerObjectiveLane};
use umst_ucrs::design_sheaf::{
    steerability_branch, MaterialEvolutionFrontier, SheafCohomologySeam, SheafGluingWitness,
    SheafRestriction, SteerabilityBranch,
};
use umst_ucrs::frame_spine::OriginEvent;

struct Witness {
    block_r: f64,
    abutment_thrust_n: f64,
    eq_residual: f64,
    phase_gate_admissible: bool,
}

fn demo_witness(h: f64, r: f64) -> Witness {
    Witness {
        block_r: r,
        abutment_thrust_n: h,
        eq_residual: 1e-7,
        phase_gate_admissible: true,
    }
}

fn branch(thickness_m: f64, offset: f64, w: &Witness, prior: Option<&Witness>) -> SteerBranch {
    let inadmissible = !w.phase_gate_admissible || w.eq_residual >= 1e-5;
    let shifted = prior.map_or(false, |p| {
        (w.abutment_thrust_n - p.abutment_thrust_n).abs() > 50.0
            || (w.block_r - p.block_r).abs() > 1e-4
    });
    select_steer_branch(
        inadmissible,
        shifted,
        offset.abs() > 0.05,
        thickness_m < 0.10 || thickness_m > 0.25,
    )
}

#[test]
fn load_offset_triggers_resolve_thrust() {
    let prior = demo_witness(12_000.0, 0.42);
    let witness = demo_witness(12_800.0, 0.418);
    assert_eq!(branch(0.15, 0.6, &witness, Some(&prior)), SteerBranch::ReSolveThrust);
}

#[test]
fn symmetric_baseline_advances_v_tna() {
    let witness = demo_witness(12_000.0, 0.42);
    assert_eq!(branch(0.15, 0.0, &witness, None), SteerBranch::AdvanceVertebra);
}

#[test]
fn inadmissible_eq_residual_rejects() {
    let witness = Witness {
        block_r: 0.4,
        abutment_thrust_n: 10_000.0,
        eq_residual: 1e-2,
        phase_gate_admissible: false,
    };
    assert_eq!(branch(0.15, 0.0, &witness, None), SteerBranch::GateReject);
}

#[test]
fn offset_and_thickness_branches() {
    let witness = demo_witness(12_000.0, 0.42);
    assert_eq!(branch(0.15, 0.3, &witness, None), SteerBranch::MorphLoadOffset);
    assert_eq!(branch(0.30, 0.0, &witness, None), SteerBranch::SweepThicknessBracket);
    assert_eq!(
        select_steer_branch(true, true, true, true),
        SteerBranch::GateReject
    );
}

#[test]
fn lane_labels() {
    assert_eq!(SteerObjectiveLane::ThrustNetworkBlock.as_label(), "ThrustNetworkBlock");
    assert_eq!(SteerObjectiveLane::ThrustNetworkStrip.as_label(), "ThrustNetworkStrip");
    assert_eq!(
        SteerObjectiveLane::ComplianceMinArchived.as_label(),
        "ComplianceMinArchived"
    );
}

fn route(width: f64, phase_gate: &str, lane: &str) -> SteerabilityBranch {
    steerability_branch(phase_gate, lane, width < 0.05, width > 0.1)
}

#[test]
fn route_explores_load_offset_for_wide_block_bracket() {
    let decision = route(0.15, "compression_admissible_envelope", "block_lp");
    assert_eq!(decision, SteerabilityBranch::ExploreLoadOffset);
}

#[test]
fn route_rejects_inadmissible_phase_gate() {
    let decision = route(0.2, "compression_inadmissible_envelope", "block_lp");
    assert_eq!(decision, SteerabilityBranch::RejectInadmissible);
}

#[test]
fn route_hold_and_widen() {
    assert_eq!(route(0.01, "ok", "block_lp"), SteerabilityBranch::HoldSymmetric);
    assert_eq!(route(0.07, "ok", "block_lp"), SteerabilityBranch::WidenBracketSweep);
    assert_eq!(route(0.5, "ok", "strip_lp"), SteerabilityBranch::WidenBracketSweep);
    assert_eq!(route(0.01, "solver failed", "block_lp"), SteerabilityBranch::RejectInadmissible);
}

#[test]
fn sheaf_facet_constructors() {
    let g = SheafGluingWitness::dec_conservation();
    assert_eq!(g.conservation_axiom, "d∘d=0");
    assert!(g.sections_glue);
    assert_eq!(
        SheafRestriction::hex_coarsen_cell_field().map_name,
        "hex_coarsen_cell_field"
    );
    let seam = SheafCohomologySeam::memory_h1_seam();
    assert_eq!(seam.degree, 1);
    assert!(!seam.built);
    let f = MaterialEvolutionFrontier::cartridge_frontier();
    assert_eq!(f.models.len(), 5);
    assert_eq!(f.models[0], "hydration α(t)");
    assert_eq!(f.models[4], "as-cast→service camber");
    assert!(!f.built);
}

#[test]
fn origin_is_formwork_strike() {
    assert_eq!(OriginEvent::formwork_strike().label, "formwork_strike");
}
