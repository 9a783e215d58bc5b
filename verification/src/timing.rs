//! Exclusive timing attribution: every microsecond of a seed's or a
//! campaign's wall clock is charged to exactly one top-level phase, and the
//! orchestration and persistence phases are itemized.

use crate::error::{route_message, NativeTacticRouteRunError};
use vstd::prelude::*;

verus! {

/// Sub-phases of graph scheduling and leasing.
#[derive(Clone, Copy, Debug, Default, PartialEq, Eq, Structural)]
pub struct NativeTacticGraphSchedulingTiming {
    pub registration_micros: u64,
}

impl NativeTacticGraphSchedulingTiming {
    pub open spec fn total(self) -> int {
        self.registration_micros as int
    }
}

/// Itemized orchestration time.
#[derive(Clone, Copy, Debug, Default, PartialEq, Eq, Structural)]
pub struct NativeTacticOrchestrationTiming {
    pub learner_refresh_micros: u64,
    pub action_catalog_construction_micros: u64,
    pub graph_scheduling_and_leasing_micros: u64,
    pub graph_scheduling_breakdown: NativeTacticGraphSchedulingTiming,
    pub tactic_selection_micros: u64,
    pub result_validation_and_fact_extraction_micros: u64,
    pub campaign_admission_micros: u64,
    pub decision_bookkeeping_micros: u64,
    pub timing_boundary_micros: u64,
    pub seed_setup_micros: u64,
    pub seed_finalization_micros: u64,
    pub campaign_setup_micros: u64,
    pub generation_replay_and_coordination_micros: u64,
    pub campaign_finalization_micros: u64,
}

impl NativeTacticOrchestrationTiming {
    pub open spec fn total(self) -> int {
        self.learner_refresh_micros + self.action_catalog_construction_micros
            + self.graph_scheduling_and_leasing_micros + self.tactic_selection_micros
            + self.result_validation_and_fact_extraction_micros + self.campaign_admission_micros
            + self.decision_bookkeeping_micros + self.timing_boundary_micros + self.seed_setup_micros
            + self.seed_finalization_micros + self.campaign_setup_micros
            + self.generation_replay_and_coordination_micros + self.campaign_finalization_micros
    }

    /// The sum of the itemized phases, or `None` when it overflows.
    pub fn checked_total_micros(&self) -> (r: Option<u64>)
        ensures
            r is Some <==> self.total() <= u64::MAX,
            r matches Some(v) ==> v == self.total(),
    {
        let parts: [u64; 13] = [
            self.learner_refresh_micros,
            self.action_catalog_construction_micros,
            self.graph_scheduling_and_leasing_micros,
            self.tactic_selection_micros,
            self.result_validation_and_fact_extraction_micros,
            self.campaign_admission_micros,
            self.decision_bookkeeping_micros,
            self.timing_boundary_micros,
            self.seed_setup_micros,
            self.seed_finalization_micros,
            self.campaign_setup_micros,
            self.generation_replay_and_coordination_micros,
            self.campaign_finalization_micros,
        ];
        proof {
            reveal_with_fuel(seq_sum, 14);
            assert(parts@.drop_last().drop_last().drop_last().drop_last().drop_last().drop_last().drop_last().drop_last().drop_last().drop_last().drop_last().drop_last().drop_last() =~= Seq::<u64>::empty());
        }
        checked_sum(&parts)
    }
}

/// Itemized persistence time.
#[derive(Clone, Copy, Debug, Default, PartialEq, Eq, Structural)]
pub struct NativeTacticPersistenceTiming {
    pub unattributed_micros: u64,
}

impl NativeTacticPersistenceTiming {
    pub open spec fn total(self) -> int {
        self.unattributed_micros as int
    }

    pub fn checked_total_micros(&self) -> (r: Option<u64>)
        ensures
            r is Some,
            r matches Some(v) ==> v == self.total(),
    {
        Some(self.unattributed_micros)
    }
}

/// Wall time of a seed or a route and its exclusive phases.
#[derive(Clone, Copy, Debug, Default, PartialEq, Eq, Structural)]
pub struct NativeTacticRouteTiming {
    pub wall_micros: u64,
    pub process_launch_micros: u64,
    pub tactic_selection_micros: u64,
    pub checkpoint_branching_micros: u64,
    pub tactic_execution_micros: u64,
    pub native_simulation_micros: u64,
    pub ipc_and_result_transport_micros: u64,
    pub native_observation_capture_micros: u64,
    pub native_corpus_encoding_micros: u64,
    pub rust_state_extraction_micros: u64,
    pub model_update_micros: u64,
    pub evidence_projection_and_persistence_micros: u64,
    pub evidence_projection_micros: u64,
    pub persistence_micros: u64,
    pub persistence_breakdown: Option<NativeTacticPersistenceTiming>,
    pub orchestration_micros: u64,
    pub orchestration_breakdown: Option<NativeTacticOrchestrationTiming>,
    pub reporting_micros: u64,
    pub retained_candidate_artifact_micros: u64,
    pub native_ticks_per_second_millionths: u64,
    pub unique_useful_graph_expansions_per_second_millionths: u64,
}

impl NativeTacticRouteTiming {
    pub open spec fn top_level_total(self) -> int {
        self.tactic_execution_micros + self.model_update_micros + self.evidence_projection_micros
            + self.persistence_micros + self.orchestration_micros
    }

    pub open spec fn spec_persistence_attribution_is_valid(self) -> bool {
        self.persistence_breakdown matches Some(b) ==> b.total() == self.persistence_micros
    }

    pub open spec fn spec_orchestration_attribution_is_valid(self) -> bool {
        self.orchestration_breakdown matches Some(b) ==> {
            &&& b.total() == self.orchestration_micros
            &&& b.graph_scheduling_breakdown.total() <= b.graph_scheduling_and_leasing_micros
        }
    }

    pub open spec fn spec_seed_wall_attribution_is_exact(self) -> bool {
        &&& self.top_level_total() == self.wall_micros
        &&& self.spec_persistence_attribution_is_valid()
        &&& self.spec_orchestration_attribution_is_valid()
    }

    /// Itemized persistence time adds up to the persistence phase.
    pub fn persistence_attribution_is_valid(&self) -> (r: bool)
        ensures
            r == self.spec_persistence_attribution_is_valid(),
    {
        match &self.persistence_breakdown {
            Some(b) => b.unattributed_micros == self.persistence_micros,
            None => true,
        }
    }

    /// Itemized orchestration time adds up to the orchestration phase, and
    /// graph-scheduling sub-phases fit within their parent.
    pub fn orchestration_attribution_is_valid(&self) -> (r: bool)
        ensures
            r == self.spec_orchestration_attribution_is_valid(),
    {
        match &self.orchestration_breakdown {
            Some(b) => {
                match b.checked_total_micros() {
                    Some(total) => total == self.orchestration_micros
                        && b.graph_scheduling_breakdown.registration_micros <= b.graph_scheduling_and_leasing_micros,
                    None => false,
                }
            },
            None => true,
        }
    }

    /// The exclusive top-level phases add up to the wall time exactly and
    /// both itemizations are consistent.
    pub fn seed_wall_attribution_is_exact(&self) -> (r: bool)
        ensures
            r == self.spec_seed_wall_attribution_is_exact(),
    {
        let parts: [u64; 5] = [
            self.tactic_execution_micros,
            self.model_update_micros,
            self.evidence_projection_micros,
            self.persistence_micros,
            self.orchestration_micros,
        ];
        proof {
            reveal_with_fuel(seq_sum, 6);
            assert(parts@.drop_last().drop_last().drop_last().drop_last().drop_last() =~= Seq::<u64>::empty());
        }
        let total = checked_sum(&parts);
        match total {
            Some(total) => total == self.wall_micros && self.persistence_attribution_is_valid()
                && self.orchestration_attribution_is_valid(),
            None => false,
        }
    }
}

pub open spec fn seq_sum(s: Seq<u64>) -> int
    decreases s.len(),
{
    if s.len() == 0 {
        0
    } else {
        seq_sum(s.drop_last()) + s.last()
    }
}

/// The sum of `parts`, or `None` when it overflows `u64`.
pub fn checked_sum(parts: &[u64]) -> (r: Option<u64>)
    ensures
        r is Some <==> seq_sum(parts@) <= u64::MAX,
        r matches Some(v) ==> v == seq_sum(parts@),
{
    let mut total: u64 = 0;
    let mut i: usize = 0;
    while i < parts.len()
        invariant
            i <= parts@.len(),
            total == seq_sum(parts@.subrange(0, i as int)),
        decreases parts@.len() - i,
    {
        assert(parts@.subrange(0, i + 1).drop_last() =~= parts@.subrange(0, i as int));
        match total.checked_add(parts[i]) {
            Some(v) => {
                total = v;
            },
            None => {
                proof {
                    lemma_seq_sum_prefix_monotone(parts@, i + 1, parts@.len() as int);
                    assert(parts@.subrange(0, parts@.len() as int) =~= parts@);
                }
                return None;
            },
        }
        i = i + 1;
    }
    assert(parts@.subrange(0, parts@.len() as int) =~= parts@);
    Some(total)
}

pub proof fn lemma_seq_sum_prefix_monotone(s: Seq<u64>, i: int, j: int)
    requires
        0 <= i <= j <= s.len(),
    ensures
        seq_sum(s.subrange(0, i)) <= seq_sum(s.subrange(0, j)),
    decreases j - i,
{
    if i < j {
        lemma_seq_sum_prefix_monotone(s, i, j - 1);
        assert(s.subrange(0, j).drop_last() =~= s.subrange(0, j - 1));
    }
}

/// A baseline of the four measured top-level phases.
#[derive(Clone, Copy, Debug, PartialEq, Eq, Structural)]
pub struct ExclusiveTopTimingSnapshot {
    pub tactic_execution_micros: u64,
    pub model_update_micros: u64,
    pub evidence_projection_micros: u64,
    pub persistence_micros: u64,
}

impl ExclusiveTopTimingSnapshot {
    pub fn capture(timing: &NativeTacticRouteTiming) -> (r: Self)
        ensures
            r.tactic_execution_micros == timing.tactic_execution_micros,
            r.model_update_micros == timing.model_update_micros,
            r.evidence_projection_micros == timing.evidence_projection_micros,
            r.persistence_micros == timing.persistence_micros,
    {
        ExclusiveTopTimingSnapshot {
            tactic_execution_micros: timing.tactic_execution_micros,
            model_update_micros: timing.model_update_micros,
            evidence_projection_micros: timing.evidence_projection_micros,
            persistence_micros: timing.persistence_micros,
        }
    }

    /// Time spent in the four measured phases since the baseline. Fails when
    /// any phase went backwards or the total overflows.
    pub fn checked_delta_total(self, timing: &NativeTacticRouteTiming) -> (r: Result<u64, NativeTacticRouteRunError>)
        ensures
            r is Ok <==> {
                &&& self.tactic_execution_micros <= timing.tactic_execution_micros
                &&& self.model_update_micros <= timing.model_update_micros
                &&& self.evidence_projection_micros <= timing.evidence_projection_micros
                &&& self.persistence_micros <= timing.persistence_micros
                &&& (timing.tactic_execution_micros - self.tactic_execution_micros)
                    + (timing.model_update_micros - self.model_update_micros)
                    + (timing.evidence_projection_micros - self.evidence_projection_micros)
                    + (timing.persistence_micros - self.persistence_micros) <= u64::MAX
            },
            r matches Ok(v) ==> v == (timing.tactic_execution_micros - self.tactic_execution_micros)
                + (timing.model_update_micros - self.model_update_micros)
                + (timing.evidence_projection_micros - self.evidence_projection_micros)
                + (timing.persistence_micros - self.persistence_micros),
    {
        if self.tactic_execution_micros > timing.tactic_execution_micros
            || self.model_update_micros > timing.model_update_micros
            || self.evidence_projection_micros > timing.evidence_projection_micros
            || self.persistence_micros > timing.persistence_micros
        {
            return Err(route_message("native tactic exclusive phase timing is detached"));
        }
        let parts: [u64; 4] = [
            timing.tactic_execution_micros - self.tactic_execution_micros,
            timing.model_update_micros - self.model_update_micros,
            timing.evidence_projection_micros - self.evidence_projection_micros,
            timing.persistence_micros - self.persistence_micros,
        ];
        proof {
            reveal_with_fuel(seq_sum, 5);
        }
        match checked_sum(&parts) {
            Some(v) => Ok(v),
            None => Err(route_message("native tactic exclusive phase timing is detached")),
        }
    }
}

/// The orchestration sub-phase a measured interval is charged to.
#[derive(Clone, Copy, Debug, PartialEq, Eq, Structural)]
pub enum SeedOrchestrationPhase {
    LearnerRefresh,
    ActionCatalogConstruction,
    GraphSchedulingAndLeasing,
    TacticSelection,
    ResultValidationAndFactExtraction,
    CampaignAdmission,
    DecisionBookkeeping,
    TimingBoundary,
    SeedSetup,
    SeedFinalization,
}

pub open spec fn phase_micros(b: NativeTacticOrchestrationTiming, phase: SeedOrchestrationPhase) -> u64 {
    match phase {
        SeedOrchestrationPhase::LearnerRefresh => b.learner_refresh_micros,
        SeedOrchestrationPhase::ActionCatalogConstruction => b.action_catalog_construction_micros,
        SeedOrchestrationPhase::GraphSchedulingAndLeasing => b.graph_scheduling_and_leasing_micros,
        SeedOrchestrationPhase::TacticSelection => b.tactic_selection_micros,
        SeedOrchestrationPhase::ResultValidationAndFactExtraction => b.result_validation_and_fact_extraction_micros,
        SeedOrchestrationPhase::CampaignAdmission => b.campaign_admission_micros,
        SeedOrchestrationPhase::DecisionBookkeeping => b.decision_bookkeeping_micros,
        SeedOrchestrationPhase::TimingBoundary => b.timing_boundary_micros,
        SeedOrchestrationPhase::SeedSetup => b.seed_setup_micros,
        SeedOrchestrationPhase::SeedFinalization => b.seed_finalization_micros,
    }
}

pub open spec fn with_phase_micros(b: NativeTacticOrchestrationTiming, phase: SeedOrchestrationPhase, v: u64) -> NativeTacticOrchestrationTiming {
    match phase {
        SeedOrchestrationPhase::LearnerRefresh => NativeTacticOrchestrationTiming { learner_refresh_micros: v, ..b },
        SeedOrchestrationPhase::ActionCatalogConstruction => NativeTacticOrchestrationTiming { action_catalog_construction_micros: v, ..b },
        SeedOrchestrationPhase::GraphSchedulingAndLeasing => NativeTacticOrchestrationTiming { graph_scheduling_and_leasing_micros: v, ..b },
        SeedOrchestrationPhase::TacticSelection => NativeTacticOrchestrationTiming { tactic_selection_micros: v, ..b },
        SeedOrchestrationPhase::ResultValidationAndFactExtraction => NativeTacticOrchestrationTiming { result_validation_and_fact_extraction_micros: v, ..b },
        SeedOrchestrationPhase::CampaignAdmission => NativeTacticOrchestrationTiming { campaign_admission_micros: v, ..b },
        SeedOrchestrationPhase::DecisionBookkeeping => NativeTacticOrchestrationTiming { decision_bookkeeping_micros: v, ..b },
        SeedOrchestrationPhase::TimingBoundary => NativeTacticOrchestrationTiming { timing_boundary_micros: v, ..b },
        SeedOrchestrationPhase::SeedSetup => NativeTacticOrchestrationTiming { seed_setup_micros: v, ..b },
        SeedOrchestrationPhase::SeedFinalization => NativeTacticOrchestrationTiming { seed_finalization_micros: v, ..b },
    }
}

/// The timing after charging `micros` to `phase`, and whether that
/// succeeded; without an itemization nothing is charged.
pub open spec fn spec_record_detail(t: NativeTacticRouteTiming, phase: SeedOrchestrationPhase, micros: u64) -> (NativeTacticRouteTiming, bool) {
    match t.orchestration_breakdown {
        None => (t, true),
        Some(b) => if phase_micros(b, phase) + micros <= u64::MAX {
            (
                NativeTacticRouteTiming {
                    orchestration_breakdown: Some(with_phase_micros(b, phase, (phase_micros(b, phase) + micros) as u64)),
                    ..t
                },
                true,
            )
        } else {
            (t, false)
        },
    }
}

/// Charging `micros` to a sub-phase grows exactly that sub-phase's own
/// field of the itemization by `micros`, and leaves every other field as
/// it was.
pub proof fn lemma_charge_lands_on_its_own_phase(
    t: NativeTacticRouteTiming,
    phase: SeedOrchestrationPhase,
    micros: u64,
)
    ensures
        spec_record_detail(t, phase, micros).1 && t.orchestration_breakdown is Some ==> {
            let before = t.orchestration_breakdown->0;
            let after = spec_record_detail(t, phase, micros).0.orchestration_breakdown->0;
            &&& spec_record_detail(t, phase, micros).0.orchestration_breakdown is Some
            &&& after.learner_refresh_micros == before.learner_refresh_micros + if phase is LearnerRefresh { micros as int } else { 0int }
            &&& after.action_catalog_construction_micros == before.action_catalog_construction_micros + if phase is ActionCatalogConstruction { micros as int } else { 0int }
            &&& after.graph_scheduling_and_leasing_micros == before.graph_scheduling_and_leasing_micros + if phase is GraphSchedulingAndLeasing { micros as int } else { 0int }
            &&& after.tactic_selection_micros == before.tactic_selection_micros + if phase is TacticSelection { micros as int } else { 0int }
            &&& after.result_validation_and_fact_extraction_micros == before.result_validation_and_fact_extraction_micros + if phase is ResultValidationAndFactExtraction { micros as int } else { 0int }
            &&& after.campaign_admission_micros == before.campaign_admission_micros + if phase is CampaignAdmission { micros as int } else { 0int }
            &&& after.decision_bookkeeping_micros == before.decision_bookkeeping_micros + if phase is DecisionBookkeeping { micros as int } else { 0int }
            &&& after.timing_boundary_micros == before.timing_boundary_micros + if phase is TimingBoundary { micros as int } else { 0int }
            &&& after.seed_setup_micros == before.seed_setup_micros + if phase is SeedSetup { micros as int } else { 0int }
            &&& after.seed_finalization_micros == before.seed_finalization_micros + if phase is SeedFinalization { micros as int } else { 0int }
        },
{
}

/// Charges `micros` to the orchestration sub-phase `phase`.
pub fn record_orchestration_detail(timing: &mut NativeTacticRouteTiming, phase: SeedOrchestrationPhase, micros: u64) -> (r: Result<(), NativeTacticRouteRunError>)
    ensures
        (*final(timing), r is Ok) == spec_record_detail(*old(timing), phase, micros),
{
    let mut breakdown = match timing.orchestration_breakdown {
        Some(b) => b,
        None => {
            return Ok(());
        },
    };
    let current = match phase {
        SeedOrchestrationPhase::LearnerRefresh => breakdown.learner_refresh_micros,
        SeedOrchestrationPhase::ActionCatalogConstruction => breakdown.action_catalog_construction_micros,
        SeedOrchestrationPhase::GraphSchedulingAndLeasing => breakdown.graph_scheduling_and_leasing_micros,
        SeedOrchestrationPhase::TacticSelection => breakdown.tactic_selection_micros,
        SeedOrchestrationPhase::ResultValidationAndFactExtraction => breakdown.result_validation_and_fact_extraction_micros,
        SeedOrchestrationPhase::CampaignAdmission => breakdown.campaign_admission_micros,
        SeedOrchestrationPhase::DecisionBookkeeping => breakdown.decision_bookkeeping_micros,
        SeedOrchestrationPhase::TimingBoundary => breakdown.timing_boundary_micros,
        SeedOrchestrationPhase::SeedSetup => breakdown.seed_setup_micros,
        SeedOrchestrationPhase::SeedFinalization => breakdown.seed_finalization_micros,
    };
    let updated = match current.checked_add(micros) {
        Some(v) => v,
        None => {
            return Err(route_message("native tactic orchestration timing overflowed"));
        },
    };
    match phase {
        SeedOrchestrationPhase::LearnerRefresh => breakdown.learner_refresh_micros = updated,
        SeedOrchestrationPhase::ActionCatalogConstruction => breakdown.action_catalog_construction_micros = updated,
        SeedOrchestrationPhase::GraphSchedulingAndLeasing => breakdown.graph_scheduling_and_leasing_micros = updated,
        SeedOrchestrationPhase::TacticSelection => breakdown.tactic_selection_micros = updated,
        SeedOrchestrationPhase::ResultValidationAndFactExtraction => breakdown.result_validation_and_fact_extraction_micros = updated,
        SeedOrchestrationPhase::CampaignAdmission => breakdown.campaign_admission_micros = updated,
        SeedOrchestrationPhase::DecisionBookkeeping => breakdown.decision_bookkeeping_micros = updated,
        SeedOrchestrationPhase::TimingBoundary => breakdown.timing_boundary_micros = updated,
        SeedOrchestrationPhase::SeedSetup => breakdown.seed_setup_micros = updated,
        SeedOrchestrationPhase::SeedFinalization => breakdown.seed_finalization_micros = updated,
    }
    timing.orchestration_breakdown = Some(breakdown);
    Ok(())
}

/// Adds `micros` to the orchestration phase total.
pub fn record_orchestration_total(timing: &mut NativeTacticRouteTiming, micros: u64) -> (r: Result<(), NativeTacticRouteRunError>)
    ensures
        r is Ok <==> old(timing).orchestration_micros + micros <= u64::MAX,
        r is Ok ==> *final(timing) == (NativeTacticRouteTiming {
            orchestration_micros: (old(timing).orchestration_micros + micros) as u64,
            ..*old(timing)
        }),
        r is Err ==> *final(timing) == *old(timing),
{
    match timing.orchestration_micros.checked_add(micros) {
        Some(v) => {
            timing.orchestration_micros = v;
            Ok(())
        },
        None => Err(route_message("native tactic orchestration total overflowed")),
    }
}

/// The itemized orchestration total, if the seed itemizes orchestration.
pub fn orchestration_detail_total(timing: &NativeTacticRouteTiming) -> (r: Result<Option<u64>, NativeTacticRouteRunError>)
    ensures
        r is Ok <==> (timing.orchestration_breakdown matches Some(b) ==> b.total() <= u64::MAX),
        r matches Ok(total) ==> match timing.orchestration_breakdown {
            Some(b) => total == Some(b.total() as u64),
            None => total is None,
        },
{
    match &timing.orchestration_breakdown {
        Some(b) => match b.checked_total_micros() {
            Some(total) => Ok(Some(total)),
            None => Err(route_message("native tactic orchestration detail overflowed")),
        },
        None => Ok(None),
    }
}

/// Persistence reconciliation of a recovered seed: a gap between the phase
/// and its itemization is made explicit as unattributed persistence, and an
/// itemization that outgrew the phase promotes the phase and its parent.
pub open spec fn spec_reconcile_persistence(t: NativeTacticRouteTiming) -> (NativeTacticRouteTiming, bool) {
    match t.persistence_breakdown {
        None => (t, true),
        Some(b) => {
            let attributed = b.total();
            if t.persistence_micros >= attributed {
                let gap = t.persistence_micros - attributed;
                (
                    NativeTacticRouteTiming {
                        persistence_breakdown: Some(NativeTacticPersistenceTiming { unattributed_micros: (b.unattributed_micros + gap) as u64 }),
                        ..t
                    },
                    true,
                )
            } else {
                let tail = attributed - t.persistence_micros;
                let promoted = NativeTacticRouteTiming { persistence_micros: attributed as u64, ..t };
                if t.evidence_projection_and_persistence_micros + tail <= u64::MAX {
                    (
                        NativeTacticRouteTiming {
                            evidence_projection_and_persistence_micros: (t.evidence_projection_and_persistence_micros + tail) as u64,
                            ..promoted
                        },
                        true,
                    )
                } else {
                    (promoted, false)
                }
            }
        },
    }
}

/// Orchestration reconciliation of a recovered seed: a gap is charged to
/// the explicit timing boundary; an itemization that outgrew the phase
/// promotes the phase total.
pub open spec fn spec_reconcile_orchestration(t: NativeTacticRouteTiming) -> (NativeTacticRouteTiming, bool) {
    match t.orchestration_breakdown {
        None => (t, true),
        Some(b) => {
            let attributed = b.total();
            if attributed > u64::MAX {
                (t, false)
            } else if t.orchestration_micros >= attributed {
                let gap = t.orchestration_micros - attributed;
                if b.timing_boundary_micros + gap <= u64::MAX {
                    (
                        NativeTacticRouteTiming {
                            orchestration_breakdown: Some(NativeTacticOrchestrationTiming {
                                timing_boundary_micros: (b.timing_boundary_micros + gap) as u64,
                                ..b
                            }),
                            ..t
                        },
                        true,
                    )
                } else {
                    (t, false)
                }
            } else {
                (NativeTacticRouteTiming { orchestration_micros: attributed as u64, ..t }, true)
            }
        },
    }
}

/// Wall reconciliation: with consistent itemizations, the remainder of the
/// committed wall beyond the top-level phases is charged to the timing
/// boundary, after which the seed must reconcile exactly.
pub open spec fn spec_reconcile_wall(t: NativeTacticRouteTiming) -> (NativeTacticRouteTiming, bool) {
    if !t.spec_persistence_attribution_is_valid() || !t.spec_orchestration_attribution_is_valid() {
        (t, false)
    } else if t.top_level_total() > u64::MAX || t.top_level_total() > t.wall_micros {
        (t, false)
    } else {
        let boundary = (t.wall_micros - t.top_level_total()) as u64;
        let (detailed, ok) = spec_record_detail(t, SeedOrchestrationPhase::TimingBoundary, boundary);
        if !ok {
            (detailed, false)
        } else if detailed.orchestration_micros + boundary > u64::MAX {
            (detailed, false)
        } else {
            let totaled = NativeTacticRouteTiming { orchestration_micros: (detailed.orchestration_micros + boundary) as u64, ..detailed };
            (totaled, totaled.spec_seed_wall_attribution_is_exact())
        }
    }
}

/// The effect of reconciling a recovered seed's timing: its state when it
/// stops, and whether it succeeded.
pub open spec fn spec_reconcile_recovered_seed_timing(t: NativeTacticRouteTiming) -> (NativeTacticRouteTiming, bool) {
    if t.orchestration_breakdown is None {
        (t, true)
    } else {
        let (p, ok_p) = spec_reconcile_persistence(t);
        if !ok_p {
            (p, false)
        } else {
            let (o, ok_o) = spec_reconcile_orchestration(p);
            if !ok_o {
                (o, false)
            } else {
                spec_reconcile_wall(o)
            }
        }
    }
}

/// A recovery point is committed before the decision journal and its
/// timing tail. Charges the exact recovered gaps to explicit boundaries so
/// that the recovered seed reconciles to its committed wall.
pub fn reconcile_recovered_seed_timing(timing: &mut NativeTacticRouteTiming) -> (r: Result<(), NativeTacticRouteRunError>)
    ensures
        (*final(timing), r is Ok) == spec_reconcile_recovered_seed_timing(*old(timing)),
        r is Ok ==> (old(timing).orchestration_breakdown is Some ==> final(timing).spec_seed_wall_attribution_is_exact()),
{
    if timing.orchestration_breakdown.is_none() {
        return Ok(());
    }
    match timing.persistence_breakdown {
        Some(b) => {
            let attributed = b.unattributed_micros;
            if timing.persistence_micros >= attributed {
                let boundary = timing.persistence_micros - attributed;
                timing.persistence_breakdown = Some(NativeTacticPersistenceTiming { unattributed_micros: b.unattributed_micros + boundary });
            } else {
                let recovered_tail = attributed - timing.persistence_micros;
                timing.persistence_micros = attributed;
                match timing.evidence_projection_and_persistence_micros.checked_add(recovered_tail) {
                    Some(v) => {
                        timing.evidence_projection_and_persistence_micros = v;
                    },
                    None => {
                        return Err(route_message("recovered tactic evidence timing overflowed"));
                    },
                }
            }
        },
        None => {},
    }
    match timing.orchestration_breakdown {
        Some(b) => {
            let attributed = match b.checked_total_micros() {
                Some(v) => v,
                None => {
                    return Err(route_message("recovered tactic orchestration timing overflowed"));
                },
            };
            if timing.orchestration_micros >= attributed {
                let boundary = timing.orchestration_micros - attributed;
                match b.timing_boundary_micros.checked_add(boundary) {
                    Some(v) => {
                        timing.orchestration_breakdown = Some(NativeTacticOrchestrationTiming { timing_boundary_micros: v, ..b });
                    },
                    None => {
                        return Err(route_message("recovered tactic orchestration timing overflowed"));
                    },
                }
            } else {
                timing.orchestration_micros = attributed;
            }
        },
        None => {},
    }
    if !timing.persistence_attribution_is_valid() || !timing.orchestration_attribution_is_valid() {
        return Err(route_message("recovered native tactic phase breakdown is detached"));
    }
    let parts: [u64; 5] = [
        timing.tactic_execution_micros,
        timing.model_update_micros,
        timing.evidence_projection_micros,
        timing.persistence_micros,
        timing.orchestration_micros,
    ];
    proof {
        reveal_with_fuel(seq_sum, 6);
    }
    let attributed = match checked_sum(&parts) {
        Some(v) => v,
        None => {
            return Err(route_message("recovered native tactic phase timing overflowed"));
        },
    };
    if attributed > timing.wall_micros {
        return Err(route_message("recovered native tactic phases exceed their committed wall"));
    }
    let boundary = timing.wall_micros - attributed;
    match record_orchestration_detail(timing, SeedOrchestrationPhase::TimingBoundary, boundary) {
        Ok(()) => {},
        Err(e) => {
            return Err(e);
        },
    }
    match record_orchestration_total(timing, boundary) {
        Ok(()) => {},
        Err(e) => {
            return Err(e);
        },
    }
    if !timing.seed_wall_attribution_is_exact() {
        return Err(route_message("recovered native tactic phases do not reconcile to their committed wall"));
    }
    Ok(())
}


/// Reconciling an already reconciled seed changes nothing: once the
/// phases add up to the wall exactly, every recovered gap is zero.
pub proof fn lemma_reconcile_recovered_seed_timing_is_idempotent(t: NativeTacticRouteTiming)
    requires
        spec_reconcile_recovered_seed_timing(t).1,
    ensures
        spec_reconcile_recovered_seed_timing(spec_reconcile_recovered_seed_timing(t).0)
            == (spec_reconcile_recovered_seed_timing(t).0, true),
{
    let t1 = spec_reconcile_recovered_seed_timing(t).0;
    if t.orchestration_breakdown is Some {
        assert(t1.spec_seed_wall_attribution_is_exact());
        let (p, ok_p) = spec_reconcile_persistence(t1);
        assert(p == t1) by {
            if let Some(b) = t1.persistence_breakdown {
                assert(NativeTacticPersistenceTiming { unattributed_micros: (b.unattributed_micros + 0) as u64 } == b);
            }
        }
        let (o, ok_o) = spec_reconcile_orchestration(p);
        assert(o == t1) by {
            let b = t1.orchestration_breakdown.unwrap();
            assert(NativeTacticOrchestrationTiming { timing_boundary_micros: (b.timing_boundary_micros + 0) as u64, ..b } == b);
        }
        let b = t1.orchestration_breakdown.unwrap();
        assert(with_phase_micros(b, SeedOrchestrationPhase::TimingBoundary, (phase_micros(b, SeedOrchestrationPhase::TimingBoundary) + 0) as u64) == b);
        assert(NativeTacticRouteTiming { orchestration_breakdown: Some(b), ..t1 } == t1);
        assert(NativeTacticRouteTiming { orchestration_micros: (t1.orchestration_micros + 0) as u64, ..t1 } == t1);
    }
}

/// The time between an invocation's route wall and its seed lanes: the
/// durable critical seed lane replaces the lane this invocation measured.
pub fn cumulative_route_wall_micros(
    observed_invocation_wall_micros: u64,
    durable_seed_critical_lane_wall_micros: u64,
    seed_invocation_critical_lane_wall_micros: u64,
) -> (r: Result<u64, NativeTacticRouteRunError>)
    ensures
        r is Ok <==> (seed_invocation_critical_lane_wall_micros <= observed_invocation_wall_micros
            && durable_seed_critical_lane_wall_micros + (observed_invocation_wall_micros - seed_invocation_critical_lane_wall_micros) <= u64::MAX),
        r matches Ok(v) ==> v == durable_seed_critical_lane_wall_micros + (observed_invocation_wall_micros - seed_invocation_critical_lane_wall_micros),
{
    match observed_invocation_wall_micros.checked_sub(seed_invocation_critical_lane_wall_micros) {
        Some(campaign_only) => match durable_seed_critical_lane_wall_micros.checked_add(campaign_only) {
            Some(v) => Ok(v),
            None => Err(route_message("native tactic cumulative route wall timing is detached")),
        },
        None => Err(route_message("native tactic cumulative route wall timing is detached")),
    }
}

/// Charges campaign-level learner time to the route's model phase. The
/// measured learner update must equal its three measured phases; the
/// campaign's share is setup, generation and reconstruction (the seed
/// invocations already charged their own). Nothing changes on failure.
pub fn attribute_campaign_model_timing(
    timing: &mut NativeTacticRouteTiming,
    learner_update_micros: u64,
    learner_reconstruction_micros: u64,
    campaign_setup_model_update_micros: u64,
    generation_model_update_micros: u64,
    seed_invocation_model_update_micros: u64,
) -> (r: Result<u64, NativeTacticRouteRunError>)
    ensures
        r is Ok <==> {
            &&& campaign_setup_model_update_micros + generation_model_update_micros + seed_invocation_model_update_micros <= u64::MAX
            &&& campaign_setup_model_update_micros + generation_model_update_micros + seed_invocation_model_update_micros == learner_update_micros
            &&& campaign_setup_model_update_micros + generation_model_update_micros + learner_reconstruction_micros <= u64::MAX
            &&& old(timing).model_update_micros + campaign_setup_model_update_micros + generation_model_update_micros
                + learner_reconstruction_micros <= u64::MAX
        },
        r matches Ok(v) ==> v == campaign_setup_model_update_micros + generation_model_update_micros + learner_reconstruction_micros,
        r is Ok ==> *final(timing) == (NativeTacticRouteTiming {
            model_update_micros: (old(timing).model_update_micros + campaign_setup_model_update_micros
                + generation_model_update_micros + learner_reconstruction_micros) as u64,
            ..*old(timing)
        }),
        r is Err ==> *final(timing) == *old(timing),
{
    let attributed = match campaign_setup_model_update_micros.checked_add(generation_model_update_micros) {
        Some(t) => t.checked_add(seed_invocation_model_update_micros),
        None => None,
    };
    let attributed = match attributed {
        Some(v) => v,
        None => {
            return Err(route_message("native tactic learner update timing overflowed"));
        },
    };
    if attributed != learner_update_micros {
        return Err(route_message("native tactic learner update timing differs from its measured phases"));
    }
    let campaign = match campaign_setup_model_update_micros.checked_add(generation_model_update_micros) {
        Some(t) => t.checked_add(learner_reconstruction_micros),
        None => None,
    };
    let campaign = match campaign {
        Some(v) => v,
        None => {
            return Err(route_message("native tactic learner timing overflowed"));
        },
    };
    match timing.model_update_micros.checked_add(campaign) {
        Some(v) => {
            timing.model_update_micros = v;
        },
        None => {
            return Err(route_message("native tactic route model timing overflowed"));
        },
    }
    Ok(campaign)
}

/// Campaign-level intervals measured outside the seed lanes.
#[derive(Clone, Copy, Debug, Default, PartialEq, Eq, Structural)]
pub struct CampaignExclusiveTimingInput {
    pub process_launch_micros: u64,
    pub demonstration_execution_micros: u64,
    pub macro_validation_execution_micros: u64,
    pub active_macro_validation_execution_micros: u64,
    pub learner_update_micros: u64,
    pub learner_reconstruction_micros: u64,
    pub campaign_setup_model_update_micros: u64,
    pub generation_model_update_micros: u64,
    pub seed_invocation_model_update_micros: u64,
    pub campaign_setup_wall_micros: u64,
    pub generation_coordination_wall_micros: u64,
    pub campaign_finalization_wall_micros: u64,
}

/// The orchestration the campaign itself spent in setup, generation
/// coordination and finalization, each the remainder of its measured wall.
pub open spec fn campaign_orchestration_parts(input: CampaignExclusiveTimingInput) -> Option<(int, int, int)> {
    let setup_known = input.process_launch_micros + input.demonstration_execution_micros
        + input.campaign_setup_model_update_micros + input.learner_reconstruction_micros;
    let generation_known = input.generation_model_update_micros + input.active_macro_validation_execution_micros;
    if setup_known > u64::MAX || setup_known > input.campaign_setup_wall_micros
        || input.generation_model_update_micros > input.generation_coordination_wall_micros
        || generation_known > input.generation_coordination_wall_micros
        || input.active_macro_validation_execution_micros > input.macro_validation_execution_micros
        || input.macro_validation_execution_micros - input.active_macro_validation_execution_micros > input.campaign_finalization_wall_micros
    {
        None
    } else {
        Some((
            input.campaign_setup_wall_micros - setup_known,
            input.generation_coordination_wall_micros - generation_known,
            input.campaign_finalization_wall_micros - (input.macro_validation_execution_micros - input.active_macro_validation_execution_micros),
        ))
    }
}

/// The campaign's own model-update time: setup and generation updates and
/// the learner's reconstruction.
pub open spec fn campaign_model_micros(input: CampaignExclusiveTimingInput) -> int {
    input.campaign_setup_model_update_micros + input.generation_model_update_micros + input.learner_reconstruction_micros
}

/// The learner's measured update time splits exactly into its setup,
/// generation and seed-invocation phases, and the campaign's model time
/// fits the route timing `t`.
pub open spec fn campaign_model_fits(t: NativeTacticRouteTiming, input: CampaignExclusiveTimingInput) -> bool {
    let attributed = input.campaign_setup_model_update_micros + input.generation_model_update_micros
        + input.seed_invocation_model_update_micros;
    &&& attributed <= u64::MAX
    &&& attributed == input.learner_update_micros
    &&& campaign_model_micros(input) <= u64::MAX
    &&& t.model_update_micros + campaign_model_micros(input) <= u64::MAX
}

/// The route timing after attributing the campaign's own time, or `None`
/// where a phase is detached from its wall, a sum leaves 64 bits, or the
/// itemized orchestration does not reconcile.
pub open spec fn campaign_timing_outcome(
    t: NativeTacticRouteTiming,
    campaign_critical_lane_wall_micros: u64,
    input: CampaignExclusiveTimingInput,
) -> Option<NativeTacticRouteTiming> {
    match campaign_orchestration_parts(input) {
        None => None,
        Some((setup, generation, finalization)) => {
            let orchestration = setup + generation + finalization;
            let accounted = input.process_launch_micros + input.demonstration_execution_micros
                + input.macro_validation_execution_micros + campaign_model_micros(input) + orchestration
                + campaign_critical_lane_wall_micros;
            let boundary = t.wall_micros - accounted;
            let total_orchestration = t.orchestration_micros + orchestration + boundary;
            let breakdown_fits = match t.orchestration_breakdown {
                None => true,
                Some(b) => {
                    &&& b.campaign_setup_micros + setup <= u64::MAX
                    &&& b.generation_replay_and_coordination_micros + generation <= u64::MAX
                    &&& b.campaign_finalization_micros + finalization <= u64::MAX
                    &&& b.timing_boundary_micros + boundary <= u64::MAX
                },
            };
            let breakdown = match t.orchestration_breakdown {
                None => None,
                Some(b) => Some(
                    NativeTacticOrchestrationTiming {
                        campaign_setup_micros: (b.campaign_setup_micros + setup) as u64,
                        generation_replay_and_coordination_micros: (b.generation_replay_and_coordination_micros
                            + generation) as u64,
                        campaign_finalization_micros: (b.campaign_finalization_micros + finalization) as u64,
                        timing_boundary_micros: (b.timing_boundary_micros + boundary) as u64,
                        ..b
                    },
                ),
            };
            let attributed = NativeTacticRouteTiming {
                model_update_micros: (t.model_update_micros + campaign_model_micros(input)) as u64,
                orchestration_micros: total_orchestration as u64,
                orchestration_breakdown: breakdown,
                ..t
            };
            if !campaign_model_fits(t, input) || orchestration > u64::MAX || t.orchestration_micros + orchestration
                > u64::MAX || accounted > u64::MAX || accounted > t.wall_micros || total_orchestration > u64::MAX
                || !breakdown_fits || !attributed.spec_orchestration_attribution_is_valid() {
                None
            } else {
                Some(attributed)
            }
        },
    }
}

fn subtract_or_detached(a: u64, b: u64, message: &str) -> (r: Result<u64, NativeTacticRouteRunError>)
    ensures
        r is Ok <==> b <= a,
        r matches Ok(v) ==> v == a - b,
{
    if b <= a {
        Ok(a - b)
    } else {
        Err(route_message(message))
    }
}

fn add_or_overflow(a: u64, b: u64, message: &str) -> (r: Result<u64, NativeTacticRouteRunError>)
    ensures
        r is Ok <==> a + b <= u64::MAX,
        r matches Ok(v) ==> v == a + b,
{
    match a.checked_add(b) {
        Some(v) => Ok(v),
        None => Err(route_message(message)),
    }
}

/// Attributes the campaign's own time: learner model time, the campaign's
/// orchestration remainders, and the final boundary between every
/// accounted interval (including the campaign's critical seed lane wall)
/// and the route wall. Succeeds only when the itemized orchestration then
/// reconciles.
pub fn attribute_campaign_timing(
    timing: &mut NativeTacticRouteTiming,
    campaign_critical_lane_wall_micros: u64,
    input: CampaignExclusiveTimingInput,
) -> (r: Result<(), NativeTacticRouteRunError>)
    ensures
        r is Ok ==> {
            &&& campaign_orchestration_parts(input) is Some
            &&& final(timing).spec_orchestration_attribution_is_valid()
            &&& final(timing).wall_micros == old(timing).wall_micros
            &&& final(timing).model_update_micros == old(timing).model_update_micros
                + input.campaign_setup_model_update_micros + input.generation_model_update_micros
                + input.learner_reconstruction_micros
            &&& {
                let (setup, generation, finalization) = campaign_orchestration_parts(input).unwrap();
                let accounted = input.process_launch_micros + input.demonstration_execution_micros
                    + input.macro_validation_execution_micros
                    + input.campaign_setup_model_update_micros + input.generation_model_update_micros
                    + input.learner_reconstruction_micros + setup + generation + finalization
                    + campaign_critical_lane_wall_micros;
                &&& accounted <= old(timing).wall_micros
                &&& final(timing).orchestration_micros == old(timing).orchestration_micros + setup + generation
                    + finalization + (old(timing).wall_micros - accounted)
            }
        },
        campaign_orchestration_parts(input) is None ==> r is Err,
        r is Ok <==> campaign_timing_outcome(*old(timing), campaign_critical_lane_wall_micros, input) is Some,
        r is Ok ==> Some(*final(timing)) == campaign_timing_outcome(*old(timing), campaign_critical_lane_wall_micros, input),
{
    let campaign_model = match attribute_campaign_model_timing(
        timing,
        input.learner_update_micros,
        input.learner_reconstruction_micros,
        input.campaign_setup_model_update_micros,
        input.generation_model_update_micros,
        input.seed_invocation_model_update_micros,
    ) {
        Ok(v) => v,
        Err(e) => {
            return Err(e);
        },
    };
    let known_a = add_or_overflow(input.process_launch_micros, input.demonstration_execution_micros, "native tactic campaign setup timing overflowed");
    let known = match known_a {
        Ok(a) => match add_or_overflow(a, input.campaign_setup_model_update_micros, "native tactic campaign setup timing overflowed") {
            Ok(b) => add_or_overflow(b, input.learner_reconstruction_micros, "native tactic campaign setup timing overflowed"),
            Err(e) => Err(e),
        },
        Err(e) => Err(e),
    };
    let setup_known = match known {
        Ok(v) => v,
        Err(e) => {
            return Err(e);
        },
    };
    let setup = match subtract_or_detached(input.campaign_setup_wall_micros, setup_known, "native tactic campaign setup phases exceed setup wall") {
        Ok(v) => v,
        Err(e) => {
            return Err(e);
        },
    };
    let generation_a = match subtract_or_detached(input.generation_coordination_wall_micros, input.generation_model_update_micros, "native tactic generation work exceeds coordination wall") {
        Ok(v) => v,
        Err(e) => {
            return Err(e);
        },
    };
    let generation = match subtract_or_detached(generation_a, input.active_macro_validation_execution_micros, "native tactic generation work exceeds coordination wall") {
        Ok(v) => v,
        Err(e) => {
            return Err(e);
        },
    };
    let final_macro = match subtract_or_detached(input.macro_validation_execution_micros, input.active_macro_validation_execution_micros, "active macro validation exceeds total validation") {
        Ok(v) => v,
        Err(e) => {
            return Err(e);
        },
    };
    let finalization = match subtract_or_detached(input.campaign_finalization_wall_micros, final_macro, "native tactic macro validation exceeds campaign finalization wall") {
        Ok(v) => v,
        Err(e) => {
            return Err(e);
        },
    };
    let orchestration_parts: [u64; 3] = [setup, generation, finalization];
    proof {
        reveal_with_fuel(seq_sum, 4);
        assert(orchestration_parts@.drop_last().drop_last().drop_last() =~= Seq::<u64>::empty());
    }
    let campaign_orchestration = match checked_sum(&orchestration_parts) {
        Some(v) => v,
        None => {
            return Err(route_message("native tactic campaign orchestration timing overflowed"));
        },
    };
    timing.orchestration_micros = match add_or_overflow(timing.orchestration_micros, campaign_orchestration, "native tactic route orchestration timing overflowed") {
        Ok(v) => v,
        Err(e) => {
            return Err(e);
        },
    };
    match timing.orchestration_breakdown {
        Some(b) => {
            let mut b = b;
            b.campaign_setup_micros = match add_or_overflow(b.campaign_setup_micros, setup, "native tactic campaign setup timing overflowed") {
                Ok(v) => v,
                Err(e) => {
                    return Err(e);
                },
            };
            b.generation_replay_and_coordination_micros = match add_or_overflow(b.generation_replay_and_coordination_micros, generation, "native tactic generation timing overflowed") {
                Ok(v) => v,
                Err(e) => {
                    return Err(e);
                },
            };
            b.campaign_finalization_micros = match add_or_overflow(b.campaign_finalization_micros, finalization, "native tactic finalization timing overflowed") {
                Ok(v) => v,
                Err(e) => {
                    return Err(e);
                },
            };
            timing.orchestration_breakdown = Some(b);
        },
        None => {},
    }
    let critical_parts: [u64; 6] = [
        input.process_launch_micros,
        input.demonstration_execution_micros,
        input.macro_validation_execution_micros,
        campaign_model,
        campaign_orchestration,
        campaign_critical_lane_wall_micros,
    ];
    proof {
        reveal_with_fuel(seq_sum, 7);
        assert(critical_parts@.drop_last().drop_last().drop_last().drop_last().drop_last().drop_last() =~= Seq::<u64>::empty());
    }
    let accounted = match checked_sum(&critical_parts) {
        Some(v) => v,
        None => {
            return Err(route_message("native tactic campaign critical timing overflowed"));
        },
    };
    let boundary = match subtract_or_detached(timing.wall_micros, accounted, "native tactic campaign phases exceed route wall") {
        Ok(v) => v,
        Err(e) => {
            return Err(e);
        },
    };
    timing.orchestration_micros = match add_or_overflow(timing.orchestration_micros, boundary, "native tactic route timing boundary overflowed") {
        Ok(v) => v,
        Err(e) => {
            return Err(e);
        },
    };
    match timing.orchestration_breakdown {
        Some(b) => {
            let mut b = b;
            b.timing_boundary_micros = match add_or_overflow(b.timing_boundary_micros, boundary, "native tactic timing boundary overflowed") {
                Ok(v) => v,
                Err(e) => {
                    return Err(e);
                },
            };
            timing.orchestration_breakdown = Some(b);
        },
        None => {},
    }
    if !timing.orchestration_attribution_is_valid() {
        return Err(route_message("native tactic route orchestration detail does not reconcile"));
    }
    Ok(())
}

} // verus!
