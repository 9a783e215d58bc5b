//! The compact campaign summary: identities, treatment, outcome, the
//! learning causal chain, goal-reachability authority, efficiency, timing,
//! lease work and memory, derived from a route report and its plan.

use crate::bytes::{append_bytes, push_u64_le};
use crate::decisions::{
    decisions_of, distinct_consumed_snapshots, distinct_snapshots, seed_tally_of, tally_of, tally_seed_results,
    tally_seeds, DecisionTally, NativeTacticStopReasonCounts, SeedTally, lemma_stop_counts_are_occurrences,
    saturated, seeds_stopped_for,
};
use crate::digest::{digest_bytes, sha256_of, Digest};
use crate::epsilon::{distinct_lane_rates, lane_exploration_rates, lemma_ascending_sets_equal};
use crate::error::{route_message, NativeTacticRouteRunError};
use crate::execution_plan::{
    saturate_u64, saturating_mul_u64, NativeGenericExecutionStrategy, NativeTacticExecutionPlan, NativeTacticPlanBudgets, NativeTacticResourceLimit,
    TacticProposalPolicy, TacticValueTreatment,
};
use crate::report::{
    NativeTacticSeedStopReason,
    spec_current_route_report_schema, supports_current_route_report_schema, u64s_equal, NativeTacticRouteReport,
    NATIVE_TACTIC_ROUTE_REPORT_SCHEMA_V44,
};
use crate::text::text_eq;
use vstd::bytes::spec_u64_to_le_bytes;
use vstd::prelude::*;

verus! {

pub const NATIVE_TACTIC_CAMPAIGN_SUMMARY_SCHEMA_V1: &'static str = "dusklight-native-tactic-campaign-summary/v1";
pub const NATIVE_TACTIC_CAMPAIGN_SUMMARY_SCHEMA_V2: &'static str = "dusklight-native-tactic-campaign-summary/v2";
pub const NATIVE_TACTIC_CAMPAIGN_SUMMARY_SCHEMA_V3: &'static str = "dusklight-native-tactic-campaign-summary/v3";
pub const NATIVE_TACTIC_CAMPAIGN_SUMMARY_SCHEMA_V4: &'static str = "dusklight-native-tactic-campaign-summary/v4";
pub const NATIVE_TACTIC_CAMPAIGN_SUMMARY_SCHEMA_V5: &'static str = "dusklight-native-tactic-campaign-summary/v5";
pub const NATIVE_TACTIC_CAMPAIGN_SUMMARY_SCHEMA_V6: &'static str = "dusklight-native-tactic-campaign-summary/v6";
pub const NATIVE_TACTIC_CAMPAIGN_SUMMARY_FILE: &'static str = "campaign-summary.json";

/// The links of the learning causal chain, in the order they must hold.
#[derive(Clone, Copy, Debug, PartialEq, Eq, Structural)]
pub enum NativeTacticCausalLink {
    ObservedState,
    LegalActionSurface,
    NativeExploration,
    ExperiencePublication,
    LearnerUpdate,
    PolicyDeployment,
    PolicyEffect,
}

#[derive(Clone, Copy, Debug)]
pub struct NativeTacticCampaignIdentities {
    pub optimization_request_sha256: Digest,
    pub execution_binding_sha256: Digest,
    pub execution_plan_sha256: Digest,
    pub objective_sha256: Digest,
    pub feature_schema_sha256: Digest,
    pub action_schema_sha256: Digest,
    pub replay_snapshot_sha256: Digest,
    pub learner_snapshot_sha256: Digest,
}

#[derive(Clone, Debug)]
pub struct NativeTacticCampaignTreatmentSummary {
    pub proposal_policy: TacticProposalPolicy,
    pub value_treatment: TacticValueTreatment,
    pub execution_strategy: NativeGenericExecutionStrategy,
    pub seeds: Vec<u64>,
    pub workers: usize,
    pub proposal_width_per_decision: usize,
    pub decisions_per_seed: u64,
    pub branch_every_decisions: u64,
    pub refit_every_decisions: u64,
    pub root_refresh_cadence: u32,
    pub epsilon_per_million: Vec<u32>,
    pub demonstration_chunk_ticks: Option<u32>,
    pub demonstration_transitions: u64,
    pub resource_budgets: NativeTacticPlanBudgets,
}

/// Outcomes. A terminal proposal is an authenticated terminal among all
/// evaluated proposals; a selected terminal decision is one whose retained
/// proposal terminated, which is policy adoption and not by itself causal
/// proof that learning produced the choice.
#[derive(Clone, Copy, Debug, PartialEq, Eq, Structural)]
pub struct NativeTacticCampaignOutcomeSummary {
    pub terminal_seeds: u64,
    pub terminal_proposals: u64,
    pub selected_terminal_decisions: u64,
    pub selected_terminal_seeds: u64,
    pub seed_count: u64,
    pub best_authenticated_tick: Option<u64>,
    pub median_time_to_first_terminal_micros: Option<u64>,
    pub worst_time_to_first_terminal_micros: Option<u64>,
    pub total_decisions: u64,
    pub total_proposals: u64,
    pub total_native_ticks: u64,
    pub useful_decisions: u64,
    pub unique_useful_graph_expansions: u64,
    pub stop_reasons: NativeTacticStopReasonCounts,
}

/// The learning causal chain. A single treatment can show that an updated
/// policy was deployed; only the matched learned/control comparison can
/// attribute an outcome change to learning.
#[derive(Clone, Copy, Debug, PartialEq, Eq, Structural)]
pub struct NativeTacticCampaignCausalSummary {
    pub learning_expected: bool,
    pub decisions_with_observed_state: u64,
    pub decisions_with_complete_action_surface: u64,
    pub decisions_with_native_proposals: u64,
    pub realized_native_proposals: u64,
    pub newly_published_training_rows: u64,
    pub final_training_replay_rows: u64,
    pub learner_updates: u64,
    pub model_snapshots_published: u64,
    pub model_snapshots_consumed: u64,
    pub distinct_model_snapshots_consumed: u64,
    pub post_update_policy_decisions: u64,
    pub policy_update_probes: u64,
    pub valid_policy_update_probes: u64,
    pub selected_action_changes_from_policy_update: u64,
    pub selected_action_changes_at_model_change: u64,
    pub causal_chain_ready_for_matched_evaluation: bool,
    pub first_incomplete_link: Option<NativeTacticCausalLink>,
    pub outcome_effect_requires_matched_control: bool,
}

#[derive(Clone, Copy, Debug, PartialEq, Eq, Structural)]
pub struct NativeTacticCampaignGoalReachabilitySummary {
    pub calibration_authority_enforced: bool,
    pub calibration_decisions: u64,
    pub deployment_ready_decisions: u64,
    pub deployment_blocked_decisions: u64,
    pub action_evidence_decisions: u64,
    pub action_policy_authorized_decisions: u64,
    pub action_policy_blocked_decisions: u64,
    pub unproven_action_policy_deployments: u64,
    pub frontier_evidence_decisions: u64,
    pub frontier_policy_authorized_decisions: u64,
    pub frontier_policy_blocked_decisions: u64,
    pub unproven_frontier_policy_deployments: u64,
    pub reachability_primary_decisions: u64,
    pub unproven_reachability_primary_decisions: u64,
    pub most_mature_source_transitions: u64,
    pub most_mature_source_state_groups: u64,
    pub most_mature_evaluated_action_predictions: u64,
    pub most_mature_comparable_state_groups: u64,
    pub most_mature_ranking_wins: u64,
    pub most_mature_ranking_win_rate_millionths: Option<u64>,
    pub most_mature_chance_win_rate_millionths: Option<u64>,
    pub most_mature_wilson_lower_bound_millionths: Option<u64>,
    pub most_mature_mean_observed_regret_millionths: Option<u64>,
    pub most_mature_mean_absolute_progress_error_millionths: Option<u64>,
    pub most_mature_progress_sign_accuracy_millionths: Option<u64>,
    pub most_mature_deployment_ready: bool,
}

#[derive(Clone, Copy, Debug, PartialEq, Eq, Structural)]
pub struct NativeTacticCampaignEfficiencySummary {
    pub useful_expansions_per_second_millionths: u64,
    pub native_ticks_per_second_millionths: u64,
    pub learner_updates_per_second_millionths: u64,
    pub native_worker_utilization_per_million: u64,
    pub maximum_model_replay_lag_revisions: u64,
    pub maximum_observed_stale_revisions: u64,
}

#[derive(Clone, Copy, Debug, PartialEq, Eq, Structural)]
pub struct NativeTacticCampaignTimingSummary {
    pub wall_micros: u64,
    pub process_launch_micros: u64,
    pub tactic_selection_micros: u64,
    pub checkpoint_branching_micros: u64,
    pub native_wait_micros: u64,
    pub native_simulation_occupancy_micros: u64,
    pub ipc_and_result_transport_micros: u64,
    pub native_observation_capture_micros: u64,
    pub native_corpus_encoding_micros: u64,
    pub rust_state_extraction_micros: u64,
    pub model_update_micros: u64,
    pub evidence_projection_micros: u64,
    pub persistence_micros: u64,
    pub orchestration_micros: u64,
    pub reporting_micros: u64,
}

#[derive(Clone, Copy, Debug, PartialEq, Eq, Structural)]
pub struct NativeTacticCampaignWorkSummary {
    pub lease_accounting_complete: bool,
    pub proposal_dispatches: u64,
    pub completed_leases: u64,
    pub retryable_leases: u64,
    pub cancelled_leases: u64,
    pub failed_leases: u64,
    pub unresolved_leases: u64,
    pub discarded_proposals: u64,
    pub replay_duplicate_admissions: u64,
    pub duplicate_training_transitions: u64,
    pub censored_training_transitions: u64,
}

#[derive(Clone, Copy, Debug, PartialEq, Eq, Structural)]
pub struct NativeTacticCampaignResourceSummary {
    pub memory_budget_bytes: Option<u64>,
    pub checkpoint_cache_capacity_per_worker_bytes: u64,
    pub peak_worker_resident_bytes: u64,
    pub peak_checkpoint_bytes: u64,
    pub peak_host_snapshot_bytes: u64,
    pub peak_live_endpoint_entries: u64,
    pub peak_live_endpoint_host_snapshot_bytes: u64,
    pub memory_bound_satisfied: bool,
}

#[derive(Clone, Debug)]
pub struct NativeTacticCampaignSummary {
    pub schema: String,
    pub content_sha256: Digest,
    pub route_report_sha256: Digest,
    pub identities: NativeTacticCampaignIdentities,
    pub treatment: NativeTacticCampaignTreatmentSummary,
    pub outcome: NativeTacticCampaignOutcomeSummary,
    pub causal_chain: NativeTacticCampaignCausalSummary,
    pub goal_reachability: NativeTacticCampaignGoalReachabilitySummary,
    pub efficiency: NativeTacticCampaignEfficiencySummary,
    pub timing: NativeTacticCampaignTimingSummary,
    pub work: NativeTacticCampaignWorkSummary,
    pub resources: NativeTacticCampaignResourceSummary,
}

/// `numerator / denominator` in millionths, rounded down, saturating; zero
/// for a zero denominator.
pub open spec fn ratio_per_million(numerator: u64, denominator: u64) -> u64 {
    if denominator == 0 {
        0
    } else {
        let q = (numerator * 1_000_000) / (denominator as int);
        if q > u64::MAX { u64::MAX } else { q as u64 }
    }
}

pub fn ratio_per_million_of(numerator: u64, denominator: u64) -> (r: u64)
    ensures
        r == ratio_per_million(numerator, denominator),
{
    if denominator == 0 {
        return 0;
    }
    let q: u128 = (numerator as u128) * 1_000_000u128 / (denominator as u128);
    if q > u64::MAX as u128 { u64::MAX } else { q as u64 }
}

pub open spec fn identities_match(a: NativeTacticCampaignIdentities, r: NativeTacticRouteReport) -> bool {
    &&& a.optimization_request_sha256.0@ == r.optimization_request_sha256.0@
    &&& a.execution_binding_sha256.0@ == r.execution_binding_sha256.0@
    &&& a.execution_plan_sha256.0@ == r.execution_plan_sha256.0@
    &&& a.objective_sha256.0@ == r.objective_sha256.0@
    &&& a.feature_schema_sha256.0@ == r.feature_schema_sha256.0@
    &&& a.action_schema_sha256.0@ == r.action_schema_sha256.0@
    &&& a.replay_snapshot_sha256.0@ == r.replay_snapshot_sha256.0@
    &&& a.learner_snapshot_sha256.0@ == r.learner_authority.latest_model_snapshot_sha256.0@
}

pub open spec fn treatment_matches(
    t: NativeTacticCampaignTreatmentSummary,
    r: NativeTacticRouteReport,
    plan: NativeTacticExecutionPlan,
) -> bool {
    &&& t.proposal_policy == r.proposal_policy
    &&& t.value_treatment == r.value_treatment
    &&& t.execution_strategy == r.execution_strategy
    &&& t.seeds@ == r.exploration_seeds@
    &&& t.workers == r.workers
    &&& t.proposal_width_per_decision == plan.proposal_width_per_decision
    &&& t.decisions_per_seed == r.decisions_per_seed
    &&& t.branch_every_decisions == plan.branch_every_decisions
    &&& t.refit_every_decisions == r.refit_every_decisions
    &&& t.root_refresh_cadence == plan.root_refresh_cadence
    &&& distinct_lane_rates(t.epsilon_per_million@, plan.lanes@)
    &&& t.demonstration_chunk_ticks == plan.demonstration_chunk_ticks
    &&& t.demonstration_transitions == r.demonstration_transitions
    &&& t.resource_budgets == r.resource_budgets
}

pub open spec fn is_v44(r: NativeTacticRouteReport) -> bool {
    r.schema@ == NATIVE_TACTIC_ROUTE_REPORT_SCHEMA_V44@
}

pub open spec fn spec_outcome(r: NativeTacticRouteReport, t: DecisionTally, s: SeedTally) -> NativeTacticCampaignOutcomeSummary {
    NativeTacticCampaignOutcomeSummary {
        terminal_seeds: r.terminal_seeds,
        terminal_proposals: if is_v44(r) { t.terminal_proposals } else { 0 },
        selected_terminal_decisions: if is_v44(r) { t.selected_terminal_decisions } else { 0 },
        selected_terminal_seeds: if is_v44(r) { s.selected_terminal_seeds } else { 0 },
        seed_count: r.seeds@.len() as u64,
        best_authenticated_tick: r.best_authenticated_tick,
        median_time_to_first_terminal_micros: r.median_time_to_first_terminal_micros,
        worst_time_to_first_terminal_micros: r.worst_time_to_first_terminal_micros,
        total_decisions: r.total_decisions,
        total_proposals: t.total_proposals,
        total_native_ticks: r.total_native_ticks,
        useful_decisions: r.useful_decisions,
        unique_useful_graph_expansions: r.unique_useful_graph_expansions,
        stop_reasons: s.stop_reasons,
    }
}

/// The first link of the learning chain that the campaign's evidence does
/// not establish, if any.
pub open spec fn first_incomplete_link(
    r: NativeTacticRouteReport,
    t: DecisionTally,
    s: SeedTally,
    distinct: u64,
) -> Option<NativeTacticCausalLink> {
    let learning = r.proposal_policy.spec_deploys_policy_updates();
    let n = t.decisions;
    if n == 0 || t.decisions_with_observed_state != n {
        Some(NativeTacticCausalLink::ObservedState)
    } else if t.decisions_with_complete_action_surface != n {
        Some(NativeTacticCausalLink::LegalActionSurface)
    } else if t.decisions_with_native_proposals != n || t.total_proposals == 0 {
        Some(NativeTacticCausalLink::NativeExploration)
    } else if learning && t.newly_published_training_rows == 0 {
        Some(NativeTacticCausalLink::ExperiencePublication)
    } else if learning && r.learner_updates == 0 {
        Some(NativeTacticCausalLink::LearnerUpdate)
    } else if learning && (r.learner_authority.declared_model_snapshots_consumed == 0 || distinct < 2
        || s.post_update_policy_decisions == 0) {
        Some(NativeTacticCausalLink::PolicyDeployment)
    } else if learning && is_v44(r) && (t.policy_update_probes == 0 || t.valid_policy_update_probes
        != t.policy_update_probes || t.selected_action_changes_from_policy_update == 0) {
        Some(NativeTacticCausalLink::PolicyEffect)
    } else {
        None
    }
}

pub open spec fn spec_causal(r: NativeTacticRouteReport, t: DecisionTally, s: SeedTally, distinct: u64) -> NativeTacticCampaignCausalSummary {
    let learning = r.proposal_policy.spec_deploys_policy_updates();
    let link = first_incomplete_link(r, t, s, distinct);
    NativeTacticCampaignCausalSummary {
        learning_expected: learning,
        decisions_with_observed_state: t.decisions_with_observed_state,
        decisions_with_complete_action_surface: t.decisions_with_complete_action_surface,
        decisions_with_native_proposals: t.decisions_with_native_proposals,
        realized_native_proposals: t.total_proposals,
        newly_published_training_rows: t.newly_published_training_rows,
        final_training_replay_rows: r.learner_authority.latest_training_replay_rows,
        learner_updates: r.learner_updates,
        model_snapshots_published: r.learner_authority.model_snapshots_published,
        model_snapshots_consumed: r.learner_authority.declared_model_snapshots_consumed,
        distinct_model_snapshots_consumed: distinct,
        post_update_policy_decisions: s.post_update_policy_decisions,
        policy_update_probes: t.policy_update_probes,
        valid_policy_update_probes: t.valid_policy_update_probes,
        selected_action_changes_from_policy_update: t.selected_action_changes_from_policy_update,
        selected_action_changes_at_model_change: s.selected_action_changes_at_model_change,
        causal_chain_ready_for_matched_evaluation: link is None,
        first_incomplete_link: link,
        outcome_effect_requires_matched_control: learning,
    }
}

pub open spec fn spec_goal(r: NativeTacticRouteReport, t: DecisionTally) -> NativeTacticCampaignGoalReachabilitySummary {
    let m = t.most_mature;
    NativeTacticCampaignGoalReachabilitySummary {
        calibration_authority_enforced: spec_current_route_report_schema(r.schema@),
        calibration_decisions: t.calibration_decisions,
        deployment_ready_decisions: t.deployment_ready_decisions,
        deployment_blocked_decisions: t.deployment_blocked_decisions,
        action_evidence_decisions: t.action_evidence_decisions,
        action_policy_authorized_decisions: t.action_policy_authorized_decisions,
        action_policy_blocked_decisions: t.action_policy_blocked_decisions,
        unproven_action_policy_deployments: t.unproven_action_policy_deployments,
        frontier_evidence_decisions: t.frontier_evidence_decisions,
        frontier_policy_authorized_decisions: t.frontier_policy_authorized_decisions,
        frontier_policy_blocked_decisions: t.frontier_policy_blocked_decisions,
        unproven_frontier_policy_deployments: t.unproven_frontier_policy_deployments,
        reachability_primary_decisions: t.reachability_primary_decisions,
        unproven_reachability_primary_decisions: t.unproven_reachability_primary_decisions,
        most_mature_source_transitions: if m is Some { m->0.source_transitions } else { 0 },
        most_mature_source_state_groups: if m is Some { m->0.source_state_groups } else { 0 },
        most_mature_evaluated_action_predictions: if m is Some { m->0.evaluated_action_predictions } else { 0 },
        most_mature_comparable_state_groups: if m is Some { m->0.comparable_state_groups } else { 0 },
        most_mature_ranking_wins: if m is Some { m->0.ranking_wins } else { 0 },
        most_mature_ranking_win_rate_millionths: if m is Some { m->0.ranking_win_rate_millionths } else { None },
        most_mature_chance_win_rate_millionths: if m is Some { m->0.chance_win_rate_millionths } else { None },
        most_mature_wilson_lower_bound_millionths: if m is Some { m->0.wilson_lower_bound_millionths } else { None },
        most_mature_mean_observed_regret_millionths: if m is Some { m->0.mean_observed_regret_millionths } else { None },
        most_mature_mean_absolute_progress_error_millionths: if m is Some {
            m->0.mean_absolute_progress_error_millionths
        } else {
            None
        },
        most_mature_progress_sign_accuracy_millionths: if m is Some {
            m->0.progress_sign_accuracy_millionths
        } else {
            None
        },
        most_mature_deployment_ready: m is Some && m->0.deployment_ready,
    }
}

pub open spec fn spec_efficiency(r: NativeTacticRouteReport) -> NativeTacticCampaignEfficiencySummary {
    let capacity = saturate_u64(r.timing.tactic_execution_micros * (r.workers as u64));
    let utilization = ratio_per_million(r.timing.native_simulation_micros, capacity);
    NativeTacticCampaignEfficiencySummary {
        useful_expansions_per_second_millionths: r.timing.unique_useful_graph_expansions_per_second_millionths,
        native_ticks_per_second_millionths: r.timing.native_ticks_per_second_millionths,
        learner_updates_per_second_millionths: r.learner_updates_per_second_millionths,
        native_worker_utilization_per_million: if utilization > 1_000_000 { 1_000_000 } else { utilization },
        maximum_model_replay_lag_revisions: r.replay_sharing.maximum_model_replay_lag_revisions,
        maximum_observed_stale_revisions: r.replay_sharing.maximum_observed_stale_revisions,
    }
}

pub open spec fn spec_timing(r: NativeTacticRouteReport) -> NativeTacticCampaignTimingSummary {
    NativeTacticCampaignTimingSummary {
        wall_micros: r.timing.wall_micros,
        process_launch_micros: r.timing.process_launch_micros,
        tactic_selection_micros: r.timing.tactic_selection_micros,
        checkpoint_branching_micros: r.timing.checkpoint_branching_micros,
        native_wait_micros: r.timing.tactic_execution_micros,
        native_simulation_occupancy_micros: r.timing.native_simulation_micros,
        ipc_and_result_transport_micros: r.timing.ipc_and_result_transport_micros,
        native_observation_capture_micros: r.timing.native_observation_capture_micros,
        native_corpus_encoding_micros: r.timing.native_corpus_encoding_micros,
        rust_state_extraction_micros: r.timing.rust_state_extraction_micros,
        model_update_micros: r.timing.model_update_micros,
        evidence_projection_micros: r.timing.evidence_projection_micros,
        persistence_micros: r.timing.persistence_micros,
        orchestration_micros: r.timing.orchestration_micros,
        reporting_micros: r.timing.reporting_micros,
    }
}

/// Lease work: summed from every seed's lease accounting when all seeds
/// carry it, otherwise every proposal is counted as one completed lease.
pub open spec fn spec_work(r: NativeTacticRouteReport, t: DecisionTally, s: SeedTally) -> NativeTacticCampaignWorkSummary {
    let complete = s.lease_accounting_complete;
    NativeTacticCampaignWorkSummary {
        lease_accounting_complete: complete,
        proposal_dispatches: if complete { s.leases.proposal_dispatches } else { t.total_proposals },
        completed_leases: if complete { s.leases.completed_leases } else { t.total_proposals },
        retryable_leases: if complete { s.leases.retryable_leases } else { 0 },
        cancelled_leases: if complete { s.leases.cancelled_leases } else { 0 },
        failed_leases: if complete { s.leases.failed_leases } else { 0 },
        unresolved_leases: if complete { s.leases.unresolved_leases } else { 0 },
        discarded_proposals: t.discarded_proposals,
        replay_duplicate_admissions: r.replay_duplicate_admissions,
        duplicate_training_transitions: r.duplicate_training_transitions,
        censored_training_transitions: r.censored_training_transitions,
    }
}

pub open spec fn memory_budget(r: NativeTacticRouteReport) -> Option<u64> {
    match r.resource_budgets.memory_bytes {
        NativeTacticResourceLimit::Bounded(v) => Some(v),
        NativeTacticResourceLimit::Unbounded => None,
    }
}

pub open spec fn spec_resources(r: NativeTacticRouteReport) -> NativeTacticCampaignResourceSummary {
    let budget = memory_budget(r);
    let peak = r.native_restore_accounting.peak_resident_bytes;
    NativeTacticCampaignResourceSummary {
        memory_budget_bytes: budget,
        checkpoint_cache_capacity_per_worker_bytes: r.checkpoint_cache_capacity_per_worker_bytes,
        peak_worker_resident_bytes: peak,
        peak_checkpoint_bytes: r.native_restore_accounting.peak_resident_checkpoint_bytes,
        peak_host_snapshot_bytes: r.native_restore_accounting.peak_resident_host_snapshot_bytes,
        peak_live_endpoint_entries: r.native_restore_accounting.peak_live_endpoint_entries,
        peak_live_endpoint_host_snapshot_bytes: r.native_restore_accounting.peak_live_endpoint_host_snapshot_bytes,
        memory_bound_satisfied: budget matches Some(bound) ==> peak <= bound,
    }
}

/// The plan the summary is built from is the plan the route ran.
pub open spec fn plan_attached(r: NativeTacticRouteReport, plan: NativeTacticExecutionPlan, plan_identity: Digest) -> bool {
    &&& plan_identity.0@ == r.execution_plan_sha256.0@
    &&& plan.seeds@ == r.exploration_seeds@
    &&& plan.proposal_policy == r.proposal_policy
    &&& plan.value_treatment == r.value_treatment
    &&& plan.execution_strategy == r.execution_strategy
    &&& plan.budgets == r.resource_budgets
}

/// Every field but the content digest is what the route report and plan
/// determine.
pub open spec fn summary_matches_build(
    s: NativeTacticCampaignSummary,
    r: NativeTacticRouteReport,
    plan: NativeTacticExecutionPlan,
    route_report_sha256: Digest,
) -> bool {
    let t = tally_of(decisions_of(r.seeds@));
    let st = seed_tally_of(r.seeds@);
    let distinct = distinct_snapshots(decisions_of(r.seeds@)) as u64;
    &&& s.schema@ == if is_v44(r) {
        NATIVE_TACTIC_CAMPAIGN_SUMMARY_SCHEMA_V6@
    } else {
        NATIVE_TACTIC_CAMPAIGN_SUMMARY_SCHEMA_V4@
    }
    &&& s.route_report_sha256.0@ == route_report_sha256.0@
    &&& identities_match(s.identities, r)
    &&& treatment_matches(s.treatment, r, plan)
    &&& s.outcome == spec_outcome(r, t, st)
    &&& s.causal_chain == spec_causal(r, t, st, distinct)
    &&& s.goal_reachability == spec_goal(r, t)
    &&& s.efficiency == spec_efficiency(r)
    &&& s.timing == spec_timing(r)
    &&& s.work == spec_work(r, t, st)
    &&& s.resources == spec_resources(r)
}

/// The internal consistency a summary must show, apart from its seal.
pub open spec fn summary_conditions(s: NativeTacticCampaignSummary) -> bool {
    let v4 = s.schema@ == NATIVE_TACTIC_CAMPAIGN_SUMMARY_SCHEMA_V4@;
    let v5 = s.schema@ == NATIVE_TACTIC_CAMPAIGN_SUMMARY_SCHEMA_V5@;
    let v6 = s.schema@ == NATIVE_TACTIC_CAMPAIGN_SUMMARY_SCHEMA_V6@;
    let o = s.outcome;
    let c = s.causal_chain;
    let g = s.goal_reachability;
    let w = s.work;
    let i = s.identities;
    &&& v4 || v5 || v6
    &&& !s.content_sha256.spec_is_zero()
    &&& !s.route_report_sha256.spec_is_zero()
    &&& !i.optimization_request_sha256.spec_is_zero()
    &&& !i.execution_binding_sha256.spec_is_zero()
    &&& !i.execution_plan_sha256.spec_is_zero()
    &&& !i.objective_sha256.spec_is_zero()
    &&& !i.feature_schema_sha256.spec_is_zero()
    &&& !i.action_schema_sha256.spec_is_zero()
    &&& !i.replay_snapshot_sha256.spec_is_zero()
    &&& !i.learner_snapshot_sha256.spec_is_zero()
    &&& s.treatment.seeds@.len() > 0
    &&& s.treatment.workers != 0
    &&& s.treatment.proposal_width_per_decision != 0
    &&& s.treatment.decisions_per_seed != 0
    &&& o.seed_count == s.treatment.seeds@.len()
    &&& o.selected_terminal_seeds <= o.terminal_seeds
    &&& o.selected_terminal_decisions <= o.terminal_proposals
    &&& o.selected_terminal_seeds <= o.selected_terminal_decisions
    &&& o.selected_terminal_decisions <= o.total_decisions
    &&& !v6 ==> (o.terminal_proposals == 0 && o.selected_terminal_decisions == 0 && o.selected_terminal_seeds == 0)
    &&& v6 ==> (o.terminal_seeds <= o.terminal_proposals && ((o.terminal_seeds == 0) == (o.terminal_proposals == 0)))
    &&& o.useful_decisions <= o.total_decisions
    &&& s.efficiency.native_worker_utilization_per_million <= 1_000_000
    &&& w.proposal_dispatches == w.completed_leases.saturating_add(w.retryable_leases).saturating_add(
        w.cancelled_leases,
    ).saturating_add(w.failed_leases).saturating_add(w.unresolved_leases)
    &&& c.causal_chain_ready_for_matched_evaluation == (c.first_incomplete_link is None)
    &&& c.valid_policy_update_probes <= c.policy_update_probes
    &&& c.selected_action_changes_from_policy_update <= c.valid_policy_update_probes
    &&& (c.learning_expected || c.policy_update_probes == 0)
    &&& !((v5 || v6) && c.learning_expected && c.causal_chain_ready_for_matched_evaluation && (c.policy_update_probes
        == 0 || c.valid_policy_update_probes != c.policy_update_probes
        || c.selected_action_changes_from_policy_update == 0))
    &&& g.calibration_decisions == g.deployment_ready_decisions.saturating_add(g.deployment_blocked_decisions)
    &&& g.action_evidence_decisions == g.action_policy_authorized_decisions.saturating_add(
        g.action_policy_blocked_decisions,
    )
    &&& g.frontier_evidence_decisions == g.frontier_policy_authorized_decisions.saturating_add(
        g.frontier_policy_blocked_decisions,
    )
    &&& g.calibration_authority_enforced ==> (g.unproven_reachability_primary_decisions == 0
        && g.unproven_action_policy_deployments == 0 && g.unproven_frontier_policy_deployments == 0)
}

/// The domain prefix of a summary's content identity.
pub open spec fn summary_domain() -> Seq<u8> {
    seq![
        0x64u8, 0x75u8, 0x73u8, 0x6bu8, 0x6cu8, 0x69u8, 0x67u8, 0x68u8, 0x74u8, 0x2du8, 0x6eu8, 0x61u8, 0x74u8,
        0x69u8, 0x76u8, 0x65u8, 0x2du8, 0x74u8, 0x61u8, 0x63u8, 0x74u8, 0x69u8, 0x63u8, 0x2du8, 0x63u8, 0x61u8,
        0x6du8, 0x70u8, 0x61u8, 0x69u8, 0x67u8, 0x6eu8, 0x2du8, 0x73u8, 0x75u8, 0x6du8, 0x6du8, 0x61u8, 0x72u8,
        0x79u8, 0x2fu8, 0x76u8, 0x34u8, 0x00u8
    ]
}

/// The bytes a summary's content digest is taken over: the domain, the
/// length of the serialized unsealed summary, and that serialization.
pub open spec fn summary_identity_bytes(unsigned_json: Seq<u8>) -> Seq<u8> {
    summary_domain() + spec_u64_to_le_bytes(unsigned_json.len() as u64) + unsigned_json
}

/// The content digest of a summary whose unsealed serialization is
/// `unsigned_json`.
pub fn summary_content_digest(unsigned_json: &[u8]) -> (d: Digest)
    ensures
        d.0@ == sha256_of(summary_identity_bytes(unsigned_json@)),
{
    let mut bytes: Vec<u8> = vec![
        0x64u8, 0x75u8, 0x73u8, 0x6bu8, 0x6cu8, 0x69u8, 0x67u8, 0x68u8, 0x74u8, 0x2du8, 0x6eu8, 0x61u8, 0x74u8,
        0x69u8, 0x76u8, 0x65u8, 0x2du8, 0x74u8, 0x61u8, 0x63u8, 0x74u8, 0x69u8, 0x63u8, 0x2du8, 0x63u8, 0x61u8,
        0x6du8, 0x70u8, 0x61u8, 0x69u8, 0x67u8, 0x6eu8, 0x2du8, 0x73u8, 0x75u8, 0x6du8, 0x6du8, 0x61u8, 0x72u8,
        0x79u8, 0x2fu8, 0x76u8, 0x34u8, 0x00u8,
    ];
    assert(bytes@ =~= summary_domain());
    push_u64_le(&mut bytes, unsigned_json.len() as u64);
    append_bytes(&mut bytes, unsigned_json);
    assert(bytes@ =~= summary_identity_bytes(unsigned_json@));
    digest_bytes(bytes.as_slice())
}

fn copy_u64s(values: &Vec<u64>) -> (r: Vec<u64>)
    ensures
        r@ == values@,
{
    let mut out: Vec<u64> = Vec::new();
    let mut i: usize = 0;
    while i < values.len()
        invariant
            i <= values@.len(),
            out@ == values@.take(i as int),
        decreases values@.len() - i,
    {
        out.push(values[i]);
        i = i + 1;
        assert(out@ =~= values@.take(i as int));
    }
    assert(values@.take(values@.len() as int) =~= values@);
    out
}

fn u32s_equal(a: &Vec<u32>, b: &Vec<u32>) -> (r: bool)
    ensures
        r == (a@ == b@),
{
    if a.len() != b.len() {
        return false;
    }
    let mut i: usize = 0;
    while i < a.len()
        invariant
            a@.len() == b@.len(),
            i <= a@.len(),
            forall|j: int| 0 <= j < i ==> a@[j] == b@[j],
        decreases a@.len() - i,
    {
        if a[i] != b[i] {
            return false;
        }
        i = i + 1;
    }
    assert(a@ =~= b@);
    true
}

fn identities_equal(a: &NativeTacticCampaignIdentities, b: &NativeTacticCampaignIdentities) -> (r: bool)
    ensures
        r == (a.optimization_request_sha256.0@ == b.optimization_request_sha256.0@
            && a.execution_binding_sha256.0@ == b.execution_binding_sha256.0@
            && a.execution_plan_sha256.0@ == b.execution_plan_sha256.0@
            && a.objective_sha256.0@ == b.objective_sha256.0@
            && a.feature_schema_sha256.0@ == b.feature_schema_sha256.0@
            && a.action_schema_sha256.0@ == b.action_schema_sha256.0@
            && a.replay_snapshot_sha256.0@ == b.replay_snapshot_sha256.0@
            && a.learner_snapshot_sha256.0@ == b.learner_snapshot_sha256.0@),
{
    a.optimization_request_sha256.same_as(&b.optimization_request_sha256)
        && a.execution_binding_sha256.same_as(&b.execution_binding_sha256)
        && a.execution_plan_sha256.same_as(&b.execution_plan_sha256)
        && a.objective_sha256.same_as(&b.objective_sha256)
        && a.feature_schema_sha256.same_as(&b.feature_schema_sha256)
        && a.action_schema_sha256.same_as(&b.action_schema_sha256)
        && a.replay_snapshot_sha256.same_as(&b.replay_snapshot_sha256)
        && a.learner_snapshot_sha256.same_as(&b.learner_snapshot_sha256)
}

/// Two summaries agree on every field but their content digests.
pub open spec fn same_unsealed_fields(a: NativeTacticCampaignSummary, b: NativeTacticCampaignSummary) -> bool {
    &&& a.schema@ == b.schema@
    &&& a.route_report_sha256.0@ == b.route_report_sha256.0@
    &&& a.identities.optimization_request_sha256.0@ == b.identities.optimization_request_sha256.0@
    &&& a.identities.execution_binding_sha256.0@ == b.identities.execution_binding_sha256.0@
    &&& a.identities.execution_plan_sha256.0@ == b.identities.execution_plan_sha256.0@
    &&& a.identities.objective_sha256.0@ == b.identities.objective_sha256.0@
    &&& a.identities.feature_schema_sha256.0@ == b.identities.feature_schema_sha256.0@
    &&& a.identities.action_schema_sha256.0@ == b.identities.action_schema_sha256.0@
    &&& a.identities.replay_snapshot_sha256.0@ == b.identities.replay_snapshot_sha256.0@
    &&& a.identities.learner_snapshot_sha256.0@ == b.identities.learner_snapshot_sha256.0@
    &&& a.treatment.proposal_policy == b.treatment.proposal_policy
    &&& a.treatment.value_treatment == b.treatment.value_treatment
    &&& a.treatment.execution_strategy == b.treatment.execution_strategy
    &&& a.treatment.seeds@ == b.treatment.seeds@
    &&& a.treatment.workers == b.treatment.workers
    &&& a.treatment.proposal_width_per_decision == b.treatment.proposal_width_per_decision
    &&& a.treatment.decisions_per_seed == b.treatment.decisions_per_seed
    &&& a.treatment.branch_every_decisions == b.treatment.branch_every_decisions
    &&& a.treatment.refit_every_decisions == b.treatment.refit_every_decisions
    &&& a.treatment.root_refresh_cadence == b.treatment.root_refresh_cadence
    &&& a.treatment.epsilon_per_million@ == b.treatment.epsilon_per_million@
    &&& a.treatment.demonstration_chunk_ticks == b.treatment.demonstration_chunk_ticks
    &&& a.treatment.demonstration_transitions == b.treatment.demonstration_transitions
    &&& a.treatment.resource_budgets == b.treatment.resource_budgets
    &&& a.outcome == b.outcome
    &&& a.causal_chain == b.causal_chain
    &&& a.goal_reachability == b.goal_reachability
    &&& a.efficiency == b.efficiency
    &&& a.timing == b.timing
    &&& a.work == b.work
    &&& a.resources == b.resources
}

fn unsealed_fields_equal(a: &NativeTacticCampaignSummary, b: &NativeTacticCampaignSummary) -> (r: bool)
    ensures
        r == same_unsealed_fields(*a, *b),
{
    let ta = &a.treatment;
    let tb = &b.treatment;
    text_eq(a.schema.as_str(), b.schema.as_str()) && a.route_report_sha256.same_as(&b.route_report_sha256)
        && identities_equal(&a.identities, &b.identities) && ta.proposal_policy == tb.proposal_policy
        && ta.value_treatment == tb.value_treatment && ta.execution_strategy == tb.execution_strategy
        && u64s_equal(ta.seeds.as_slice(), tb.seeds.as_slice()) && ta.workers == tb.workers
        && ta.proposal_width_per_decision == tb.proposal_width_per_decision
        && ta.decisions_per_seed == tb.decisions_per_seed && ta.branch_every_decisions == tb.branch_every_decisions
        && ta.refit_every_decisions == tb.refit_every_decisions && ta.root_refresh_cadence == tb.root_refresh_cadence
        && u32s_equal(&ta.epsilon_per_million, &tb.epsilon_per_million)
        && ta.demonstration_chunk_ticks == tb.demonstration_chunk_ticks
        && ta.demonstration_transitions == tb.demonstration_transitions
        && ta.resource_budgets == tb.resource_budgets && a.outcome == b.outcome && a.causal_chain == b.causal_chain
        && a.goal_reachability == b.goal_reachability && a.efficiency == b.efficiency && a.timing == b.timing
        && a.work == b.work && a.resources == b.resources
}

/// Two summaries that both match the same report, plan and report digest
/// agree on every field but their content digests.
pub proof fn lemma_build_determines_summary(
    a: NativeTacticCampaignSummary,
    b: NativeTacticCampaignSummary,
    r: NativeTacticRouteReport,
    plan: NativeTacticExecutionPlan,
    route_report_sha256: Digest,
)
    requires
        summary_matches_build(a, r, plan, route_report_sha256),
        summary_matches_build(b, r, plan, route_report_sha256),
    ensures
        same_unsealed_fields(a, b),
{
    lemma_ascending_sets_equal(a.treatment.epsilon_per_million@, b.treatment.epsilon_per_million@);
}

pub proof fn lemma_same_fields_preserve_build(
    a: NativeTacticCampaignSummary,
    b: NativeTacticCampaignSummary,
    r: NativeTacticRouteReport,
    plan: NativeTacticExecutionPlan,
    route_report_sha256: Digest,
)
    requires
        summary_matches_build(a, r, plan, route_report_sha256),
        same_unsealed_fields(a, b),
    ensures
        summary_matches_build(b, r, plan, route_report_sha256),
{
}

/// What `build` returns: the unsealed summary of `r` run under `plan`.
pub open spec fn built_from(
    s: NativeTacticCampaignSummary,
    r: NativeTacticRouteReport,
    plan: NativeTacticExecutionPlan,
    plan_identity: Digest,
    route_report_sha256: Digest,
) -> bool {
    &&& plan_attached(r, plan, plan_identity)
    &&& summary_matches_build(s, r, plan, route_report_sha256)
    &&& s.content_sha256.spec_is_zero()
}

/// What `seal` returns: `unsigned` with the content digest of
/// `unsigned_json`, internally consistent.
pub open spec fn sealed_from(
    s: NativeTacticCampaignSummary,
    unsigned: NativeTacticCampaignSummary,
    unsigned_json: Seq<u8>,
) -> bool {
    &&& s.content_sha256.0@ == sha256_of(summary_identity_bytes(unsigned_json))
    &&& s == (NativeTacticCampaignSummary { content_sha256: s.content_sha256, ..unsigned })
    &&& summary_conditions(s)
}

/// What `validate_against` accepts: a consistent, sealed summary that is
/// the summary of `r` run under `plan`.
pub open spec fn validates_against(
    s: NativeTacticCampaignSummary,
    r: NativeTacticRouteReport,
    plan: NativeTacticExecutionPlan,
    plan_identity: Digest,
    route_report_sha256: Digest,
    unsigned_json: Seq<u8>,
) -> bool {
    &&& summary_conditions(s)
    &&& s.content_sha256.0@ == sha256_of(summary_identity_bytes(unsigned_json))
    &&& plan_attached(r, plan, plan_identity)
    &&& summary_matches_build(s, r, plan, route_report_sha256)
}

impl NativeTacticCampaignSummary {
    /// Derives the summary of `route` run under `plan`, whose identity is
    /// `plan_identity`; `route_report_sha256` is the route report's content
    /// identity. The summary is returned unsealed (its content digest zero):
    /// `seal` seals and validates it.
    pub fn build(
        route: &NativeTacticRouteReport,
        plan: &NativeTacticExecutionPlan,
        plan_identity: &Digest,
        route_report_sha256: &Digest,
    ) -> (r: Result<Self, NativeTacticRouteRunError>)
        ensures
            r is Ok <==> plan_attached(*route, *plan, *plan_identity),
            r matches Ok(s) ==> built_from(s, *route, *plan, *plan_identity, *route_report_sha256),
    {
        if !plan_identity.same_as(&route.execution_plan_sha256)
            || !u64s_equal(plan.seeds.as_slice(), route.exploration_seeds.as_slice())
            || plan.proposal_policy != route.proposal_policy || plan.value_treatment != route.value_treatment
            || plan.execution_strategy != route.execution_strategy || plan.budgets != route.resource_budgets
        {
            return Err(route_message("campaign summary execution plan is detached from its route report"));
        }
        let epsilon_per_million = lane_exploration_rates(&plan.lanes);
        let t = tally_seeds(&route.seeds);
        let st = tally_seed_results(&route.seeds);
        let distinct = distinct_consumed_snapshots(&route.seeds);
        let v44 = text_eq(route.schema.as_str(), NATIVE_TACTIC_ROUTE_REPORT_SCHEMA_V44);
        let learning = route.proposal_policy.deploys_policy_updates();
        let n = t.decisions;
        let link = if n == 0 || t.decisions_with_observed_state != n {
            Some(NativeTacticCausalLink::ObservedState)
        } else if t.decisions_with_complete_action_surface != n {
            Some(NativeTacticCausalLink::LegalActionSurface)
        } else if t.decisions_with_native_proposals != n || t.total_proposals == 0 {
            Some(NativeTacticCausalLink::NativeExploration)
        } else if learning && t.newly_published_training_rows == 0 {
            Some(NativeTacticCausalLink::ExperiencePublication)
        } else if learning && route.learner_updates == 0 {
            Some(NativeTacticCausalLink::LearnerUpdate)
        } else if learning && (route.learner_authority.declared_model_snapshots_consumed == 0 || distinct < 2
            || st.post_update_policy_decisions == 0) {
            Some(NativeTacticCausalLink::PolicyDeployment)
        } else if learning && v44 && (t.policy_update_probes == 0 || t.valid_policy_update_probes
            != t.policy_update_probes || t.selected_action_changes_from_policy_update == 0) {
            Some(NativeTacticCausalLink::PolicyEffect)
        } else {
            None
        };
        let causal_chain = NativeTacticCampaignCausalSummary {
            learning_expected: learning,
            decisions_with_observed_state: t.decisions_with_observed_state,
            decisions_with_complete_action_surface: t.decisions_with_complete_action_surface,
            decisions_with_native_proposals: t.decisions_with_native_proposals,
            realized_native_proposals: t.total_proposals,
            newly_published_training_rows: t.newly_published_training_rows,
            final_training_replay_rows: route.learner_authority.latest_training_replay_rows,
            learner_updates: route.learner_updates,
            model_snapshots_published: route.learner_authority.model_snapshots_published,
            model_snapshots_consumed: route.learner_authority.declared_model_snapshots_consumed,
            distinct_model_snapshots_consumed: distinct,
            post_update_policy_decisions: st.post_update_policy_decisions,
            policy_update_probes: t.policy_update_probes,
            valid_policy_update_probes: t.valid_policy_update_probes,
            selected_action_changes_from_policy_update: t.selected_action_changes_from_policy_update,
            selected_action_changes_at_model_change: st.selected_action_changes_at_model_change,
            causal_chain_ready_for_matched_evaluation: link.is_none(),
            first_incomplete_link: link,
            outcome_effect_requires_matched_control: learning,
        };
        let m = t.most_mature;
        let goal_reachability = NativeTacticCampaignGoalReachabilitySummary {
            calibration_authority_enforced: supports_current_route_report_schema(route.schema.as_str()),
            calibration_decisions: t.calibration_decisions,
            deployment_ready_decisions: t.deployment_ready_decisions,
            deployment_blocked_decisions: t.deployment_blocked_decisions,
            action_evidence_decisions: t.action_evidence_decisions,
            action_policy_authorized_decisions: t.action_policy_authorized_decisions,
            action_policy_blocked_decisions: t.action_policy_blocked_decisions,
            unproven_action_policy_deployments: t.unproven_action_policy_deployments,
            frontier_evidence_decisions: t.frontier_evidence_decisions,
            frontier_policy_authorized_decisions: t.frontier_policy_authorized_decisions,
            frontier_policy_blocked_decisions: t.frontier_policy_blocked_decisions,
            unproven_frontier_policy_deployments: t.unproven_frontier_policy_deployments,
            reachability_primary_decisions: t.reachability_primary_decisions,
            unproven_reachability_primary_decisions: t.unproven_reachability_primary_decisions,
            most_mature_source_transitions: match m { Some(c) => c.source_transitions, None => 0 },
            most_mature_source_state_groups: match m { Some(c) => c.source_state_groups, None => 0 },
            most_mature_evaluated_action_predictions: match m { Some(c) => c.evaluated_action_predictions, None => 0 },
            most_mature_comparable_state_groups: match m { Some(c) => c.comparable_state_groups, None => 0 },
            most_mature_ranking_wins: match m { Some(c) => c.ranking_wins, None => 0 },
            most_mature_ranking_win_rate_millionths: match m { Some(c) => c.ranking_win_rate_millionths, None => None },
            most_mature_chance_win_rate_millionths: match m { Some(c) => c.chance_win_rate_millionths, None => None },
            most_mature_wilson_lower_bound_millionths: match m { Some(c) => c.wilson_lower_bound_millionths, None => None },
            most_mature_mean_observed_regret_millionths: match m {
                Some(c) => c.mean_observed_regret_millionths,
                None => None,
            },
            most_mature_mean_absolute_progress_error_millionths: match m {
                Some(c) => c.mean_absolute_progress_error_millionths,
                None => None,
            },
            most_mature_progress_sign_accuracy_millionths: match m {
                Some(c) => c.progress_sign_accuracy_millionths,
                None => None,
            },
            most_mature_deployment_ready: match m { Some(c) => c.deployment_ready, None => false },
        };
        let capacity = saturating_mul_u64(route.timing.tactic_execution_micros, route.workers as u64);
        let utilization = ratio_per_million_of(route.timing.native_simulation_micros, capacity);
        let complete = st.lease_accounting_complete;
        let memory_budget_bytes = match route.resource_budgets.memory_bytes {
            NativeTacticResourceLimit::Bounded(v) => Some(v),
            NativeTacticResourceLimit::Unbounded => None,
        };
        let peak = route.native_restore_accounting.peak_resident_bytes;
        let timing = &route.timing;
        let summary = NativeTacticCampaignSummary {
            schema: if v44 {
                NATIVE_TACTIC_CAMPAIGN_SUMMARY_SCHEMA_V6.to_owned()
            } else {
                NATIVE_TACTIC_CAMPAIGN_SUMMARY_SCHEMA_V4.to_owned()
            },
            content_sha256: Digest::zero(),
            route_report_sha256: *route_report_sha256,
            identities: NativeTacticCampaignIdentities {
                optimization_request_sha256: route.optimization_request_sha256,
                execution_binding_sha256: route.execution_binding_sha256,
                execution_plan_sha256: route.execution_plan_sha256,
                objective_sha256: route.objective_sha256,
                feature_schema_sha256: route.feature_schema_sha256,
                action_schema_sha256: route.action_schema_sha256,
                replay_snapshot_sha256: route.replay_snapshot_sha256,
                learner_snapshot_sha256: route.learner_authority.latest_model_snapshot_sha256,
            },
            treatment: NativeTacticCampaignTreatmentSummary {
                proposal_policy: route.proposal_policy,
                value_treatment: route.value_treatment,
                execution_strategy: route.execution_strategy,
                seeds: copy_u64s(&route.exploration_seeds),
                workers: route.workers,
                proposal_width_per_decision: plan.proposal_width_per_decision,
                decisions_per_seed: route.decisions_per_seed,
                branch_every_decisions: plan.branch_every_decisions,
                refit_every_decisions: route.refit_every_decisions,
                root_refresh_cadence: plan.root_refresh_cadence,
                epsilon_per_million,
                demonstration_chunk_ticks: plan.demonstration_chunk_ticks,
                demonstration_transitions: route.demonstration_transitions,
                resource_budgets: route.resource_budgets,
            },
            outcome: NativeTacticCampaignOutcomeSummary {
                terminal_seeds: route.terminal_seeds,
                terminal_proposals: if v44 { t.terminal_proposals } else { 0 },
                selected_terminal_decisions: if v44 { t.selected_terminal_decisions } else { 0 },
                selected_terminal_seeds: if v44 { st.selected_terminal_seeds } else { 0 },
                seed_count: route.seeds.len() as u64,
                best_authenticated_tick: route.best_authenticated_tick,
                median_time_to_first_terminal_micros: route.median_time_to_first_terminal_micros,
                worst_time_to_first_terminal_micros: route.worst_time_to_first_terminal_micros,
                total_decisions: route.total_decisions,
                total_proposals: t.total_proposals,
                total_native_ticks: route.total_native_ticks,
                useful_decisions: route.useful_decisions,
                unique_useful_graph_expansions: route.unique_useful_graph_expansions,
                stop_reasons: st.stop_reasons,
            },
            causal_chain,
            goal_reachability,
            efficiency: NativeTacticCampaignEfficiencySummary {
                useful_expansions_per_second_millionths: timing.unique_useful_graph_expansions_per_second_millionths,
                native_ticks_per_second_millionths: timing.native_ticks_per_second_millionths,
                learner_updates_per_second_millionths: route.learner_updates_per_second_millionths,
                native_worker_utilization_per_million: if utilization > 1_000_000 { 1_000_000 } else { utilization },
                maximum_model_replay_lag_revisions: route.replay_sharing.maximum_model_replay_lag_revisions,
                maximum_observed_stale_revisions: route.replay_sharing.maximum_observed_stale_revisions,
            },
            timing: NativeTacticCampaignTimingSummary {
                wall_micros: timing.wall_micros,
                process_launch_micros: timing.process_launch_micros,
                tactic_selection_micros: timing.tactic_selection_micros,
                checkpoint_branching_micros: timing.checkpoint_branching_micros,
                native_wait_micros: timing.tactic_execution_micros,
                native_simulation_occupancy_micros: timing.native_simulation_micros,
                ipc_and_result_transport_micros: timing.ipc_and_result_transport_micros,
                native_observation_capture_micros: timing.native_observation_capture_micros,
                native_corpus_encoding_micros: timing.native_corpus_encoding_micros,
                rust_state_extraction_micros: timing.rust_state_extraction_micros,
                model_update_micros: timing.model_update_micros,
                evidence_projection_micros: timing.evidence_projection_micros,
                persistence_micros: timing.persistence_micros,
                orchestration_micros: timing.orchestration_micros,
                reporting_micros: timing.reporting_micros,
            },
            work: NativeTacticCampaignWorkSummary {
                lease_accounting_complete: complete,
                proposal_dispatches: if complete { st.leases.proposal_dispatches } else { t.total_proposals },
                completed_leases: if complete { st.leases.completed_leases } else { t.total_proposals },
                retryable_leases: if complete { st.leases.retryable_leases } else { 0 },
                cancelled_leases: if complete { st.leases.cancelled_leases } else { 0 },
                failed_leases: if complete { st.leases.failed_leases } else { 0 },
                unresolved_leases: if complete { st.leases.unresolved_leases } else { 0 },
                discarded_proposals: t.discarded_proposals,
                replay_duplicate_admissions: route.replay_duplicate_admissions,
                duplicate_training_transitions: route.duplicate_training_transitions,
                censored_training_transitions: route.censored_training_transitions,
            },
            resources: NativeTacticCampaignResourceSummary {
                memory_budget_bytes,
                checkpoint_cache_capacity_per_worker_bytes: route.checkpoint_cache_capacity_per_worker_bytes,
                peak_worker_resident_bytes: peak,
                peak_checkpoint_bytes: route.native_restore_accounting.peak_resident_checkpoint_bytes,
                peak_host_snapshot_bytes: route.native_restore_accounting.peak_resident_host_snapshot_bytes,
                peak_live_endpoint_entries: route.native_restore_accounting.peak_live_endpoint_entries,
                peak_live_endpoint_host_snapshot_bytes: route.native_restore_accounting.peak_live_endpoint_host_snapshot_bytes,
                memory_bound_satisfied: match memory_budget_bytes {
                    Some(bound) => peak <= bound,
                    None => true,
                },
            },
        };
        Ok(summary)
    }

    /// Validates the summary's internal consistency and its seal:
    /// `unsigned_json` is the serialization of this summary with a zero
    /// content digest.
    pub fn validate(&self, unsigned_json: &[u8]) -> (r: Result<(), NativeTacticRouteRunError>)
        ensures
            r is Ok <==> (summary_conditions(*self) && self.content_sha256.0@ == sha256_of(
                summary_identity_bytes(unsigned_json@),
            )),
    {
        let v4 = text_eq(self.schema.as_str(), NATIVE_TACTIC_CAMPAIGN_SUMMARY_SCHEMA_V4);
        let v5 = text_eq(self.schema.as_str(), NATIVE_TACTIC_CAMPAIGN_SUMMARY_SCHEMA_V5);
        let v6 = text_eq(self.schema.as_str(), NATIVE_TACTIC_CAMPAIGN_SUMMARY_SCHEMA_V6);
        let o = &self.outcome;
        let c = &self.causal_chain;
        let g = &self.goal_reachability;
        let w = &self.work;
        let i = &self.identities;
        let invalid = !(v4 || v5 || v6) || self.content_sha256.is_zero() || self.route_report_sha256.is_zero()
            || i.optimization_request_sha256.is_zero() || i.execution_binding_sha256.is_zero()
            || i.execution_plan_sha256.is_zero() || i.objective_sha256.is_zero() || i.feature_schema_sha256.is_zero()
            || i.action_schema_sha256.is_zero() || i.replay_snapshot_sha256.is_zero()
            || i.learner_snapshot_sha256.is_zero() || self.treatment.seeds.len() == 0 || self.treatment.workers == 0
            || self.treatment.proposal_width_per_decision == 0 || self.treatment.decisions_per_seed == 0
            || o.seed_count != self.treatment.seeds.len() as u64 || o.selected_terminal_seeds > o.terminal_seeds
            || o.selected_terminal_decisions > o.terminal_proposals
            || o.selected_terminal_seeds > o.selected_terminal_decisions
            || o.selected_terminal_decisions > o.total_decisions || (!v6 && (o.terminal_proposals != 0
            || o.selected_terminal_decisions != 0 || o.selected_terminal_seeds != 0)) || (v6 && (o.terminal_seeds
            > o.terminal_proposals || (o.terminal_seeds == 0) != (o.terminal_proposals == 0)))
            || o.total_decisions < o.useful_decisions || self.efficiency.native_worker_utilization_per_million
            > 1_000_000 || w.proposal_dispatches != w.completed_leases.saturating_add(w.retryable_leases).saturating_add(
            w.cancelled_leases,
        ).saturating_add(w.failed_leases).saturating_add(w.unresolved_leases)
            || c.causal_chain_ready_for_matched_evaluation == c.first_incomplete_link.is_some()
            || c.valid_policy_update_probes > c.policy_update_probes || c.selected_action_changes_from_policy_update
            > c.valid_policy_update_probes || (!c.learning_expected && c.policy_update_probes != 0) || ((v5 || v6)
            && c.learning_expected && c.causal_chain_ready_for_matched_evaluation && (c.policy_update_probes == 0
            || c.valid_policy_update_probes != c.policy_update_probes
            || c.selected_action_changes_from_policy_update == 0)) || g.calibration_decisions
            != g.deployment_ready_decisions.saturating_add(g.deployment_blocked_decisions)
            || g.action_evidence_decisions != g.action_policy_authorized_decisions.saturating_add(
            g.action_policy_blocked_decisions,
        ) || g.frontier_evidence_decisions != g.frontier_policy_authorized_decisions.saturating_add(
            g.frontier_policy_blocked_decisions,
        ) || (g.calibration_authority_enforced && (g.unproven_reachability_primary_decisions != 0
            || g.unproven_action_policy_deployments != 0 || g.unproven_frontier_policy_deployments != 0));
        let sealed = summary_content_digest(unsigned_json);
        if invalid || !self.content_sha256.same_as(&sealed) {
            return Err(route_message("native tactic campaign summary is invalid"));
        }
        Ok(())
    }

    /// Seals the summary with the content digest of `unsigned_json`, the
    /// serialization of this summary with a zero content digest, and
    /// validates it.
    pub fn seal(self, unsigned_json: &[u8]) -> (r: Result<Self, NativeTacticRouteRunError>)
        ensures
            r matches Ok(s) ==> sealed_from(s, self, unsigned_json@),
            r is Err ==> forall|d: Digest|
                d.0@ == sha256_of(summary_identity_bytes(unsigned_json@)) ==> !#[trigger] summary_conditions(
                    NativeTacticCampaignSummary { content_sha256: d, ..self },
                ),
    {
        let mut sealed = self;
        sealed.content_sha256 = summary_content_digest(unsigned_json);
        match sealed.validate(unsigned_json) {
            Ok(()) => Ok(sealed),
            Err(e) => {
                proof {
                    assert forall|d: Digest| d.0@ == sha256_of(summary_identity_bytes(unsigned_json@)) implies !#[trigger] summary_conditions(
                        NativeTacticCampaignSummary { content_sha256: d, ..self },
                    ) by {
                        let other = NativeTacticCampaignSummary { content_sha256: d, ..self };
                        assert(other.content_sha256.spec_is_zero() == sealed.content_sha256.spec_is_zero());
                    }
                }
                Err(e)
            },
        }
    }

    /// Validates the summary and that it is the summary of `route` run
    /// under `plan`.
    pub fn validate_against(
        &self,
        route: &NativeTacticRouteReport,
        plan: &NativeTacticExecutionPlan,
        plan_identity: &Digest,
        route_report_sha256: &Digest,
        unsigned_json: &[u8],
    ) -> (r: Result<(), NativeTacticRouteRunError>)
        ensures
            r is Ok <==> validates_against(*self, *route, *plan, *plan_identity, *route_report_sha256, unsigned_json@),
    {
        match self.validate(unsigned_json) {
            Ok(()) => {},
            Err(e) => {
                return Err(e);
            },
        }
        let rebuilt = match Self::build(route, plan, plan_identity, route_report_sha256) {
            Ok(s) => s,
            Err(e) => {
                return Err(e);
            },
        };
        if !unsealed_fields_equal(self, &rebuilt) {
            proof {
                if summary_matches_build(*self, *route, *plan, *route_report_sha256) {
                    lemma_build_determines_summary(*self, rebuilt, *route, *plan, *route_report_sha256);
                }
            }
            return Err(route_message("native tactic campaign summary is detached from its report or plan"));
        }
        proof {
            assert(same_unsealed_fields(rebuilt, *self));
            lemma_same_fields_preserve_build(rebuilt, *self, *route, *plan, *route_report_sha256);
        }
        Ok(())
    }
}

/// The stop-reason counts of a summary built from a route report are the
/// numbers of seeds' stop reasons of each kind in that report (saturating
/// at `u64::MAX`).
pub proof fn lemma_summary_stop_counts_follow_the_report(
    s: NativeTacticCampaignSummary,
    r: NativeTacticRouteReport,
    plan: NativeTacticExecutionPlan,
    route_report_sha256: Digest,
)
    requires
        summary_matches_build(s, r, plan, route_report_sha256),
    ensures
        s.outcome.stop_reasons.decision_budget_reached == saturated(
            seeds_stopped_for(r.seeds@, NativeTacticSeedStopReason::DecisionBudgetReached) as int,
        ),
        s.outcome.stop_reasons.simulated_tick_budget_reached == saturated(
            seeds_stopped_for(r.seeds@, NativeTacticSeedStopReason::SimulatedTickBudgetReached) as int,
        ),
        s.outcome.stop_reasons.native_tick_budget_reached == saturated(
            seeds_stopped_for(r.seeds@, NativeTacticSeedStopReason::NativeTickBudgetReached) as int,
        ),
        s.outcome.stop_reasons.wall_budget_reached == saturated(
            seeds_stopped_for(r.seeds@, NativeTacticSeedStopReason::WallBudgetReached) as int,
        ),
{
    lemma_stop_counts_are_occurrences(r.seeds@);
}

/// A summary built from a route report and its plan, once sealed, is
/// attached to that report and plan: it passes `validate_against` for the
/// same inputs.
pub proof fn lemma_sealed_build_validates_against_its_sources(
    built: NativeTacticCampaignSummary,
    sealed: NativeTacticCampaignSummary,
    r: NativeTacticRouteReport,
    plan: NativeTacticExecutionPlan,
    plan_identity: Digest,
    route_report_sha256: Digest,
    unsigned_json: Seq<u8>,
)
    requires
        built_from(built, r, plan, plan_identity, route_report_sha256),
        sealed_from(sealed, built, unsigned_json),
    ensures
        validates_against(sealed, r, plan, plan_identity, route_report_sha256, unsigned_json),
{
}

} // verus!
