use orchestration::digest::{digest_bytes, Digest};
use orchestration::execution_plan::{
    NativeGenericExecutionStrategy, NativeTacticExecutionPlan, NativeTacticExecutionPlanRequest,
    NativeTacticPlanBudgets, NativeTacticReplaySharingPlan, NativeTacticResourceLimit,
    TacticProposalPolicy, TacticValueTreatment,
};
use orchestration::report::{
    NativeTacticApplicableAction, NativeTacticDecisionTrace, NativeTacticGraphShape,
    NativeTacticLeaseAccounting, NativeTacticLearnerAuthority, NativeTacticProposalTrace,
    NativeTacticReplaySharingReport, NativeTacticRestoreAccounting, NativeTacticRouteReport,
    NativeTacticSeedGraphMetrics, NativeTacticSeedResult, NativeTacticSeedStopReason,
    NativeTacticBranchAcquisition, NativeTacticReachabilityCalibration, TacticSelectionReason,
    NATIVE_TACTIC_ROUTE_REPORT_SCHEMA_V38, NATIVE_TACTIC_ROUTE_REPORT_SCHEMA_V39, NATIVE_TACTIC_ROUTE_REPORT_SCHEMA_V43,
    NATIVE_TACTIC_ROUTE_REPORT_SCHEMA_V44,
};
use orchestration::summary::{
    NativeTacticCampaignSummary, NativeTacticCausalLink, NATIVE_TACTIC_CAMPAIGN_SUMMARY_SCHEMA_V4,
};
use orchestration::probe::NativeTacticPolicyUpdateProbe;
use orchestration::timing::NativeTacticRouteTiming;

fn plan() -> NativeTacticExecutionPlan {
    NativeTacticExecutionPlan::build(NativeTacticExecutionPlanRequest {
        seeds: vec![11],
        proposal_policy: TacticProposalPolicy::Learned,
        value_treatment: TacticValueTreatment::ContinuousFittedQForestV1,
        execution_strategy: NativeGenericExecutionStrategy::NativeController,
        promoted_tactic_registry_sha256: None,
        lanes_per_generation: 1,
        proposal_width_per_decision: 2,
        branch_every_decisions: 8,
        refit_every_decisions: 4,
        root_refresh_cadence: 4,
        epsilon_per_million: 350_000,
        demonstration_chunk_ticks: None,
        replay_sharing: NativeTacticReplaySharingPlan::GenerationBarrier,
        budgets: NativeTacticPlanBudgets {
            decisions_per_lane: 16,
            native_ticks: NativeTacticResourceLimit::Bounded(100_000),
            memory_bytes: NativeTacticResourceLimit::Bounded(1_000),
            wall_micros: NativeTacticResourceLimit::Unbounded,
        },
    })
    .unwrap()
}

fn decision(index: u64, snapshot: u8, option: &str) -> NativeTacticDecisionTrace {
    NativeTacticDecisionTrace {
        decision_index: index,
        result_admission_schema: "admission".into(),
        before_snapshot_sha256: Digest([1; 32]),
        after_snapshot_sha256: Digest([2; 32]),
        applicable_tactics: vec![
            NativeTacticApplicableAction {
                option_id: option.into(),
                applicable: true,
                has_descriptor: true,
                selected: true,
            },
            NativeTacticApplicableAction {
                option_id: "other".into(),
                applicable: true,
                has_descriptor: true,
                selected: false,
            },
        ],
        selected_option_id: option.into(),
        selection_reason: TacticSelectionReason::Greedy,
        proposal_batch: vec![
            NativeTacticProposalTrace {
                realized_ticks: 10,
                terminal: false,
                retained: true,
                has_predicted_goal_progress: false,
                selection_reason: TacticSelectionReason::Greedy,
            },
            NativeTacticProposalTrace {
                realized_ticks: 10,
                terminal: index == 1,
                retained: false,
                has_predicted_goal_progress: false,
                selection_reason: TacticSelectionReason::Greedy,
            },
        ],
        newly_admitted_training_rows: 2,
        learner_snapshot_sha256: Digest([snapshot; 32]),
        policy_update_probes: Vec::new(),
        terminal: false,
        goal_reachability_calibration: None,
        branch_acquisition: None,
        scheduler_decision: None,
        cumulative_wall_micros: 0,
        checkpoint_owner_worker_slot: None,
        proposal_worker_slots: Vec::new(),
        restore_source: None,
        directly_restorable_native_frontiers: 0,
        replay_only_frontiers: 0,
    }
}

fn route(plan: &NativeTacticExecutionPlan) -> NativeTacticRouteReport {
    NativeTacticRouteReport {
        schema: NATIVE_TACTIC_ROUTE_REPORT_SCHEMA_V43.into(),
        optimization_request_sha256: Digest([3; 32]),
        execution_binding_sha256: Digest([4; 32]),
        execution_plan_sha256: Digest([5; 32]),
        objective_sha256: Digest([6; 32]),
        feature_schema_sha256: Digest([7; 32]),
        action_schema_sha256: Digest([8; 32]),
        replay_revision: 3,
        replay_snapshot_sha256: Digest([9; 32]),
        learner_authority: NativeTacticLearnerAuthority {
            latest_model_snapshot_sha256: Digest([21; 32]),
            latest_training_replay_rows: 4,
            model_snapshots_published: 2,
            declared_model_snapshots_consumed: 2,
        },
        exploration_seeds: plan.seeds.clone(),
        proposal_policy: plan.proposal_policy,
        value_treatment: plan.value_treatment,
        execution_strategy: plan.execution_strategy,
        resource_budgets: plan.budgets,
        workers: 2,
        decisions_per_seed: 16,
        refit_every_decisions: 4,
        demonstration_transitions: 0,
        seeds: vec![NativeTacticSeedResult {
            seed: 11,
            trace: vec![decision(0, 20, "roll"), decision(1, 21, "jump")],
            stop_reasons: vec![NativeTacticSeedStopReason::DecisionBudgetReached],
            graph_metrics: Some(NativeTacticSeedGraphMetrics {
                graph: NativeTacticGraphShape {
                    nodes: 3,
                    observed_segments: 2,
                    untried_expansions: 0,
                    leased_expansions: 0,
                    retryable_expansions: 0,
                    completed_expansions: 4,
                    failed_validation_expansions: 0,
                    best_terminal: None,
                },
                lease_accounting: NativeTacticLeaseAccounting {
                    proposal_dispatches: 5,
                    completed_leases: 4,
                    retryable_leases: 1,
                    cancelled_leases: 0,
                    failed_leases: 0,
                    unresolved_leases: 0,
                },
            }),
            useful_graph_expansion_set_sha256: Digest([10; 32]),
            state_graph_sha256: Digest([11; 32]),
            decisions: 2,
            episodes: 1,
            native_ticks: 40,
            training_replay_rows: 4,
            imported_training_replay_rows: 0,
            duplicate_training_transitions: 0,
            censored_training_transitions: 1,
            terminal_discovered: true,
            best_authenticated_tick: Some(30),
            best_terminal_state_sha256: None,
            best_terminal_route_checkpoint_sha256: None,
        }],
        terminal_seeds: 1,
        best_authenticated_tick: Some(30),
        median_time_to_first_terminal_micros: Some(500),
        worst_time_to_first_terminal_micros: Some(500),
        total_decisions: 2,
        total_native_ticks: 40,
        useful_decisions: 2,
        unique_useful_graph_expansions: 2,
        timing: NativeTacticRouteTiming {
            wall_micros: 1_000,
            tactic_execution_micros: 400,
            native_simulation_micros: 600,
            ..NativeTacticRouteTiming::default()
        },
        learner_updates: 1,
        learner_updates_per_second_millionths: 1_000_000,
        replay_sharing: NativeTacticReplaySharingReport {
            maximum_model_replay_lag_revisions: 0,
            maximum_observed_stale_revisions: 0,
        },
        checkpoint_cache_capacity_per_worker_bytes: 1_000,
        native_restore_accounting: NativeTacticRestoreAccounting {
            peak_resident_bytes: 800,
            peak_resident_checkpoint_bytes: 300,
            peak_resident_host_snapshot_bytes: 200,
            peak_live_endpoint_entries: 2,
            peak_live_endpoint_host_snapshot_bytes: 100,
        },
        replay_duplicate_admissions: 0,
        duplicate_training_transitions: 0,
        censored_training_transitions: 1,
    }
}

fn unsigned_json(summary: &NativeTacticCampaignSummary) -> Vec<u8> {
    let mut unsigned = summary.clone();
    unsigned.content_sha256 = Digest::zero();
    format!("{unsigned:?}").into_bytes()
}

fn sealed_summary() -> (NativeTacticCampaignSummary, Vec<u8>, NativeTacticRouteReport, NativeTacticExecutionPlan) {
    let plan = plan();
    let route = route(&plan);
    let built =
        NativeTacticCampaignSummary::build(&route, &plan, &Digest([5; 32]), &Digest([12; 32])).unwrap();
    let json = unsigned_json(&built);
    (built.seal(&json).unwrap(), json, route, plan)
}

#[test]
fn summary_projects_the_learning_chain_and_authorities() {
    let (summary, json, route, plan) = sealed_summary();
    assert_eq!(summary.schema, NATIVE_TACTIC_CAMPAIGN_SUMMARY_SCHEMA_V4);
    assert_eq!(summary.outcome.total_proposals, 4);
    assert_eq!(summary.outcome.terminal_proposals, 0);
    assert_eq!(summary.outcome.stop_reasons.decision_budget_reached, 1);
    assert_eq!(summary.causal_chain.decisions_with_complete_action_surface, 2);
    assert_eq!(summary.causal_chain.newly_published_training_rows, 4);
    assert_eq!(summary.causal_chain.distinct_model_snapshots_consumed, 2);
    assert_eq!(summary.causal_chain.post_update_policy_decisions, 1);
    assert_eq!(summary.causal_chain.selected_action_changes_at_model_change, 1);
    assert!(summary.causal_chain.causal_chain_ready_for_matched_evaluation);
    assert_eq!(summary.causal_chain.first_incomplete_link, None);
    assert_eq!(summary.work.proposal_dispatches, 5);
    assert_eq!(summary.work.discarded_proposals, 2);
    assert_eq!(summary.efficiency.native_worker_utilization_per_million, 750_000);
    assert_eq!(summary.resources.memory_budget_bytes, Some(1_000));
    assert!(summary.resources.memory_bound_satisfied);
    assert_eq!(summary.treatment.epsilon_per_million, vec![350_000]);
    assert_eq!(summary.identities.learner_snapshot_sha256, Digest([21; 32]));
    summary
        .validate_against(&route, &plan, &Digest([5; 32]), &Digest([12; 32]), &json)
        .unwrap();
    assert_ne!(summary.content_sha256, digest_bytes(&json));
}

#[test]
fn summary_rejects_tampering_and_a_detached_plan() {
    let (summary, json, route, plan) = sealed_summary();
    let mut tampered = summary.clone();
    tampered.outcome.total_decisions += 1;
    assert!(tampered
        .validate_against(&route, &plan, &Digest([5; 32]), &Digest([12; 32]), &json)
        .is_err());
    assert!(summary
        .validate_against(&route, &plan, &Digest([6; 32]), &Digest([12; 32]), &json)
        .is_err());
    assert!(NativeTacticCampaignSummary::build(&route, &plan, &Digest([6; 32]), &Digest([12; 32])).is_err());
    let mut other = json.clone();
    other.push(b'!');
    assert!(summary.validate(&other).is_err());
}

#[test]
fn missing_training_rows_stop_the_chain_at_publication() {
    let plan = plan();
    let mut route = route(&plan);
    for decision in &mut route.seeds[0].trace {
        decision.newly_admitted_training_rows = 0;
    }
    let summary =
        NativeTacticCampaignSummary::build(&route, &plan, &Digest([5; 32]), &Digest([12; 32])).unwrap();
    assert_eq!(
        summary.causal_chain.first_incomplete_link,
        Some(NativeTacticCausalLink::ExperiencePublication)
    );
    assert!(!summary.causal_chain.causal_chain_ready_for_matched_evaluation);
}

fn built(route: &NativeTacticRouteReport, plan: &NativeTacticExecutionPlan) -> NativeTacticCampaignSummary {
    NativeTacticCampaignSummary::build(route, plan, &Digest([5; 32]), &Digest([12; 32])).unwrap()
}

fn built_and_sealed(
    route: &NativeTacticRouteReport,
    plan: &NativeTacticExecutionPlan,
) -> Result<NativeTacticCampaignSummary, orchestration::NativeTacticRouteRunError> {
    let summary = built(route, plan);
    let json = unsigned_json(&summary);
    summary.seal(&json)
}

#[test]
fn compact_summary_projects_the_complete_learning_chain_and_authorities() {
    let plan = plan();
    let mut route = route(&plan);
    route.schema = NATIVE_TACTIC_ROUTE_REPORT_SCHEMA_V38.into();
    route.learner_updates = 2;
    let metrics = route.seeds[0].graph_metrics.as_mut().unwrap();
    metrics.lease_accounting.proposal_dispatches = 4;
    metrics.lease_accounting.retryable_leases = 0;
    let summary = built_and_sealed(&route, &plan).unwrap();
    let json = unsigned_json(&summary);
    summary
        .validate_against(&route, &plan, &Digest([5; 32]), &Digest([12; 32]), &json)
        .unwrap();

    assert!(summary.causal_chain.causal_chain_ready_for_matched_evaluation);
    assert_eq!(summary.causal_chain.first_incomplete_link, None);
    assert_eq!(summary.causal_chain.decisions_with_observed_state, 2);
    assert_eq!(summary.causal_chain.decisions_with_complete_action_surface, 2);
    assert_eq!(summary.causal_chain.realized_native_proposals, 4);
    assert_eq!(summary.causal_chain.newly_published_training_rows, 4);
    assert_eq!(summary.causal_chain.learner_updates, 2);
    assert_eq!(summary.causal_chain.post_update_policy_decisions, 1);
    assert_eq!(summary.goal_reachability.calibration_decisions, 0);
    assert!(!summary.goal_reachability.calibration_authority_enforced);
    assert_eq!(summary.work.proposal_dispatches, 4);
    assert_eq!(summary.work.unresolved_leases, 0);
    assert!(summary.resources.memory_bound_satisfied);
    assert!(json.len() < 16 * 1024);
}

#[test]
fn v44_summary_requires_a_same_state_policy_effect() {
    let plan = plan();
    let mut route = route(&plan);
    route.schema = NATIVE_TACTIC_ROUTE_REPORT_SCHEMA_V44.into();
    let snapshots: Vec<Digest> = route.seeds[0].trace.iter().map(|d| d.learner_snapshot_sha256).collect();
    let decision = &mut route.seeds[0].trace[1];
    decision.policy_update_probes = vec![NativeTacticPolicyUpdateProbe {
        state_sha256: Digest([21; 32]),
        before_action_surface_sha256: Digest([22; 32]),
        after_action_surface_sha256: Digest([22; 32]),
        before_learner_snapshot_sha256: snapshots[0],
        after_learner_snapshot_sha256: decision.learner_snapshot_sha256,
        before_replay_rows: 1,
        after_replay_rows: 2,
        before_model_revision: 1,
        after_model_revision: 2,
        before_selected_option_id: "before".into(),
        after_selected_option_id: "after".into(),
        before_selection_reason: TacticSelectionReason::Greedy,
        after_selection_reason: TacticSelectionReason::Greedy,
        selected_action_changed: true,
    }];

    let summary = built(&route, &plan).causal_chain;
    assert!(summary.causal_chain_ready_for_matched_evaluation);
    assert_eq!(summary.policy_update_probes, 1);
    assert_eq!(summary.valid_policy_update_probes, 1);
    assert_eq!(summary.selected_action_changes_from_policy_update, 1);

    for decision in &mut route.seeds[0].trace {
        decision.policy_update_probes.clear();
    }
    let incomplete = built(&route, &plan).causal_chain;
    assert!(!incomplete.causal_chain_ready_for_matched_evaluation);
    assert_eq!(incomplete.first_incomplete_link, Some(NativeTacticCausalLink::PolicyEffect));
}

fn terminal_outcome_counts(route: &NativeTacticRouteReport, plan: &NativeTacticExecutionPlan) -> (u64, u64, u64) {
    let outcome = built(route, plan).outcome;
    (outcome.terminal_proposals, outcome.selected_terminal_decisions, outcome.selected_terminal_seeds)
}

#[test]
fn terminal_outcomes_separate_discovery_from_policy_adoption() {
    let plan = plan();
    let mut route = route(&plan);
    route.schema = NATIVE_TACTIC_ROUTE_REPORT_SCHEMA_V44.into();
    for decision in &mut route.seeds[0].trace {
        decision.terminal = false;
        for proposal in &mut decision.proposal_batch {
            proposal.terminal = false;
        }
    }
    route.seeds[0].trace[0].proposal_batch.iter_mut().find(|proposal| !proposal.retained).unwrap().terminal = true;
    assert_eq!(terminal_outcome_counts(&route, &plan), (1, 0, 0));

    route.seeds[0].trace[0].terminal = true;
    route.seeds[0].trace[0].proposal_batch.iter_mut().find(|proposal| proposal.retained).unwrap().terminal = true;
    assert_eq!(terminal_outcome_counts(&route, &plan), (2, 1, 1));
}

#[test]
fn summary_rejects_reachability_policy_without_calibration_authority() {
    let plan = plan();
    let mut route = route(&plan);
    route.schema = NATIVE_TACTIC_ROUTE_REPORT_SCHEMA_V39.into();
    for decision in &mut route.seeds[0].trace {
        decision.selection_reason = TacticSelectionReason::UnsupportedBootstrap;
        for proposal in &mut decision.proposal_batch {
            proposal.selection_reason = TacticSelectionReason::UnsupportedBootstrap;
            proposal.has_predicted_goal_progress = false;
        }
    }
    route.seeds[0].trace[0].goal_reachability_calibration = Some(NativeTacticReachabilityCalibration {
        deployment_ready: false,
        source_transitions: 0,
        source_state_groups: 0,
        comparable_state_groups: 0,
        evaluated_action_predictions: 0,
        ranking_wins: 0,
        ranking_win_rate_millionths: None,
        chance_win_rate_millionths: None,
        wilson_lower_bound_millionths: None,
        mean_observed_regret_millionths: None,
        mean_absolute_progress_error_millionths: None,
        progress_sign_accuracy_millionths: None,
    });
    route.seeds[0].trace[0].proposal_batch[0].has_predicted_goal_progress = true;
    route.seeds[0].trace[0].branch_acquisition = Some(NativeTacticBranchAcquisition {
        goal_reachability_evidence_available: true,
        goal_reachability_supported: false,
    });
    let blocked = built_and_sealed(&route, &plan).unwrap();
    assert_eq!(blocked.goal_reachability.calibration_decisions, 1);
    assert_eq!(blocked.goal_reachability.deployment_blocked_decisions, 1);
    assert_eq!(blocked.goal_reachability.action_evidence_decisions, 1);
    assert_eq!(blocked.goal_reachability.action_policy_blocked_decisions, 1);
    assert_eq!(blocked.goal_reachability.frontier_evidence_decisions, 1);
    assert_eq!(blocked.goal_reachability.frontier_policy_blocked_decisions, 1);
    assert!(!blocked.goal_reachability.most_mature_deployment_ready);

    route.seeds[0].trace[0].proposal_batch[0].selection_reason = TacticSelectionReason::GoalReachability;
    assert!(built_and_sealed(&route, &plan).is_err());
    route.seeds[0].trace[0].proposal_batch[0].selection_reason = TacticSelectionReason::UnsupportedBootstrap;
    route.seeds[0].trace[0].branch_acquisition.as_mut().unwrap().goal_reachability_supported = true;
    assert!(built_and_sealed(&route, &plan).is_err());
}
