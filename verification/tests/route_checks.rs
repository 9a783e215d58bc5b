use orchestration::completed_seed::{
    validate_completed_seed_result, NativeTacticCompletedDecision, NativeTacticCompletedProposal,
    NativeTacticCompletedSeedResult,
};
use orchestration::diagnosis::{
    validate_diagnosis_revisions, NativeTacticDiagnosisAuthority, NativeTacticGoalReachabilityDiagnosis,
    NativeTacticGoalReachabilityRevisionDiagnosis,
};
use orchestration::digest::{digest_bytes, Digest};
use orchestration::execution_plan::{
    NativeGenericExecutionStrategy, NativeTacticAcquisitionPlan, NativeTacticInterventionPlan,
    NativeTacticLanePlan, NativeTacticLaneRole, NativeTacticPlanBudgets, NativeTacticResourceLimit,
    TacticProposalPolicy, TacticValueTreatment,
};
use orchestration::fault::{
    NativeTacticFaultInjectionMarker, NativeTacticFaultPoint, NATIVE_TACTIC_FAULT_INJECTION_SCHEMA_V1,
};
use orchestration::recovery_audit::{build_native_tactic_fault_recovery_audit, semantic_trace_identity};
use orchestration::report::{
    median_sorted_wall_micros, route_report_manifest, NativeTacticDecisionTrace, NativeTacticGraphShape,
    NativeTacticLeaseAccounting, NativeTacticLearnerAuthority, NativeTacticProposalTrace,
    NativeTacticReachabilityCalibration, NativeTacticReplaySharingReport,
    NativeTacticRestoreAccounting, NativeTacticRestoreSource, NativeTacticRouteReport, NativeTacticSchedulerDecision,
    NativeTacticSeedGraphMetrics, NativeTacticSeedResult, TacticSelectionReason, NATIVE_TACTIC_ROUTE_REPORT_SCHEMA_V38,
};
use orchestration::summary::ratio_per_million_of;
use orchestration::timing::NativeTacticRouteTiming;

fn lane() -> NativeTacticLanePlan {
    NativeTacticLanePlan {
        lane_index: 0,
        generation_index: 0,
        generation_lane_index: 0,
        seed: 11,
        role: NativeTacticLaneRole::TerminalSupport,
        acquisition: NativeTacticAcquisitionPlan::FixedRank { rank: 0 },
        epsilon_per_million: 0,
        intervention: NativeTacticInterventionPlan::NoIntervention,
        root_refresh_phase: 0,
        episode_group_base: 0,
    }
}

fn completed_decision(index: u64, terminal_proposal: bool, best: Option<u64>) -> NativeTacticCompletedDecision {
    NativeTacticCompletedDecision {
        decision_index: index,
        execution_plan_sha256: Digest([3; 32]),
        learner_snapshot_sha256: Digest([4; 32]),
        replay_generation: 0,
        lane_index: 0,
        lane_role: Some(NativeTacticLaneRole::TerminalSupport),
        acquisition_rank: 0,
        episode: index,
        episode_history_acquisition_rank: 0,
        frontier_identity: Digest([5; 32]),
        has_restore_source: true,
        result_admission_schema: orchestration::bundles::NATIVE_TACTIC_RESULT_ADMISSION_SCHEMA_V1.into(),
        proposals: vec![NativeTacticCompletedProposal {
            terminal: terminal_proposal,
            execution_plan_sha256: Digest([3; 32]),
        }],
        terminal: terminal_proposal,
        cumulative_wall_micros: 100 * (index + 1),
        completed_executable_graph_expansions: index + 1,
        best_authenticated_tick_after_decision: best,
        evaluated_ticks: 10,
    }
}

fn completed_seed() -> NativeTacticCompletedSeedResult {
    NativeTacticCompletedSeedResult {
        seed: 11,
        execution_plan_sha256: Digest([3; 32]),
        decisions: 2,
        useful_decisions: 2,
        unique_useful_graph_expansions: 2,
        native_ticks: 20,
        imported_training_replay_rows: 0,
        terminal_discovered: true,
        best_authenticated_tick: Some(40),
        has_best_terminal_state: true,
        has_best_terminal_route_checkpoint: true,
        has_best_terminal_tape: true,
        has_best_terminal_result: true,
        success: true,
        has_successful_tape: true,
        has_final_result: true,
        final_checkpoint: "seed-000-11/checkpoint.dtqc".into(),
        state_graph_sha256: Digest([6; 32]),
        retained_candidate_artifact_micros: 5,
        first_terminal_decision_index: Some(1),
        time_to_first_terminal_micros: Some(200),
        trace: vec![completed_decision(0, false, None), completed_decision(1, true, Some(40))],
    }
}

#[test]
fn completed_seed_with_a_consistent_timeline_is_trusted() {
    validate_completed_seed_result(&completed_seed(), 11, 16, &Digest([3; 32]), &lane(), false).unwrap();
}

#[test]
fn completed_seed_rejects_detached_or_inconsistent_evidence() {
    let plan = Digest([3; 32]);
    assert!(validate_completed_seed_result(&completed_seed(), 12, 16, &plan, &lane(), false).is_err());
    assert!(validate_completed_seed_result(&completed_seed(), 11, 1, &plan, &lane(), false).is_err());
    let mut ticks = completed_seed();
    ticks.native_ticks = 21;
    assert!(validate_completed_seed_result(&ticks, 11, 16, &plan, &lane(), false).is_err());
    let mut regressed = completed_seed();
    regressed.trace[1].best_authenticated_tick_after_decision = Some(41);
    assert!(validate_completed_seed_result(&regressed, 11, 16, &plan, &lane(), false).is_err());
    let mut wall = completed_seed();
    wall.time_to_first_terminal_micros = Some(100);
    assert!(validate_completed_seed_result(&wall, 11, 16, &plan, &lane(), false).is_err());
    let mut detached = completed_seed();
    detached.trace[0].decision_index = 5;
    assert!(validate_completed_seed_result(&detached, 11, 16, &plan, &lane(), false).is_err());
    let mut artifacts = completed_seed();
    artifacts.has_best_terminal_tape = false;
    assert!(validate_completed_seed_result(&artifacts, 11, 16, &plan, &lane(), false).is_err());
}

fn report(seed: u64, retryable: u64) -> NativeTacticRouteReport {
    NativeTacticRouteReport {
        schema: NATIVE_TACTIC_ROUTE_REPORT_SCHEMA_V38.into(),
        optimization_request_sha256: Digest([1; 32]),
        execution_binding_sha256: Digest([2; 32]),
        execution_plan_sha256: Digest([3; 32]),
        objective_sha256: Digest([4; 32]),
        feature_schema_sha256: Digest([5; 32]),
        action_schema_sha256: Digest([6; 32]),
        replay_revision: 7,
        replay_snapshot_sha256: Digest([7; 32]),
        learner_authority: NativeTacticLearnerAuthority {
            latest_model_snapshot_sha256: Digest([8; 32]),
            latest_training_replay_rows: 3,
            model_snapshots_published: 1,
            declared_model_snapshots_consumed: 1,
        },
        exploration_seeds: vec![seed],
        proposal_policy: TacticProposalPolicy::Learned,
        value_treatment: TacticValueTreatment::ContinuousFittedQForestV1,
        execution_strategy: NativeGenericExecutionStrategy::NativeController,
        resource_budgets: NativeTacticPlanBudgets {
            decisions_per_lane: 4,
            native_ticks: NativeTacticResourceLimit::Unbounded,
            memory_bytes: NativeTacticResourceLimit::Unbounded,
            wall_micros: NativeTacticResourceLimit::Unbounded,
        },
        workers: 1,
        decisions_per_seed: 4,
        refit_every_decisions: 2,
        demonstration_transitions: 0,
        seeds: vec![NativeTacticSeedResult {
            seed,
            trace: vec![NativeTacticDecisionTrace {
                decision_index: 2,
                result_admission_schema: "admission".into(),
                before_snapshot_sha256: Digest([9; 32]),
                after_snapshot_sha256: Digest([10; 32]),
                applicable_tactics: Vec::new(),
                selected_option_id: "roll".into(),
                selection_reason: TacticSelectionReason::Greedy,
                proposal_batch: vec![
                    NativeTacticProposalTrace {
                        realized_ticks: 4,
                        terminal: false,
                        retained: true,
                        has_predicted_goal_progress: false,
                        selection_reason: TacticSelectionReason::Greedy,
                    };
                    4
                ],
                newly_admitted_training_rows: 1,
                learner_snapshot_sha256: Digest([8; 32]),
                policy_update_probes: Vec::new(),
                terminal: false,
                goal_reachability_calibration: None,
                branch_acquisition: None,
                scheduler_decision: Some(NativeTacticSchedulerDecision {
                    graph_sha256: Digest([21 + retryable as u8; 32]),
                    queue_sha256: Digest([22 + retryable as u8; 32]),
                    decision_sha256: Digest([23 + retryable as u8; 32]),
                    learner_model_sha256: Digest([8; 32]),
                    selected_expansion: "semantic".into(),
                }),
                cumulative_wall_micros: 10 + retryable,
                checkpoint_owner_worker_slot: Some(retryable),
                proposal_worker_slots: vec![retryable, retryable + 1, retryable + 2, retryable + 3],
                restore_source: Some(NativeTacticRestoreSource::ProcessLocalCheckpoint),
                directly_restorable_native_frontiers: 3 + retryable,
                replay_only_frontiers: 1,
            }],
            stop_reasons: Vec::new(),
            graph_metrics: Some(NativeTacticSeedGraphMetrics {
                graph: NativeTacticGraphShape {
                    nodes: 5,
                    observed_segments: 4,
                    untried_expansions: 0,
                    leased_expansions: 0,
                    retryable_expansions: 0,
                    completed_expansions: 4,
                    failed_validation_expansions: 0,
                    best_terminal: None,
                },
                lease_accounting: NativeTacticLeaseAccounting {
                    proposal_dispatches: 8 + retryable,
                    completed_leases: 8,
                    retryable_leases: retryable,
                    cancelled_leases: 0,
                    failed_leases: 0,
                    unresolved_leases: 0,
                },
            }),
            useful_graph_expansion_set_sha256: Digest([11; 32]),
            state_graph_sha256: Digest([12; 32]),
            decisions: 3,
            episodes: 1,
            native_ticks: 30,
            training_replay_rows: 3,
            imported_training_replay_rows: 0,
            duplicate_training_transitions: 0,
            censored_training_transitions: 0,
            terminal_discovered: false,
            best_authenticated_tick: None,
            best_terminal_state_sha256: None,
            best_terminal_route_checkpoint_sha256: None,
        }],
        terminal_seeds: 0,
        best_authenticated_tick: None,
        median_time_to_first_terminal_micros: None,
        worst_time_to_first_terminal_micros: None,
        total_decisions: 3,
        total_native_ticks: 30,
        useful_decisions: 3,
        unique_useful_graph_expansions: 3,
        timing: NativeTacticRouteTiming::default(),
        learner_updates: 1,
        learner_updates_per_second_millionths: 0,
        replay_sharing: NativeTacticReplaySharingReport {
            maximum_model_replay_lag_revisions: 0,
            maximum_observed_stale_revisions: 0,
        },
        checkpoint_cache_capacity_per_worker_bytes: 0,
        native_restore_accounting: NativeTacticRestoreAccounting {
            peak_resident_bytes: 0,
            peak_resident_checkpoint_bytes: 0,
            peak_resident_host_snapshot_bytes: 0,
            peak_live_endpoint_entries: 0,
            peak_live_endpoint_host_snapshot_bytes: 0,
        },
        replay_duplicate_admissions: 0,
        duplicate_training_transitions: 0,
        censored_training_transitions: 0,
    }
}

fn marker(point: NativeTacticFaultPoint) -> NativeTacticFaultInjectionMarker {
    NativeTacticFaultInjectionMarker {
        schema: NATIVE_TACTIC_FAULT_INJECTION_SCHEMA_V1.into(),
        execution_plan_sha256: Digest([3; 32]),
        seed: 17,
        decision_index: 2,
        point,
    }
}

#[test]
fn recovered_campaign_passes_when_it_retried_exactly_the_lost_batch() {
    let control = report(17, 0);
    let recovered = report(17, 4);
    let audit = build_native_tactic_fault_recovery_audit(
        b"control",
        b"recovered",
        &control,
        &recovered,
        b"semantic trace",
        b"semantic trace",
        marker(NativeTacticFaultPoint::DuringExecution),
        "linux".into(),
        "x86_64".into(),
    )
    .unwrap();
    assert!(audit.passed);
    assert_eq!(audit.seed.expected_retryable_dispatches, 4);
    assert_eq!(audit.seed.observed_retryable_dispatches, 4);
    assert_eq!(audit.control_report_sha256, digest_bytes(b"control"));
    assert!(audit.content_sha256.is_zero());
    assert!(audit.seed.semantic_trace_equal);
    assert_eq!(audit.seed.control_semantic_trace_sha256, semantic_trace_identity(b"semantic trace"));

    let committed = build_native_tactic_fault_recovery_audit(
        b"control",
        b"recovered",
        &control,
        &recovered,
        b"semantic trace",
        b"semantic trace",
        marker(NativeTacticFaultPoint::AfterDecisionCommit),
        "linux".into(),
        "x86_64".into(),
    )
    .unwrap();
    assert!(!committed.passed);
    assert!(!committed.seed.lease_accounting_exact);
}

#[test]
fn recovery_audit_requires_matched_single_seed_reports() {
    let control = report(17, 0);
    let other_seed = report(18, 4);
    assert!(build_native_tactic_fault_recovery_audit(
        b"control",
        b"recovered",
        &control,
        &other_seed,
        b"semantic trace",
        b"semantic trace",
        marker(NativeTacticFaultPoint::DuringExecution),
        "linux".into(),
        "x86_64".into(),
    )
    .is_err());
    let mut absent = marker(NativeTacticFaultPoint::DuringExecution);
    absent.decision_index = 9;
    assert!(build_native_tactic_fault_recovery_audit(
        b"control",
        b"recovered",
        &control,
        &report(17, 4),
        b"semantic trace",
        b"semantic trace",
        absent,
        "linux".into(),
        "x86_64".into(),
    )
    .is_err());
}

#[test]
fn diagnosis_revisions_are_strictly_increasing_and_bounded() {
    assert!(validate_diagnosis_revisions(&vec![1, 3, 7], 7).is_ok());
    assert!(validate_diagnosis_revisions(&vec![1, 3, 8], 7).is_err());
    assert!(validate_diagnosis_revisions(&vec![3, 3], 7).is_err());
    assert!(validate_diagnosis_revisions(&Vec::new(), 7).is_err());
    assert!(validate_diagnosis_revisions(&(1..=65).collect(), 100).is_err());
}

fn calibration() -> NativeTacticReachabilityCalibration {
    NativeTacticReachabilityCalibration {
        deployment_ready: true,
        source_transitions: 10,
        source_state_groups: 4,
        comparable_state_groups: 3,
        evaluated_action_predictions: 8,
        ranking_wins: 6,
        ranking_win_rate_millionths: Some(750_000),
        chance_win_rate_millionths: Some(500_000),
        wilson_lower_bound_millionths: Some(400_000),
        mean_observed_regret_millionths: None,
        mean_absolute_progress_error_millionths: None,
        progress_sign_accuracy_millionths: None,
    }
}

#[test]
fn diagnosis_reconstructs_only_the_routes_own_experiment() {
    let route = report(17, 0);
    let authority = NativeTacticDiagnosisAuthority {
        checkpoint_execution_authority_sha256: Digest([3; 32]),
        checkpoint_feature_schema_sha256: Digest([5; 32]),
        checkpoint_objective_sha256: Digest([4; 32]),
        replay_revision: 7,
        replay_snapshot_sha256: Digest([7; 32]),
        encoder_schema_sha256: Digest([5; 32]),
    };
    let revision = |replay_revision| NativeTacticGoalReachabilityRevisionDiagnosis {
        replay_revision,
        replay_snapshot_sha256: Digest([replay_revision as u8; 32]),
        diagnosis: calibration(),
    };
    let diagnosis = NativeTacticGoalReachabilityDiagnosis::build(
        &route,
        &Digest([20; 32]),
        &vec![2, 7],
        &authority,
        vec![revision(2), revision(7)],
    )
    .unwrap();
    assert_eq!(diagnosis.revisions.len(), 2);
    assert_eq!(diagnosis.execution_plan_sha256, Digest([3; 32]));
    let mut detached = authority;
    detached.replay_revision = 6;
    assert!(NativeTacticGoalReachabilityDiagnosis::build(
        &route,
        &Digest([20; 32]),
        &vec![2, 7],
        &detached,
        vec![revision(2), revision(7)],
    )
    .is_err());
    assert!(NativeTacticGoalReachabilityDiagnosis::build(
        &route,
        &Digest([20; 32]),
        &vec![2, 7],
        &authority,
        vec![revision(7), revision(2)],
    )
    .is_err());
}

#[test]
fn median_wall_time_rounds_down_without_overflow() {
    assert_eq!(median_sorted_wall_micros(&[]), None);
    assert_eq!(median_sorted_wall_micros(&[5]), Some(5));
    assert_eq!(median_sorted_wall_micros(&[1, 4]), Some(2));
    assert_eq!(median_sorted_wall_micros(&[1, 3, 9]), Some(3));
    assert_eq!(median_sorted_wall_micros(&[u64::MAX, u64::MAX]), Some(u64::MAX));
    assert_eq!(median_sorted_wall_micros(&[u64::MAX - 1, u64::MAX]), Some(u64::MAX - 1));
}

#[test]
fn utilization_ratio_is_in_millionths() {
    assert_eq!(ratio_per_million_of(3, 4), 750_000);
    assert_eq!(ratio_per_million_of(3, 0), 0);
    assert_eq!(ratio_per_million_of(u64::MAX, 1), u64::MAX);
}

#[test]
fn route_report_manifest_drops_only_the_traces() {
    let full = report(17, 0);
    let manifest = route_report_manifest(full.clone());
    assert_eq!(manifest.seeds.len(), 1);
    assert!(manifest.seeds[0].trace.is_empty());
    assert_eq!(manifest.seeds[0].decisions, full.seeds[0].decisions);
    assert_eq!(manifest.seeds[0].state_graph_sha256, full.seeds[0].state_graph_sha256);
    assert_eq!(manifest.total_decisions, full.total_decisions);
    assert_eq!(manifest.schema, full.schema);
}

#[test]
fn completed_seed_rejection_names_the_failed_condition() {
    let plan = Digest([3; 32]);
    let message = |result: &NativeTacticCompletedSeedResult, seed: u64, budget: u64| {
        validate_completed_seed_result(result, seed, budget, &plan, &lane(), false).unwrap_err().message
    };
    assert_eq!(
        message(&completed_seed(), 12, 16),
        "completed tactic seed result is invalid: seed identity mismatch"
    );
    assert_eq!(
        message(&completed_seed(), 11, 1),
        "completed tactic seed result is invalid: decision budget exceeded"
    );
    let mut ticks = completed_seed();
    ticks.native_ticks = 21;
    assert_eq!(
        message(&ticks, 11, 16),
        "completed tactic seed result is invalid: native tick total differs from durable decisions"
    );
    let mut regressed = completed_seed();
    regressed.trace[1].best_authenticated_tick_after_decision = Some(41);
    assert_eq!(
        message(&regressed, 11, 16),
        "completed tactic seed result is invalid: authenticated terminal timeline disagrees with final best tick"
    );
    let mut worsened = completed_seed();
    worsened.imported_training_replay_rows = 1;
    worsened.trace[0].best_authenticated_tick_after_decision = Some(30);
    assert_eq!(
        message(&worsened, 11, 16),
        "completed tactic seed result is invalid: authenticated terminal quality regresses"
    );
    let mut origin = completed_seed();
    origin.trace[0].best_authenticated_tick_after_decision = Some(50);
    assert_eq!(
        message(&origin, 11, 16),
        "completed tactic seed result is invalid: authenticated terminal origin is inconsistent"
    );
    let mut wall = completed_seed();
    wall.time_to_first_terminal_micros = Some(100);
    assert_eq!(message(&wall, 11, 16), "completed tactic seed result is invalid: wall-time timeline is invalid");
    let mut detached = completed_seed();
    detached.trace[0].decision_index = 5;
    assert_eq!(
        message(&detached, 11, 16),
        "completed tactic seed result is invalid: a decision is detached from its lane or execution authority"
    );
    let mut artifacts = completed_seed();
    artifacts.has_best_terminal_tape = false;
    assert_eq!(
        message(&artifacts, 11, 16),
        "completed tactic seed result is invalid: terminal artifact presence is inconsistent"
    );
}

#[test]
fn recovery_audit_fails_when_the_recovered_trace_decided_differently() {
    let control = report(17, 0);
    let mut recovered = report(17, 4);
    recovered.seeds[0].trace[0].selected_option_id = "jump".into();
    let audit = build_native_tactic_fault_recovery_audit(
        b"control",
        b"recovered",
        &control,
        &recovered,
        b"control semantic trace",
        b"recovered semantic trace",
        marker(NativeTacticFaultPoint::DuringExecution),
        "linux".into(),
        "x86_64".into(),
    )
    .unwrap();
    assert!(!audit.seed.semantic_trace_equal);
    assert!(!audit.seed.passed);
    assert!(!audit.passed);
    assert_ne!(audit.seed.control_semantic_trace_sha256, audit.seed.recovered_semantic_trace_sha256);
}
