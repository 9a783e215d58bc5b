use orchestration::execution_plan::{
    NativeGenericExecutionStrategy, NativeTacticAcquisitionPlan, NativeTacticCheckpointFallback,
    NativeTacticCheckpointOwnership, NativeTacticExecutionPlan, NativeTacticExecutionPlanRequest,
    NativeTacticLaneRole, NativeTacticPlanBudgets, NativeTacticReplaySharingPlan,
    NativeTacticResourceLimit, TacticProposalPolicy, TacticValueTreatment, EPISODE_GROUP_STRIDE,
};
use orchestration::execution_plan::{open_plan_envelope, seal_plan_envelope};

fn request() -> NativeTacticExecutionPlanRequest {
    NativeTacticExecutionPlanRequest {
        seeds: vec![11, 22, 33, 44],
        proposal_policy: TacticProposalPolicy::Learned,
        value_treatment: TacticValueTreatment::ContinuousFittedQForestV1,
        execution_strategy: NativeGenericExecutionStrategy::NativeController,
        promoted_tactic_registry_sha256: None,
        lanes_per_generation: 4,
        proposal_width_per_decision: 4,
        branch_every_decisions: 8,
        refit_every_decisions: 4,
        root_refresh_cadence: 4,
        epsilon_per_million: 350_000,
        demonstration_chunk_ticks: Some(4),
        replay_sharing: NativeTacticReplaySharingPlan::GenerationBarrier,
        budgets: NativeTacticPlanBudgets {
            decisions_per_lane: 256,
            native_ticks: NativeTacticResourceLimit::Bounded(100_000),
            memory_bytes: NativeTacticResourceLimit::Unbounded,
            wall_micros: NativeTacticResourceLimit::Unbounded,
        },
    }
}

#[test]
fn equal_requests_seal_equal_jobs_without_lane_arithmetic_at_runtime() {
    let first = NativeTacticExecutionPlan::build(request()).unwrap();
    let second = NativeTacticExecutionPlan::build(request()).unwrap();
    assert_eq!(first, second);
    assert_eq!(first.generations.len(), 1);
    assert_eq!(
        first
            .lanes
            .iter()
            .map(|lane| (
                lane.role,
                lane.acquisition.rank(999),
                lane.epsilon_per_million,
                lane.root_refresh_phase,
            ))
            .collect::<Vec<_>>(),
        vec![
            (NativeTacticLaneRole::TerminalSupport, 0, 350_000, 0),
            (NativeTacticLaneRole::RankedExploration, 1, 350_000, 1),
            (NativeTacticLaneRole::RankedExploration, 2, 350_000, 2),
            (NativeTacticLaneRole::RankedExploration, 3, 350_000, 3),
        ]
    );
}

#[test]
fn ranking_treatments_share_one_graph_acquisition_schedule() {
    let plans = [
        TacticProposalPolicy::Learned,
        TacticProposalPolicy::StructuredNonLearning,
        TacticProposalPolicy::RandomValid,
    ]
    .map(|proposal_policy| {
        let mut request = request();
        request.proposal_policy = proposal_policy;
        NativeTacticExecutionPlan::build(request).unwrap()
    });
    for plan in &plans[1..] {
        assert_eq!(plan.generations, plans[0].generations);
        assert_eq!(plan.lanes, plans[0].lanes);
        assert_eq!(plan.checkpoint, plans[0].checkpoint);
        assert_eq!(plan.budgets, plans[0].budgets);
    }

    let single_seed = [
        TacticProposalPolicy::Learned,
        TacticProposalPolicy::StructuredNonLearning,
        TacticProposalPolicy::RandomValid,
    ]
    .map(|proposal_policy| {
        let mut request = request();
        request.seeds = vec![11];
        request.lanes_per_generation = 1;
        request.proposal_policy = proposal_policy;
        NativeTacticExecutionPlan::build(request).unwrap()
    });
    assert!(single_seed.iter().all(|plan| {
        plan.lanes[0].acquisition
            == NativeTacticAcquisitionPlan::CyclicSupportAndRanks {
                cycle_width: 4,
                ranked_lanes_per_cycle: 3,
            }
    }));
}

#[test]
fn bounded_staleness_is_an_explicit_validated_execution_mode() {
    let mut asynchronous = request();
    asynchronous.replay_sharing = NativeTacticReplaySharingPlan::BoundedStaleness {
        maximum_stale_replay_revisions: 4,
    };
    let plan = NativeTacticExecutionPlan::build(asynchronous).unwrap();
    assert_eq!(
        plan.replay_sharing,
        NativeTacticReplaySharingPlan::BoundedStaleness {
            maximum_stale_replay_revisions: 4,
        }
    );

    let mut invalid = request();
    invalid.proposal_policy = TacticProposalPolicy::RandomValid;
    invalid.replay_sharing = NativeTacticReplaySharingPlan::BoundedStaleness {
        maximum_stale_replay_revisions: 0,
    };
    assert!(NativeTacticExecutionPlan::build(invalid).is_err());

    let mut freshest = request();
    freshest.replay_sharing = NativeTacticReplaySharingPlan::BoundedStaleness {
        maximum_stale_replay_revisions: 0,
    };
    assert!(NativeTacticExecutionPlan::build(freshest).is_ok());
}

#[test]
fn multi_seed_plans_route_cross_decision_restores_to_checkpoint_owners() {
    let plan = NativeTacticExecutionPlan::build(request()).unwrap();
    assert_eq!(plan.lanes.len(), 4);
    assert!(plan.checkpoint.cross_decision_direct_restore);
    assert_eq!(
        plan.checkpoint.ownership,
        NativeTacticCheckpointOwnership::WorkerLocal
    );
    assert_eq!(
        plan.checkpoint.fallback,
        NativeTacticCheckpointFallback::AuthenticatedRootReplay
    );
}

#[test]
fn counterfactual_siblings_receive_distinct_censored_episode_lineages() {
    let plan = NativeTacticExecutionPlan::build(request()).unwrap();
    let lane = &plan.lanes[0];
    let retained = lane.episode_group(3).unwrap();
    let first = lane
        .counterfactual_episode_group(
            7,
            1,
            plan.budgets.decisions_per_lane,
            plan.proposal_width_per_decision,
        )
        .unwrap();
    let second = lane
        .counterfactual_episode_group(
            7,
            2,
            plan.budgets.decisions_per_lane,
            plan.proposal_width_per_decision,
        )
        .unwrap();
    assert_ne!(retained, first);
    assert_ne!(first, second);
    assert!(lane.owns_episode_group(first));
    assert!(lane.owns_episode_group(second));

    let mut oversized = request();
    oversized.budgets.decisions_per_lane = EPISODE_GROUP_STRIDE / 4 + 1;
    assert!(NativeTacticExecutionPlan::build(oversized).is_err());
}

#[test]
fn zero_is_not_a_bounded_resource_budget() {
    for mutate in [
        |budgets: &mut NativeTacticPlanBudgets| {
            budgets.native_ticks = NativeTacticResourceLimit::Bounded(0);
        },
        |budgets: &mut NativeTacticPlanBudgets| {
            budgets.memory_bytes = NativeTacticResourceLimit::Bounded(0);
        },
        |budgets: &mut NativeTacticPlanBudgets| {
            budgets.wall_micros = NativeTacticResourceLimit::Bounded(0);
        },
    ] {
        let mut invalid = request();
        mutate(&mut invalid.budgets);
        assert!(NativeTacticExecutionPlan::build(invalid).is_err());
    }
    assert!(!NativeTacticResourceLimit::Unbounded.reached(u64::MAX));
    assert!(!NativeTacticResourceLimit::Bounded(10).reached(9));
    assert!(NativeTacticResourceLimit::Bounded(10).reached(10));
}

#[test]
fn built_plan_validates() {
    let plan = NativeTacticExecutionPlan::build(request()).unwrap();
    assert!(plan.validate().is_ok());
    let mut detached = plan.clone();
    detached.lanes[1].seed += 1;
    assert!(detached.validate().is_err());
}

#[test]
fn plan_envelope_round_trips_and_rejects_tampering() {
    let payload = b"sealed plan payload".to_vec();
    let (bytes, identity) = seal_plan_envelope(&payload);
    let (opened, opened_identity) = open_plan_envelope(&bytes).unwrap();
    assert_eq!(opened, payload);
    assert_eq!(opened_identity, identity);
    let mut tampered = bytes.clone();
    *tampered.last_mut().unwrap() ^= 1;
    assert!(open_plan_envelope(&tampered).is_err());
    assert!(open_plan_envelope(&bytes[..bytes.len() - 1]).is_err());
}
