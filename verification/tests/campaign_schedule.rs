use orchestration::digest::Digest;
use orchestration::execution_plan::{NativeTacticResourceLimit, TacticProposalPolicy};
use orchestration::report::NativeTacticSeedStopReason;
use orchestration::schedule::{
    authenticated_terminal_origin_matches, demonstration_evidence_matches_treatment,
    imports_inherited_learner_snapshot, recovery_requires_native_fleet,
    should_periodically_branch, should_probe_policy_before_branch,
    best_authenticated_tick_of, seed_stop_reasons, seed_succeeded, seed_wall_budget_reached, shared_training_unique_rows, should_start_paired_terminal_return, ActiveIncumbentContinuation,
    ActiveTerminalRefinementRollout,
};

#[test]
fn terminal_refinement_owns_an_equal_incumbent_continuation_budget() {
    let rollout = ActiveTerminalRefinementRollout::new(20, Some(125)).unwrap();
    assert!(rollout.has_remaining_budget(20));
    assert!(rollout.has_remaining_budget(144));
    assert!(!rollout.has_remaining_budget(145));
    assert!(!rollout.has_remaining_budget(200));
    assert_eq!(ActiveTerminalRefinementRollout::new(20, None), None);
}

#[test]
fn incumbent_continuation_is_one_perturbation_then_one_suffix() {
    let route = Digest([7; 32]);
    let mut rollout = ActiveIncumbentContinuation::new(route, 0).unwrap();
    assert_eq!(rollout.terminal_route_checkpoint_sha256(), route);
    assert!(!rollout.should_execute_suffix());
    assert!(!rollout.candidate_completed());
    rollout.record_executed_action().unwrap();
    assert!(rollout.should_execute_suffix());
    assert!(!rollout.candidate_completed());
    rollout.record_executed_action().unwrap();
    assert!(!rollout.should_execute_suffix());
    assert!(rollout.candidate_completed());
    assert!(ActiveIncumbentContinuation::new(Digest::zero(), 0).is_none());
}

#[test]
fn ordinary_learning_never_starts_a_paired_attribution_rollout() {
    assert!(!should_start_paired_terminal_return(false, false));
    assert!(!should_start_paired_terminal_return(false, true));
    assert!(should_start_paired_terminal_return(true, false));
    assert!(!should_start_paired_terminal_return(true, true));
}

#[test]
fn assisted_controls_import_the_common_demonstration_frontier() {
    for policy in [
        TacticProposalPolicy::Learned,
        TacticProposalPolicy::FrozenPolicy,
        TacticProposalPolicy::RandomValid,
        TacticProposalPolicy::StructuredNonLearning,
    ] {
        assert!(imports_inherited_learner_snapshot(policy, true));
    }
}

#[test]
fn unassisted_non_learning_controls_remain_scratch_campaigns() {
    assert!(imports_inherited_learner_snapshot(TacticProposalPolicy::Learned, false));
    assert!(imports_inherited_learner_snapshot(TacticProposalPolicy::FrozenPolicy, false));
    assert!(!imports_inherited_learner_snapshot(TacticProposalPolicy::RandomValid, false));
    assert!(!imports_inherited_learner_snapshot(
        TacticProposalPolicy::StructuredNonLearning,
        false
    ));
}

#[test]
fn imported_terminal_support_precedes_native_proposal_discovery() {
    assert!(authenticated_terminal_origin_matches(true, Some(0), None));
    assert!(authenticated_terminal_origin_matches(true, Some(0), Some(17)));
}

#[test]
fn unassisted_terminal_timeline_still_names_its_discovery_decision() {
    assert!(authenticated_terminal_origin_matches(false, Some(17), Some(17)));
    assert!(!authenticated_terminal_origin_matches(false, Some(0), None));
    assert!(!authenticated_terminal_origin_matches(false, Some(16), Some(17)));
}

#[test]
fn completed_seed_preflight_requires_exact_demonstration_treatment_evidence() {
    assert!(demonstration_evidence_matches_treatment(false, None));
    assert!(demonstration_evidence_matches_treatment(true, Some(4)));
    assert!(!demonstration_evidence_matches_treatment(true, None));
    assert!(!demonstration_evidence_matches_treatment(false, Some(4)));
}

#[test]
fn completed_seeds_skip_native_work_except_for_unfinished_macro_validation() {
    assert!(recovery_requires_native_fleet(false, false));
    assert!(recovery_requires_native_fleet(false, true));
    assert!(recovery_requires_native_fleet(true, false));
    assert!(!recovery_requires_native_fleet(true, true));
}

#[test]
fn terminal_restarts_branch_and_skip_the_policy_probe() {
    assert!(should_periodically_branch(3, 8, true));
    assert!(!should_periodically_branch(0, 8, false));
    assert!(!should_periodically_branch(7, 8, false));
    assert!(should_periodically_branch(8, 8, false));
    assert!(!should_probe_policy_before_branch(true));
    assert!(should_probe_policy_before_branch(false));
}

#[test]
fn shared_training_rows_count_distinct_replay_identities() {
    let rows = vec![Digest([1; 32]), Digest([2; 32]), Digest([1; 32]), Digest([3; 32]), Digest([2; 32])];
    assert_eq!(shared_training_unique_rows(&rows), 3);
    assert_eq!(shared_training_unique_rows(&Vec::new()), 0);
}

#[test]
fn a_stopped_seed_names_every_exhausted_budget() {
    let reasons = seed_stop_reasons(
        8,
        8,
        500,
        400,
        NativeTacticResourceLimit::Bounded(500),
        NativeTacticResourceLimit::Unbounded,
        1_000,
    )
    .unwrap();
    assert_eq!(
        reasons,
        vec![
            NativeTacticSeedStopReason::DecisionBudgetReached,
            NativeTacticSeedStopReason::SimulatedTickBudgetReached,
            NativeTacticSeedStopReason::NativeTickBudgetReached,
        ]
    );
    let wall = seed_stop_reasons(
        2,
        8,
        10,
        400,
        NativeTacticResourceLimit::Unbounded,
        NativeTacticResourceLimit::Bounded(900),
        1_000,
    )
    .unwrap();
    assert_eq!(wall, vec![NativeTacticSeedStopReason::WallBudgetReached]);
    assert!(seed_wall_budget_reached(
        2,
        8,
        10,
        400,
        NativeTacticResourceLimit::Unbounded,
        NativeTacticResourceLimit::Bounded(900),
        1_000
    ));
    assert!(!seed_wall_budget_reached(
        8,
        8,
        10,
        400,
        NativeTacticResourceLimit::Unbounded,
        NativeTacticResourceLimit::Bounded(900),
        1_000
    ));
    assert_eq!(
        seed_stop_reasons(
            2,
            8,
            10,
            400,
            NativeTacticResourceLimit::Unbounded,
            NativeTacticResourceLimit::Unbounded,
            1_000
        )
        .unwrap_err()
        .message,
        "native tactic route stopped without exhausting a sealed budget"
    );
}

#[test]
fn a_seed_succeeds_only_below_the_promotion_tick() {
    assert_eq!(best_authenticated_tick_of(Some(120)), Some(119));
    assert_eq!(best_authenticated_tick_of(Some(0)), None);
    assert_eq!(best_authenticated_tick_of(None), None);
    assert!(seed_succeeded(best_authenticated_tick_of(Some(120)), 120));
    assert!(!seed_succeeded(best_authenticated_tick_of(Some(121)), 120));
    assert!(!seed_succeeded(None, 120));
}
