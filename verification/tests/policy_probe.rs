use orchestration::digest::Digest;
use orchestration::probe::{
    parameterized_policy_action_schema_sha256, NativeTacticActionSurfaceAuditContext, NativeTacticPolicyUpdateProbe,
    ACTION_SURFACE_AUDIT_SEED, NATIVE_TACTIC_ACTION_SURFACE_AUDIT_CONTEXT_SCHEMA_V1,
};
use orchestration::policy::{validate_policy_decision_bound, MAX_GREEDY_DECISIONS};
use orchestration::report::TacticSelectionReason;

fn probe() -> NativeTacticPolicyUpdateProbe {
    NativeTacticPolicyUpdateProbe {
        state_sha256: Digest([1; 32]),
        before_action_surface_sha256: Digest([2; 32]),
        after_action_surface_sha256: Digest([2; 32]),
        before_learner_snapshot_sha256: Digest([4; 32]),
        after_learner_snapshot_sha256: Digest([5; 32]),
        before_replay_rows: 1,
        after_replay_rows: 2,
        before_model_revision: 1,
        after_model_revision: 2,
        before_selected_option_id: "before".into(),
        after_selected_option_id: "after".into(),
        before_selection_reason: TacticSelectionReason::Greedy,
        after_selection_reason: TacticSelectionReason::Greedy,
        selected_action_changed: true,
    }
}

#[test]
fn probe_rejects_a_changed_action_surface() {
    let mut probe = probe();
    probe.after_action_surface_sha256 = Digest([3; 32]);
    assert!(probe.validate().is_err());
}

#[test]
fn probe_must_report_its_action_change_truthfully() {
    assert!(probe().validate().is_ok());
    let mut unchanged = probe();
    unchanged.after_selected_option_id = "before".into();
    assert!(unchanged.validate().is_err());
    unchanged.selected_action_changed = false;
    assert!(unchanged.validate().is_ok());
    let mut stale = probe();
    stale.after_model_revision = 1;
    assert!(stale.validate().is_err());
}

fn family_schema() -> Digest {
    Digest([8; 32])
}

fn expected_action_schema() -> Digest {
    parameterized_policy_action_schema_sha256(&family_schema())
}

fn context() -> NativeTacticActionSurfaceAuditContext {
    NativeTacticActionSurfaceAuditContext {
        schema: NATIVE_TACTIC_ACTION_SURFACE_AUDIT_CONTEXT_SCHEMA_V1.into(),
        action_schema_sha256: expected_action_schema(),
        goal_coordinate_f32_bits: [1.0_f32.to_bits(), 2.0_f32.to_bits(), 3.0_f32.to_bits()],
        maximum_ticks: 16,
        seed: ACTION_SURFACE_AUDIT_SEED,
    }
}

#[test]
fn action_surface_context_rejects_unsealed_probe_inputs() {
    context().validate(&family_schema()).unwrap();

    let mut drifted = context();
    drifted.seed = 1;
    assert!(drifted.validate(&family_schema()).is_err());

    drifted = context();
    drifted.goal_coordinate_f32_bits[0] = f32::NAN.to_bits();
    assert!(drifted.validate(&family_schema()).is_err());

    drifted = context();
    drifted.action_schema_sha256 = Digest([9; 32]);
    assert!(drifted.validate(&family_schema()).is_err());
}

#[test]
fn action_surface_context_bounds_its_tick_ceiling() {
    let mut drifted = context();
    drifted.maximum_ticks = 40;
    assert!(drifted.validate(&family_schema()).is_ok());
    drifted.maximum_ticks = 41;
    assert!(drifted.validate(&family_schema()).is_err());
    drifted.maximum_ticks = 0;
    assert!(drifted.validate(&family_schema()).is_err());
    drifted = context();
    drifted.goal_coordinate_f32_bits[2] = f32::INFINITY.to_bits();
    assert!(drifted.validate(&family_schema()).is_err());
}

#[test]
fn policy_runs_take_a_bounded_positive_number_of_decisions() {
    validate_policy_decision_bound(1, 1).unwrap();
    validate_policy_decision_bound(MAX_GREEDY_DECISIONS, u64::MAX).unwrap();
    for (maximum, budget) in [(0, 10), (11, 10), (MAX_GREEDY_DECISIONS + 1, u64::MAX)] {
        assert_eq!(
            validate_policy_decision_bound(maximum, budget).unwrap_err().0,
            "native tactic policy configuration is invalid"
        );
    }
}
