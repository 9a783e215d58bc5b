use orchestration::digest::{digest_bytes, Digest};
use orchestration::fault::{
    expected_retryable_dispatches, parse_fault_point, resolve_retained_fault, NativeTacticFaultInjectionMarker,
    NativeTacticFaultInjector, NativeTacticFaultPoint, NativeTacticFaultRecordAction,
    NATIVE_TACTIC_FAULT_INJECTION_SCHEMA_V1,
};
use orchestration::report::{
    NativeTacticApplicableAction, NativeTacticDecisionTrace, NativeTacticProposalTrace, NativeTacticRestoreSource,
    NativeTacticSchedulerDecision, TacticSelectionReason,
};
use orchestration::semantic_trace::{semantic_trace, semantic_traces_agree};
use orchestration::recovery_audit::{
    seal_fault_recovery_audit, semantic_trace_identity, NativeTacticFaultRecoveryAudit, NativeTacticFaultRecoverySeedAudit,
    NATIVE_TACTIC_FAULT_RECOVERY_AUDIT_SCHEMA_V1, NATIVE_TACTIC_FAULT_RECOVERY_AUDIT_SCHEMA_V2,
};

fn unsigned_encoding(audit: &NativeTacticFaultRecoveryAudit) -> Vec<u8> {
    let mut unsigned = audit.clone();
    unsigned.content_sha256 = Digest::zero();
    format!("{unsigned:?}").into_bytes()
}

fn reseal(audit: &mut NativeTacticFaultRecoveryAudit) -> Vec<u8> {
    let encoding = unsigned_encoding(audit);
    audit.content_sha256 = digest_bytes(&encoding);
    encoding
}

fn valid_audit() -> (NativeTacticFaultRecoveryAudit, Vec<u8>) {
    let audit = NativeTacticFaultRecoveryAudit {
        schema: NATIVE_TACTIC_FAULT_RECOVERY_AUDIT_SCHEMA_V2.into(),
        content_sha256: Digest::zero(),
        control_report_sha256: Digest([1; 32]),
        recovered_report_sha256: Digest([2; 32]),
        execution_plan_sha256: Digest([3; 32]),
        platform_os: "test".into(),
        platform_arch: "test".into(),
        marker: NativeTacticFaultInjectionMarker {
            schema: NATIVE_TACTIC_FAULT_INJECTION_SCHEMA_V1.into(),
            execution_plan_sha256: Digest([3; 32]),
            seed: 17,
            decision_index: 2,
            point: NativeTacticFaultPoint::DuringExecution,
        },
        campaign_identity_equal: true,
        replay_snapshot_equal: true,
        learner_authority_equal: true,
        seed: NativeTacticFaultRecoverySeedAudit {
            seed: 17,
            control_semantic_trace_sha256: Digest([4; 32]),
            recovered_semantic_trace_sha256: Digest([4; 32]),
            semantic_trace_equal: true,
            useful_expansion_set_equal: true,
            state_graph_equal: true,
            graph_shape_equal: true,
            replay_shape_equal: true,
            terminal_result_equal: true,
            expected_retryable_dispatches: 4,
            observed_retryable_dispatches: 4,
            lease_accounting_exact: true,
            unresolved_leases: 0,
            passed: true,
        },
        passed: true,
    };
    let encoding = unsigned_encoding(&audit);
    let sealed = seal_fault_recovery_audit(audit, &encoding).unwrap();
    (sealed, encoding)
}

#[test]
fn every_precommit_loss_retries_the_exact_dispatched_batch() {
    for point in [
        NativeTacticFaultPoint::BeforeDispatch,
        NativeTacticFaultPoint::DuringExecution,
        NativeTacticFaultPoint::AfterNativeCompletion,
        NativeTacticFaultPoint::AfterRecoveryPointCommit,
    ] {
        assert_eq!(expected_retryable_dispatches(point, 4), 4);
    }
    assert_eq!(
        expected_retryable_dispatches(NativeTacticFaultPoint::AfterDecisionCommit, 4),
        0
    );
}

#[test]
fn resealed_retry_mismatch_fails_validation() {
    let (mut audit, _) = valid_audit();
    audit.seed.observed_retryable_dispatches = 3;
    let encoding = reseal(&mut audit);
    assert!(audit.validate(&encoding).is_err());
}

#[test]
fn v2_rejects_resealed_exact_authority_drift() {
    for mutate in [
        |audit: &mut NativeTacticFaultRecoveryAudit| audit.seed.state_graph_equal = false,
        |audit: &mut NativeTacticFaultRecoveryAudit| audit.replay_snapshot_equal = false,
        |audit: &mut NativeTacticFaultRecoveryAudit| audit.learner_authority_equal = false,
    ] {
        let (mut audit, _) = valid_audit();
        mutate(&mut audit);
        let encoding = reseal(&mut audit);
        assert!(audit.validate(&encoding).is_err());
    }
}

#[test]
fn legacy_v1_digest_remains_valid_without_v2_authorities() {
    let (mut audit, _) = valid_audit();
    audit.schema = NATIVE_TACTIC_FAULT_RECOVERY_AUDIT_SCHEMA_V1.into();
    audit.seed.state_graph_equal = false;
    audit.replay_snapshot_equal = false;
    audit.learner_authority_equal = false;
    let encoding = reseal(&mut audit);

    assert!(audit.validate(&encoding).is_ok());
}

#[test]
fn sealed_audit_validates_only_against_its_own_encoding() {
    let (audit, encoding) = valid_audit();
    assert!(audit.validate(&encoding).is_ok());
    let mut other = encoding.clone();
    other.push(b' ');
    assert!(audit.validate(&other).is_err());
}

#[test]
fn parser_names_every_required_native_loss_boundary() {
    assert_eq!(
        "before-dispatch".parse::<NativeTacticFaultPoint>().unwrap(),
        NativeTacticFaultPoint::BeforeDispatch
    );
    assert_eq!(
        "during-execution".parse::<NativeTacticFaultPoint>().unwrap(),
        NativeTacticFaultPoint::DuringExecution
    );
    assert_eq!(
        "after-native-completion".parse::<NativeTacticFaultPoint>().unwrap(),
        NativeTacticFaultPoint::AfterNativeCompletion
    );
    assert_eq!(
        "after-recovery-point-commit".parse::<NativeTacticFaultPoint>().unwrap(),
        NativeTacticFaultPoint::AfterRecoveryPointCommit
    );
    assert_eq!(
        "after-decision-commit".parse::<NativeTacticFaultPoint>().unwrap(),
        NativeTacticFaultPoint::AfterDecisionCommit
    );
    assert!(parse_fault_point("after-everything").is_err());
}

#[test]
fn injected_fault_fires_once_at_its_own_boundary() {
    let mut injector =
        NativeTacticFaultInjector::returning_error(NativeTacticFaultPoint::BeforeDispatch, 3);
    let plan = Digest([7; 32]);
    assert!(injector
        .claim(NativeTacticFaultPoint::DuringExecution, plan, 104_729, 3)
        .unwrap()
        .is_none());
    assert!(injector
        .claim(NativeTacticFaultPoint::BeforeDispatch, plan, 104_729, 2)
        .unwrap()
        .is_none());
    let marker = injector
        .claim(NativeTacticFaultPoint::BeforeDispatch, plan, 104_729, 3)
        .unwrap()
        .unwrap();
    marker.validate().unwrap();
    assert_eq!(marker.seed, 104_729);
    assert_eq!(marker.decision_index, 3);
    assert!(injector
        .claim(NativeTacticFaultPoint::BeforeDispatch, plan, 104_729, 3)
        .unwrap()
        .is_none());
}

#[test]
fn semantic_trace_identity_frames_the_canonical_trace() {
    let encoding = b"\x81\xa1\x6adecision\x00".to_vec();
    let mut framed = b"dusklight/native-tactic/recovered-semantic-trace/v2".to_vec();
    framed.extend_from_slice(&(encoding.len() as u64).to_le_bytes());
    framed.extend_from_slice(&encoding);
    let expected: [u8; 32] = <sha2::Sha256 as sha2::Digest>::digest(&framed).into();
    assert_eq!(semantic_trace_identity(&encoding).0, expected);
    assert_ne!(semantic_trace_identity(&encoding), semantic_trace_identity(b"other"));
}

#[test]
fn a_recorded_fault_does_not_fire_again_after_resume() {
    let mut injector = NativeTacticFaultInjector::returning_error(NativeTacticFaultPoint::AfterNativeCompletion, 3);
    let marker = injector
        .claim(NativeTacticFaultPoint::AfterNativeCompletion, Digest([9; 32]), 5, 3)
        .unwrap()
        .unwrap();
    assert_eq!(
        resolve_retained_fault(None, &marker).unwrap(),
        NativeTacticFaultRecordAction::RecordAndFire
    );
    assert_eq!(
        resolve_retained_fault(Some(&marker), &marker).unwrap(),
        NativeTacticFaultRecordAction::AlreadyFired
    );

    let mut other = marker.clone();
    other.decision_index = 4;
    assert!(resolve_retained_fault(Some(&other), &marker).is_err());
    let mut invalid = marker.clone();
    invalid.execution_plan_sha256 = Digest::zero();
    assert!(resolve_retained_fault(Some(&invalid), &marker).is_err());
}

fn traced_decision() -> NativeTacticDecisionTrace {
    NativeTacticDecisionTrace {
        decision_index: 2,
        result_admission_schema: "admission".into(),
        before_snapshot_sha256: Digest([4; 32]),
        after_snapshot_sha256: Digest([3; 32]),
        applicable_tactics: vec![NativeTacticApplicableAction {
            option_id: "roll".into(),
            applicable: true,
            has_descriptor: true,
            selected: true,
        }],
        selected_option_id: "roll".into(),
        selection_reason: TacticSelectionReason::Greedy,
        proposal_batch: vec![NativeTacticProposalTrace {
            realized_ticks: 11,
            terminal: false,
            retained: true,
            has_predicted_goal_progress: false,
            selection_reason: TacticSelectionReason::Greedy,
        }],
        newly_admitted_training_rows: 1,
        learner_snapshot_sha256: Digest([5; 32]),
        policy_update_probes: Vec::new(),
        terminal: false,
        goal_reachability_calibration: None,
        branch_acquisition: None,
        scheduler_decision: Some(NativeTacticSchedulerDecision {
            graph_sha256: Digest([0x21; 32]),
            queue_sha256: Digest([0x22; 32]),
            decision_sha256: Digest([0x23; 32]),
            learner_model_sha256: Digest([5; 32]),
            selected_expansion: "semantic".into(),
        }),
        cumulative_wall_micros: 10,
        checkpoint_owner_worker_slot: Some(0),
        proposal_worker_slots: vec![0, 1],
        restore_source: Some(NativeTacticRestoreSource::ProcessLocalCheckpoint),
        directly_restorable_native_frontiers: 3,
        replay_only_frontiers: 1,
    }
}

fn semantic_identity(trace: &Vec<NativeTacticDecisionTrace>) -> Digest {
    semantic_trace_identity(format!("{:?}", semantic_trace(trace)).as_bytes())
}

#[test]
fn semantic_trace_v2_ignores_physical_placement_and_run_specific_graph_seals() {
    let trace = vec![traced_decision()];
    let expected = semantic_identity(&trace);

    let mut physical_change = trace.clone();
    physical_change[0].cumulative_wall_micros = 99;
    physical_change[0].proposal_worker_slots = vec![7, 6];
    let scheduler = physical_change[0].scheduler_decision.as_mut().unwrap();
    scheduler.graph_sha256 = Digest([0x31; 32]);
    scheduler.queue_sha256 = Digest([0x32; 32]);
    scheduler.decision_sha256 = Digest([0x33; 32]);
    assert!(semantic_traces_agree(&trace, &physical_change));
    assert_eq!(expected, semantic_identity(&physical_change));

    let mut semantic_change = trace.clone();
    semantic_change[0].newly_admitted_training_rows = 2;
    assert!(!semantic_traces_agree(&trace, &semantic_change));
    assert_ne!(expected, semantic_identity(&semantic_change));
}
