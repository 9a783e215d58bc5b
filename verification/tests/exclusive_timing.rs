use orchestration::timing::{
    attribute_campaign_model_timing, cumulative_route_wall_micros, reconcile_recovered_seed_timing,
    NativeTacticOrchestrationTiming, NativeTacticPersistenceTiming, NativeTacticRouteTiming,
};

#[test]
fn exclusive_breakdown_rejects_a_one_microsecond_detachment() {
    let mut timing = NativeTacticRouteTiming {
        wall_micros: 100,
        tactic_execution_micros: 40,
        model_update_micros: 10,
        evidence_projection_micros: 5,
        persistence_micros: 20,
        orchestration_micros: 25,
        orchestration_breakdown: Some(NativeTacticOrchestrationTiming {
            decision_bookkeeping_micros: 25,
            ..NativeTacticOrchestrationTiming::default()
        }),
        ..NativeTacticRouteTiming::default()
    };
    assert!(timing.seed_wall_attribution_is_exact());
    timing.orchestration_micros += 1;
    assert!(!timing.seed_wall_attribution_is_exact());
    timing.orchestration_micros -= 1;
    timing
        .orchestration_breakdown
        .as_mut()
        .unwrap()
        .graph_scheduling_breakdown
        .registration_micros = 1;
    assert!(!timing.seed_wall_attribution_is_exact());
}

#[test]
fn recovered_decision_tail_is_charged_to_the_explicit_timing_boundary() {
    let mut timing = NativeTacticRouteTiming {
        wall_micros: 100,
        tactic_execution_micros: 40,
        model_update_micros: 10,
        evidence_projection_micros: 5,
        persistence_micros: 10,
        persistence_breakdown: Some(NativeTacticPersistenceTiming {
            unattributed_micros: 10,
            ..NativeTacticPersistenceTiming::default()
        }),
        orchestration_micros: 15,
        orchestration_breakdown: Some(NativeTacticOrchestrationTiming {
            decision_bookkeeping_micros: 15,
            ..NativeTacticOrchestrationTiming::default()
        }),
        ..NativeTacticRouteTiming::default()
    };

    reconcile_recovered_seed_timing(&mut timing).unwrap();

    assert_eq!(timing.orchestration_micros, 35);
    assert_eq!(
        timing.orchestration_breakdown.unwrap().timing_boundary_micros,
        20
    );
    assert!(timing.seed_wall_attribution_is_exact());
    reconcile_recovered_seed_timing(&mut timing).unwrap();
    assert_eq!(timing.orchestration_micros, 35);
}

#[test]
fn recovered_subphase_gaps_are_explicit_before_wall_reconciliation() {
    let mut timing = NativeTacticRouteTiming {
        wall_micros: 100,
        tactic_execution_micros: 40,
        model_update_micros: 10,
        evidence_projection_micros: 5,
        persistence_micros: 12,
        persistence_breakdown: Some(NativeTacticPersistenceTiming {
            unattributed_micros: 10,
            ..NativeTacticPersistenceTiming::default()
        }),
        orchestration_micros: 18,
        orchestration_breakdown: Some(NativeTacticOrchestrationTiming {
            decision_bookkeeping_micros: 15,
            ..NativeTacticOrchestrationTiming::default()
        }),
        ..NativeTacticRouteTiming::default()
    };

    reconcile_recovered_seed_timing(&mut timing).unwrap();

    assert_eq!(timing.persistence_breakdown.unwrap().unattributed_micros, 12);
    assert_eq!(timing.orchestration_micros, 33);
    assert_eq!(
        timing.orchestration_breakdown.unwrap().timing_boundary_micros,
        18
    );
    assert!(timing.seed_wall_attribution_is_exact());
}

#[test]
fn recovered_subphase_tails_promote_parent_totals_before_wall_reconciliation() {
    let mut timing = NativeTacticRouteTiming {
        wall_micros: 100,
        tactic_execution_micros: 40,
        model_update_micros: 10,
        evidence_projection_and_persistence_micros: 15,
        evidence_projection_micros: 5,
        persistence_micros: 10,
        persistence_breakdown: Some(NativeTacticPersistenceTiming {
            unattributed_micros: 12,
            ..NativeTacticPersistenceTiming::default()
        }),
        orchestration_micros: 10,
        orchestration_breakdown: Some(NativeTacticOrchestrationTiming {
            decision_bookkeeping_micros: 15,
            ..NativeTacticOrchestrationTiming::default()
        }),
        ..NativeTacticRouteTiming::default()
    };

    reconcile_recovered_seed_timing(&mut timing).unwrap();

    assert_eq!(timing.persistence_micros, 12);
    assert_eq!(timing.evidence_projection_and_persistence_micros, 17);
    assert_eq!(timing.orchestration_micros, 33);
    assert_eq!(
        timing.orchestration_breakdown.unwrap().timing_boundary_micros,
        18
    );
    assert!(timing.seed_wall_attribution_is_exact());
}

#[test]
fn resumed_campaign_keeps_durable_seed_model_time_and_adds_reconstruction() {
    let mut timing = NativeTacticRouteTiming {
        model_update_micros: 279,
        ..NativeTacticRouteTiming::default()
    };

    let campaign_model = attribute_campaign_model_timing(&mut timing, 0, 3, 0, 0, 0).unwrap();

    assert_eq!(campaign_model, 3);
    assert_eq!(timing.model_update_micros, 282);
}

#[test]
fn current_seed_model_time_is_not_counted_twice() {
    let mut timing = NativeTacticRouteTiming {
        model_update_micros: 40,
        ..NativeTacticRouteTiming::default()
    };

    let campaign_model = attribute_campaign_model_timing(&mut timing, 55, 3, 7, 8, 40).unwrap();

    assert_eq!(campaign_model, 18);
    assert_eq!(timing.model_update_micros, 58);
}

#[test]
fn learner_update_time_must_reconcile_to_measured_phases() {
    let mut timing = NativeTacticRouteTiming::default();

    assert!(attribute_campaign_model_timing(&mut timing, 55, 3, 7, 7, 40).is_err());
    assert_eq!(timing.model_update_micros, 0);
}

#[test]
fn cumulative_route_wall_replaces_only_current_seed_lane_with_durable_lane() {
    assert_eq!(cumulative_route_wall_micros(100, 80, 80).unwrap(), 100);
    assert_eq!(cumulative_route_wall_micros(25, 180, 5).unwrap(), 200);
    assert!(cumulative_route_wall_micros(4, 180, 5).is_err());
}
