use orchestration::cold_replay::{
    incumbent_frame_range, HarnessFidelityMode, NativeTacticArtifactReference,
    NativeTacticBoundaryFingerprint, NativeTacticColdReplayArtifact, NativeTacticColdReplayAttempt,
    NativeTacticColdReplayEvidenceBundle, NativeTacticColdReplayFidelity,
    NativeTacticColdReplayProof, NativeTacticColdReplayProofSummary,
    NATIVE_TACTIC_COLD_REPLAY_FIDELITY_PROFILE_V1, NATIVE_TACTIC_COLD_REPLAY_PROOF_SCHEMA_V1,
};
use orchestration::digest::Digest;

fn digest(value: u8) -> Digest {
    Digest([value; 32])
}

fn artifact(path: &str, value: u8) -> NativeTacticColdReplayArtifact {
    NativeTacticColdReplayArtifact {
        path: path.into(),
        sha256: digest(value),
    }
}

fn execution_artifact(path: &str, value: u8) -> NativeTacticArtifactReference {
    NativeTacticArtifactReference {
        path: path.into(),
        sha256: digest(value),
    }
}

fn fingerprint(value: char) -> NativeTacticBoundaryFingerprint {
    NativeTacticBoundaryFingerprint {
        schema: "dusklight.milestone-boundary/v6".into(),
        algorithm: "xxh3-128".into(),
        canonical_encoding: "little-endian-fixed-v6".into(),
        digest: std::iter::repeat(value).take(32).collect(),
    }
}

fn cvars() -> Vec<String> {
    vec!["automation.fixed_step=1".into(), "automation.audio=0".into()]
}

fn exact_headless() -> NativeTacticColdReplayFidelity {
    NativeTacticColdReplayFidelity {
        request_fidelity: HarnessFidelityMode::Headless,
        profile: NATIVE_TACTIC_COLD_REPLAY_FIDELITY_PROFILE_V1.into(),
        headless: true,
        fixed_step: true,
        unpaced: true,
        exit_after_tape: true,
        input_tape_end: "hold".into(),
        fixed_automation_cvars: cvars(),
    }
}

fn attempt(repetition: u32) -> NativeTacticColdReplayAttempt {
    NativeTacticColdReplayAttempt {
        repetition,
        controller_tape: artifact(&format!("repeat-{repetition:03}/controller.tape"), 10),
        milestone_result: artifact(
            &format!("repeat-{repetition:03}/milestones.json"),
            20 + repetition as u8,
        ),
        stdout: artifact(&format!("repeat-{repetition:03}/stdout.txt"), 30 + repetition as u8),
        stderr: artifact(&format!("repeat-{repetition:03}/stderr.txt"), 40 + repetition as u8),
        sim_tick: 512,
        tape_frame: 12,
        boundary_index: 13,
        first_hit_tick: 2,
        boundary_fingerprint: fingerprint('a'),
    }
}

fn canonical(replay_proof: &NativeTacticColdReplayProof) -> Vec<u8> {
    let mut unsigned = replay_proof.clone();
    unsigned.content_sha256 = Digest::zero();
    format!("{unsigned:?}").into_bytes()
}

fn reseal(replay_proof: &mut NativeTacticColdReplayProof) -> Vec<u8> {
    let json = canonical(replay_proof);
    replay_proof.content_sha256 = orchestration::cold_replay::cold_replay_proof_identity(&json);
    json
}

fn proof_fixture() -> (NativeTacticColdReplayProof, Vec<u8>) {
    let mut replay_proof = NativeTacticColdReplayProof {
        schema: NATIVE_TACTIC_COLD_REPLAY_PROOF_SCHEMA_V1.into(),
        content_sha256: Digest::zero(),
        optimization_request_sha256: digest(1),
        execution_binding_sha256: digest(2),
        execution_plan_sha256: digest(3),
        route_report_sha256: digest(4),
        seed: 155_921,
        state_graph_sha256: digest(5),
        terminal_result_sha256: digest(6),
        terminal_state_sha256: digest(7),
        objective_sha256: digest(8),
        source_boundary_index: 10,
        source_boundary_fingerprint: "11111111111111111111111111111111".into(),
        native_source_boundary_fingerprint: "22222222222222222222222222222222".into(),
        goal: "ordon-load-zone".into(),
        terminal_program_sha256: digest(9),
        terminal_definition_sha256: digest(8),
        first_hit_tick: 2,
        maximum_first_hit_tick: 123,
        controller_tape: artifact("route.tape", 10),
        controller_tape_frames: 13,
        executable: execution_artifact("build/dusklight.exe", 11),
        runtime_dependencies: vec![execution_artifact("build/runtime.dll", 12)],
        game_data: execution_artifact("game.iso", 13),
        milestone_program: execution_artifact("goals.json", 14),
        world_context: execution_artifact("world.json", 15),
        card_fixture_manifest: execution_artifact("fixture.json", 16),
        fidelity: exact_headless(),
        controller_in_loop: false,
        learner_in_loop: false,
        attempts: vec![attempt(1), attempt(2)],
    };
    let json = reseal(&mut replay_proof);
    (replay_proof, json)
}

#[test]
fn exact_repeated_cold_replay_proof_is_accepted() {
    let (replay_proof, json) = proof_fixture();
    replay_proof.validate_shape(&json, &cvars()).unwrap();
}

#[test]
fn controller_or_learner_authority_is_rejected() {
    let mutations: [fn(&mut NativeTacticColdReplayProof); 2] = [
        |replay_proof: &mut NativeTacticColdReplayProof| replay_proof.controller_in_loop = true,
        |replay_proof: &mut NativeTacticColdReplayProof| replay_proof.learner_in_loop = true,
    ];
    for mutate in mutations {
        let (mut replay_proof, _) = proof_fixture();
        mutate(&mut replay_proof);
        let json = reseal(&mut replay_proof);
        assert!(replay_proof.validate_shape(&json, &cvars()).is_err());
    }
}

#[test]
fn differing_terminal_evidence_is_rejected() {
    let (mut replay_proof, _) = proof_fixture();
    replay_proof.attempts[1].boundary_fingerprint = fingerprint('b');
    let json = reseal(&mut replay_proof);
    assert!(replay_proof.validate_shape(&json, &cvars()).is_err());
}

#[test]
fn single_repetition_or_relaxed_fidelity_is_rejected() {
    let (mut single, _) = proof_fixture();
    single.attempts.pop();
    let json = reseal(&mut single);
    assert!(single.validate_shape(&json, &cvars()).is_err());

    let (mut relaxed, _) = proof_fixture();
    relaxed.fidelity.unpaced = false;
    let json = reseal(&mut relaxed);
    assert!(relaxed.validate_shape(&json, &cvars()).is_err());
}

#[test]
fn tape_length_and_tick_ceiling_are_exact() {
    let (mut wrong_length, _) = proof_fixture();
    wrong_length.controller_tape_frames += 1;
    let json = reseal(&mut wrong_length);
    assert!(wrong_length.validate_shape(&json, &cvars()).is_err());

    let (mut too_slow, _) = proof_fixture();
    too_slow.maximum_first_hit_tick = 1;
    let json = reseal(&mut too_slow);
    assert!(too_slow.validate_shape(&json, &cvars()).is_err());
}

#[test]
fn uppercase_or_short_fingerprints_are_not_native() {
    let (mut replay_proof, _) = proof_fixture();
    replay_proof.source_boundary_fingerprint = "1111111111111111111111111111111A".into();
    let json = reseal(&mut replay_proof);
    assert!(replay_proof.validate_shape(&json, &cvars()).is_err());
    let (mut other, _) = proof_fixture();
    other.attempts[0].boundary_fingerprint.digest = "abc".into();
    other.attempts[1].boundary_fingerprint.digest = "abc".into();
    let json = reseal(&mut other);
    assert!(other.validate_shape(&json, &cvars()).is_err());
}

fn summary() -> NativeTacticColdReplayProofSummary {
    NativeTacticColdReplayProofSummary {
        scratch_bundle_sha256: digest(1),
        cold_replay_proof_sha256: digest(2),
        seed: 155_921,
        state_graph_sha256: digest(5),
        terminal_result_sha256: digest(6),
        controller_tape_sha256: digest(10),
        first_hit_tick: 2,
        attempts: 2,
    }
}

fn canonical_manifest(bundle: &NativeTacticColdReplayEvidenceBundle) -> Vec<u8> {
    let mut unsigned = bundle.clone();
    unsigned.content_sha256 = Digest::zero();
    format!("{unsigned:?}").into_bytes()
}

#[test]
fn sealed_manifest_requires_two_exact_repetitions_without_imposing_a_score_threshold() {
    let built = NativeTacticColdReplayEvidenceBundle::build(&summary()).unwrap();
    let json = canonical_manifest(&built);
    let sealed = built.seal(&json).unwrap();
    sealed.read_and_validate(&json, &summary()).unwrap();

    let mut single = NativeTacticColdReplayEvidenceBundle::build(&summary()).unwrap();
    single.repetitions = 1;
    let json = canonical_manifest(&single);
    assert!(single.seal(&json).is_err());
}

#[test]
fn manifest_identity_binds_campaign_and_replay_proof() {
    let built = NativeTacticColdReplayEvidenceBundle::build(&summary()).unwrap();
    let json = canonical_manifest(&built);
    let sealed = built.seal(&json).unwrap();
    let mut other = summary();
    other.cold_replay_proof_sha256 = digest(99);
    assert!(sealed.read_and_validate(&json, &other).is_err());
    let mut other = summary();
    other.scratch_bundle_sha256 = digest(98);
    assert!(sealed.read_and_validate(&json, &other).is_err());
}

#[test]
fn optimization_incumbent_is_the_exact_source_to_first_terminal_suffix() {
    assert_eq!(incumbent_frame_range(10, 2, 13).unwrap(), (10, 13));
    assert!(incumbent_frame_range(10, 2, 12).is_err());
    assert!(incumbent_frame_range(10, 2, 14).is_err());
}
