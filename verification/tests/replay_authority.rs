use orchestration::cold_replay::{
    cold_replay_attempt_from_milestones, NativeTacticBoundaryFingerprint, NativeTacticColdReplayConfig, NativeTacticColdReplayArtifact,
    NativeTacticFingerprintRead, NativeTacticMilestoneEntry, NativeTacticMilestoneExpectation,
    NativeTacticMilestoneFault, NativeTacticMilestoneReport,
};
use orchestration::completed_seed::{agreed_seed_authority, NativeTacticSeedAuthority};
use orchestration::digest::Digest;
use orchestration::journal::{tactic_content_store_location, TacticContentStoreLocation};

fn artifact(path: &str, value: u8) -> NativeTacticColdReplayArtifact {
    NativeTacticColdReplayArtifact { path: path.into(), sha256: Digest([value; 32]) }
}

fn fingerprint() -> NativeTacticBoundaryFingerprint {
    NativeTacticBoundaryFingerprint {
        schema: "dusklight.milestone-boundary/v5".into(),
        algorithm: "xxh3-128".into(),
        canonical_encoding: "little-endian-fixed-v5".into(),
        digest: "0123456789abcdef0123456789abcdef".into(),
    }
}

fn goal_entry() -> NativeTacticMilestoneEntry {
    NativeTacticMilestoneEntry {
        id: Some("reach-door".into()),
        hit: Some(true),
        phase: Some("post_sim".into()),
        definition_digest: Some("def".into()),
        program_digest: Some("prog".into()),
        sim_tick: Some(777),
        tape_frame: Some(140),
        boundary_index: Some(141),
        boundary_fingerprint: NativeTacticFingerprintRead::Read(fingerprint()),
    }
}

fn report() -> NativeTacticMilestoneReport {
    let mut other = goal_entry();
    other.id = Some("warm-up".into());
    other.sim_tick = None;
    NativeTacticMilestoneReport {
        schema_name: Some("dusklight.automation.milestones".into()),
        schema_version: Some(5),
        boot_origin_established: Some(true),
        boot_matches_tape: true,
        goal: Some("reach-door".into()),
        goal_reached: Some(true),
        program_digest: Some("prog".into()),
        milestones: Some(vec![other, goal_entry()]),
    }
}

fn expectation() -> NativeTacticMilestoneExpectation {
    NativeTacticMilestoneExpectation {
        goal: "reach-door".into(),
        program_digest: "prog".into(),
        definition_digest: "def".into(),
        source_boundary_index: 100,
        tape_frames: 141,
        first_hit_tick: 40,
    }
}

fn attempt(
    report: &NativeTacticMilestoneReport,
    expected: &NativeTacticMilestoneExpectation,
) -> Result<orchestration::cold_replay::NativeTacticColdReplayAttempt, NativeTacticMilestoneFault> {
    cold_replay_attempt_from_milestones(
        report,
        expected,
        2,
        artifact("attempt-2/controller.dtape", 1),
        artifact("attempt-2/milestones.json", 2),
        artifact("attempt-2/stdout.txt", 3),
        artifact("attempt-2/stderr.txt", 4),
    )
}

#[test]
fn authenticated_milestones_establish_the_attempt() {
    let parsed = attempt(&report(), &expectation()).unwrap();
    assert_eq!(parsed.repetition, 2);
    assert_eq!(parsed.sim_tick, 777);
    assert_eq!(parsed.tape_frame, 140);
    assert_eq!(parsed.boundary_index, 141);
    assert_eq!(parsed.first_hit_tick, 40);
    assert_eq!(parsed.boundary_fingerprint.digest, "0123456789abcdef0123456789abcdef");
    assert_eq!(parsed.stderr.path, "attempt-2/stderr.txt");
}

#[test]
fn milestone_faults_are_reported_in_order() {
    let mut wrong_version = report();
    wrong_version.schema_version = Some(4);
    assert_eq!(attempt(&wrong_version, &expectation()).unwrap_err(), NativeTacticMilestoneFault::UnauthenticatedAuthority);

    let mut other_boot = report();
    other_boot.boot_matches_tape = false;
    assert_eq!(attempt(&other_boot, &expectation()).unwrap_err(), NativeTacticMilestoneFault::UnauthenticatedAuthority);

    let mut omitted = report();
    omitted.milestones = None;
    assert_eq!(attempt(&omitted, &expectation()).unwrap_err(), NativeTacticMilestoneFault::MilestonesOmitted);

    let mut twice = report();
    twice.milestones.as_mut().unwrap().push(goal_entry());
    assert_eq!(attempt(&twice, &expectation()).unwrap_err(), NativeTacticMilestoneFault::GoalNotUnique);

    let mut none = report();
    none.milestones.as_mut().unwrap().pop();
    assert_eq!(attempt(&none, &expectation()).unwrap_err(), NativeTacticMilestoneFault::GoalNotUnique);

    let mut no_tick = report();
    no_tick.milestones.as_mut().unwrap()[1].sim_tick = None;
    assert_eq!(attempt(&no_tick, &expectation()).unwrap_err(), NativeTacticMilestoneFault::SimTickOmitted);

    let mut no_frame = report();
    no_frame.milestones.as_mut().unwrap()[1].tape_frame = None;
    assert_eq!(attempt(&no_frame, &expectation()).unwrap_err(), NativeTacticMilestoneFault::TapeFrameOmitted);

    let mut no_boundary = report();
    no_boundary.milestones.as_mut().unwrap()[1].boundary_index = None;
    assert_eq!(attempt(&no_boundary, &expectation()).unwrap_err(), NativeTacticMilestoneFault::BoundaryIndexOmitted);

    let mut no_fingerprint = report();
    no_fingerprint.milestones.as_mut().unwrap()[1].boundary_fingerprint = NativeTacticFingerprintRead::Absent;
    assert_eq!(
        attempt(&no_fingerprint, &expectation()).unwrap_err(),
        NativeTacticMilestoneFault::BoundaryFingerprintOmitted
    );

    let mut malformed = report();
    malformed.milestones.as_mut().unwrap()[1].boundary_fingerprint = NativeTacticFingerprintRead::Malformed;
    assert_eq!(
        attempt(&malformed, &expectation()).unwrap_err(),
        NativeTacticMilestoneFault::BoundaryFingerprintMalformed
    );

    let mut overflowing = expectation();
    overflowing.source_boundary_index = u64::MAX;
    assert_eq!(attempt(&report(), &overflowing).unwrap_err(), NativeTacticMilestoneFault::TerminalFrameOverflow);

    let mut late = expectation();
    late.first_hit_tick = 41;
    assert_eq!(attempt(&report(), &late).unwrap_err(), NativeTacticMilestoneFault::DetachedTerminal);

    let mut pre_sim = report();
    pre_sim.milestones.as_mut().unwrap()[1].phase = Some("pre_sim".into());
    assert_eq!(attempt(&pre_sim, &expectation()).unwrap_err(), NativeTacticMilestoneFault::DetachedTerminal);
    assert_eq!(
        NativeTacticMilestoneFault::DetachedTerminal.message(),
        "cold replay terminal proof differs from the graph-selected route"
    );
}

#[test]
fn seed_directories_share_the_campaign_content_store() {
    assert_eq!(
        tactic_content_store_location(false, Some("seed-003-42"), true),
        TacticContentStoreLocation::CampaignShared
    );
    assert_eq!(tactic_content_store_location(true, Some("seed-003-42"), true), TacticContentStoreLocation::SeedLocal);
    assert_eq!(tactic_content_store_location(false, Some("smoke"), true), TacticContentStoreLocation::SeedLocal);
    assert_eq!(tactic_content_store_location(false, Some("seed"), true), TacticContentStoreLocation::SeedLocal);
    assert_eq!(tactic_content_store_location(false, None, true), TacticContentStoreLocation::SeedLocal);
    assert_eq!(tactic_content_store_location(false, Some("seed-0"), false), TacticContentStoreLocation::SeedLocal);
}

fn authority(root: u8) -> NativeTacticSeedAuthority {
    NativeTacticSeedAuthority {
        feature_schema_sha256: Digest([1; 32]),
        objective_sha256: Digest([2; 32]),
        root_checkpoint_sha256: Digest([root; 32]),
    }
}

#[test]
fn completed_seeds_share_one_authority() {
    let agreed = agreed_seed_authority(2, &vec![authority(3), authority(3)]).unwrap();
    assert_eq!(agreed.root_checkpoint_sha256, Digest([3; 32]));
    assert_eq!(
        agreed_seed_authority(3, &vec![authority(3), authority(3)]).unwrap_err().message,
        "completed tactic campaign report has detached seed cardinality"
    );
    assert_eq!(
        agreed_seed_authority(0, &Vec::new()).unwrap_err().message,
        "completed tactic campaign has no seed authority"
    );
    assert_eq!(
        agreed_seed_authority(2, &vec![authority(3), authority(4)]).unwrap_err().message,
        "completed tactic campaign seeds disagree on authority"
    );
}

#[test]
fn cold_replay_runs_repeat_within_bounds_with_a_timeout() {
    let config = NativeTacticColdReplayConfig {
        seed: 7,
        maximum_first_hit_tick: 300,
        repetitions: 2,
        timeout_secs: 0,
        timeout_subsec_nanos: 1,
    };
    config.validate().unwrap();
    for (repetitions, secs, nanos) in [(1, 60, 0), (17, 60, 0), (3, 0, 0)] {
        let invalid = NativeTacticColdReplayConfig {
            repetitions,
            timeout_secs: secs,
            timeout_subsec_nanos: nanos,
            ..config
        };
        assert_eq!(invalid.validate().unwrap_err().message, "native tactic cold replay configuration is invalid");
    }
}
