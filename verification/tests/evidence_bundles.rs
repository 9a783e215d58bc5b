use orchestration::bundles::{
    authorities_match, compress_smoke_checkpoint, NativeTacticAuthorityRole, NativeTacticBlobReference,
    NativeTacticDeclaredAuthorities, NativeTacticScratchAuthorityArtifact, decompress_smoke_checkpoint, launch_smoke_route_schema_is_supported,
    NATIVE_TACTIC_FAULT_RECOVERY_EVIDENCE_BUNDLE_SCHEMA_V1,
    NATIVE_TACTIC_LAUNCH_SMOKE_BUNDLE_SCHEMA_V1, NATIVE_TACTIC_SCRATCH_EVIDENCE_BUNDLE_SCHEMA_V2,
    NATIVE_TACTIC_THROUGHPUT_EVIDENCE_BUNDLE_SCHEMA_V1,
};
use orchestration::cold_replay::NativeTacticArtifactReference;
use orchestration::digest::Digest;
use orchestration::recovery_audit::NATIVE_TACTIC_FAULT_RECOVERY_AUDIT_SCHEMA_V2;
use orchestration::report::{
    NATIVE_TACTIC_ROUTE_REPORT_SCHEMA_V37, NATIVE_TACTIC_ROUTE_REPORT_SCHEMA_V38,
    NATIVE_TACTIC_ROUTE_REPORT_SCHEMA_V39, NATIVE_TACTIC_ROUTE_REPORT_SCHEMA_V40,
    NATIVE_TACTIC_ROUTE_REPORT_SCHEMA_V41, NATIVE_TACTIC_ROUTE_REPORT_SCHEMA_V42,
    NATIVE_TACTIC_ROUTE_REPORT_SCHEMA_V43, NATIVE_TACTIC_ROUTE_REPORT_SCHEMA_V44,
    NATIVE_TACTIC_ROUTE_REPORT_SCHEMA_V45,
};

#[test]
fn fault_recovery_bundle_schema_is_distinct_from_audit_and_throughput() {
    assert_ne!(
        NATIVE_TACTIC_FAULT_RECOVERY_EVIDENCE_BUNDLE_SCHEMA_V1,
        NATIVE_TACTIC_FAULT_RECOVERY_AUDIT_SCHEMA_V2
    );
    assert_ne!(
        NATIVE_TACTIC_FAULT_RECOVERY_EVIDENCE_BUNDLE_SCHEMA_V1,
        NATIVE_TACTIC_THROUGHPUT_EVIDENCE_BUNDLE_SCHEMA_V1
    );
}

#[test]
fn smoke_schema_is_distinct_from_terminal_acceptance() {
    assert_ne!(
        NATIVE_TACTIC_LAUNCH_SMOKE_BUNDLE_SCHEMA_V1,
        NATIVE_TACTIC_SCRATCH_EVIDENCE_BUNDLE_SCHEMA_V2
    );
}

#[test]
fn retained_and_current_route_schemas_are_supported() {
    for schema in [
        NATIVE_TACTIC_ROUTE_REPORT_SCHEMA_V38,
        NATIVE_TACTIC_ROUTE_REPORT_SCHEMA_V39,
        NATIVE_TACTIC_ROUTE_REPORT_SCHEMA_V40,
        NATIVE_TACTIC_ROUTE_REPORT_SCHEMA_V41,
        NATIVE_TACTIC_ROUTE_REPORT_SCHEMA_V42,
        NATIVE_TACTIC_ROUTE_REPORT_SCHEMA_V43,
        NATIVE_TACTIC_ROUTE_REPORT_SCHEMA_V44,
        NATIVE_TACTIC_ROUTE_REPORT_SCHEMA_V45,
    ] {
        assert!(launch_smoke_route_schema_is_supported(schema));
    }
    assert!(!launch_smoke_route_schema_is_supported(
        NATIVE_TACTIC_ROUTE_REPORT_SCHEMA_V37
    ));
}

#[test]
fn smoke_checkpoint_round_trips_through_compression() {
    let snapshot: Vec<u8> = (0..4096u32).map(|i| (i % 7) as u8).collect();
    let (compressed, length) = compress_smoke_checkpoint(&snapshot).unwrap();
    assert_eq!(length, 4096);
    assert_ne!(compressed, snapshot);
    assert_eq!(decompress_smoke_checkpoint(&compressed, length).unwrap(), snapshot);
    assert!(decompress_smoke_checkpoint(&compressed, 0).is_err());
    assert!(decompress_smoke_checkpoint(&compressed, length - 1).is_err());
    assert!(compress_smoke_checkpoint(&vec![0u8; 64 * 1024 * 1024 + 1]).is_err());
}

fn declared(path: &str, value: u8) -> NativeTacticArtifactReference {
    NativeTacticArtifactReference { path: path.into(), sha256: Digest([value; 32]) }
}

fn declarations() -> NativeTacticDeclaredAuthorities {
    NativeTacticDeclaredAuthorities {
        card_fixture_manifest: declared("cards.json", 1),
        milestone_program: declared("milestones.dmp", 2),
        process_boot_tape: declared("boot.dtape", 3),
        route_timeline: declared("timeline.json", 4),
        terminal_predicate_source: declared("goal.milestone", 5),
        world_context: declared("world.json", 6),
    }
}

fn bundled(role: NativeTacticAuthorityRole, path: &str, value: u8) -> NativeTacticScratchAuthorityArtifact {
    NativeTacticScratchAuthorityArtifact {
        role,
        declared_path: path.into(),
        declared_sha256: Digest([value; 32]),
        blob: NativeTacticBlobReference { sha256: Digest([value; 32]), bytes: 10 },
    }
}

fn bundled_authorities() -> Vec<NativeTacticScratchAuthorityArtifact> {
    vec![
        bundled(NativeTacticAuthorityRole::CardFixtureManifest, "cards.json", 1),
        bundled(NativeTacticAuthorityRole::MilestoneProgram, "milestones.dmp", 2),
        bundled(NativeTacticAuthorityRole::ProcessBootTape, "boot.dtape", 3),
        bundled(NativeTacticAuthorityRole::RouteTimeline, "timeline.json", 4),
        bundled(NativeTacticAuthorityRole::TerminalPredicateSource, "goal.milestone", 5),
        bundled(NativeTacticAuthorityRole::WorldContext, "world.json", 6),
    ]
}

#[test]
fn bundled_authorities_match_their_declarations_in_role_order() {
    assert!(authorities_match(&bundled_authorities(), &declarations()));
    let mut moved = bundled_authorities();
    moved[3].declared_path = "elsewhere.json".into();
    assert!(!authorities_match(&moved, &declarations()));
    let mut swapped = bundled_authorities();
    swapped.swap(0, 1);
    assert!(!authorities_match(&swapped, &declarations()));
    let mut altered = bundled_authorities();
    altered[5].declared_sha256 = Digest([9; 32]);
    assert!(!authorities_match(&altered, &declarations()));
}
