use orchestration::action_surface::{
    native_tactic_applicable_action_surface_identity, sorted_digests, NativeTacticAuditEpisode,
    NativeTacticAuditStep,
};
use orchestration::digest::Digest;
use orchestration::probe::{
    parameterized_policy_action_schema_sha256, NativeTacticActionSurfaceAuditContext, ACTION_SURFACE_AUDIT_SEED,
    NATIVE_TACTIC_ACTION_SURFACE_AUDIT_CONTEXT_SCHEMA_V1,
};
use sha2::Digest as _;

fn family_schema() -> Digest {
    Digest([0xaa; 32])
}

fn action_schema() -> Digest {
    parameterized_policy_action_schema_sha256(&family_schema())
}

fn encoder_schema() -> Digest {
    Digest([0xbb; 32])
}

fn context() -> NativeTacticActionSurfaceAuditContext {
    NativeTacticActionSurfaceAuditContext {
        schema: NATIVE_TACTIC_ACTION_SURFACE_AUDIT_CONTEXT_SCHEMA_V1.into(),
        action_schema_sha256: action_schema(),
        goal_coordinate_f32_bits: [1.0_f32.to_bits(), 2.0_f32.to_bits(), 3.0_f32.to_bits()],
        maximum_ticks: 16,
        seed: ACTION_SURFACE_AUDIT_SEED,
    }
}

fn step(boundary_index: u64, descriptors: &[u8]) -> NativeTacticAuditStep {
    NativeTacticAuditStep {
        boundary_index,
        applicable_descriptors: descriptors.iter().map(|byte| Digest([*byte; 32])).collect(),
    }
}

fn shard() -> Vec<NativeTacticAuditEpisode> {
    vec![
        NativeTacticAuditEpisode { id: "episode-a".into(), steps: vec![step(10, &[3, 1, 2]), step(11, &[7])] },
        NativeTacticAuditEpisode { id: "épisode-b".into(), steps: vec![step(40, &[5, 5])] },
    ]
}

fn expected_stream(episodes: &[NativeTacticAuditEpisode]) -> Vec<u8> {
    let mut bytes = b"dusklight-native-tactic-applicable-action-surface/v1".to_vec();
    bytes.extend_from_slice(&action_schema().0);
    bytes.extend_from_slice(&encoder_schema().0);
    bytes.extend_from_slice(&16u32.to_le_bytes());
    bytes.extend_from_slice(&ACTION_SURFACE_AUDIT_SEED.to_le_bytes());
    bytes.extend_from_slice(&(episodes.len() as u64).to_le_bytes());
    for episode in episodes {
        bytes.extend_from_slice(&(episode.id.len() as u64).to_le_bytes());
        bytes.extend_from_slice(episode.id.as_bytes());
        bytes.extend_from_slice(&(episode.steps.len() as u64).to_le_bytes());
        for step in &episode.steps {
            let mut descriptors: Vec<[u8; 32]> = step.applicable_descriptors.iter().map(|d| d.0).collect();
            descriptors.sort();
            bytes.extend_from_slice(&step.boundary_index.to_le_bytes());
            bytes.extend_from_slice(&(descriptors.len() as u64).to_le_bytes());
            for descriptor in descriptors {
                bytes.extend_from_slice(&descriptor);
            }
        }
    }
    bytes
}

#[test]
fn surface_identity_covers_every_boundary_in_sorted_order() {
    let (identity, boundaries, descriptors) =
        native_tactic_applicable_action_surface_identity(&context(), &family_schema(), &encoder_schema(), &shard())
            .unwrap();
    assert_eq!(boundaries, 3);
    assert_eq!(descriptors, 6);
    let expected: [u8; 32] = sha2::Sha256::digest(expected_stream(&shard())).into();
    assert_eq!(identity, Digest(expected));
}

#[test]
fn descriptor_order_does_not_change_the_identity() {
    let mut reordered = shard();
    reordered[0].steps[0] = step(10, &[2, 3, 1]);
    let (first, _, _) =
        native_tactic_applicable_action_surface_identity(&context(), &family_schema(), &encoder_schema(), &shard())
            .unwrap();
    let (second, _, _) =
        native_tactic_applicable_action_surface_identity(&context(), &family_schema(), &encoder_schema(), &reordered)
            .unwrap();
    assert_eq!(first, second);
    let sorted = sorted_digests(&vec![Digest([9; 32]), Digest([1; 32]), Digest([9; 32]), Digest([4; 32])]);
    let order: Vec<u8> = sorted.iter().map(|d| d.0[0]).collect();
    assert_eq!(order, vec![1, 4, 9, 9]);
}

#[test]
fn surface_audit_refuses_missing_coverage_or_context() {
    let mut bare = shard();
    bare[1].steps[0].applicable_descriptors.clear();
    assert_eq!(
        native_tactic_applicable_action_surface_identity(&context(), &family_schema(), &encoder_schema(), &bare)
            .unwrap_err()
            .message,
        "native tactic action-surface audit has no applicable action"
    );
    let empty = vec![NativeTacticAuditEpisode { id: "idle".into(), steps: Vec::new() }];
    assert_eq!(
        native_tactic_applicable_action_surface_identity(&context(), &family_schema(), &encoder_schema(), &empty)
            .unwrap_err()
            .message,
        "native tactic action-surface audit coverage is empty"
    );
    assert!(native_tactic_applicable_action_surface_identity(
        &context(),
        &Digest([0xcc; 32]),
        &encoder_schema(),
        &shard()
    )
    .is_err());
}

#[test]
fn the_action_schema_identity_hashes_its_domain_and_family_schema() {
    let mut bytes = b"dusklight-parameterized-policy-action-schema/v2".to_vec();
    bytes.extend_from_slice(&family_schema().0);
    let expected: [u8; 32] = sha2::Sha256::digest(&bytes).into();
    assert_eq!(action_schema().0, expected);
    assert_ne!(parameterized_policy_action_schema_sha256(&Digest([0xab; 32])).0, expected);
}
