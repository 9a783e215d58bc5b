use orchestration::completion::{encode_completion, NativeTacticCampaignCompletion};
use orchestration::digest::Digest;

fn unsigned_encoding(completion: &NativeTacticCampaignCompletion) -> Vec<u8> {
    let mut unsigned = completion.clone();
    unsigned.content_sha256 = Digest::zero();
    format!("{unsigned:?}").into_bytes()
}

fn sealed_completion() -> (NativeTacticCampaignCompletion, Vec<u8>) {
    let completion = NativeTacticCampaignCompletion::build(
        Digest([1; 32]),
        b"report",
        b"summary",
        100,
        20,
        30,
        40,
        190,
    )
    .unwrap();
    let encoding = unsigned_encoding(&completion);
    (completion.seal(&encoding).unwrap(), encoding)
}

#[test]
fn binary_completion_round_trips_and_rejects_timing_or_payload_drift() {
    let (completion, encoding) = sealed_completion();
    assert_eq!(completion.campaign_wall_micros, 190);
    let encoded = encode_completion(&encoding).unwrap();
    assert_eq!(NativeTacticCampaignCompletion::read(&encoded).unwrap(), encoding);

    let mut detached = completion;
    detached.campaign_wall_micros += 1;
    assert!(detached.validate(&encoding).is_err());

    let mut corrupt = encoded;
    *corrupt.last_mut().unwrap() ^= 1;
    assert!(NativeTacticCampaignCompletion::read(&corrupt).is_err());
}

#[test]
fn completion_hashes_bind_both_artifacts_before_semantic_validation() {
    let (completion, _) = sealed_completion();
    completion
        .validate_artifact_hashes(b"report", b"summary")
        .unwrap();
    assert!(completion
        .validate_artifact_hashes(b"changed", b"summary")
        .is_err());
    assert!(completion
        .validate_artifact_hashes(b"report", b"changed")
        .is_err());
}

#[test]
fn late_observed_wall_is_charged_to_completion_coordination() {
    let completion = NativeTacticCampaignCompletion::build(
        Digest([1; 32]),
        b"report",
        b"summary",
        100,
        20,
        30,
        40,
        250,
    )
    .unwrap();
    assert_eq!(completion.campaign_wall_micros, 250);
    assert_eq!(completion.campaign_completion_coordination_micros, 60);
    let early = NativeTacticCampaignCompletion::build(
        Digest([1; 32]),
        b"report",
        b"summary",
        100,
        20,
        30,
        40,
        10,
    )
    .unwrap();
    assert_eq!(early.campaign_wall_micros, 190);
    assert_eq!(early.campaign_completion_coordination_micros, 0);
    assert!(NativeTacticCampaignCompletion::build(
        Digest([1; 32]),
        b"report",
        b"summary",
        u64::MAX,
        1,
        0,
        0,
        0,
    )
    .is_err());
}

#[test]
fn oversized_completion_payloads_are_refused() {
    assert!(encode_completion(&vec![0u8; 16 * 1024]).is_ok());
    assert!(encode_completion(&vec![0u8; 16 * 1024 + 1]).is_err());
}
