//! The portable evidence bundle of an exact tactic-route cold replay, and
//! the incumbent route it authorizes.

use crate::bytes::{append_bytes, push_u64_le};
use crate::decisions::{count_matching, lemma_take_step};
use crate::digest::{digest_bytes, sha256_of, Digest};
use crate::error::{route_message, NativeTacticRouteRunError};
use crate::text::text_eq;
use vstd::bytes::spec_u64_to_le_bytes;
use vstd::prelude::*;

verus! {

pub const NATIVE_TACTIC_COLD_REPLAY_EVIDENCE_BUNDLE_SCHEMA_V1: &'static str = "dusklight-native-tactic-cold-replay-evidence-bundle/v1";

/// A file retained by a cold replay, and its digest.
#[derive(Clone, Debug)]
pub struct NativeTacticColdReplayArtifact {
    pub path: String,
    pub sha256: Digest,
}

/// The compact manifest of a cold-replay evidence bundle.
#[derive(Clone, Debug)]
pub struct NativeTacticColdReplayEvidenceBundle {
    pub schema: String,
    pub content_sha256: Digest,
    pub scratch_bundle_sha256: Digest,
    pub cold_replay_proof_sha256: Digest,
    pub seed: u64,
    pub state_graph_sha256: Digest,
    pub terminal_result_sha256: Digest,
    pub controller_tape_sha256: Digest,
    pub first_hit_tick: u64,
    pub repetitions: u32,
    pub passed: bool,
}

/// The domain prefix of the manifest's identity.
pub open spec fn cold_replay_domain() -> Seq<u8> {
    seq![
        0x64u8, 0x75u8, 0x73u8, 0x6bu8, 0x6cu8, 0x69u8, 0x67u8, 0x68u8, 0x74u8, 0x2eu8, 0x6eu8, 0x61u8, 0x74u8,
        0x69u8, 0x76u8, 0x65u8, 0x2du8, 0x74u8, 0x61u8, 0x63u8, 0x74u8, 0x69u8, 0x63u8, 0x2du8, 0x63u8, 0x6fu8,
        0x6cu8, 0x64u8, 0x2du8, 0x72u8, 0x65u8, 0x70u8, 0x6cu8, 0x61u8, 0x79u8, 0x2du8, 0x65u8, 0x76u8, 0x69u8,
        0x64u8, 0x65u8, 0x6eu8, 0x63u8, 0x65u8, 0x2du8, 0x62u8, 0x75u8, 0x6eu8, 0x64u8, 0x6cu8, 0x65u8, 0x2fu8,
        0x76u8, 0x31u8, 0x00u8
    ]
}

/// The bytes the manifest identity is taken over: the domain, the length
/// of the manifest's canonical serialization with a zero content digest,
/// and that serialization.
pub open spec fn cold_replay_identity_bytes(canonical_json: Seq<u8>) -> Seq<u8> {
    cold_replay_domain() + spec_u64_to_le_bytes(canonical_json.len() as u64) + canonical_json
}

pub fn cold_replay_identity(canonical_json: &[u8]) -> (d: Digest)
    ensures
        d.0@ == sha256_of(cold_replay_identity_bytes(canonical_json@)),
{
    let mut bytes: Vec<u8> = vec![
        0x64u8, 0x75u8, 0x73u8, 0x6bu8, 0x6cu8, 0x69u8, 0x67u8, 0x68u8, 0x74u8, 0x2eu8, 0x6eu8, 0x61u8, 0x74u8,
        0x69u8, 0x76u8, 0x65u8, 0x2du8, 0x74u8, 0x61u8, 0x63u8, 0x74u8, 0x69u8, 0x63u8, 0x2du8, 0x63u8, 0x6fu8,
        0x6cu8, 0x64u8, 0x2du8, 0x72u8, 0x65u8, 0x70u8, 0x6cu8, 0x61u8, 0x79u8, 0x2du8, 0x65u8, 0x76u8, 0x69u8,
        0x64u8, 0x65u8, 0x6eu8, 0x63u8, 0x65u8, 0x2du8, 0x62u8, 0x75u8, 0x6eu8, 0x64u8, 0x6cu8, 0x65u8, 0x2fu8,
        0x76u8, 0x31u8, 0x00u8,
    ];
    assert(bytes@ =~= cold_replay_domain());
    push_u64_le(&mut bytes, canonical_json.len() as u64);
    append_bytes(&mut bytes, canonical_json);
    assert(bytes@ =~= cold_replay_identity_bytes(canonical_json@));
    digest_bytes(bytes.as_slice())
}

/// What the retained scratch campaign and cold-replay proof establish,
/// which the manifest must repeat exactly.
#[derive(Clone, Copy, Debug)]
pub struct NativeTacticColdReplayProofSummary {
    pub scratch_bundle_sha256: Digest,
    pub cold_replay_proof_sha256: Digest,
    pub seed: u64,
    pub state_graph_sha256: Digest,
    pub terminal_result_sha256: Digest,
    pub controller_tape_sha256: Digest,
    pub first_hit_tick: u64,
    pub attempts: u64,
}

impl NativeTacticColdReplayEvidenceBundle {
    /// A manifest of the current schema, sealed over `canonical_json`, with
    /// every identity present, at least two exact repetitions, and a
    /// passing verdict. No score threshold is imposed.
    pub open spec fn shape_valid(self, canonical_json: Seq<u8>) -> bool {
        &&& self.schema@ == NATIVE_TACTIC_COLD_REPLAY_EVIDENCE_BUNDLE_SCHEMA_V1@
        &&& !self.content_sha256.spec_is_zero()
        &&& self.content_sha256.0@ == sha256_of(cold_replay_identity_bytes(canonical_json))
        &&& !self.scratch_bundle_sha256.spec_is_zero()
        &&& !self.cold_replay_proof_sha256.spec_is_zero()
        &&& !self.state_graph_sha256.spec_is_zero()
        &&& !self.terminal_result_sha256.spec_is_zero()
        &&& !self.controller_tape_sha256.spec_is_zero()
        &&& self.repetitions >= 2
        &&& self.passed
    }

    pub fn validate_shape(&self, canonical_json: &[u8]) -> (r: Result<(), NativeTacticRouteRunError>)
        ensures
            r is Ok <==> self.shape_valid(canonical_json@),
    {
        let identity = cold_replay_identity(canonical_json);
        if !text_eq(self.schema.as_str(), NATIVE_TACTIC_COLD_REPLAY_EVIDENCE_BUNDLE_SCHEMA_V1)
            || self.content_sha256.is_zero() || !self.content_sha256.same_as(&identity)
            || self.scratch_bundle_sha256.is_zero() || self.cold_replay_proof_sha256.is_zero()
            || self.state_graph_sha256.is_zero() || self.terminal_result_sha256.is_zero()
            || self.controller_tape_sha256.is_zero() || self.repetitions < 2 || !self.passed
        {
            return Err(route_message("native tactic cold replay evidence bundle manifest is invalid"));
        }
        Ok(())
    }

    /// The manifest repeats what its retained campaign and proof establish.
    pub open spec fn attached_to(self, proof: NativeTacticColdReplayProofSummary) -> bool {
        &&& self.scratch_bundle_sha256.0@ == proof.scratch_bundle_sha256.0@
        &&& self.cold_replay_proof_sha256.0@ == proof.cold_replay_proof_sha256.0@
        &&& self.seed == proof.seed
        &&& self.state_graph_sha256.0@ == proof.state_graph_sha256.0@
        &&& self.terminal_result_sha256.0@ == proof.terminal_result_sha256.0@
        &&& self.controller_tape_sha256.0@ == proof.controller_tape_sha256.0@
        &&& self.first_hit_tick == proof.first_hit_tick
        &&& self.repetitions == proof.attempts
    }

    /// Reads a manifest: its shape, then its attachment to the proof.
    pub fn read_and_validate(
        &self,
        canonical_json: &[u8],
        proof: &NativeTacticColdReplayProofSummary,
    ) -> (r: Result<(), NativeTacticRouteRunError>)
        ensures
            r is Ok <==> (self.shape_valid(canonical_json@) && self.attached_to(*proof)),
    {
        match self.validate_shape(canonical_json) {
            Ok(()) => {},
            Err(e) => {
                return Err(e);
            },
        }
        if !self.scratch_bundle_sha256.same_as(&proof.scratch_bundle_sha256)
            || !self.cold_replay_proof_sha256.same_as(&proof.cold_replay_proof_sha256) || self.seed != proof.seed
            || !self.state_graph_sha256.same_as(&proof.state_graph_sha256)
            || !self.terminal_result_sha256.same_as(&proof.terminal_result_sha256)
            || !self.controller_tape_sha256.same_as(&proof.controller_tape_sha256)
            || self.first_hit_tick != proof.first_hit_tick || self.repetitions as u64 != proof.attempts
        {
            return Err(route_message("cold replay evidence bundle is detached from its retained campaign or proof"));
        }
        Ok(())
    }

    /// Derives the manifest of a validated campaign and proof; it is
    /// returned unsealed, with a zero content digest, and `seal` seals it.
    pub fn build(proof: &NativeTacticColdReplayProofSummary) -> (r: Result<Self, NativeTacticRouteRunError>)
        ensures
            r is Ok <==> proof.attempts <= u32::MAX,
            r matches Ok(b) ==> {
                &&& b.schema@ == NATIVE_TACTIC_COLD_REPLAY_EVIDENCE_BUNDLE_SCHEMA_V1@
                &&& b.content_sha256.spec_is_zero()
                &&& b.attached_to(*proof)
                &&& b.passed
            },
    {
        if proof.attempts > u32::MAX as u64 {
            return Err(route_message("cold replay repetition count overflows"));
        }
        Ok(NativeTacticColdReplayEvidenceBundle {
            schema: NATIVE_TACTIC_COLD_REPLAY_EVIDENCE_BUNDLE_SCHEMA_V1.to_owned(),
            content_sha256: Digest::zero(),
            scratch_bundle_sha256: proof.scratch_bundle_sha256,
            cold_replay_proof_sha256: proof.cold_replay_proof_sha256,
            seed: proof.seed,
            state_graph_sha256: proof.state_graph_sha256,
            terminal_result_sha256: proof.terminal_result_sha256,
            controller_tape_sha256: proof.controller_tape_sha256,
            first_hit_tick: proof.first_hit_tick,
            repetitions: proof.attempts as u32,
            passed: true,
        })
    }

    /// Seals the manifest over `canonical_json` and validates its shape.
    pub fn seal(self, canonical_json: &[u8]) -> (r: Result<Self, NativeTacticRouteRunError>)
        ensures
            r matches Ok(b) ==> {
                &&& b.content_sha256.0@ == sha256_of(cold_replay_identity_bytes(canonical_json@))
                &&& b == (NativeTacticColdReplayEvidenceBundle { content_sha256: b.content_sha256, ..self })
                &&& b.shape_valid(canonical_json@)
            },
            r is Err ==> forall|d: Digest|
                d.0@ == sha256_of(cold_replay_identity_bytes(canonical_json@)) ==> !(#[trigger] (
                NativeTacticColdReplayEvidenceBundle { content_sha256: d, ..self }).shape_valid(canonical_json@)),
    {
        let mut sealed = self;
        sealed.content_sha256 = cold_replay_identity(canonical_json);
        match sealed.validate_shape(canonical_json) {
            Ok(()) => Ok(sealed),
            Err(e) => {
                proof {
                    assert forall|d: Digest| d.0@ == sha256_of(cold_replay_identity_bytes(canonical_json@)) implies !(
                    #[trigger] (NativeTacticColdReplayEvidenceBundle { content_sha256: d, ..self }).shape_valid(
                        canonical_json@,
                    )) by {
                        let other = NativeTacticColdReplayEvidenceBundle { content_sha256: d, ..self };
                        assert(other.content_sha256.spec_is_zero() == sealed.content_sha256.spec_is_zero());
                    }
                }
                Err(e)
            },
        }
    }
}

/// The frames of a controller tape that form the optimization incumbent:
/// from the source boundary through the first terminal tick, which must be
/// the tape's last frame.
pub open spec fn incumbent_frames(source_boundary_index: u64, first_hit_tick: u64, frame_count: int) -> Option<(int, int)> {
    let start = source_boundary_index as int;
    let end = start + first_hit_tick + 1;
    if end == frame_count { Some((start, end)) } else { None }
}

/// The frame range of the incumbent tape a cold-replay authority retains.
pub fn incumbent_frame_range(source_boundary_index: u64, first_hit_tick: u64, frame_count: usize) -> (r: Result<
    (usize, usize),
    NativeTacticRouteRunError,
>)
    ensures
        r is Ok <==> incumbent_frames(source_boundary_index, first_hit_tick, frame_count as int) is Some,
        r matches Ok((start, end)) ==> incumbent_frames(source_boundary_index, first_hit_tick, frame_count as int)
            == Some((start as int, end as int)),
{
    let start = source_boundary_index as u128;
    let end = start + first_hit_tick as u128 + 1;
    if end > frame_count as u128 {
        return Err(route_message("optimization authority tape is shorter than its proof"));
    }
    if end != frame_count as u128 {
        return Err(route_message("optimization authority tape extends beyond its first terminal boundary"));
    }
    Ok((source_boundary_index as usize, frame_count))
}

pub const NATIVE_TACTIC_COLD_REPLAY_PROOF_SCHEMA_V1: &'static str = "dusklight-native-tactic-cold-replay-proof/v1";
pub const NATIVE_TACTIC_COLD_REPLAY_FIDELITY_PROFILE_V1: &'static str = "headless-fixed-step-unpaced-30hz/v1";
pub const MINIMUM_COLD_REPLAY_REPETITIONS: u32 = 2;
pub const MAXIMUM_COLD_REPLAY_REPETITIONS: u32 = 16;

/// How the harness ran a replay.
#[derive(Clone, Copy, Debug, PartialEq, Eq, Structural)]
pub enum HarnessFidelityMode {
    Headless,
    Presentation,
}

/// The execution fidelity of a cold replay.
#[derive(Clone, Debug)]
pub struct NativeTacticColdReplayFidelity {
    pub request_fidelity: HarnessFidelityMode,
    pub profile: String,
    pub headless: bool,
    pub fixed_step: bool,
    pub unpaced: bool,
    pub exit_after_tape: bool,
    pub input_tape_end: String,
    pub fixed_automation_cvars: Vec<String>,
}

/// The milestone boundary a replay stopped at, as the harness fingerprints it.
#[derive(Clone, Debug)]
pub struct NativeTacticBoundaryFingerprint {
    pub schema: String,
    pub algorithm: String,
    pub canonical_encoding: String,
    pub digest: String,
}

/// One repetition of a cold replay.
#[derive(Clone, Debug)]
pub struct NativeTacticColdReplayAttempt {
    pub repetition: u32,
    pub controller_tape: NativeTacticColdReplayArtifact,
    pub milestone_result: NativeTacticColdReplayArtifact,
    pub stdout: NativeTacticColdReplayArtifact,
    pub stderr: NativeTacticColdReplayArtifact,
    pub sim_tick: u64,
    pub tape_frame: u64,
    pub boundary_index: u64,
    pub first_hit_tick: u64,
    pub boundary_fingerprint: NativeTacticBoundaryFingerprint,
}

/// An executable input a replay ran with: its declared path and digest.
#[derive(Clone, Debug)]
pub struct NativeTacticArtifactReference {
    pub path: String,
    pub sha256: Digest,
}

/// The sealed proof that a route replays exactly from a cold start.
#[derive(Clone, Debug)]
pub struct NativeTacticColdReplayProof {
    pub schema: String,
    pub content_sha256: Digest,
    pub optimization_request_sha256: Digest,
    pub execution_binding_sha256: Digest,
    pub execution_plan_sha256: Digest,
    pub route_report_sha256: Digest,
    pub seed: u64,
    pub state_graph_sha256: Digest,
    pub terminal_result_sha256: Digest,
    pub terminal_state_sha256: Digest,
    pub objective_sha256: Digest,
    pub source_boundary_index: u64,
    pub source_boundary_fingerprint: String,
    pub native_source_boundary_fingerprint: String,
    pub goal: String,
    pub terminal_program_sha256: Digest,
    pub terminal_definition_sha256: Digest,
    pub first_hit_tick: u64,
    pub maximum_first_hit_tick: u64,
    pub controller_tape: NativeTacticColdReplayArtifact,
    pub controller_tape_frames: u64,
    pub executable: NativeTacticArtifactReference,
    pub runtime_dependencies: Vec<NativeTacticArtifactReference>,
    pub game_data: NativeTacticArtifactReference,
    pub milestone_program: NativeTacticArtifactReference,
    pub world_context: NativeTacticArtifactReference,
    pub card_fixture_manifest: NativeTacticArtifactReference,
    pub fidelity: NativeTacticColdReplayFidelity,
    pub controller_in_loop: bool,
    pub learner_in_loop: bool,
    pub attempts: Vec<NativeTacticColdReplayAttempt>,
}

pub open spec fn is_lower_hex(c: char) -> bool {
    ('0' <= c && c <= '9') || ('a' <= c && c <= 'f')
}

/// A native fingerprint: 32 lowercase hexadecimal digits.
pub open spec fn spec_native_fingerprint(value: Seq<char>) -> bool {
    value.len() == 32 && forall|i: int| 0 <= i < 32 ==> is_lower_hex(#[trigger] value[i])
}

pub fn native_fingerprint(value: &str) -> (r: bool)
    ensures
        r == spec_native_fingerprint(value@),
{
    if value.unicode_len() != 32 {
        return false;
    }
    let mut i: usize = 0;
    while i < 32
        invariant
            i <= 32,
            value@.len() == 32,
            forall|k: int| 0 <= k < i ==> is_lower_hex(#[trigger] value@[k]),
        decreases 32 - i,
    {
        let c = value.get_char(i);
        if !(('0' <= c && c <= '9') || ('a' <= c && c <= 'f')) {
            return false;
        }
        i = i + 1;
    }
    true
}

/// An exact boundary fingerprint: a native xxh3-128 digest under one of the
/// milestone-boundary schemas v4 to v6 with its matching encoding.
pub open spec fn spec_exact_boundary_fingerprint(f: NativeTacticBoundaryFingerprint) -> bool {
    &&& f.algorithm@ == "xxh3-128"@
    &&& spec_native_fingerprint(f.digest@)
    &&& {
        ||| (f.schema@ == "dusklight.milestone-boundary/v4"@ && f.canonical_encoding@ == "little-endian-fixed-v4"@)
        ||| (f.schema@ == "dusklight.milestone-boundary/v5"@ && f.canonical_encoding@ == "little-endian-fixed-v5"@)
        ||| (f.schema@ == "dusklight.milestone-boundary/v6"@ && f.canonical_encoding@ == "little-endian-fixed-v6"@)
    }
}

pub fn exact_boundary_fingerprint(f: &NativeTacticBoundaryFingerprint) -> (r: bool)
    ensures
        r == spec_exact_boundary_fingerprint(*f),
{
    let schema = f.schema.as_str();
    let encoding = f.canonical_encoding.as_str();
    text_eq(f.algorithm.as_str(), "xxh3-128") && native_fingerprint(f.digest.as_str()) && ((text_eq(
        schema,
        "dusklight.milestone-boundary/v4",
    ) && text_eq(encoding, "little-endian-fixed-v4")) || (text_eq(schema, "dusklight.milestone-boundary/v5")
        && text_eq(encoding, "little-endian-fixed-v5")) || (text_eq(schema, "dusklight.milestone-boundary/v6")
        && text_eq(encoding, "little-endian-fixed-v6")))
}

pub open spec fn same_fingerprint(a: NativeTacticBoundaryFingerprint, b: NativeTacticBoundaryFingerprint) -> bool {
    &&& a.schema@ == b.schema@
    &&& a.algorithm@ == b.algorithm@
    &&& a.canonical_encoding@ == b.canonical_encoding@
    &&& a.digest@ == b.digest@
}

/// The fidelity is the exact headless profile, with exactly the fixed
/// automation settings `fixed_automation_cvars` in order.
pub open spec fn spec_exact_headless(f: NativeTacticColdReplayFidelity, fixed_automation_cvars: Seq<Seq<char>>) -> bool {
    &&& f.request_fidelity == HarnessFidelityMode::Headless
    &&& f.profile@ == NATIVE_TACTIC_COLD_REPLAY_FIDELITY_PROFILE_V1@
    &&& f.headless
    &&& f.fixed_step
    &&& f.unpaced
    &&& f.exit_after_tape
    &&& f.input_tape_end@ == "hold"@
    &&& f.fixed_automation_cvars@.len() == fixed_automation_cvars.len()
    &&& forall|i: int| 0 <= i < fixed_automation_cvars.len() ==> (#[trigger] f.fixed_automation_cvars@[i])@
        == fixed_automation_cvars[i]
}

pub fn is_exact_headless(f: &NativeTacticColdReplayFidelity, fixed_automation_cvars: &Vec<String>) -> (r: bool)
    ensures
        r == spec_exact_headless(*f, fixed_automation_cvars@.map_values(|s: String| s@)),
{
    let ghost expected = fixed_automation_cvars@.map_values(|s: String| s@);
    if !(f.request_fidelity == HarnessFidelityMode::Headless
        && text_eq(f.profile.as_str(), NATIVE_TACTIC_COLD_REPLAY_FIDELITY_PROFILE_V1) && f.headless && f.fixed_step
        && f.unpaced && f.exit_after_tape && text_eq(f.input_tape_end.as_str(), "hold")
        && f.fixed_automation_cvars.len() == fixed_automation_cvars.len()) {
        return false;
    }
    let mut i: usize = 0;
    while i < fixed_automation_cvars.len()
        invariant
            i <= fixed_automation_cvars@.len(),
            f.fixed_automation_cvars@.len() == fixed_automation_cvars@.len(),
            expected == fixed_automation_cvars@.map_values(|s: String| s@),
            forall|k: int| 0 <= k < i ==> (#[trigger] f.fixed_automation_cvars@[k])@ == expected[k],
        decreases fixed_automation_cvars@.len() - i,
    {
        if !text_eq(f.fixed_automation_cvars[i].as_str(), fixed_automation_cvars[i].as_str()) {
            return false;
        }
        i = i + 1;
    }
    true
}

/// One repetition agrees with the proof and with the first repetition.
pub open spec fn attempt_exact(
    p: NativeTacticColdReplayProof,
    a: NativeTacticColdReplayAttempt,
    index: int,
    first: NativeTacticColdReplayAttempt,
) -> bool {
    let expected_tape_frame = p.source_boundary_index + p.first_hit_tick;
    &&& a.repetition == index + 1
    &&& a.controller_tape.sha256.0@ == p.controller_tape.sha256.0@
    &&& a.first_hit_tick == p.first_hit_tick
    &&& a.tape_frame == expected_tape_frame
    &&& a.tape_frame + 1 == p.controller_tape_frames
    &&& a.boundary_index == p.controller_tape_frames
    &&& !a.milestone_result.sha256.spec_is_zero()
    &&& !a.stdout.sha256.spec_is_zero()
    &&& !a.stderr.sha256.spec_is_zero()
    &&& spec_exact_boundary_fingerprint(a.boundary_fingerprint)
    &&& a.sim_tick == first.sim_tick
    &&& a.tape_frame == first.tape_frame
    &&& a.boundary_index == first.boundary_index
    &&& same_fingerprint(a.boundary_fingerprint, first.boundary_fingerprint)
}

/// Between two and sixteen repetitions, numbered from one, each reaching
/// the same terminal boundary at the same tick with the proof's tape.
pub open spec fn attempts_exact(p: NativeTacticColdReplayProof) -> bool {
    let attempts = p.attempts@;
    &&& MINIMUM_COLD_REPLAY_REPETITIONS <= attempts.len() <= MAXIMUM_COLD_REPLAY_REPETITIONS
    &&& forall|i: int| 0 <= i < attempts.len() ==> attempt_exact(p, #[trigger] attempts[i], i, attempts[0])
}

/// The domain prefix of a proof's identity.
pub open spec fn cold_replay_proof_domain() -> Seq<u8> {
    seq![
        0x64u8, 0x75u8, 0x73u8, 0x6bu8, 0x6cu8, 0x69u8, 0x67u8, 0x68u8, 0x74u8, 0x2eu8, 0x6eu8, 0x61u8, 0x74u8,
        0x69u8, 0x76u8, 0x65u8, 0x2du8, 0x74u8, 0x61u8, 0x63u8, 0x74u8, 0x69u8, 0x63u8, 0x2du8, 0x63u8, 0x6fu8,
        0x6cu8, 0x64u8, 0x2du8, 0x72u8, 0x65u8, 0x70u8, 0x6cu8, 0x61u8, 0x79u8, 0x2du8, 0x70u8, 0x72u8, 0x6fu8,
        0x6fu8, 0x66u8, 0x2fu8, 0x76u8, 0x31u8, 0x00u8
    ]
}

pub open spec fn cold_replay_proof_identity_bytes(canonical_json: Seq<u8>) -> Seq<u8> {
    cold_replay_proof_domain() + spec_u64_to_le_bytes(canonical_json.len() as u64) + canonical_json
}

pub fn cold_replay_proof_identity(canonical_json: &[u8]) -> (d: Digest)
    ensures
        d.0@ == sha256_of(cold_replay_proof_identity_bytes(canonical_json@)),
{
    let mut bytes: Vec<u8> = vec![
        0x64u8, 0x75u8, 0x73u8, 0x6bu8, 0x6cu8, 0x69u8, 0x67u8, 0x68u8, 0x74u8, 0x2eu8, 0x6eu8, 0x61u8, 0x74u8,
        0x69u8, 0x76u8, 0x65u8, 0x2du8, 0x74u8, 0x61u8, 0x63u8, 0x74u8, 0x69u8, 0x63u8, 0x2du8, 0x63u8, 0x6fu8,
        0x6cu8, 0x64u8, 0x2du8, 0x72u8, 0x65u8, 0x70u8, 0x6cu8, 0x61u8, 0x79u8, 0x2du8, 0x70u8, 0x72u8, 0x6fu8,
        0x6fu8, 0x66u8, 0x2fu8, 0x76u8, 0x31u8, 0x00u8,
    ];
    assert(bytes@ =~= cold_replay_proof_domain());
    push_u64_le(&mut bytes, canonical_json.len() as u64);
    append_bytes(&mut bytes, canonical_json);
    assert(bytes@ =~= cold_replay_proof_identity_bytes(canonical_json@));
    digest_bytes(bytes.as_slice())
}

impl NativeTacticColdReplayProof {
    /// A proof of the current schema, sealed over `canonical_json`, with
    /// every identity present, a first hit within the ceiling, a tape that
    /// ends exactly at the first terminal tick, native fingerprints, the
    /// exact headless fidelity, neither controller nor learner in the loop,
    /// and exact repetitions.
    pub open spec fn shape_valid(self, canonical_json: Seq<u8>, fixed_automation_cvars: Seq<Seq<char>>) -> bool {
        &&& self.schema@ == NATIVE_TACTIC_COLD_REPLAY_PROOF_SCHEMA_V1@
        &&& !self.content_sha256.spec_is_zero()
        &&& self.content_sha256.0@ == sha256_of(cold_replay_proof_identity_bytes(canonical_json))
        &&& !self.optimization_request_sha256.spec_is_zero()
        &&& !self.execution_binding_sha256.spec_is_zero()
        &&& !self.execution_plan_sha256.spec_is_zero()
        &&& !self.route_report_sha256.spec_is_zero()
        &&& !self.state_graph_sha256.spec_is_zero()
        &&& !self.terminal_result_sha256.spec_is_zero()
        &&& !self.terminal_state_sha256.spec_is_zero()
        &&& !self.objective_sha256.spec_is_zero()
        &&& !self.terminal_program_sha256.spec_is_zero()
        &&& !self.terminal_definition_sha256.spec_is_zero()
        &&& self.goal@.len() > 0
        &&& self.first_hit_tick <= self.maximum_first_hit_tick
        &&& !self.controller_tape.sha256.spec_is_zero()
        &&& self.controller_tape_frames == self.source_boundary_index + self.first_hit_tick + 1
        &&& spec_native_fingerprint(self.source_boundary_fingerprint@)
        &&& spec_native_fingerprint(self.native_source_boundary_fingerprint@)
        &&& spec_exact_headless(self.fidelity, fixed_automation_cvars)
        &&& !self.controller_in_loop
        &&& !self.learner_in_loop
        &&& attempts_exact(self)
    }

    /// Validates the proof; `canonical_json` is its serialization with a
    /// zero content digest, and `fixed_automation_cvars` the harness's
    /// fixed automation settings.
    pub fn validate_shape(&self, canonical_json: &[u8], fixed_automation_cvars: &Vec<String>) -> (r: Result<
        (),
        NativeTacticRouteRunError,
    >)
        ensures
            r is Ok <==> self.shape_valid(canonical_json@, fixed_automation_cvars@.map_values(|s: String| s@)),
    {
        let frames_exact = self.source_boundary_index as u128 + self.first_hit_tick as u128 + 1
            == self.controller_tape_frames as u128;
        let identity = cold_replay_proof_identity(canonical_json);
        let fields_valid = text_eq(self.schema.as_str(), NATIVE_TACTIC_COLD_REPLAY_PROOF_SCHEMA_V1)
            && !self.content_sha256.is_zero() && self.content_sha256.same_as(&identity)
            && !self.optimization_request_sha256.is_zero() && !self.execution_binding_sha256.is_zero()
            && !self.execution_plan_sha256.is_zero() && !self.route_report_sha256.is_zero()
            && !self.state_graph_sha256.is_zero() && !self.terminal_result_sha256.is_zero()
            && !self.terminal_state_sha256.is_zero() && !self.objective_sha256.is_zero()
            && !self.terminal_program_sha256.is_zero() && !self.terminal_definition_sha256.is_zero()
            && self.goal.as_str().unicode_len() > 0 && self.first_hit_tick <= self.maximum_first_hit_tick
            && !self.controller_tape.sha256.is_zero() && frames_exact
            && native_fingerprint(self.source_boundary_fingerprint.as_str())
            && native_fingerprint(self.native_source_boundary_fingerprint.as_str())
            && is_exact_headless(&self.fidelity, fixed_automation_cvars) && !self.controller_in_loop
            && !self.learner_in_loop;
        if !fields_valid || !self.check_attempts() {
            return Err(route_message("native tactic cold replay proof is invalid, detached, or nonexact"));
        }
        Ok(())
    }

    fn check_attempts(&self) -> (r: bool)
        ensures
            r == attempts_exact(*self),
    {
        let attempts = &self.attempts;
        let n = attempts.len();
        if n < MINIMUM_COLD_REPLAY_REPETITIONS as usize || n > MAXIMUM_COLD_REPLAY_REPETITIONS as usize {
            return false;
        }
        let first = &attempts[0];
        let mut i: usize = 0;
        while i < n
            invariant
                i <= n,
                n == attempts@.len(),
                n >= 2,
                first == attempts@[0],
                attempts == self.attempts,
                forall|k: int| 0 <= k < i ==> attempt_exact(*self, #[trigger] attempts@[k], k, attempts@[0]),
            decreases n - i,
        {
            let a = &attempts[i];
            let exact = a.repetition as u128 == i as u128 + 1 && a.controller_tape.sha256.same_as(
                &self.controller_tape.sha256,
            ) && a.first_hit_tick == self.first_hit_tick && a.tape_frame as u128 == self.source_boundary_index
                as u128 + self.first_hit_tick as u128 && a.tape_frame as u128 + 1 == self.controller_tape_frames
                as u128 && a.boundary_index == self.controller_tape_frames && !a.milestone_result.sha256.is_zero()
                && !a.stdout.sha256.is_zero() && !a.stderr.sha256.is_zero() && exact_boundary_fingerprint(
                &a.boundary_fingerprint,
            ) && a.sim_tick == first.sim_tick && a.tape_frame == first.tape_frame && a.boundary_index
                == first.boundary_index && text_eq(
                a.boundary_fingerprint.schema.as_str(),
                first.boundary_fingerprint.schema.as_str(),
            ) && text_eq(a.boundary_fingerprint.algorithm.as_str(), first.boundary_fingerprint.algorithm.as_str())
                && text_eq(
                a.boundary_fingerprint.canonical_encoding.as_str(),
                first.boundary_fingerprint.canonical_encoding.as_str(),
            ) && text_eq(a.boundary_fingerprint.digest.as_str(), first.boundary_fingerprint.digest.as_str());
            if !exact {
                return false;
            }
            i = i + 1;
        }
        true
    }
}

/// Why a replay's milestone report does not authenticate the route.
#[derive(Clone, Copy, Debug, PartialEq, Eq, Structural)]
pub enum NativeTacticMilestoneFault {
    UnauthenticatedAuthority,
    MilestonesOmitted,
    GoalNotUnique,
    SimTickOmitted,
    TapeFrameOmitted,
    BoundaryIndexOmitted,
    BoundaryFingerprintOmitted,
    BoundaryFingerprintMalformed,
    TerminalFrameOverflow,
    DetachedTerminal,
}

/// The text a milestone fault is reported under.
pub open spec fn milestone_fault_message(f: NativeTacticMilestoneFault) -> Seq<char> {
    match f {
        NativeTacticMilestoneFault::UnauthenticatedAuthority => "cold replay returned unauthenticated milestone authority"@,
        NativeTacticMilestoneFault::MilestonesOmitted => "cold replay omitted milestones"@,
        NativeTacticMilestoneFault::GoalNotUnique => "cold replay did not return exactly one terminal goal"@,
        NativeTacticMilestoneFault::SimTickOmitted => "cold replay goal omitted sim_tick"@,
        NativeTacticMilestoneFault::TapeFrameOmitted => "cold replay goal omitted tape_frame"@,
        NativeTacticMilestoneFault::BoundaryIndexOmitted => "cold replay goal omitted boundary index"@,
        NativeTacticMilestoneFault::BoundaryFingerprintOmitted => "cold replay goal omitted boundary fingerprint"@,
        NativeTacticMilestoneFault::BoundaryFingerprintMalformed => "cold replay goal boundary fingerprint is malformed"@,
        NativeTacticMilestoneFault::TerminalFrameOverflow => "cold replay terminal frame overflowed"@,
        NativeTacticMilestoneFault::DetachedTerminal => "cold replay terminal proof differs from the graph-selected route"@,
    }
}

impl NativeTacticMilestoneFault {
    /// The fault as the route runner reports it.
    pub fn message(&self) -> (m: String)
        ensures
            m@ == milestone_fault_message(*self),
    {
        let text = match self {
            NativeTacticMilestoneFault::UnauthenticatedAuthority => "cold replay returned unauthenticated milestone authority",
            NativeTacticMilestoneFault::MilestonesOmitted => "cold replay omitted milestones",
            NativeTacticMilestoneFault::GoalNotUnique => "cold replay did not return exactly one terminal goal",
            NativeTacticMilestoneFault::SimTickOmitted => "cold replay goal omitted sim_tick",
            NativeTacticMilestoneFault::TapeFrameOmitted => "cold replay goal omitted tape_frame",
            NativeTacticMilestoneFault::BoundaryIndexOmitted => "cold replay goal omitted boundary index",
            NativeTacticMilestoneFault::BoundaryFingerprintOmitted => "cold replay goal omitted boundary fingerprint",
            NativeTacticMilestoneFault::BoundaryFingerprintMalformed => "cold replay goal boundary fingerprint is malformed",
            NativeTacticMilestoneFault::TerminalFrameOverflow => "cold replay terminal frame overflowed",
            NativeTacticMilestoneFault::DetachedTerminal => "cold replay terminal proof differs from the graph-selected route",
        };
        text.to_owned()
    }
}

/// A boundary fingerprint field of a milestone: absent, present but not a
/// fingerprint, or read.
#[derive(Clone, Debug)]
pub enum NativeTacticFingerprintRead {
    Absent,
    Malformed,
    Read(NativeTacticBoundaryFingerprint),
}

/// One milestone of a replay's report, as its fields read; a field that is
/// absent or of another type reads as `None`.
#[derive(Clone, Debug)]
pub struct NativeTacticMilestoneEntry {
    pub id: Option<String>,
    pub hit: Option<bool>,
    pub phase: Option<String>,
    pub definition_digest: Option<String>,
    pub program_digest: Option<String>,
    pub sim_tick: Option<u64>,
    pub tape_frame: Option<u64>,
    pub boundary_index: Option<u64>,
    pub boundary_fingerprint: NativeTacticFingerprintRead,
}

/// A replay's milestone report, as its fields read. `boot_matches_tape`
/// says whether its boot origin reads as the boot of the replayed tape.
#[derive(Clone, Debug)]
pub struct NativeTacticMilestoneReport {
    pub schema_name: Option<String>,
    pub schema_version: Option<u64>,
    pub boot_origin_established: Option<bool>,
    pub boot_matches_tape: bool,
    pub goal: Option<String>,
    pub goal_reached: Option<bool>,
    pub program_digest: Option<String>,
    pub milestones: Option<Vec<NativeTacticMilestoneEntry>>,
}

/// What the route authority expects of a replay: its goal, the program and
/// definition digests in their text form, the route's source boundary, the
/// replayed tape's frame count and the accepted first-hit tick.
#[derive(Clone, Debug)]
pub struct NativeTacticMilestoneExpectation {
    pub goal: String,
    pub program_digest: String,
    pub definition_digest: String,
    pub source_boundary_index: u64,
    pub tape_frames: u64,
    pub first_hit_tick: u64,
}

pub open spec fn text_is(o: Option<String>, t: Seq<char>) -> bool {
    match o {
        Some(s) => s@ == t,
        None => false,
    }
}

pub open spec fn report_authenticated(r: NativeTacticMilestoneReport, x: NativeTacticMilestoneExpectation) -> bool {
    &&& text_is(r.schema_name, "dusklight.automation.milestones"@)
    &&& r.schema_version == Some(5u64)
    &&& r.boot_origin_established == Some(true)
    &&& r.boot_matches_tape
    &&& text_is(r.goal, x.goal@)
    &&& r.goal_reached == Some(true)
    &&& text_is(r.program_digest, x.program_digest@)
}

pub open spec fn is_goal_entry(m: NativeTacticMilestoneEntry, goal: Seq<char>) -> bool {
    text_is(m.id, goal)
}

pub open spec fn goal_entry_count(ms: Seq<NativeTacticMilestoneEntry>, goal: Seq<char>) -> nat {
    count_matching(ms, |m: NativeTacticMilestoneEntry| is_goal_entry(m, goal))
}

/// The position of the first goal milestone at or after `i`.
pub open spec fn first_goal_entry(ms: Seq<NativeTacticMilestoneEntry>, goal: Seq<char>, i: int) -> int
    decreases ms.len() - i,
{
    if i < 0 || i >= ms.len() {
        ms.len() as int
    } else if is_goal_entry(ms[i], goal) {
        i
    } else {
        first_goal_entry(ms, goal, i + 1)
    }
}

/// The terminal milestone's own evidence agrees with the authority: hit
/// after the simulation step, under the expected definition and program,
/// at the route's terminal frame, on the tape's last boundary, with an
/// exact boundary fingerprint.
pub open spec fn terminal_entry_attached(
    e: NativeTacticMilestoneEntry,
    x: NativeTacticMilestoneExpectation,
    tape_frame: u64,
    boundary_index: u64,
    fingerprint: NativeTacticBoundaryFingerprint,
) -> bool {
    &&& e.hit == Some(true)
    &&& text_is(e.phase, "post_sim"@)
    &&& text_is(e.definition_digest, x.definition_digest@)
    &&& text_is(e.program_digest, x.program_digest@)
    &&& tape_frame == x.source_boundary_index + x.first_hit_tick
    &&& tape_frame + 1 == x.tape_frames
    &&& boundary_index == x.tape_frames
    &&& spec_exact_boundary_fingerprint(fingerprint)
}

/// Why the report does not authenticate the replay, checked in order, or
/// `None` where it does.
pub open spec fn milestone_fault(
    r: NativeTacticMilestoneReport,
    x: NativeTacticMilestoneExpectation,
) -> Option<NativeTacticMilestoneFault> {
    if !report_authenticated(r, x) {
        Some(NativeTacticMilestoneFault::UnauthenticatedAuthority)
    } else {
        match r.milestones {
            None => Some(NativeTacticMilestoneFault::MilestonesOmitted),
            Some(ms) => {
                if goal_entry_count(ms@, x.goal@) != 1 {
                    Some(NativeTacticMilestoneFault::GoalNotUnique)
                } else {
                    let e = ms@[first_goal_entry(ms@, x.goal@, 0)];
                    if e.sim_tick is None {
                        Some(NativeTacticMilestoneFault::SimTickOmitted)
                    } else if e.tape_frame is None {
                        Some(NativeTacticMilestoneFault::TapeFrameOmitted)
                    } else if e.boundary_index is None {
                        Some(NativeTacticMilestoneFault::BoundaryIndexOmitted)
                    } else {
                        match e.boundary_fingerprint {
                            NativeTacticFingerprintRead::Absent => Some(
                                NativeTacticMilestoneFault::BoundaryFingerprintOmitted,
                            ),
                            NativeTacticFingerprintRead::Malformed => Some(
                                NativeTacticMilestoneFault::BoundaryFingerprintMalformed,
                            ),
                            NativeTacticFingerprintRead::Read(f) => {
                                if x.source_boundary_index + x.first_hit_tick > u64::MAX {
                                    Some(NativeTacticMilestoneFault::TerminalFrameOverflow)
                                } else if !terminal_entry_attached(
                                    e,
                                    x,
                                    e.tape_frame.unwrap(),
                                    e.boundary_index.unwrap(),
                                    f,
                                ) {
                                    Some(NativeTacticMilestoneFault::DetachedTerminal)
                                } else {
                                    None
                                }
                            },
                        }
                    }
                }
            },
        }
    }
}

fn option_text_is(o: &Option<String>, t: &str) -> (r: bool)
    ensures
        r == text_is(*o, t@),
{
    match o {
        Some(s) => text_eq(s.as_str(), t),
        None => false,
    }
}

fn copy_fingerprint(f: &NativeTacticBoundaryFingerprint) -> (c: NativeTacticBoundaryFingerprint)
    ensures
        same_fingerprint(c, *f),
{
    NativeTacticBoundaryFingerprint {
        schema: f.schema.clone(),
        algorithm: f.algorithm.clone(),
        canonical_encoding: f.canonical_encoding.clone(),
        digest: f.digest.clone(),
    }
}

/// The number of goal milestones and the position of the first.
fn locate_goal_entry(ms: &Vec<NativeTacticMilestoneEntry>, goal: &str) -> (r: (usize, usize))
    ensures
        r.0 == goal_entry_count(ms@, goal@),
        r.1 == first_goal_entry(ms@, goal@, 0),
        r.0 >= 1 ==> r.1 < ms@.len(),
{
    let mut count: usize = 0;
    let mut first: usize = ms.len();
    let mut i: usize = 0;
    proof {
        assert(ms@.take(0) =~= Seq::<NativeTacticMilestoneEntry>::empty());
    }
    while i < ms.len()
        invariant
            i <= ms.len(),
            count <= i,
            count == goal_entry_count(ms@.take(i as int), goal@),
            first == ms.len() ==> first_goal_entry(ms@, goal@, 0) == first_goal_entry(ms@, goal@, i as int),
            first < ms.len() ==> first == first_goal_entry(ms@, goal@, 0),
            first <= ms.len(),
            (first == ms.len()) == (count == 0),
        decreases ms.len() - i,
    {
        let hit = option_text_is(&ms[i].id, goal);
        proof {
            lemma_take_step(ms@, i as int);
        }
        if hit {
            count = count + 1;
            if first == ms.len() {
                first = i;
            }
        }
        i = i + 1;
    }
    proof {
        assert(ms@.take(ms@.len() as int) =~= ms@);
    }
    (count, first)
}

/// The attempt a replay's milestone report establishes, with the retained
/// artifacts of that repetition, or the first reason the report does not
/// authenticate the graph-selected route.
pub fn cold_replay_attempt_from_milestones(
    report: &NativeTacticMilestoneReport,
    expected: &NativeTacticMilestoneExpectation,
    repetition: u32,
    controller_tape: NativeTacticColdReplayArtifact,
    milestone_result: NativeTacticColdReplayArtifact,
    stdout: NativeTacticColdReplayArtifact,
    stderr: NativeTacticColdReplayArtifact,
) -> (r: Result<NativeTacticColdReplayAttempt, NativeTacticMilestoneFault>)
    ensures
        match r {
            Err(fault) => milestone_fault(*report, *expected) == Some(fault),
            Ok(a) => {
                &&& milestone_fault(*report, *expected) is None
                &&& report.milestones matches Some(ms) && {
                    let e = ms@[first_goal_entry(ms@, expected.goal@, 0)];
                    &&& e.sim_tick == Some(a.sim_tick)
                    &&& e.tape_frame == Some(a.tape_frame)
                    &&& e.boundary_index == Some(a.boundary_index)
                    &&& e.boundary_fingerprint matches NativeTacticFingerprintRead::Read(f) && same_fingerprint(
                        a.boundary_fingerprint,
                        f,
                    )
                }
                &&& a.repetition == repetition
                &&& a.first_hit_tick == expected.first_hit_tick
                &&& a.controller_tape == controller_tape
                &&& a.milestone_result == milestone_result
                &&& a.stdout == stdout
                &&& a.stderr == stderr
            },
        },
{
    let authenticated = option_text_is(&report.schema_name, "dusklight.automation.milestones")
        && report.schema_version == Some(5u64) && report.boot_origin_established == Some(true)
        && report.boot_matches_tape && option_text_is(&report.goal, expected.goal.as_str())
        && report.goal_reached == Some(true) && option_text_is(&report.program_digest, expected.program_digest.as_str());
    if !authenticated {
        return Err(NativeTacticMilestoneFault::UnauthenticatedAuthority);
    }
    let ms = match &report.milestones {
        None => {
            return Err(NativeTacticMilestoneFault::MilestonesOmitted);
        },
        Some(ms) => ms,
    };
    let (count, first) = locate_goal_entry(ms, expected.goal.as_str());
    if count != 1 {
        return Err(NativeTacticMilestoneFault::GoalNotUnique);
    }
    let e = &ms[first];
    let sim_tick = match e.sim_tick {
        None => {
            return Err(NativeTacticMilestoneFault::SimTickOmitted);
        },
        Some(t) => t,
    };
    let tape_frame = match e.tape_frame {
        None => {
            return Err(NativeTacticMilestoneFault::TapeFrameOmitted);
        },
        Some(t) => t,
    };
    let boundary_index = match e.boundary_index {
        None => {
            return Err(NativeTacticMilestoneFault::BoundaryIndexOmitted);
        },
        Some(b) => b,
    };
    let fingerprint = match &e.boundary_fingerprint {
        NativeTacticFingerprintRead::Absent => {
            return Err(NativeTacticMilestoneFault::BoundaryFingerprintOmitted);
        },
        NativeTacticFingerprintRead::Malformed => {
            return Err(NativeTacticMilestoneFault::BoundaryFingerprintMalformed);
        },
        NativeTacticFingerprintRead::Read(f) => f,
    };
    let expected_tape_frame = match expected.source_boundary_index.checked_add(expected.first_hit_tick) {
        None => {
            return Err(NativeTacticMilestoneFault::TerminalFrameOverflow);
        },
        Some(f) => f,
    };
    let frame_closes = match tape_frame.checked_add(1) {
        Some(next) => next == expected.tape_frames,
        None => false,
    };
    if !(e.hit == Some(true) && option_text_is(&e.phase, "post_sim") && option_text_is(
        &e.definition_digest,
        expected.definition_digest.as_str(),
    ) && option_text_is(&e.program_digest, expected.program_digest.as_str()) && tape_frame == expected_tape_frame
        && frame_closes && boundary_index == expected.tape_frames && exact_boundary_fingerprint(fingerprint)) {
        return Err(NativeTacticMilestoneFault::DetachedTerminal);
    }
    Ok(NativeTacticColdReplayAttempt {
        repetition,
        controller_tape,
        milestone_result,
        stdout,
        stderr,
        sim_tick,
        tape_frame,
        boundary_index,
        first_hit_tick: expected.first_hit_tick,
        boundary_fingerprint: copy_fingerprint(fingerprint),
    })
}

/// The settings of a cold-replay run that its validity depends on: the
/// seed and accepted first-hit tick it replays, how often, and the
/// per-attempt timeout as whole seconds and leftover nanoseconds.
#[derive(Clone, Copy, Debug)]
pub struct NativeTacticColdReplayConfig {
    pub seed: u64,
    pub maximum_first_hit_tick: u64,
    pub repetitions: u32,
    pub timeout_secs: u64,
    pub timeout_subsec_nanos: u32,
}

impl NativeTacticColdReplayConfig {
    /// A run repeats the replay between two and sixteen times, each with a
    /// nonzero timeout.
    pub fn validate(&self) -> (r: Result<(), NativeTacticRouteRunError>)
        ensures
            r is Ok <==> MINIMUM_COLD_REPLAY_REPETITIONS <= self.repetitions <= MAXIMUM_COLD_REPLAY_REPETITIONS && (
            self.timeout_secs != 0 || self.timeout_subsec_nanos != 0),
            r matches Err(e) ==> e.message@ == "native tactic cold replay configuration is invalid"@,
    {
        if self.repetitions < MINIMUM_COLD_REPLAY_REPETITIONS || self.repetitions > MAXIMUM_COLD_REPLAY_REPETITIONS
            || (self.timeout_secs == 0 && self.timeout_subsec_nanos == 0) {
            return Err(route_message("native tactic cold replay configuration is invalid"));
        }
        Ok(())
    }
}

} // verus!
