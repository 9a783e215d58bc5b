//! Evidence bundles: the content-addressed manifests that carry a
//! fault-recovery experiment or a launch smoke run, and the smoke run's
//! acceptance contract.

use crate::cold_replay::NativeTacticArtifactReference;
use crate::compression::{zstd_bulk_compress, zstd_bulk_decompress, zstd_compress, zstd_decompress};
use crate::digest::{digest_bytes, sha256_of, Digest};
use crate::error::{route_message, NativeTacticRouteRunError};
use crate::execution_plan::{NativeGenericExecutionStrategy, NativeTacticExecutionPlan, NativeTacticResourceLimit};
use crate::report::{
    NativeTacticLeaseAccounting, NativeTacticRouteReport, NATIVE_TACTIC_ROUTE_REPORT_SCHEMA_V38,
    NATIVE_TACTIC_ROUTE_REPORT_SCHEMA_V39, NATIVE_TACTIC_ROUTE_REPORT_SCHEMA_V40, NATIVE_TACTIC_ROUTE_REPORT_SCHEMA_V41,
    NATIVE_TACTIC_ROUTE_REPORT_SCHEMA_V42, NATIVE_TACTIC_ROUTE_REPORT_SCHEMA_V43, NATIVE_TACTIC_ROUTE_REPORT_SCHEMA_V44,
    NATIVE_TACTIC_ROUTE_REPORT_SCHEMA_V45,
};
use crate::text::text_eq;
use vstd::prelude::*;

verus! {

pub const NATIVE_TACTIC_FAULT_RECOVERY_EVIDENCE_BUNDLE_SCHEMA_V1: &'static str = "dusklight-native-tactic-fault-recovery-evidence-bundle/v1";
pub const NATIVE_TACTIC_THROUGHPUT_EVIDENCE_BUNDLE_SCHEMA_V1: &'static str = "dusklight-native-tactic-throughput-evidence-bundle/v1";
pub const NATIVE_TACTIC_SCRATCH_EVIDENCE_BUNDLE_SCHEMA_V2: &'static str = "dusklight-native-tactic-scratch-evidence-bundle/v2";
pub const NATIVE_TACTIC_LAUNCH_SMOKE_BUNDLE_SCHEMA_V1: &'static str = "dusklight-native-tactic-launch-smoke-bundle/v1";
pub const NATIVE_TACTIC_RESULT_ADMISSION_SCHEMA_V1: &'static str = "dusklight-native-tactic-result-admission/v1";
pub const NATIVE_SUFFIX_BATCH_RESULT_SCHEMA_V9: &'static str = "dusklight-native-suffix-batch-result/v9";
pub const SUFFIX_BATCH_TIMING_SCHEMA_V1: &'static str = "dusklight-suffix-batch-timing/v1";
pub const MAXIMUM_SMOKE_CHECKPOINT_SNAPSHOT_BYTES: usize = 67108864;
pub const SMOKE_CHECKPOINT_COMPRESSION_LEVEL: i32 = 3;

/// A content-store blob: its digest and length.
#[derive(Clone, Copy, Debug)]
pub struct NativeTacticBlobReference {
    pub sha256: Digest,
    pub bytes: u64,
}

/// A bundled artifact: the identity it stands for, and the blob holding it.
#[derive(Clone, Copy, Debug)]
pub struct NativeTacticScratchBundleArtifact {
    pub logical_identity_sha256: Digest,
    pub blob: NativeTacticBlobReference,
}

/// A bundled artifact stored compressed.
#[derive(Clone, Copy, Debug)]
pub struct NativeTacticThroughputCompressedArtifact {
    pub logical_identity_sha256: Digest,
    pub uncompressed_bytes: u64,
    pub blob: NativeTacticBlobReference,
}

/// The external authorities a bundle carries, in their sorted order.
#[derive(Clone, Copy, Debug, PartialEq, Eq, Structural)]
pub enum NativeTacticAuthorityRole {
    CardFixtureManifest,
    MilestoneProgram,
    ProcessBootTape,
    RouteTimeline,
    TerminalPredicateSource,
    WorldContext,
}

pub open spec fn role_rank(role: NativeTacticAuthorityRole) -> int {
    match role {
        NativeTacticAuthorityRole::CardFixtureManifest => 0,
        NativeTacticAuthorityRole::MilestoneProgram => 1,
        NativeTacticAuthorityRole::ProcessBootTape => 2,
        NativeTacticAuthorityRole::RouteTimeline => 3,
        NativeTacticAuthorityRole::TerminalPredicateSource => 4,
        NativeTacticAuthorityRole::WorldContext => 5,
    }
}

fn role_rank_of(role: NativeTacticAuthorityRole) -> (r: u8)
    ensures
        r == role_rank(role),
{
    match role {
        NativeTacticAuthorityRole::CardFixtureManifest => 0,
        NativeTacticAuthorityRole::MilestoneProgram => 1,
        NativeTacticAuthorityRole::ProcessBootTape => 2,
        NativeTacticAuthorityRole::RouteTimeline => 3,
        NativeTacticAuthorityRole::TerminalPredicateSource => 4,
        NativeTacticAuthorityRole::WorldContext => 5,
    }
}

/// A bundled external authority: its role, the path and digest its
/// request declared, and the blob holding it.
#[derive(Clone, Debug)]
pub struct NativeTacticScratchAuthorityArtifact {
    pub role: NativeTacticAuthorityRole,
    pub declared_path: String,
    pub declared_sha256: Digest,
    pub blob: NativeTacticBlobReference,
}

/// The executable inputs a bundle was produced with.
#[derive(Clone, Debug)]
pub struct NativeTacticScratchExecutionIdentity {
    pub execution_binding_sha256: Digest,
    pub executable_sha256: Digest,
    pub runtime_dependency_sha256s: Vec<Digest>,
    pub game_data_sha256: Digest,
    pub process_boot_tape_sha256: Digest,
    pub milestone_program_sha256: Digest,
    pub world_context_sha256: Digest,
    pub card_fixture_manifest_sha256: Digest,
}

/// A bundle carries each of the six authorities once, in role order, each
/// stored under the digest its request declared.
pub open spec fn authorities_well_formed(authorities: Seq<NativeTacticScratchAuthorityArtifact>) -> bool {
    &&& authorities.len() == 6
    &&& forall|i: int| 0 <= i < 5 ==> role_rank((#[trigger] authorities[i]).role) < role_rank(authorities[i + 1].role)
    &&& forall|i: int| 0 <= i < 6 ==> (#[trigger] authorities[i]).declared_sha256.0@ == authorities[i].blob.sha256.0@
}

pub fn check_authorities(authorities: &Vec<NativeTacticScratchAuthorityArtifact>) -> (r: bool)
    ensures
        r == authorities_well_formed(authorities@),
{
    if authorities.len() != 6 {
        return false;
    }
    let mut i: usize = 0;
    while i < 6
        invariant
            i <= 6,
            authorities@.len() == 6,
            forall|k: int| 0 <= k < i && k < 5 ==> role_rank((#[trigger] authorities@[k]).role) < role_rank(
                authorities@[k + 1].role,
            ),
            forall|k: int| 0 <= k < i ==> (#[trigger] authorities@[k]).declared_sha256.0@
                == authorities@[k].blob.sha256.0@,
        decreases 6 - i,
    {
        if i < 5 && role_rank_of(authorities[i].role) >= role_rank_of(authorities[i + 1].role) {
            return false;
        }
        if !authorities[i].declared_sha256.same_as(&authorities[i].blob.sha256) {
            return false;
        }
        i = i + 1;
    }
    true
}

/// The six authorities a request and its execution binding declare, each
/// as a path and digest.
#[derive(Clone, Debug)]
pub struct NativeTacticDeclaredAuthorities {
    pub card_fixture_manifest: NativeTacticArtifactReference,
    pub milestone_program: NativeTacticArtifactReference,
    pub process_boot_tape: NativeTacticArtifactReference,
    pub route_timeline: NativeTacticArtifactReference,
    pub terminal_predicate_source: NativeTacticArtifactReference,
    pub world_context: NativeTacticArtifactReference,
}

/// The declared authority of the role ranked `rank`.
pub open spec fn declared_authority(d: NativeTacticDeclaredAuthorities, rank: int) -> NativeTacticArtifactReference {
    if rank == 0 {
        d.card_fixture_manifest
    } else if rank == 1 {
        d.milestone_program
    } else if rank == 2 {
        d.process_boot_tape
    } else if rank == 3 {
        d.route_timeline
    } else if rank == 4 {
        d.terminal_predicate_source
    } else {
        d.world_context
    }
}

/// A bundled authority stands for the role ranked `rank` and carries the
/// path and digest that role's declaration names.
pub open spec fn authority_declared(a: NativeTacticScratchAuthorityArtifact, d: NativeTacticDeclaredAuthorities, rank: int) -> bool {
    &&& role_rank(a.role) == rank
    &&& a.declared_path@ == declared_authority(d, rank).path@
    &&& a.declared_sha256.0@ == declared_authority(d, rank).sha256.0@
}

/// Whether the bundled authorities, in role order, are the ones the request
/// and execution binding declare; authorities past the sixth are not
/// compared.
pub fn authorities_match(
    authorities: &Vec<NativeTacticScratchAuthorityArtifact>,
    declared: &NativeTacticDeclaredAuthorities,
) -> (r: bool)
    ensures
        r == forall|i: int| 0 <= i < authorities@.len() && i < 6 ==> authority_declared(#[trigger] authorities@[i], *declared, i),
{
    let mut i: usize = 0;
    while i < authorities.len() && i < 6
        invariant
            i <= 6,
            forall|k: int| 0 <= k < i && k < authorities@.len() ==> authority_declared(#[trigger] authorities@[k], *declared, k),
        decreases 6 - i,
    {
        let reference = if i == 0 {
            &declared.card_fixture_manifest
        } else if i == 1 {
            &declared.milestone_program
        } else if i == 2 {
            &declared.process_boot_tape
        } else if i == 3 {
            &declared.route_timeline
        } else if i == 4 {
            &declared.terminal_predicate_source
        } else {
            &declared.world_context
        };
        let a = &authorities[i];
        if role_rank_of(a.role) as usize != i || !text_eq(a.declared_path.as_str(), reference.path.as_str())
            || !a.declared_sha256.same_as(&reference.sha256) {
            return false;
        }
        i = i + 1;
    }
    true
}

/// The manifest of a fault-recovery experiment.
#[derive(Clone, Debug)]
pub struct NativeTacticFaultRecoveryEvidenceBundle {
    pub schema: String,
    pub content_sha256: Digest,
    pub optimization_request: NativeTacticScratchBundleArtifact,
    pub execution_binding: NativeTacticScratchBundleArtifact,
    pub execution_plan: NativeTacticScratchBundleArtifact,
    pub execution_identity: NativeTacticScratchExecutionIdentity,
    pub authorities: Vec<NativeTacticScratchAuthorityArtifact>,
    pub control_report: NativeTacticThroughputCompressedArtifact,
    pub recovered_report: NativeTacticThroughputCompressedArtifact,
    pub control_resource_audit: NativeTacticThroughputCompressedArtifact,
    pub recovered_resource_audit: NativeTacticThroughputCompressedArtifact,
    pub fault_marker: NativeTacticScratchBundleArtifact,
    pub fault_recovery_audit: NativeTacticScratchBundleArtifact,
    pub passed: bool,
}

impl NativeTacticFaultRecoveryEvidenceBundle {
    pub open spec fn manifest_valid(self, unsigned_encoding: Seq<u8>) -> bool {
        &&& self.schema@ == NATIVE_TACTIC_FAULT_RECOVERY_EVIDENCE_BUNDLE_SCHEMA_V1@
        &&& !self.content_sha256.spec_is_zero()
        &&& self.content_sha256.0@ == sha256_of(unsigned_encoding)
        &&& authorities_well_formed(self.authorities@)
        &&& self.passed
    }

    /// Validates the manifest itself: schema, seal (over
    /// `unsigned_encoding`, its canonical encoding with a zero content
    /// digest), the six sorted authorities, and the verdict.
    pub fn validate_manifest(&self, unsigned_encoding: &[u8]) -> (r: Result<(), NativeTacticRouteRunError>)
        ensures
            r is Ok <==> self.manifest_valid(unsigned_encoding@),
    {
        let sealed = digest_bytes(unsigned_encoding);
        if !text_eq(self.schema.as_str(), NATIVE_TACTIC_FAULT_RECOVERY_EVIDENCE_BUNDLE_SCHEMA_V1)
            || self.content_sha256.is_zero() || !self.content_sha256.same_as(&sealed)
            || !check_authorities(&self.authorities) || !self.passed
        {
            return Err(route_message("native tactic fault-recovery evidence manifest is invalid"));
        }
        Ok(())
    }
}

/// Both reports of a fault-recovery experiment are single-seed v38 reports
/// of the same request, binding and plan.
pub open spec fn fault_recovery_reports_attached(
    request_sha256: Digest,
    execution_sha256: Digest,
    control: NativeTacticRouteReport,
    recovered: NativeTacticRouteReport,
) -> bool {
    &&& control.schema@ == NATIVE_TACTIC_ROUTE_REPORT_SCHEMA_V38@
    &&& recovered.schema@ == NATIVE_TACTIC_ROUTE_REPORT_SCHEMA_V38@
    &&& control.optimization_request_sha256.0@ == request_sha256.0@
    &&& recovered.optimization_request_sha256.0@ == request_sha256.0@
    &&& control.execution_binding_sha256.0@ == execution_sha256.0@
    &&& recovered.execution_binding_sha256.0@ == execution_sha256.0@
    &&& control.execution_plan_sha256.0@ == recovered.execution_plan_sha256.0@
    &&& control.seeds@.len() == 1
    &&& recovered.seeds@.len() == 1
}

pub fn validate_fault_recovery_route_authorities(
    request_sha256: &Digest,
    execution_sha256: &Digest,
    control: &NativeTacticRouteReport,
    recovered: &NativeTacticRouteReport,
) -> (r: Result<(), NativeTacticRouteRunError>)
    ensures
        r is Ok <==> fault_recovery_reports_attached(*request_sha256, *execution_sha256, *control, *recovered),
{
    if !text_eq(control.schema.as_str(), NATIVE_TACTIC_ROUTE_REPORT_SCHEMA_V38)
        || !text_eq(recovered.schema.as_str(), NATIVE_TACTIC_ROUTE_REPORT_SCHEMA_V38)
        || !control.optimization_request_sha256.same_as(request_sha256)
        || !recovered.optimization_request_sha256.same_as(request_sha256)
        || !control.execution_binding_sha256.same_as(execution_sha256)
        || !recovered.execution_binding_sha256.same_as(execution_sha256)
        || !control.execution_plan_sha256.same_as(&recovered.execution_plan_sha256) || control.seeds.len() != 1
        || recovered.seeds.len() != 1
    {
        return Err(route_message("native tactic fault-recovery reports are detached from their authorities"));
    }
    Ok(())
}

/// The route-report schemas a launch smoke run may produce: v38 and later.
pub open spec fn spec_launch_smoke_route_schema(schema: Seq<char>) -> bool {
    ||| schema == NATIVE_TACTIC_ROUTE_REPORT_SCHEMA_V38@
    ||| schema == NATIVE_TACTIC_ROUTE_REPORT_SCHEMA_V39@
    ||| schema == NATIVE_TACTIC_ROUTE_REPORT_SCHEMA_V40@
    ||| schema == NATIVE_TACTIC_ROUTE_REPORT_SCHEMA_V41@
    ||| schema == NATIVE_TACTIC_ROUTE_REPORT_SCHEMA_V42@
    ||| schema == NATIVE_TACTIC_ROUTE_REPORT_SCHEMA_V43@
    ||| schema == NATIVE_TACTIC_ROUTE_REPORT_SCHEMA_V44@
    ||| schema == NATIVE_TACTIC_ROUTE_REPORT_SCHEMA_V45@
}

pub fn launch_smoke_route_schema_is_supported(schema: &str) -> (r: bool)
    ensures
        r == spec_launch_smoke_route_schema(schema@),
{
    text_eq(schema, NATIVE_TACTIC_ROUTE_REPORT_SCHEMA_V38) || text_eq(schema, NATIVE_TACTIC_ROUTE_REPORT_SCHEMA_V39)
        || text_eq(schema, NATIVE_TACTIC_ROUTE_REPORT_SCHEMA_V40) || text_eq(schema, NATIVE_TACTIC_ROUTE_REPORT_SCHEMA_V41)
        || text_eq(schema, NATIVE_TACTIC_ROUTE_REPORT_SCHEMA_V42) || text_eq(schema, NATIVE_TACTIC_ROUTE_REPORT_SCHEMA_V43)
        || text_eq(schema, NATIVE_TACTIC_ROUTE_REPORT_SCHEMA_V44) || text_eq(schema, NATIVE_TACTIC_ROUTE_REPORT_SCHEMA_V45)
}

/// Compresses a smoke run's checkpoint snapshot for bundling; snapshots
/// over 64 MiB are refused. Returns the compressed bytes and the snapshot
/// length.
pub fn compress_smoke_checkpoint(snapshot: &[u8]) -> (r: Result<(Vec<u8>, u64), NativeTacticRouteRunError>)
    ensures
        r is Ok <==> (snapshot@.len() <= MAXIMUM_SMOKE_CHECKPOINT_SNAPSHOT_BYTES && zstd_bulk_compress(
            snapshot@,
            SMOKE_CHECKPOINT_COMPRESSION_LEVEL,
        ) is Some),
        r matches Ok((compressed, length)) ==> {
            &&& Some(compressed@) == zstd_bulk_compress(snapshot@, SMOKE_CHECKPOINT_COMPRESSION_LEVEL)
            &&& length == snapshot@.len()
            &&& zstd_bulk_decompress(compressed@, length as usize) == Some(snapshot@)
        },
{
    if snapshot.len() > MAXIMUM_SMOKE_CHECKPOINT_SNAPSHOT_BYTES {
        return Err(route_message("native tactic launch smoke checkpoint snapshot is too large"));
    }
    match zstd_compress(snapshot, SMOKE_CHECKPOINT_COMPRESSION_LEVEL) {
        Ok(compressed) => Ok((compressed, snapshot.len() as u64)),
        Err(e) => Err(e),
    }
}

/// Restores a bundled checkpoint snapshot of the declared length, which
/// must be positive, at most 64 MiB, and exactly what decompression gives.
pub fn decompress_smoke_checkpoint(compressed: &[u8], declared_bytes: u64) -> (r: Result<Vec<u8>, NativeTacticRouteRunError>)
    ensures
        r is Ok <==> (0 < declared_bytes <= MAXIMUM_SMOKE_CHECKPOINT_SNAPSHOT_BYTES && (zstd_bulk_decompress(
            compressed@,
            declared_bytes as usize,
        ) matches Some(v) && v.len() == declared_bytes)),
        r matches Ok(v) ==> Some(v@) == zstd_bulk_decompress(compressed@, declared_bytes as usize),
{
    if declared_bytes == 0 || declared_bytes > MAXIMUM_SMOKE_CHECKPOINT_SNAPSHOT_BYTES as u64 {
        return Err(route_message("native tactic launch smoke checkpoint size is invalid"));
    }
    let snapshot = match zstd_decompress(compressed, declared_bytes as usize) {
        Ok(v) => v,
        Err(e) => {
            return Err(e);
        },
    };
    if snapshot.len() as u64 != declared_bytes {
        return Err(route_message("native tactic launch smoke checkpoint size differs"));
    }
    Ok(snapshot)
}

/// What a launch smoke run showed.
#[derive(Clone, Debug)]
pub struct NativeTacticLaunchSmokeSummary {
    pub platform: String,
    pub architecture: String,
    pub worker_revision: String,
    pub worker_aurora_revision: String,
    pub clean_build: bool,
    pub executable_sha256: Digest,
    pub game_data_sha256: Digest,
    pub root_checkpoint_identity: String,
    pub source_boundary_index: u64,
    pub proposal_ticks: u64,
    pub checkpoint_cache_capacity_bytes: u64,
    pub completed_graph_leases: u64,
    pub unresolved_graph_leases: u64,
    pub compact_persistent_control: bool,
    pub resource_audit_passed: bool,
}

/// The manifest of a launch smoke run.
#[derive(Clone, Debug)]
pub struct NativeTacticLaunchSmokeBundle {
    pub schema: String,
    pub content_sha256: Digest,
    pub optimization_request: NativeTacticScratchBundleArtifact,
    pub execution_binding: NativeTacticScratchBundleArtifact,
    pub execution_plan: NativeTacticScratchBundleArtifact,
    pub route_report: NativeTacticScratchBundleArtifact,
    pub campaign_audit: NativeTacticScratchBundleArtifact,
    pub worker_hello: NativeTacticScratchBundleArtifact,
    pub initial_request: NativeTacticScratchBundleArtifact,
    pub initial_result: NativeTacticScratchBundleArtifact,
    pub compact_proposal_request: NativeTacticScratchBundleArtifact,
    pub proposal_result: NativeTacticScratchBundleArtifact,
    pub lease_journal: NativeTacticScratchBundleArtifact,
    pub checkpoint_snapshot: NativeTacticScratchBundleArtifact,
    pub checkpoint_snapshot_uncompressed_bytes: u64,
    pub execution_identity: NativeTacticScratchExecutionIdentity,
    pub authorities: Vec<NativeTacticScratchAuthorityArtifact>,
    pub summary: NativeTacticLaunchSmokeSummary,
    pub passed: bool,
}

impl NativeTacticLaunchSmokeBundle {
    pub open spec fn manifest_valid(self, unsigned_encoding: Seq<u8>) -> bool {
        &&& self.schema@ == NATIVE_TACTIC_LAUNCH_SMOKE_BUNDLE_SCHEMA_V1@
        &&& !self.content_sha256.spec_is_zero()
        &&& self.content_sha256.0@ == sha256_of(unsigned_encoding)
        &&& self.passed
        &&& authorities_well_formed(self.authorities@)
    }

    /// Validates the manifest itself: schema, seal (over
    /// `unsigned_encoding`, its canonical encoding with a zero content
    /// digest), verdict, and the six sorted authorities.
    pub fn validate_manifest(&self, unsigned_encoding: &[u8]) -> (r: Result<(), NativeTacticRouteRunError>)
        ensures
            r is Ok <==> self.manifest_valid(unsigned_encoding@),
    {
        let sealed = digest_bytes(unsigned_encoding);
        if !text_eq(self.schema.as_str(), NATIVE_TACTIC_LAUNCH_SMOKE_BUNDLE_SCHEMA_V1) || self.content_sha256.is_zero()
            || !self.content_sha256.same_as(&sealed) || !self.passed || !check_authorities(&self.authorities)
        {
            return Err(route_message("native tactic launch smoke bundle manifest is invalid"));
        }
        Ok(())
    }
}

/// The worker's self-description.
#[derive(Clone, Debug)]
pub struct NativeTacticWorkerHello {
    pub valid: bool,
    pub persistent_control: bool,
    pub batch_run: bool,
    pub compact_batch_run: bool,
    pub dirty: bool,
    pub platform: String,
    pub architecture: String,
    pub revision: String,
    pub aurora_revision: String,
}

#[derive(Clone, Copy, Debug, PartialEq, Eq, Structural)]
pub struct NativeTacticSuffixCandidate {
    pub ticks_executed: u64,
    pub success: bool,
}

#[derive(Clone, Copy, Debug, PartialEq, Eq, Structural)]
pub struct NativeTacticCheckpointCacheTelemetry {
    pub capacity_bytes: u64,
    pub capacity_entries: u64,
    pub live_endpoint_capacity_entries: u64,
}

/// The native result of the smoke run's one proposal batch.
#[derive(Clone, Debug)]
pub struct NativeTacticSuffixBatchResult {
    pub schema: String,
    pub status: String,
    pub has_error: bool,
    pub source_frame: u64,
    pub candidate_count: u64,
    pub completed_candidates: u64,
    pub candidates: Vec<NativeTacticSuffixCandidate>,
    pub timing_schema: String,
    pub timing_verified: bool,
    pub timing_candidate_ticks: u64,
    pub audio_callback_quiesced: bool,
    pub restore_identity: Option<String>,
    pub checkpoint_cache: Option<NativeTacticCheckpointCacheTelemetry>,
}

/// Everything a smoke run's acceptance reads besides its plan and route
/// report: the request and binding identities, the validated initial
/// restore, the proposal result, the checkpoint's state graph, the lease
/// journal's accounting, the worker, and the resource audit.
#[derive(Clone, Debug)]
pub struct NativeTacticLaunchSmokeSources {
    pub request_content_sha256: Digest,
    pub request_terminal_definition_sha256: Digest,
    pub request_source_boundary_index: u64,
    pub execution_content_sha256: Digest,
    pub executable_sha256: Digest,
    pub game_data_sha256: Digest,
    pub plan_identity: Digest,
    pub initial_restore_identity: String,
    pub proposal_result: NativeTacticSuffixBatchResult,
    pub checkpoint_state_graph_sha256: Digest,
    pub lease_accounting: NativeTacticLeaseAccounting,
    pub hello: NativeTacticWorkerHello,
    pub resource_audit_passed: bool,
    pub resource_audit_completed_decisions: u64,
}

/// The smoke contract: one bounded seed, one decision, one natively
/// executed proposal whose result, cache, lease journal and checkpoint all
/// agree with the route report, on a clean worker build.
pub open spec fn smoke_contract_holds(
    s: NativeTacticLaunchSmokeSources,
    plan: NativeTacticExecutionPlan,
    route: NativeTacticRouteReport,
) -> bool {
    let result = s.proposal_result;
    &&& s.hello.valid
    &&& route.seeds@.len() > 0
    &&& route.seeds@[0].trace@.len() > 0
    &&& route.seeds@[0].trace@[0].proposal_batch@.len() > 0
    &&& result.candidates@.len() > 0
    &&& result.checkpoint_cache is Some
    &&& route.seeds@[0].graph_metrics is Some
    &&& plan.budgets.memory_bytes is Bounded
    &&& {
        let seed = route.seeds@[0];
        let trace = seed.trace@[0];
        let proposal = trace.proposal_batch@[0];
        let candidate = result.candidates@[0];
        let cache = result.checkpoint_cache->0;
        let metrics = seed.graph_metrics->0;
        let bound = plan.budgets.memory_bytes->0;
        let leases = s.lease_accounting;
        &&& spec_launch_smoke_route_schema(route.schema@)
        &&& route.optimization_request_sha256.0@ == s.request_content_sha256.0@
        &&& route.execution_binding_sha256.0@ == s.execution_content_sha256.0@
        &&& route.execution_plan_sha256.0@ == s.plan_identity.0@
        &&& route.objective_sha256.0@ == s.request_terminal_definition_sha256.0@
        &&& route.execution_strategy == NativeGenericExecutionStrategy::NativeController
        &&& route.workers == 1
        &&& route.exploration_seeds@.len() == 1
        &&& route.seeds@.len() == 1
        &&& route.total_decisions == 1
        &&& route.useful_decisions == 1
        &&& route.unique_useful_graph_expansions == 1
        &&& route.total_native_ticks != 0
        &&& route.demonstration_transitions == 0
        &&& plan.seeds@.len() == 1
        &&& plan.lanes@.len() == 1
        &&& plan.proposal_width_per_decision == 1
        &&& plan.budgets.decisions_per_lane == 1
        &&& plan.budgets.wall_micros is Bounded
        &&& bound == route.checkpoint_cache_capacity_per_worker_bytes
        &&& trace.result_admission_schema@ == NATIVE_TACTIC_RESULT_ADMISSION_SCHEMA_V1@
        &&& trace.proposal_batch@.len() == 1
        &&& proposal.realized_ticks != 0
        &&& proposal.realized_ticks == candidate.ticks_executed
        &&& proposal.terminal == candidate.success
        &&& result.schema@ == NATIVE_SUFFIX_BATCH_RESULT_SCHEMA_V9@
        &&& result.status@ == "passed"@
        &&& !result.has_error
        &&& result.source_frame == s.request_source_boundary_index
        &&& result.candidate_count == 1
        &&& result.completed_candidates == 1
        &&& result.candidates@.len() == 1
        &&& result.timing_schema@ == SUFFIX_BATCH_TIMING_SCHEMA_V1@
        &&& result.timing_verified
        &&& result.timing_candidate_ticks == candidate.ticks_executed
        &&& result.audio_callback_quiesced
        &&& (result.restore_identity matches Some(id) && id@ == s.initial_restore_identity@)
        &&& cache.capacity_bytes == bound
        &&& cache.capacity_entries != 0
        &&& cache.live_endpoint_capacity_entries != 0
        &&& s.checkpoint_state_graph_sha256.0@ == seed.state_graph_sha256.0@
        &&& metrics.lease_accounting == leases
        &&& leases.proposal_dispatches == 1
        &&& leases.completed_leases == 1
        &&& leases.retryable_leases == 0
        &&& leases.cancelled_leases == 0
        &&& leases.failed_leases == 0
        &&& leases.unresolved_leases == 0
        &&& s.hello.persistent_control
        &&& s.hello.batch_run
        &&& s.hello.compact_batch_run
        &&& !s.hello.dirty
        &&& s.resource_audit_passed
        &&& s.resource_audit_completed_decisions == 1
    }
}

/// Checks a launch smoke run against its contract and derives its summary.
pub fn validate_smoke_sources(
    s: &NativeTacticLaunchSmokeSources,
    plan: &NativeTacticExecutionPlan,
    route: &NativeTacticRouteReport,
) -> (r: Result<NativeTacticLaunchSmokeSummary, NativeTacticRouteRunError>)
    ensures
        r is Ok <==> smoke_contract_holds(*s, *plan, *route),
        r matches Ok(summary) ==> {
            let result = s.proposal_result;
            &&& summary.platform@ == s.hello.platform@
            &&& summary.architecture@ == s.hello.architecture@
            &&& summary.worker_revision@ == s.hello.revision@
            &&& summary.worker_aurora_revision@ == s.hello.aurora_revision@
            &&& summary.clean_build
            &&& summary.executable_sha256 == s.executable_sha256
            &&& summary.game_data_sha256 == s.game_data_sha256
            &&& summary.root_checkpoint_identity@ == s.initial_restore_identity@
            &&& summary.source_boundary_index == s.request_source_boundary_index
            &&& summary.proposal_ticks == result.candidates@[0].ticks_executed
            &&& summary.checkpoint_cache_capacity_bytes == result.checkpoint_cache->0.capacity_bytes
            &&& summary.completed_graph_leases == s.lease_accounting.completed_leases
            &&& summary.unresolved_graph_leases == s.lease_accounting.unresolved_leases
            &&& summary.compact_persistent_control
            &&& summary.resource_audit_passed
        },
{
    if !s.hello.valid {
        return Err(route_message("native tactic launch smoke worker hello is invalid"));
    }
    if route.seeds.len() == 0 {
        return Err(route_message("native tactic launch smoke has no seed"));
    }
    let seed = &route.seeds[0];
    if seed.trace.len() == 0 {
        return Err(route_message("native tactic launch smoke has no decision"));
    }
    let trace = &seed.trace[0];
    if trace.proposal_batch.len() == 0 {
        return Err(route_message("native tactic launch smoke has no proposal"));
    }
    let proposal = trace.proposal_batch[0];
    let result = &s.proposal_result;
    if result.candidates.len() == 0 {
        return Err(route_message("native tactic launch smoke result has no candidate"));
    }
    let candidate = result.candidates[0];
    let cache = match result.checkpoint_cache {
        Some(c) => c,
        None => {
            return Err(route_message("native tactic launch smoke lacks cache telemetry"));
        },
    };
    let metrics = match &seed.graph_metrics {
        Some(m) => m,
        None => {
            return Err(route_message("native tactic launch smoke lacks graph metrics"));
        },
    };
    let leases = s.lease_accounting;
    let bound = match plan.budgets.memory_bytes {
        NativeTacticResourceLimit::Bounded(value) => value,
        NativeTacticResourceLimit::Unbounded => {
            return Err(route_message("native tactic launch smoke requires bounded memory"));
        },
    };
    let wall_bounded = match plan.budgets.wall_micros {
        NativeTacticResourceLimit::Bounded(_) => true,
        NativeTacticResourceLimit::Unbounded => false,
    };
    let restore_matches = match &result.restore_identity {
        Some(id) => text_eq(id.as_str(), s.initial_restore_identity.as_str()),
        None => false,
    };
    let passed = launch_smoke_route_schema_is_supported(route.schema.as_str())
        && route.optimization_request_sha256.same_as(&s.request_content_sha256)
        && route.execution_binding_sha256.same_as(&s.execution_content_sha256)
        && route.execution_plan_sha256.same_as(&s.plan_identity)
        && route.objective_sha256.same_as(&s.request_terminal_definition_sha256)
        && route.execution_strategy == NativeGenericExecutionStrategy::NativeController && route.workers == 1
        && route.exploration_seeds.len() == 1 && route.seeds.len() == 1 && route.total_decisions == 1
        && route.useful_decisions == 1 && route.unique_useful_graph_expansions == 1 && route.total_native_ticks != 0
        && route.demonstration_transitions == 0 && plan.seeds.len() == 1 && plan.lanes.len() == 1
        && plan.proposal_width_per_decision == 1 && plan.budgets.decisions_per_lane == 1 && wall_bounded
        && bound == route.checkpoint_cache_capacity_per_worker_bytes
        && text_eq(trace.result_admission_schema.as_str(), NATIVE_TACTIC_RESULT_ADMISSION_SCHEMA_V1)
        && trace.proposal_batch.len() == 1 && proposal.realized_ticks != 0
        && proposal.realized_ticks as u64 == candidate.ticks_executed && proposal.terminal == candidate.success
        && text_eq(result.schema.as_str(), NATIVE_SUFFIX_BATCH_RESULT_SCHEMA_V9)
        && text_eq(result.status.as_str(), "passed") && !result.has_error
        && result.source_frame == s.request_source_boundary_index && result.candidate_count == 1
        && result.completed_candidates == 1 && result.candidates.len() == 1
        && text_eq(result.timing_schema.as_str(), SUFFIX_BATCH_TIMING_SCHEMA_V1) && result.timing_verified
        && result.timing_candidate_ticks == candidate.ticks_executed && result.audio_callback_quiesced
        && restore_matches && cache.capacity_bytes == bound && cache.capacity_entries != 0
        && cache.live_endpoint_capacity_entries != 0
        && s.checkpoint_state_graph_sha256.same_as(&seed.state_graph_sha256) && metrics.lease_accounting == leases
        && leases.proposal_dispatches == 1 && leases.completed_leases == 1 && leases.retryable_leases == 0
        && leases.cancelled_leases == 0 && leases.failed_leases == 0 && leases.unresolved_leases == 0
        && s.hello.persistent_control && s.hello.batch_run && s.hello.compact_batch_run && !s.hello.dirty
        && s.resource_audit_passed && s.resource_audit_completed_decisions == 1;
    if !passed {
        return Err(route_message("native tactic launch smoke contract did not pass"));
    }
    Ok(NativeTacticLaunchSmokeSummary {
        platform: s.hello.platform.clone(),
        architecture: s.hello.architecture.clone(),
        worker_revision: s.hello.revision.clone(),
        worker_aurora_revision: s.hello.aurora_revision.clone(),
        clean_build: true,
        executable_sha256: s.executable_sha256,
        game_data_sha256: s.game_data_sha256,
        root_checkpoint_identity: s.initial_restore_identity.clone(),
        source_boundary_index: s.request_source_boundary_index,
        proposal_ticks: candidate.ticks_executed,
        checkpoint_cache_capacity_bytes: cache.capacity_bytes,
        completed_graph_leases: leases.completed_leases,
        unresolved_graph_leases: leases.unresolved_leases,
        compact_persistent_control: true,
        resource_audit_passed: true,
    })
}

} // verus!
