//! The audit that compares a campaign recovered from an injected process
//! loss with its uninterrupted control run.

use crate::bytes::{append_bytes, push_u64_le};
use crate::digest::{digest_bytes, sha256_of, Digest};
use crate::error::{route_message, NativeTacticRouteRunError};
use crate::fault::{expected_retryable_dispatches, NativeTacticFaultInjectionMarker};
use crate::semantic_trace::{same_semantic_trace, semantic_traces_agree};
use crate::report::{
    learner_authority_equal, optional_digest_equal, same_learner_authority, same_optional_digest, u64s_equal,
    NativeTacticDecisionTrace, NativeTacticGraphShape, NativeTacticRouteReport, NativeTacticSeedResult,
    NATIVE_TACTIC_ROUTE_REPORT_SCHEMA_V38,
};
use crate::text::text_eq;
use vstd::bytes::spec_u64_to_le_bytes;
use vstd::prelude::*;

verus! {

pub const NATIVE_TACTIC_FAULT_RECOVERY_AUDIT_SCHEMA_V1: &'static str = "dusklight-native-tactic-fault-recovery-audit/v1";
pub const NATIVE_TACTIC_FAULT_RECOVERY_AUDIT_SCHEMA_V2: &'static str = "dusklight-native-tactic-fault-recovery-audit/v2";

/// The comparison of the one seed of a control and a recovered campaign.
#[derive(Clone, Debug)]
pub struct NativeTacticFaultRecoverySeedAudit {
    pub seed: u64,
    pub control_semantic_trace_sha256: Digest,
    pub recovered_semantic_trace_sha256: Digest,
    pub semantic_trace_equal: bool,
    pub useful_expansion_set_equal: bool,
    pub state_graph_equal: bool,
    pub graph_shape_equal: bool,
    pub replay_shape_equal: bool,
    pub terminal_result_equal: bool,
    pub expected_retryable_dispatches: u64,
    pub observed_retryable_dispatches: u64,
    pub lease_accounting_exact: bool,
    pub unresolved_leases: u64,
    pub passed: bool,
}

/// The sealed verdict on one recovered campaign.
#[derive(Clone, Debug)]
pub struct NativeTacticFaultRecoveryAudit {
    pub schema: String,
    pub content_sha256: Digest,
    pub control_report_sha256: Digest,
    pub recovered_report_sha256: Digest,
    pub execution_plan_sha256: Digest,
    pub platform_os: String,
    pub platform_arch: String,
    pub marker: NativeTacticFaultInjectionMarker,
    pub campaign_identity_equal: bool,
    pub replay_snapshot_equal: bool,
    pub learner_authority_equal: bool,
    pub seed: NativeTacticFaultRecoverySeedAudit,
    pub passed: bool,
}

/// What a valid audit asserts, apart from its content seal. A legacy (v1)
/// audit predates the exact state-graph, replay and learner authorities.
pub open spec fn audit_conditions_hold(a: NativeTacticFaultRecoveryAudit) -> bool {
    let legacy = a.schema@ == NATIVE_TACTIC_FAULT_RECOVERY_AUDIT_SCHEMA_V1@;
    let current = a.schema@ == NATIVE_TACTIC_FAULT_RECOVERY_AUDIT_SCHEMA_V2@;
    &&& a.marker.spec_valid()
    &&& legacy || current
    &&& !a.content_sha256.spec_is_zero()
    &&& !a.control_report_sha256.spec_is_zero()
    &&& !a.recovered_report_sha256.spec_is_zero()
    &&& a.execution_plan_sha256.0@ == a.marker.execution_plan_sha256.0@
    &&& a.marker.seed == a.seed.seed
    &&& a.seed.semantic_trace_equal
    &&& a.seed.useful_expansion_set_equal
    &&& a.seed.graph_shape_equal
    &&& a.seed.replay_shape_equal
    &&& a.seed.terminal_result_equal
    &&& a.seed.expected_retryable_dispatches == a.seed.observed_retryable_dispatches
    &&& a.seed.lease_accounting_exact
    &&& a.seed.unresolved_leases == 0
    &&& a.seed.passed
    &&& a.campaign_identity_equal
    &&& legacy || (a.seed.state_graph_equal && a.replay_snapshot_equal && a.learner_authority_equal)
    &&& a.passed
}

impl NativeTacticFaultRecoveryAudit {
    /// Validates the audit against `unsigned_encoding`, the canonical
    /// encoding of this audit with its content digest zeroed (for a v1
    /// audit, of its legacy field set): the content digest must be the
    /// SHA-256 of that encoding, and every recovery condition must hold.
    pub fn validate(&self, unsigned_encoding: &[u8]) -> (r: Result<(), NativeTacticRouteRunError>)
        ensures
            r is Ok <==> (audit_conditions_hold(*self) && self.content_sha256.0@ == sha256_of(unsigned_encoding@)),
    {
        match self.marker.validate() {
            Ok(()) => {},
            Err(e) => {
                return Err(e);
            },
        }
        let legacy = text_eq(self.schema.as_str(), NATIVE_TACTIC_FAULT_RECOVERY_AUDIT_SCHEMA_V1);
        let current = text_eq(self.schema.as_str(), NATIVE_TACTIC_FAULT_RECOVERY_AUDIT_SCHEMA_V2);
        let seed = &self.seed;
        let exact_authorities = seed.state_graph_equal && self.replay_snapshot_equal && self.learner_authority_equal;
        let conditions = (legacy || current) && !self.content_sha256.is_zero()
            && !self.control_report_sha256.is_zero() && !self.recovered_report_sha256.is_zero()
            && self.execution_plan_sha256.same_as(&self.marker.execution_plan_sha256)
            && self.marker.seed == seed.seed && seed.semantic_trace_equal && seed.useful_expansion_set_equal
            && seed.graph_shape_equal && seed.replay_shape_equal && seed.terminal_result_equal
            && seed.expected_retryable_dispatches == seed.observed_retryable_dispatches
            && seed.lease_accounting_exact && seed.unresolved_leases == 0 && seed.passed
            && self.campaign_identity_equal && (legacy || exact_authorities) && self.passed;
        let sealed = digest_bytes(unsigned_encoding);
        if !conditions || !self.content_sha256.same_as(&sealed) {
            return Err(route_message("native tactic fault-recovery audit is invalid"));
        }
        Ok(())
    }
}

/// Seals `audit` with the SHA-256 of `unsigned_encoding` and validates it:
/// the sealed audit is returned exactly when its recovery conditions hold.
pub fn seal_fault_recovery_audit(audit: NativeTacticFaultRecoveryAudit, unsigned_encoding: &[u8]) -> (r: Result<
    NativeTacticFaultRecoveryAudit,
    NativeTacticRouteRunError,
>)
    ensures
        r matches Ok(sealed) ==> {
            &&& sealed.content_sha256.0@ == sha256_of(unsigned_encoding@)
            &&& sealed == (NativeTacticFaultRecoveryAudit { content_sha256: sealed.content_sha256, ..audit })
            &&& audit_conditions_hold(sealed)
        },
        r is Err ==> forall|d: Digest|
            d.0@ == sha256_of(unsigned_encoding@) ==> !#[trigger] audit_conditions_hold(
                NativeTacticFaultRecoveryAudit { content_sha256: d, ..audit },
            ),
{
    let mut sealed = audit;
    sealed.content_sha256 = digest_bytes(unsigned_encoding);
    match sealed.validate(unsigned_encoding) {
        Ok(()) => Ok(sealed),
        Err(e) => {
            proof {
                assert forall|d: Digest| d.0@ == sha256_of(unsigned_encoding@) implies !#[trigger] audit_conditions_hold(
                    NativeTacticFaultRecoveryAudit { content_sha256: d, ..audit },
                ) by {
                    let other = NativeTacticFaultRecoveryAudit { content_sha256: d, ..audit };
                    assert(other.content_sha256.spec_is_zero() == sealed.content_sha256.spec_is_zero());
                }
            }
            Err(e)
        },
    }
}

pub open spec fn graph_shapes_equal(a: NativeTacticGraphShape, b: NativeTacticGraphShape) -> bool {
    &&& a.nodes == b.nodes
    &&& a.observed_segments == b.observed_segments
    &&& a.untried_expansions == b.untried_expansions
    &&& a.leased_expansions == b.leased_expansions
    &&& a.retryable_expansions == b.retryable_expansions
    &&& a.completed_expansions == b.completed_expansions
    &&& a.failed_validation_expansions == b.failed_validation_expansions
    &&& same_optional_digest(a.best_terminal, b.best_terminal)
}

fn graph_shape_equal(a: &NativeTacticGraphShape, b: &NativeTacticGraphShape) -> (r: bool)
    ensures
        r == graph_shapes_equal(*a, *b),
{
    a.nodes == b.nodes && a.observed_segments == b.observed_segments && a.untried_expansions == b.untried_expansions
        && a.leased_expansions == b.leased_expansions && a.retryable_expansions == b.retryable_expansions
        && a.completed_expansions == b.completed_expansions
        && a.failed_validation_expansions == b.failed_validation_expansions
        && optional_digest_equal(&a.best_terminal, &b.best_terminal)
}

/// Both seeds replayed the same decisions, episodes, ticks and training rows.
pub open spec fn replay_shapes_equal(a: NativeTacticSeedResult, b: NativeTacticSeedResult) -> bool {
    &&& a.decisions == b.decisions
    &&& a.episodes == b.episodes
    &&& a.native_ticks == b.native_ticks
    &&& a.training_replay_rows == b.training_replay_rows
    &&& a.imported_training_replay_rows == b.imported_training_replay_rows
    &&& a.duplicate_training_transitions == b.duplicate_training_transitions
    &&& a.censored_training_transitions == b.censored_training_transitions
}

/// Both seeds reached the same terminal result.
pub open spec fn terminal_results_equal(a: NativeTacticSeedResult, b: NativeTacticSeedResult) -> bool {
    &&& a.terminal_discovered == b.terminal_discovered
    &&& a.best_authenticated_tick == b.best_authenticated_tick
    &&& same_optional_digest(a.best_terminal_state_sha256, b.best_terminal_state_sha256)
    &&& same_optional_digest(a.best_terminal_route_checkpoint_sha256, b.best_terminal_route_checkpoint_sha256)
}

/// Both campaigns ran the same request, binding, plan and treatment.
pub open spec fn campaign_identities_equal(c: NativeTacticRouteReport, r: NativeTacticRouteReport) -> bool {
    &&& c.optimization_request_sha256.0@ == r.optimization_request_sha256.0@
    &&& c.execution_binding_sha256.0@ == r.execution_binding_sha256.0@
    &&& c.execution_plan_sha256.0@ == r.execution_plan_sha256.0@
    &&& c.objective_sha256.0@ == r.objective_sha256.0@
    &&& c.feature_schema_sha256.0@ == r.feature_schema_sha256.0@
    &&& c.action_schema_sha256.0@ == r.action_schema_sha256.0@
    &&& c.exploration_seeds@ == r.exploration_seeds@
    &&& c.proposal_policy == r.proposal_policy
    &&& c.value_treatment == r.value_treatment
    &&& c.execution_strategy == r.execution_strategy
    &&& c.resource_budgets == r.resource_budgets
}

/// The proposal count of the first decision of `trace`, from `i` on, whose
/// index is `decision_index`.
pub open spec fn proposal_count_from(trace: Seq<NativeTacticDecisionTrace>, decision_index: u64, i: int) -> Option<u64>
    decreases trace.len() - i,
{
    if i < 0 || i >= trace.len() {
        None
    } else if trace[i].decision_index == decision_index {
        Some(trace[i].proposal_batch@.len() as u64)
    } else {
        proposal_count_from(trace, decision_index, i + 1)
    }
}

fn proposal_count_of(trace: &Vec<NativeTacticDecisionTrace>, decision_index: u64) -> (r: Option<u64>)
    ensures
        r == proposal_count_from(trace@, decision_index, 0),
{
    let mut i: usize = 0;
    while i < trace.len()
        invariant
            i <= trace@.len(),
            proposal_count_from(trace@, decision_index, 0) == proposal_count_from(trace@, decision_index, i as int),
        decreases trace@.len() - i,
    {
        if trace[i].decision_index == decision_index {
            return Some(trace[i].proposal_batch.len() as u64);
        }
        i = i + 1;
    }
    None
}

/// The reports of a control and a recovered campaign can be compared for
/// the fault `marker`: both are single-seed v38 reports of the marker's
/// seed and plan, both carry graph metrics, and the control trace holds the
/// faulted decision.
pub open spec fn recovery_reports_comparable(
    control: NativeTacticRouteReport,
    recovered: NativeTacticRouteReport,
    marker: NativeTacticFaultInjectionMarker,
) -> bool {
    &&& control.schema@ == NATIVE_TACTIC_ROUTE_REPORT_SCHEMA_V38@
    &&& recovered.schema@ == NATIVE_TACTIC_ROUTE_REPORT_SCHEMA_V38@
    &&& control.seeds@.len() == 1
    &&& recovered.seeds@.len() == 1
    &&& control.seeds@[0].seed == marker.seed
    &&& recovered.seeds@[0].seed == marker.seed
    &&& marker.execution_plan_sha256.0@ == recovered.execution_plan_sha256.0@
    &&& control.seeds@[0].graph_metrics is Some
    &&& recovered.seeds@[0].graph_metrics is Some
    &&& proposal_count_from(control.seeds@[0].trace@, marker.decision_index, 0) is Some
}

/// The recovered run retried exactly the expected leases and otherwise
/// settled its leases as the control run did.
pub open spec fn leases_exact(
    control: crate::report::NativeTacticLeaseAccounting,
    recovered: crate::report::NativeTacticLeaseAccounting,
    expected: u64,
) -> bool {
    &&& recovered.proposal_dispatches == control.proposal_dispatches.saturating_add(expected)
    &&& recovered.completed_leases == control.completed_leases
    &&& recovered.retryable_leases == control.retryable_leases.saturating_add(expected)
    &&& recovered.cancelled_leases == control.cancelled_leases
    &&& recovered.failed_leases == control.failed_leases
    &&& recovered.unresolved_leases == 0
}

/// The seed audit of two comparable reports.
pub open spec fn spec_seed_audit(
    control: NativeTacticRouteReport,
    recovered: NativeTacticRouteReport,
    control_trace_sha256: Digest,
    recovered_trace_sha256: Digest,
    marker: NativeTacticFaultInjectionMarker,
) -> NativeTacticFaultRecoverySeedAudit {
    let c = control.seeds@[0];
    let r = recovered.seeds@[0];
    let cm = c.graph_metrics->0;
    let rm = r.graph_metrics->0;
    let expected = expected_retryable_dispatches_spec(
        marker,
        proposal_count_from(c.trace@, marker.decision_index, 0)->0,
    );
    let semantic = same_semantic_trace(c.trace@, r.trace@);
    let useful = c.useful_graph_expansion_set_sha256.0@ == r.useful_graph_expansion_set_sha256.0@;
    let state_graph = c.state_graph_sha256.0@ == r.state_graph_sha256.0@;
    let graph = graph_shapes_equal(cm.graph, rm.graph);
    let replay = replay_shapes_equal(c, r);
    let terminal = terminal_results_equal(c, r);
    let leases = leases_exact(cm.lease_accounting, rm.lease_accounting, expected);
    NativeTacticFaultRecoverySeedAudit {
        seed: c.seed,
        control_semantic_trace_sha256: control_trace_sha256,
        recovered_semantic_trace_sha256: recovered_trace_sha256,
        semantic_trace_equal: semantic,
        useful_expansion_set_equal: useful,
        state_graph_equal: state_graph,
        graph_shape_equal: graph,
        replay_shape_equal: replay,
        terminal_result_equal: terminal,
        expected_retryable_dispatches: expected,
        observed_retryable_dispatches: rm.lease_accounting.retryable_leases.saturating_sub(
            cm.lease_accounting.retryable_leases,
        ),
        lease_accounting_exact: leases,
        unresolved_leases: rm.lease_accounting.unresolved_leases,
        passed: semantic && useful && state_graph && graph && replay && terminal && leases,
    }
}

pub open spec fn expected_retryable_dispatches_spec(marker: NativeTacticFaultInjectionMarker, proposal_count: u64) -> u64 {
    if marker.point is AfterDecisionCommit { 0 } else { proposal_count }
}

/// Compares a control and a recovered campaign for the fault `marker`. The
/// report bytes are hashed as read. The two seeds' traces are compared by
/// their semantics (`same_semantic_trace`: every field but wall time,
/// worker placement, restore source, frontier restorability and the
/// scheduler's seals); the recorded semantic trace identities are those of
/// `control_semantic_encoding` and `recovered_semantic_encoding`, the
/// canonical encodings of the two seeds' `semantic_trace`. The audit is
/// returned unsealed: its content digest is zero until
/// `seal_fault_recovery_audit` seals it.
pub fn build_native_tactic_fault_recovery_audit(
    control_bytes: &[u8],
    recovered_bytes: &[u8],
    control: &NativeTacticRouteReport,
    recovered: &NativeTacticRouteReport,
    control_semantic_encoding: &[u8],
    recovered_semantic_encoding: &[u8],
    marker: NativeTacticFaultInjectionMarker,
    platform_os: String,
    platform_arch: String,
) -> (r: Result<NativeTacticFaultRecoveryAudit, NativeTacticRouteRunError>)
    ensures
        r is Ok <==> recovery_reports_comparable(*control, *recovered, marker),
        r matches Ok(a) ==> {
            let replay_snapshot = control.replay_revision == recovered.replay_revision
                && control.replay_snapshot_sha256.0@ == recovered.replay_snapshot_sha256.0@;
            let learner = same_learner_authority(control.learner_authority, recovered.learner_authority);
            let identity = campaign_identities_equal(*control, *recovered);
            let seed = spec_seed_audit(
                *control,
                *recovered,
                a.seed.control_semantic_trace_sha256,
                a.seed.recovered_semantic_trace_sha256,
                marker,
            );
            &&& a.schema@ == NATIVE_TACTIC_FAULT_RECOVERY_AUDIT_SCHEMA_V2@
            &&& a.content_sha256.spec_is_zero()
            &&& a.control_report_sha256.0@ == sha256_of(control_bytes@)
            &&& a.recovered_report_sha256.0@ == sha256_of(recovered_bytes@)
            &&& a.execution_plan_sha256 == control.execution_plan_sha256
            &&& a.platform_os == platform_os
            &&& a.platform_arch == platform_arch
            &&& a.marker == marker
            &&& a.campaign_identity_equal == identity
            &&& a.replay_snapshot_equal == replay_snapshot
            &&& a.learner_authority_equal == learner
            &&& a.seed.control_semantic_trace_sha256.0@ == sha256_of(semantic_trace_bytes(control_semantic_encoding@))
            &&& a.seed.recovered_semantic_trace_sha256.0@ == sha256_of(
                semantic_trace_bytes(recovered_semantic_encoding@),
            )
            &&& a.seed == seed
            &&& a.passed == (identity && replay_snapshot && learner && seed.passed)
        },
{
    if !text_eq(control.schema.as_str(), NATIVE_TACTIC_ROUTE_REPORT_SCHEMA_V38)
        || !text_eq(recovered.schema.as_str(), NATIVE_TACTIC_ROUTE_REPORT_SCHEMA_V38) || control.seeds.len() != 1
        || recovered.seeds.len() != 1
    {
        return Err(route_message("fault recovery requires matched single-seed v37 native tactic reports"));
    }
    let c = &control.seeds[0];
    let r = &recovered.seeds[0];
    if c.seed != marker.seed || r.seed != marker.seed
        || !marker.execution_plan_sha256.same_as(&recovered.execution_plan_sha256)
    {
        return Err(route_message("native tactic fault marker is detached from its matched reports"));
    }
    let semantic_trace_equal = semantic_traces_agree(&c.trace, &r.trace);
    let control_semantic_trace_sha256 = semantic_trace_identity(control_semantic_encoding);
    let recovered_semantic_trace_sha256 = semantic_trace_identity(recovered_semantic_encoding);
    let useful_expansion_set_equal = c.useful_graph_expansion_set_sha256.same_as(
        &r.useful_graph_expansion_set_sha256,
    );
    let state_graph_equal = c.state_graph_sha256.same_as(&r.state_graph_sha256);
    let cm = match &c.graph_metrics {
        Some(m) => m,
        None => {
            return Err(route_message("control report lacks graph metrics"));
        },
    };
    let rm = match &r.graph_metrics {
        Some(m) => m,
        None => {
            return Err(route_message("recovered report lacks graph metrics"));
        },
    };
    let graph_shape_equal = graph_shape_equal(&cm.graph, &rm.graph);
    let replay_shape_equal = c.decisions == r.decisions && c.episodes == r.episodes && c.native_ticks
        == r.native_ticks && c.training_replay_rows == r.training_replay_rows
        && c.imported_training_replay_rows == r.imported_training_replay_rows
        && c.duplicate_training_transitions == r.duplicate_training_transitions
        && c.censored_training_transitions == r.censored_training_transitions;
    let terminal_result_equal = c.terminal_discovered == r.terminal_discovered && c.best_authenticated_tick
        == r.best_authenticated_tick && optional_digest_equal(
        &c.best_terminal_state_sha256,
        &r.best_terminal_state_sha256,
    ) && optional_digest_equal(&c.best_terminal_route_checkpoint_sha256, &r.best_terminal_route_checkpoint_sha256);
    let proposal_count = match proposal_count_of(&c.trace, marker.decision_index) {
        Some(count) => count,
        None => {
            return Err(route_message("fault decision is absent from the control trace"));
        },
    };
    let expected = expected_retryable_dispatches(marker.point, proposal_count);
    let cl = cm.lease_accounting;
    let rl = rm.lease_accounting;
    let observed = rl.retryable_leases.saturating_sub(cl.retryable_leases);
    let lease_accounting_exact = rl.proposal_dispatches == cl.proposal_dispatches.saturating_add(expected)
        && rl.completed_leases == cl.completed_leases && rl.retryable_leases == cl.retryable_leases.saturating_add(
        expected,
    ) && rl.cancelled_leases == cl.cancelled_leases && rl.failed_leases == cl.failed_leases
        && rl.unresolved_leases == 0;
    let seed_passed = semantic_trace_equal && useful_expansion_set_equal && state_graph_equal && graph_shape_equal
        && replay_shape_equal && terminal_result_equal && lease_accounting_exact;
    let replay_snapshot_equal = control.replay_revision == recovered.replay_revision
        && control.replay_snapshot_sha256.same_as(&recovered.replay_snapshot_sha256);
    let learner_authority_equal = learner_authority_equal(&control.learner_authority, &recovered.learner_authority);
    let campaign_identity_equal = control.optimization_request_sha256.same_as(&recovered.optimization_request_sha256)
        && control.execution_binding_sha256.same_as(&recovered.execution_binding_sha256)
        && control.execution_plan_sha256.same_as(&recovered.execution_plan_sha256)
        && control.objective_sha256.same_as(&recovered.objective_sha256)
        && control.feature_schema_sha256.same_as(&recovered.feature_schema_sha256)
        && control.action_schema_sha256.same_as(&recovered.action_schema_sha256)
        && u64s_equal(control.exploration_seeds.as_slice(), recovered.exploration_seeds.as_slice())
        && control.proposal_policy == recovered.proposal_policy
        && control.value_treatment == recovered.value_treatment
        && control.execution_strategy == recovered.execution_strategy
        && control.resource_budgets == recovered.resource_budgets;
    let seed = NativeTacticFaultRecoverySeedAudit {
        seed: c.seed,
        control_semantic_trace_sha256,
        recovered_semantic_trace_sha256,
        semantic_trace_equal,
        useful_expansion_set_equal,
        state_graph_equal,
        graph_shape_equal,
        replay_shape_equal,
        terminal_result_equal,
        expected_retryable_dispatches: expected,
        observed_retryable_dispatches: observed,
        lease_accounting_exact,
        unresolved_leases: rl.unresolved_leases,
        passed: seed_passed,
    };
    let audit = NativeTacticFaultRecoveryAudit {
        schema: NATIVE_TACTIC_FAULT_RECOVERY_AUDIT_SCHEMA_V2.to_owned(),
        content_sha256: Digest::zero(),
        control_report_sha256: digest_bytes(control_bytes),
        recovered_report_sha256: digest_bytes(recovered_bytes),
        execution_plan_sha256: control.execution_plan_sha256,
        platform_os,
        platform_arch,
        marker,
        campaign_identity_equal,
        replay_snapshot_equal,
        learner_authority_equal,
        seed,
        passed: campaign_identity_equal && replay_snapshot_equal && learner_authority_equal && seed_passed,
    };
    Ok(audit)
}

/// The domain prefix of a semantic trace identity.
pub open spec fn semantic_trace_domain() -> Seq<u8> {
    seq![0x64u8, 0x75u8, 0x73u8, 0x6bu8, 0x6cu8, 0x69u8, 0x67u8, 0x68u8, 0x74u8, 0x2fu8, 0x6eu8, 0x61u8, 0x74u8, 0x69u8, 0x76u8, 0x65u8, 0x2du8, 0x74u8, 0x61u8, 0x63u8, 0x74u8, 0x69u8, 0x63u8, 0x2fu8, 0x72u8, 0x65u8, 0x63u8, 0x6fu8, 0x76u8, 0x65u8, 0x72u8, 0x65u8, 0x64u8, 0x2du8, 0x73u8, 0x65u8, 0x6du8, 0x61u8, 0x6eu8, 0x74u8, 0x69u8, 0x63u8, 0x2du8, 0x74u8, 0x72u8, 0x61u8, 0x63u8, 0x65u8, 0x2fu8, 0x76u8, 0x32u8]
}

/// The bytes a semantic trace identity is the SHA-256 of: the domain, then
/// the canonical encoding of the trace without its physical and
/// run-specific fields, length-prefixed.
pub open spec fn semantic_trace_bytes(semantic_encoding: Seq<u8>) -> Seq<u8> {
    semantic_trace_domain() + spec_u64_to_le_bytes(semantic_encoding.len() as u64) + semantic_encoding
}

/// The identity of a decision trace's semantics, given the canonical
/// encoding of its `semantic_trace`.
pub fn semantic_trace_identity(semantic_encoding: &[u8]) -> (d: Digest)
    ensures
        d.0@ == sha256_of(semantic_trace_bytes(semantic_encoding@)),
{
    let mut bytes: Vec<u8> = vec![0x64u8, 0x75u8, 0x73u8, 0x6bu8, 0x6cu8, 0x69u8, 0x67u8, 0x68u8, 0x74u8, 0x2fu8, 0x6eu8, 0x61u8, 0x74u8, 0x69u8, 0x76u8, 0x65u8, 0x2du8, 0x74u8, 0x61u8, 0x63u8, 0x74u8, 0x69u8, 0x63u8, 0x2fu8, 0x72u8, 0x65u8, 0x63u8, 0x6fu8, 0x76u8, 0x65u8, 0x72u8, 0x65u8, 0x64u8, 0x2du8, 0x73u8, 0x65u8, 0x6du8, 0x61u8, 0x6eu8, 0x74u8, 0x69u8, 0x63u8, 0x2du8, 0x74u8, 0x72u8, 0x61u8, 0x63u8, 0x65u8, 0x2fu8, 0x76u8, 0x32u8];
    assert(bytes@ =~= semantic_trace_domain());
    push_u64_le(&mut bytes, semantic_encoding.len() as u64);
    append_bytes(&mut bytes, semantic_encoding);
    assert(bytes@ =~= semantic_trace_bytes(semantic_encoding@));
    digest_bytes(bytes.as_slice())
}

} // verus!
