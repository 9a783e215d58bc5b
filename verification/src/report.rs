//! The route report as the campaign logic reads it: per-seed results,
//! decision traces, graph and lease accounting, and the campaign-level
//! identities and counters that summaries and audits are built from.

use crate::digest::Digest;
use crate::execution_plan::{
    NativeGenericExecutionStrategy, NativeTacticPlanBudgets, TacticProposalPolicy, TacticValueTreatment,
};
use crate::probe::NativeTacticPolicyUpdateProbe;
use crate::text::text_eq;
use crate::timing::NativeTacticRouteTiming;
use vstd::prelude::*;

verus! {

pub const NATIVE_TACTIC_ROUTE_REPORT_SCHEMA_V32: &'static str = "dusklight-native-tactic-route-report/v32";
pub const NATIVE_TACTIC_ROUTE_REPORT_SCHEMA_V33: &'static str = "dusklight-native-tactic-route-report/v33";
pub const NATIVE_TACTIC_ROUTE_REPORT_SCHEMA_V34: &'static str = "dusklight-native-tactic-route-report/v34";
pub const NATIVE_TACTIC_ROUTE_REPORT_SCHEMA_V35: &'static str = "dusklight-native-tactic-route-report/v35";
pub const NATIVE_TACTIC_ROUTE_REPORT_SCHEMA_V36: &'static str = "dusklight-native-tactic-route-report/v36";
pub const NATIVE_TACTIC_ROUTE_REPORT_SCHEMA_V37: &'static str = "dusklight-native-tactic-route-report/v37";
pub const NATIVE_TACTIC_ROUTE_REPORT_SCHEMA_V38: &'static str = "dusklight-native-tactic-route-report/v38";
pub const NATIVE_TACTIC_ROUTE_REPORT_SCHEMA_V39: &'static str = "dusklight-native-tactic-route-report/v39";
pub const NATIVE_TACTIC_ROUTE_REPORT_SCHEMA_V40: &'static str = "dusklight-native-tactic-route-report/v40";
pub const NATIVE_TACTIC_ROUTE_REPORT_SCHEMA_V41: &'static str = "dusklight-native-tactic-route-report/v41";
pub const NATIVE_TACTIC_ROUTE_REPORT_SCHEMA_V42: &'static str = "dusklight-native-tactic-route-report/v42";
pub const NATIVE_TACTIC_ROUTE_REPORT_SCHEMA_V43: &'static str = "dusklight-native-tactic-route-report/v43";
pub const NATIVE_TACTIC_ROUTE_REPORT_SCHEMA_V44: &'static str = "dusklight-native-tactic-route-report/v44";
pub const NATIVE_TACTIC_ROUTE_REPORT_SCHEMA_V45: &'static str = "dusklight-native-tactic-route-report/v45";

/// The route-report schemas whose decisions carry calibration authority.
pub open spec fn spec_current_route_report_schema(schema: Seq<char>) -> bool {
    ||| schema == NATIVE_TACTIC_ROUTE_REPORT_SCHEMA_V39@
    ||| schema == NATIVE_TACTIC_ROUTE_REPORT_SCHEMA_V40@
    ||| schema == NATIVE_TACTIC_ROUTE_REPORT_SCHEMA_V41@
    ||| schema == NATIVE_TACTIC_ROUTE_REPORT_SCHEMA_V42@
    ||| schema == NATIVE_TACTIC_ROUTE_REPORT_SCHEMA_V43@
    ||| schema == NATIVE_TACTIC_ROUTE_REPORT_SCHEMA_V44@
    ||| schema == NATIVE_TACTIC_ROUTE_REPORT_SCHEMA_V45@
}

/// Whether `schema` is one of the current route-report schemas (v39 to v45).
pub fn supports_current_route_report_schema(schema: &str) -> (r: bool)
    ensures
        r == spec_current_route_report_schema(schema@),
{
    text_eq(schema, NATIVE_TACTIC_ROUTE_REPORT_SCHEMA_V39) || text_eq(schema, NATIVE_TACTIC_ROUTE_REPORT_SCHEMA_V40)
        || text_eq(schema, NATIVE_TACTIC_ROUTE_REPORT_SCHEMA_V41) || text_eq(schema, NATIVE_TACTIC_ROUTE_REPORT_SCHEMA_V42)
        || text_eq(schema, NATIVE_TACTIC_ROUTE_REPORT_SCHEMA_V43) || text_eq(schema, NATIVE_TACTIC_ROUTE_REPORT_SCHEMA_V44)
        || text_eq(schema, NATIVE_TACTIC_ROUTE_REPORT_SCHEMA_V45)
}

/// Why a tactic was chosen at a decision.
#[derive(Clone, Copy, Debug, PartialEq, Eq, Structural)]
pub enum TacticSelectionReason {
    Greedy,
    GoalReachability,
    UnsupportedBootstrap,
}

/// Why a seed stopped.
#[derive(Clone, Copy, Debug, PartialEq, Eq, Structural)]
pub enum NativeTacticSeedStopReason {
    DecisionBudgetReached,
    SimulatedTickBudgetReached,
    NativeTickBudgetReached,
    WallBudgetReached,
}

/// Leases of one seed, by how they ended.
#[derive(Clone, Copy, Debug, PartialEq, Eq, Structural)]
pub struct NativeTacticLeaseAccounting {
    pub proposal_dispatches: u64,
    pub completed_leases: u64,
    pub retryable_leases: u64,
    pub cancelled_leases: u64,
    pub failed_leases: u64,
    pub unresolved_leases: u64,
}

/// The shape of a seed's decision graph.
#[derive(Clone, Copy, Debug)]
pub struct NativeTacticGraphShape {
    pub nodes: u64,
    pub observed_segments: u64,
    pub untried_expansions: u64,
    pub leased_expansions: u64,
    pub retryable_expansions: u64,
    pub completed_expansions: u64,
    pub failed_validation_expansions: u64,
    pub best_terminal: Option<Digest>,
}

/// Graph and lease metrics of one seed.
#[derive(Clone, Copy, Debug)]
pub struct NativeTacticSeedGraphMetrics {
    pub graph: NativeTacticGraphShape,
    pub lease_accounting: NativeTacticLeaseAccounting,
}

/// Goal-reachability calibration at a decision. The rates are held in
/// millionths, rounded to the nearest integer.
#[derive(Clone, Copy, Debug, PartialEq, Eq, Structural)]
pub struct NativeTacticReachabilityCalibration {
    pub deployment_ready: bool,
    pub source_transitions: u64,
    pub source_state_groups: u64,
    pub comparable_state_groups: u64,
    pub evaluated_action_predictions: u64,
    pub ranking_wins: u64,
    pub ranking_win_rate_millionths: Option<u64>,
    pub chance_win_rate_millionths: Option<u64>,
    pub wilson_lower_bound_millionths: Option<u64>,
    pub mean_observed_regret_millionths: Option<u64>,
    pub mean_absolute_progress_error_millionths: Option<u64>,
    pub progress_sign_accuracy_millionths: Option<u64>,
}

/// What the frontier acquisition knew at a branch.
#[derive(Clone, Copy, Debug, PartialEq, Eq, Structural)]
pub struct NativeTacticBranchAcquisition {
    pub goal_reachability_evidence_available: bool,
    pub goal_reachability_supported: bool,
}

/// One action of a decision's legal action surface.
#[derive(Clone, Debug)]
pub struct NativeTacticApplicableAction {
    pub option_id: String,
    pub applicable: bool,
    pub has_descriptor: bool,
    pub selected: bool,
}

/// One natively executed proposal of a decision.
#[derive(Clone, Copy, Debug, PartialEq, Eq, Structural)]
pub struct NativeTacticProposalTrace {
    pub realized_ticks: u32,
    pub terminal: bool,
    pub retained: bool,
    pub has_predicted_goal_progress: bool,
    pub selection_reason: TacticSelectionReason,
}

/// Where a decision's native checkpoint was restored from.
#[derive(Clone, Copy, Debug, PartialEq, Eq, Structural)]
pub enum NativeTacticRestoreSource {
    ProcessLocalCheckpoint,
    AuthenticatedRootReplay,
    AuthenticatedRoot,
}

/// The frontier scheduler's choice at a decision: the expansion it
/// selected under a learner model, sealed with the digests of the graph,
/// the queue and the decision as this run held them.
#[derive(Clone, Debug)]
pub struct NativeTacticSchedulerDecision {
    pub graph_sha256: Digest,
    pub queue_sha256: Digest,
    pub decision_sha256: Digest,
    pub learner_model_sha256: Digest,
    pub selected_expansion: String,
}

/// One decision of a seed. Its wall time, worker placement, restore source,
/// frontier restorability and the scheduler's run-specific seals are
/// physical: they describe how this run executed the decision, not what
/// it decided.
#[derive(Clone, Debug)]
pub struct NativeTacticDecisionTrace {
    pub decision_index: u64,
    pub result_admission_schema: String,
    pub before_snapshot_sha256: Digest,
    pub after_snapshot_sha256: Digest,
    pub applicable_tactics: Vec<NativeTacticApplicableAction>,
    pub selected_option_id: String,
    pub selection_reason: TacticSelectionReason,
    pub proposal_batch: Vec<NativeTacticProposalTrace>,
    pub newly_admitted_training_rows: u64,
    pub learner_snapshot_sha256: Digest,
    pub policy_update_probes: Vec<NativeTacticPolicyUpdateProbe>,
    pub terminal: bool,
    pub goal_reachability_calibration: Option<NativeTacticReachabilityCalibration>,
    pub branch_acquisition: Option<NativeTacticBranchAcquisition>,
    pub scheduler_decision: Option<NativeTacticSchedulerDecision>,
    pub cumulative_wall_micros: u64,
    pub checkpoint_owner_worker_slot: Option<u64>,
    pub proposal_worker_slots: Vec<u64>,
    pub restore_source: Option<NativeTacticRestoreSource>,
    pub directly_restorable_native_frontiers: u64,
    pub replay_only_frontiers: u64,
}

/// The result of one exploration seed.
#[derive(Clone, Debug)]
pub struct NativeTacticSeedResult {
    pub seed: u64,
    pub trace: Vec<NativeTacticDecisionTrace>,
    pub stop_reasons: Vec<NativeTacticSeedStopReason>,
    pub graph_metrics: Option<NativeTacticSeedGraphMetrics>,
    pub useful_graph_expansion_set_sha256: Digest,
    pub state_graph_sha256: Digest,
    pub decisions: u64,
    pub episodes: u64,
    pub native_ticks: u64,
    pub training_replay_rows: u64,
    pub imported_training_replay_rows: u64,
    pub duplicate_training_transitions: u64,
    pub censored_training_transitions: u64,
    pub terminal_discovered: bool,
    pub best_authenticated_tick: Option<u64>,
    pub best_terminal_state_sha256: Option<Digest>,
    pub best_terminal_route_checkpoint_sha256: Option<Digest>,
}

/// The learner's published and consumed model snapshots.
#[derive(Clone, Copy, Debug)]
pub struct NativeTacticLearnerAuthority {
    pub latest_model_snapshot_sha256: Digest,
    pub latest_training_replay_rows: u64,
    pub model_snapshots_published: u64,
    pub declared_model_snapshots_consumed: u64,
}

/// How far the policy ran behind the replay it learned from.
#[derive(Clone, Copy, Debug, PartialEq, Eq, Structural)]
pub struct NativeTacticReplaySharingReport {
    pub maximum_model_replay_lag_revisions: u64,
    pub maximum_observed_stale_revisions: u64,
}

/// Peak resident memory of the native workers.
#[derive(Clone, Copy, Debug, PartialEq, Eq, Structural)]
pub struct NativeTacticRestoreAccounting {
    pub peak_resident_bytes: u64,
    pub peak_resident_checkpoint_bytes: u64,
    pub peak_resident_host_snapshot_bytes: u64,
    pub peak_live_endpoint_entries: u64,
    pub peak_live_endpoint_host_snapshot_bytes: u64,
}

/// A completed route campaign.
#[derive(Clone, Debug)]
pub struct NativeTacticRouteReport {
    pub schema: String,
    pub optimization_request_sha256: Digest,
    pub execution_binding_sha256: Digest,
    pub execution_plan_sha256: Digest,
    pub objective_sha256: Digest,
    pub feature_schema_sha256: Digest,
    pub action_schema_sha256: Digest,
    pub replay_revision: u64,
    pub replay_snapshot_sha256: Digest,
    pub learner_authority: NativeTacticLearnerAuthority,
    pub exploration_seeds: Vec<u64>,
    pub proposal_policy: TacticProposalPolicy,
    pub value_treatment: TacticValueTreatment,
    pub execution_strategy: NativeGenericExecutionStrategy,
    pub resource_budgets: NativeTacticPlanBudgets,
    pub workers: usize,
    pub decisions_per_seed: u64,
    pub refit_every_decisions: u64,
    pub demonstration_transitions: u64,
    pub seeds: Vec<NativeTacticSeedResult>,
    pub terminal_seeds: u64,
    pub best_authenticated_tick: Option<u64>,
    pub median_time_to_first_terminal_micros: Option<u64>,
    pub worst_time_to_first_terminal_micros: Option<u64>,
    pub total_decisions: u64,
    pub total_native_ticks: u64,
    pub useful_decisions: u64,
    pub unique_useful_graph_expansions: u64,
    pub timing: NativeTacticRouteTiming,
    pub learner_updates: u64,
    pub learner_updates_per_second_millionths: u64,
    pub replay_sharing: NativeTacticReplaySharingReport,
    pub checkpoint_cache_capacity_per_worker_bytes: u64,
    pub native_restore_accounting: NativeTacticRestoreAccounting,
    pub replay_duplicate_admissions: u64,
    pub duplicate_training_transitions: u64,
    pub censored_training_transitions: u64,
}

/// Two optional digests name the same identity, or are both absent.
pub open spec fn same_optional_digest(a: Option<Digest>, b: Option<Digest>) -> bool {
    match (a, b) {
        (None, None) => true,
        (Some(x), Some(y)) => x.0@ == y.0@,
        _ => false,
    }
}

pub fn optional_digest_equal(a: &Option<Digest>, b: &Option<Digest>) -> (r: bool)
    ensures
        r == same_optional_digest(*a, *b),
{
    match (a, b) {
        (None, None) => true,
        (Some(x), Some(y)) => x.same_as(y),
        _ => false,
    }
}

pub open spec fn same_learner_authority(a: NativeTacticLearnerAuthority, b: NativeTacticLearnerAuthority) -> bool {
    &&& a.latest_model_snapshot_sha256.0@ == b.latest_model_snapshot_sha256.0@
    &&& a.latest_training_replay_rows == b.latest_training_replay_rows
    &&& a.model_snapshots_published == b.model_snapshots_published
    &&& a.declared_model_snapshots_consumed == b.declared_model_snapshots_consumed
}

pub fn learner_authority_equal(a: &NativeTacticLearnerAuthority, b: &NativeTacticLearnerAuthority) -> (r: bool)
    ensures
        r == same_learner_authority(*a, *b),
{
    a.latest_model_snapshot_sha256.same_as(&b.latest_model_snapshot_sha256)
        && a.latest_training_replay_rows == b.latest_training_replay_rows
        && a.model_snapshots_published == b.model_snapshots_published
        && a.declared_model_snapshots_consumed == b.declared_model_snapshots_consumed
}

/// Element-wise equality of two integer lists.
pub fn u64s_equal(a: &[u64], b: &[u64]) -> (r: bool)
    ensures
        r == (a@ == b@),
{
    if a.len() != b.len() {
        return false;
    }
    let mut i: usize = 0;
    while i < a.len()
        invariant
            a@.len() == b@.len(),
            i <= a@.len(),
            forall|j: int| 0 <= j < i ==> a@[j] == b@[j],
        decreases a@.len() - i,
    {
        if a[i] != b[i] {
            return false;
        }
        i = i + 1;
    }
    assert(a@ =~= b@);
    true
}

/// The median of an ascending list: the middle element, or the mean of the
/// two middle elements rounded down; none for an empty list.
pub open spec fn spec_median(sorted: Seq<u64>) -> Option<u64> {
    let mid = sorted.len() / 2;
    if sorted.len() == 0 {
        None
    } else if sorted.len() % 2 == 1 {
        Some(sorted[mid as int])
    } else {
        Some(((sorted[mid - 1] + sorted[mid as int]) / 2) as u64)
    }
}

/// The median of ascending wall times, computed without overflow.
pub fn median_sorted_wall_micros(sorted: &[u64]) -> (r: Option<u64>)
    ensures
        r == spec_median(sorted@),
{
    let n = sorted.len();
    let midpoint = n / 2;
    if n % 2 == 1 {
        Some(sorted[midpoint])
    } else if n == 0 {
        None
    } else {
        let upper = sorted[midpoint];
        let lower = sorted[midpoint - 1];
        Some(lower / 2 + upper / 2 + (lower % 2 + upper % 2) / 2)
    }
}

/// The seed result as its compact manifest records it: everything but
/// the decision trace, which the binary journal holds.
pub fn seed_result_manifest(result: NativeTacticSeedResult) -> (m: NativeTacticSeedResult)
    ensures
        m.trace@.len() == 0,
        m == (NativeTacticSeedResult { trace: m.trace, ..result }),
{
    let mut m = result;
    m.trace = Vec::new();
    m
}

/// The route report as its compact manifest records it: every seed
/// without its decision trace.
pub fn route_report_manifest(report: NativeTacticRouteReport) -> (m: NativeTacticRouteReport)
    ensures
        m.seeds@.len() == report.seeds@.len(),
        forall|i: int| 0 <= i < m.seeds@.len() ==> (#[trigger] m.seeds@[i]).trace@.len() == 0 && m.seeds@[i] == (
        NativeTacticSeedResult { trace: m.seeds@[i].trace, ..report.seeds@[i] }),
        m == (NativeTacticRouteReport { seeds: m.seeds, ..report }),
{
    let mut m = report;
    let ghost full_seeds = m.seeds@;
    let n: usize = m.seeds.len();
    let mut seeds: Vec<NativeTacticSeedResult> = Vec::new();
    std::mem::swap(&mut seeds, &mut m.seeds);
    let mut stripped: Vec<NativeTacticSeedResult> = Vec::new();
    let mut i: usize = 0;
    while seeds.len() > 0
        invariant
            i + seeds@.len() == full_seeds.len(),
            full_seeds.len() == n,
            stripped@.len() == i,
            seeds@ == full_seeds.subrange(i as int, full_seeds.len() as int),
            forall|j: int| 0 <= j < i ==> (#[trigger] stripped@[j]).trace@.len() == 0 && stripped@[j] == (
            NativeTacticSeedResult { trace: stripped@[j].trace, ..full_seeds[j] }),
        decreases seeds@.len(),
    {
        let seed = seeds.remove(0);
        stripped.push(seed_result_manifest(seed));
        i = i + 1;
        proof {
            assert(seeds@ =~= full_seeds.subrange(i as int, full_seeds.len() as int));
        }
    }
    m.seeds = stripped;
    m
}

} // verus!
