//! Validation of a completed seed's durable result before a resumed
//! campaign trusts it instead of re-running the seed.

use crate::digest::Digest;
use crate::error::{route_message, NativeTacticRouteRunError};
use crate::execution_plan::{NativeTacticLanePlan, NativeTacticLaneRole};
use crate::schedule::authenticated_terminal_origin_matches;
use crate::bundles::NATIVE_TACTIC_RESULT_ADMISSION_SCHEMA_V1;
use crate::text::text_eq;
use vstd::prelude::*;

verus! {

/// One natively executed proposal of a completed decision.
#[derive(Clone, Copy, Debug)]
pub struct NativeTacticCompletedProposal {
    pub terminal: bool,
    pub execution_plan_sha256: Digest,
}

/// One durable decision of a completed seed, with the two figures derived
/// from it by the route runner: the ticks it evaluated, and the
/// acquisition rank its episode's history assigns.
#[derive(Clone, Debug)]
pub struct NativeTacticCompletedDecision {
    pub decision_index: u64,
    pub execution_plan_sha256: Digest,
    pub learner_snapshot_sha256: Digest,
    pub replay_generation: u64,
    pub lane_index: usize,
    pub lane_role: Option<NativeTacticLaneRole>,
    pub acquisition_rank: u64,
    pub episode: u64,
    pub episode_history_acquisition_rank: u64,
    pub frontier_identity: Digest,
    pub has_restore_source: bool,
    pub result_admission_schema: String,
    pub proposals: Vec<NativeTacticCompletedProposal>,
    pub terminal: bool,
    pub cumulative_wall_micros: u64,
    pub completed_executable_graph_expansions: u64,
    pub best_authenticated_tick_after_decision: Option<u64>,
    pub evaluated_ticks: u64,
}

/// The durable result of a completed seed.
#[derive(Clone, Debug)]
pub struct NativeTacticCompletedSeedResult {
    pub seed: u64,
    pub execution_plan_sha256: Digest,
    pub decisions: u64,
    pub useful_decisions: u64,
    pub unique_useful_graph_expansions: u64,
    pub native_ticks: u64,
    pub imported_training_replay_rows: u64,
    pub terminal_discovered: bool,
    pub best_authenticated_tick: Option<u64>,
    pub has_best_terminal_state: bool,
    pub has_best_terminal_route_checkpoint: bool,
    pub has_best_terminal_tape: bool,
    pub has_best_terminal_result: bool,
    pub success: bool,
    pub has_successful_tape: bool,
    pub has_final_result: bool,
    pub final_checkpoint: String,
    pub state_graph_sha256: Digest,
    pub retained_candidate_artifact_micros: u64,
    pub first_terminal_decision_index: Option<u64>,
    pub time_to_first_terminal_micros: Option<u64>,
    pub trace: Vec<NativeTacticCompletedDecision>,
}

pub open spec fn has_terminal_proposal(d: NativeTacticCompletedDecision) -> bool {
    exists|k: int| 0 <= k < d.proposals@.len() && (#[trigger] d.proposals@[k]).terminal
}

/// The first decision, from `i` on, with a terminal proposal.
pub open spec fn first_terminal_from(trace: Seq<NativeTacticCompletedDecision>, i: int) -> Option<NativeTacticCompletedDecision>
    decreases trace.len() - i,
{
    if i < 0 || i >= trace.len() {
        None
    } else if has_terminal_proposal(trace[i]) {
        Some(trace[i])
    } else {
        first_terminal_from(trace, i + 1)
    }
}

/// The first decision, from `i` on, after which an authenticated terminal
/// tick is known.
pub open spec fn first_authenticated_from(trace: Seq<NativeTacticCompletedDecision>, i: int) -> Option<NativeTacticCompletedDecision>
    decreases trace.len() - i,
{
    if i < 0 || i >= trace.len() {
        None
    } else if trace[i].best_authenticated_tick_after_decision is Some {
        Some(trace[i])
    } else {
        first_authenticated_from(trace, i + 1)
    }
}

pub open spec fn graph_timeline_valid(r: NativeTacticCompletedSeedResult) -> bool {
    let t = r.trace@;
    (exists|i: int| 0 <= i < t.len() && (#[trigger] t[i]).completed_executable_graph_expansions != 0) ==> {
        &&& forall|i: int| 0 <= i < t.len() ==> (#[trigger] t[i]).completed_executable_graph_expansions != 0
        &&& forall|i: int| 0 <= i < t.len() - 1 ==> (#[trigger] t[i]).completed_executable_graph_expansions
            <= t[i + 1].completed_executable_graph_expansions
        &&& t.len() > 0 && t.last().completed_executable_graph_expansions == r.unique_useful_graph_expansions
    }
}

/// Authenticated terminal quality never regresses: once known, a best tick
/// stays known and never grows.
pub open spec fn tick_pair_regresses(a: Option<u64>, b: Option<u64>) -> bool {
    match (a, b) {
        (Some(_), None) => true,
        (Some(previous), Some(next)) => next > previous,
        _ => false,
    }
}

/// The first authenticated terminal was found where the seed found its
/// first terminal, or was inherited at decision 0 from imported evidence.
pub open spec fn authenticated_origin_valid(r: NativeTacticCompletedSeedResult, imported_demonstration: bool) -> bool {
    match first_authenticated_from(r.trace@, 0) {
        Some(d) => {
            let inherited = imported_demonstration || r.imported_training_replay_rows != 0;
            (d.decision_index == 0 && inherited) || Some(d.decision_index) == r.first_terminal_decision_index
        },
        None => true,
    }
}

/// Once authenticated terminal quality is known it never regresses.
pub open spec fn authenticated_quality_monotone(r: NativeTacticCompletedSeedResult) -> bool {
    let t = r.trace@;
    first_authenticated_from(t, 0) is Some ==> forall|i: int| 0 <= i < t.len() - 1 ==> !tick_pair_regresses(
        (#[trigger] t[i]).best_authenticated_tick_after_decision,
        t[i + 1].best_authenticated_tick_after_decision,
    )
}

/// The authenticated timeline ends at the seed's final best tick.
pub open spec fn authenticated_final_tick_matches(r: NativeTacticCompletedSeedResult) -> bool {
    let t = r.trace@;
    first_authenticated_from(t, 0) is Some ==> t.last().best_authenticated_tick_after_decision
        == r.best_authenticated_tick
}

pub open spec fn authenticated_timeline_valid(r: NativeTacticCompletedSeedResult, imported_demonstration: bool) -> bool {
    &&& authenticated_origin_valid(r, imported_demonstration)
    &&& authenticated_quality_monotone(r)
    &&& authenticated_final_tick_matches(r)
}

pub open spec fn wall_timeline_valid(r: NativeTacticCompletedSeedResult) -> bool {
    let t = r.trace@;
    let durable = (exists|i: int| 0 <= i < t.len() && (#[trigger] t[i]).cumulative_wall_micros != 0)
        || r.first_terminal_decision_index is Some || r.time_to_first_terminal_micros is Some;
    let first = first_terminal_from(t, 0);
    durable ==> {
        &&& r.first_terminal_decision_index == match first {
            Some(d) => Some(d.decision_index),
            None => None,
        }
        &&& r.time_to_first_terminal_micros == match first {
            Some(d) => Some(d.cumulative_wall_micros),
            None => None,
        }
        &&& forall|i: int| 0 <= i < t.len() - 1 ==> (#[trigger] t[i]).cumulative_wall_micros <= t[i + 1].cumulative_wall_micros
    }
}

/// A decision belongs to its lane and execution authority.
pub open spec fn decision_attached(
    d: NativeTacticCompletedDecision,
    index: int,
    execution_plan_sha256: Digest,
    lane: NativeTacticLanePlan,
) -> bool {
    &&& d.execution_plan_sha256.0@ == execution_plan_sha256.0@
    &&& d.decision_index == index
    &&& !d.learner_snapshot_sha256.spec_is_zero()
    &&& d.replay_generation == lane.generation_index
    &&& d.lane_index == lane.lane_index
    &&& d.lane_role == Some(lane.role)
    &&& (d.acquisition_rank == lane.acquisition.spec_rank(d.decision_index) || d.acquisition_rank
        == lane.acquisition.spec_rank(d.episode) || d.acquisition_rank == d.episode_history_acquisition_rank
        || d.acquisition_rank == 0)
    &&& !d.frontier_identity.spec_is_zero()
    &&& d.has_restore_source
    &&& d.result_admission_schema@ == NATIVE_TACTIC_RESULT_ADMISSION_SCHEMA_V1@
    &&& forall|k: int| 0 <= k < d.proposals@.len() ==> (#[trigger] d.proposals@[k]).execution_plan_sha256.0@
        == execution_plan_sha256.0@
}

pub open spec fn evaluated_ticks_sum(t: Seq<NativeTacticCompletedDecision>) -> int
    decreases t.len(),
{
    if t.len() == 0 {
        0
    } else {
        evaluated_ticks_sum(t.drop_last()) + t.last().evaluated_ticks
    }
}

/// The terminal artifacts are present exactly when a terminal was found.
pub open spec fn terminal_artifacts_consistent(r: NativeTacticCompletedSeedResult) -> bool {
    &&& r.terminal_discovered == (r.best_authenticated_tick is Some)
    &&& r.terminal_discovered == r.has_best_terminal_state
    &&& r.terminal_discovered == r.has_best_terminal_route_checkpoint
    &&& r.terminal_discovered == r.has_best_terminal_tape
    &&& r.terminal_discovered == r.has_best_terminal_result
}

/// The message of the first condition a completed seed's durable result
/// fails, checked in this order; `None` when it is valid.
pub open spec fn completed_seed_result_failure(
    r: NativeTacticCompletedSeedResult,
    seed: u64,
    decisions_per_seed: u64,
    execution_plan_sha256: Digest,
    lane: NativeTacticLanePlan,
    imported_demonstration: bool,
) -> Option<Seq<char>> {
    let t = r.trace@;
    if !(r.execution_plan_sha256.0@ == execution_plan_sha256.0@) {
        Some("completed tactic seed result is invalid: execution-plan identity mismatch"@)
    } else if !(r.seed == seed) {
        Some("completed tactic seed result is invalid: seed identity mismatch"@)
    } else if !(r.decisions <= decisions_per_seed) {
        Some("completed tactic seed result is invalid: decision budget exceeded"@)
    } else if !(r.useful_decisions <= r.decisions) {
        Some("completed tactic seed result is invalid: useful decision count exceeded total decisions"@)
    } else if !(terminal_artifacts_consistent(r)) {
        Some("completed tactic seed result is invalid: terminal artifact presence is inconsistent"@)
    } else if !(!r.success || r.terminal_discovered) {
        Some("completed tactic seed result is invalid: success lacks a terminal route"@)
    } else if !(r.success == r.has_successful_tape && r.success == r.has_final_result) {
        Some("completed tactic seed result is invalid: successful output artifact presence is inconsistent"@)
    } else if !(r.final_checkpoint@.len() > 0) {
        Some("completed tactic seed result is invalid: final checkpoint is absent"@)
    } else if !(!r.state_graph_sha256.spec_is_zero()) {
        Some("completed tactic seed result is invalid: state graph identity is absent"@)
    } else if !(r.terminal_discovered || r.retained_candidate_artifact_micros == 0) {
        Some("completed tactic seed result is invalid: nonterminal seed reports retained terminal artifact time"@)
    } else if !(t.len() == r.decisions) {
        Some("completed tactic seed result is invalid: durable trace length differs from decision count"@)
    } else if !(graph_timeline_valid(r)) {
        Some("completed tactic seed result is invalid: graph expansion timeline is invalid"@)
    } else if !(authenticated_origin_valid(r, imported_demonstration)) {
        Some("completed tactic seed result is invalid: authenticated terminal origin is inconsistent"@)
    } else if !(authenticated_quality_monotone(r)) {
        Some("completed tactic seed result is invalid: authenticated terminal quality regresses"@)
    } else if !(authenticated_final_tick_matches(r)) {
        Some("completed tactic seed result is invalid: authenticated terminal timeline disagrees with final best tick"@)
    } else if !(wall_timeline_valid(r)) {
        Some("completed tactic seed result is invalid: wall-time timeline is invalid"@)
    } else if !(forall|i: int| 0 <= i < t.len() ==> decision_attached(#[trigger] t[i], i, execution_plan_sha256, lane)) {
        Some("completed tactic seed result is invalid: a decision is detached from its lane or execution authority"@)
    } else if !(r.native_ticks == evaluated_ticks_sum(t)) {
        Some("completed tactic seed result is invalid: native tick total differs from durable decisions"@)
    } else {
        None
    }
}

/// Everything a completed seed's durable result must show to be trusted.
pub open spec fn completed_seed_result_valid(
    r: NativeTacticCompletedSeedResult,
    seed: u64,
    decisions_per_seed: u64,
    execution_plan_sha256: Digest,
    lane: NativeTacticLanePlan,
    imported_demonstration: bool,
) -> bool {
    let t = r.trace@;
    &&& r.execution_plan_sha256.0@ == execution_plan_sha256.0@
    &&& r.seed == seed
    &&& r.decisions <= decisions_per_seed
    &&& r.useful_decisions <= r.decisions
    &&& r.terminal_discovered == (r.best_authenticated_tick is Some)
    &&& r.terminal_discovered == r.has_best_terminal_state
    &&& r.terminal_discovered == r.has_best_terminal_route_checkpoint
    &&& r.terminal_discovered == r.has_best_terminal_tape
    &&& r.terminal_discovered == r.has_best_terminal_result
    &&& (!r.success || r.terminal_discovered)
    &&& r.success == r.has_successful_tape
    &&& r.success == r.has_final_result
    &&& r.final_checkpoint@.len() > 0
    &&& !r.state_graph_sha256.spec_is_zero()
    &&& (r.terminal_discovered || r.retained_candidate_artifact_micros == 0)
    &&& t.len() == r.decisions
    &&& graph_timeline_valid(r)
    &&& authenticated_timeline_valid(r, imported_demonstration)
    &&& wall_timeline_valid(r)
    &&& forall|i: int| 0 <= i < t.len() ==> decision_attached(#[trigger] t[i], i, execution_plan_sha256, lane)
    &&& r.native_ticks == evaluated_ticks_sum(t)
}

fn decision_has_terminal_proposal(d: &NativeTacticCompletedDecision) -> (r: bool)
    ensures
        r == has_terminal_proposal(*d),
{
    let mut k: usize = 0;
    while k < d.proposals.len()
        invariant
            k <= d.proposals@.len(),
            forall|m: int| 0 <= m < k ==> !(#[trigger] d.proposals@[m]).terminal,
        decreases d.proposals@.len() - k,
    {
        if d.proposals[k].terminal {
            return true;
        }
        k = k + 1;
    }
    false
}

fn proposals_attached(d: &NativeTacticCompletedDecision, execution_plan_sha256: &Digest) -> (r: bool)
    ensures
        r == forall|k: int| 0 <= k < d.proposals@.len() ==> (#[trigger] d.proposals@[k]).execution_plan_sha256.0@
            == execution_plan_sha256.0@,
{
    let mut k: usize = 0;
    while k < d.proposals.len()
        invariant
            k <= d.proposals@.len(),
            forall|m: int| 0 <= m < k ==> (#[trigger] d.proposals@[m]).execution_plan_sha256.0@
                == execution_plan_sha256.0@,
        decreases d.proposals@.len() - k,
    {
        if !d.proposals[k].execution_plan_sha256.same_as(execution_plan_sha256) {
            return false;
        }
        k = k + 1;
    }
    true
}

fn check_decision_attached(
    d: &NativeTacticCompletedDecision,
    index: usize,
    execution_plan_sha256: &Digest,
    lane: &NativeTacticLanePlan,
) -> (r: bool)
    requires
        lane.acquisition.well_formed(),
    ensures
        r == decision_attached(*d, index as int, *execution_plan_sha256, *lane),
{
    let rank_ok = d.acquisition_rank == lane.acquisition.rank(d.decision_index) || d.acquisition_rank
        == lane.acquisition.rank(d.episode) || d.acquisition_rank == d.episode_history_acquisition_rank
        || d.acquisition_rank == 0;
    let role_ok = match d.lane_role {
        Some(role) => role == lane.role,
        None => false,
    };
    d.execution_plan_sha256.same_as(execution_plan_sha256) && d.decision_index as u128 == index as u128
        && !d.learner_snapshot_sha256.is_zero() && d.replay_generation as u128 == lane.generation_index as u128
        && d.lane_index == lane.lane_index && role_ok && rank_ok && !d.frontier_identity.is_zero()
        && d.has_restore_source && text_eq(d.result_admission_schema.as_str(), NATIVE_TACTIC_RESULT_ADMISSION_SCHEMA_V1)
        && proposals_attached(d, execution_plan_sha256)
}

fn first_terminal_of(trace: &Vec<NativeTacticCompletedDecision>) -> (r: Option<(u64, u64)>)
    ensures
        r == match first_terminal_from(trace@, 0) {
            Some(d) => Some((d.decision_index, d.cumulative_wall_micros)),
            None => None,
        },
{
    let mut i: usize = 0;
    while i < trace.len()
        invariant
            i <= trace@.len(),
            first_terminal_from(trace@, 0) == first_terminal_from(trace@, i as int),
        decreases trace@.len() - i,
    {
        if decision_has_terminal_proposal(&trace[i]) {
            return Some((trace[i].decision_index, trace[i].cumulative_wall_micros));
        }
        i = i + 1;
    }
    None
}

fn first_authenticated_of(trace: &Vec<NativeTacticCompletedDecision>) -> (r: Option<u64>)
    ensures
        r == match first_authenticated_from(trace@, 0) {
            Some(d) => Some(d.decision_index),
            None => None,
        },
{
    let mut i: usize = 0;
    while i < trace.len()
        invariant
            i <= trace@.len(),
            first_authenticated_from(trace@, 0) == first_authenticated_from(trace@, i as int),
        decreases trace@.len() - i,
    {
        if trace[i].best_authenticated_tick_after_decision.is_some() {
            return Some(trace[i].decision_index);
        }
        i = i + 1;
    }
    None
}

fn check_graph_timeline(r: &NativeTacticCompletedSeedResult) -> (ok: bool)
    ensures
        ok == graph_timeline_valid(*r),
{
    let t = &r.trace;
    let mut any = false;
    let mut all = true;
    let mut monotone = true;
    let mut i: usize = 0;
    while i < t.len()
        invariant
            i <= t@.len(),
            any == exists|k: int| 0 <= k < i && (#[trigger] t@[k]).completed_executable_graph_expansions != 0,
            all == forall|k: int| 0 <= k < i ==> (#[trigger] t@[k]).completed_executable_graph_expansions != 0,
            monotone == forall|k: int| 0 <= k < i - 1 ==> (#[trigger] t@[k]).completed_executable_graph_expansions
                <= t@[k + 1].completed_executable_graph_expansions,
        decreases t@.len() - i,
    {
        let e = t[i].completed_executable_graph_expansions;
        if e != 0 {
            any = true;
        } else {
            all = false;
        }
        if i > 0 && t[i - 1].completed_executable_graph_expansions > e {
            monotone = false;
        }
        i = i + 1;
    }
    let last_ok = t.len() > 0 && t[t.len() - 1].completed_executable_graph_expansions == r.unique_useful_graph_expansions;
    !any || (all && monotone && last_ok)
}

fn check_authenticated_timeline(r: &NativeTacticCompletedSeedResult, imported_demonstration: bool) -> (ok: (
    bool,
    bool,
    bool,
))
    ensures
        ok.0 == authenticated_origin_valid(*r, imported_demonstration),
        ok.1 == authenticated_quality_monotone(*r),
        ok.2 == authenticated_final_tick_matches(*r),
{
    let t = &r.trace;
    let first = first_authenticated_of(t);
    match first {
        None => (true, true, true),
        Some(_) => {
            let origin = authenticated_terminal_origin_matches(
                imported_demonstration || r.imported_training_replay_rows != 0,
                first,
                r.first_terminal_decision_index,
            );
            let mut regresses = false;
            let mut i: usize = 1;
            while i < t.len()
                invariant
                    1 <= i <= t@.len() || t@.len() == 0,
                    regresses == exists|k: int| 0 <= k < i - 1 && tick_pair_regresses(
                        (#[trigger] t@[k]).best_authenticated_tick_after_decision,
                        t@[k + 1].best_authenticated_tick_after_decision,
                    ),
                decreases t@.len() - i,
            {
                let a = t[i - 1].best_authenticated_tick_after_decision;
                let b = t[i].best_authenticated_tick_after_decision;
                let bad = match (a, b) {
                    (Some(_), None) => true,
                    (Some(previous), Some(next)) => next > previous,
                    _ => false,
                };
                if bad {
                    regresses = true;
                }
                i = i + 1;
            }
            let last_ok = t.len() > 0 && t[t.len() - 1].best_authenticated_tick_after_decision == r.best_authenticated_tick;
            (origin, !regresses, last_ok)
        },
    }
}

fn check_wall_timeline(r: &NativeTacticCompletedSeedResult) -> (ok: bool)
    ensures
        ok == wall_timeline_valid(*r),
{
    let t = &r.trace;
    let mut any = false;
    let mut monotone = true;
    let mut i: usize = 0;
    while i < t.len()
        invariant
            i <= t@.len(),
            any == exists|k: int| 0 <= k < i && (#[trigger] t@[k]).cumulative_wall_micros != 0,
            monotone == forall|k: int| 0 <= k < i - 1 ==> (#[trigger] t@[k]).cumulative_wall_micros
                <= t@[k + 1].cumulative_wall_micros,
        decreases t@.len() - i,
    {
        if t[i].cumulative_wall_micros != 0 {
            any = true;
        }
        if i > 0 && t[i - 1].cumulative_wall_micros > t[i].cumulative_wall_micros {
            monotone = false;
        }
        i = i + 1;
    }
    let durable = any || r.first_terminal_decision_index.is_some() || r.time_to_first_terminal_micros.is_some();
    let first = first_terminal_of(t);
    let (index, wall) = match first {
        Some((index, wall)) => (Some(index), Some(wall)),
        None => (None, None),
    };
    !durable || (r.first_terminal_decision_index == index && r.time_to_first_terminal_micros == wall && monotone)
}

/// Validates a completed seed's durable result against the seed, budget,
/// execution plan identity and lane it was run under.
pub fn validate_completed_seed_result(
    result: &NativeTacticCompletedSeedResult,
    seed: u64,
    decisions_per_seed: u64,
    execution_plan_sha256: &Digest,
    lane: &NativeTacticLanePlan,
    imported_demonstration: bool,
) -> (r: Result<(), NativeTacticRouteRunError>)
    requires
        lane.acquisition.well_formed(),
    ensures
        r is Ok <==> completed_seed_result_valid(
            *result,
            seed,
            decisions_per_seed,
            *execution_plan_sha256,
            *lane,
            imported_demonstration,
        ),
        r is Ok <==> completed_seed_result_failure(
            *result,
            seed,
            decisions_per_seed,
            *execution_plan_sha256,
            *lane,
            imported_demonstration,
        ) is None,
        r matches Err(e) ==> completed_seed_result_failure(
            *result,
            seed,
            decisions_per_seed,
            *execution_plan_sha256,
            *lane,
            imported_demonstration,
        ) == Some(e.message@),
{
    let t = &result.trace;
    let presence = result.terminal_discovered == result.best_authenticated_tick.is_some()
        && result.terminal_discovered == result.has_best_terminal_state
        && result.terminal_discovered == result.has_best_terminal_route_checkpoint
        && result.terminal_discovered == result.has_best_terminal_tape
        && result.terminal_discovered == result.has_best_terminal_result;
    let mut attached = true;
    let mut ticks: u64 = 0;
    let mut ticks_fit = true;
    let mut i: usize = 0;
    proof {
        assert(t@.take(0) =~= Seq::<NativeTacticCompletedDecision>::empty());
    }
    while i < t.len()
        invariant
            i <= t@.len(),
            lane.acquisition.well_formed(),
            attached == forall|k: int| 0 <= k < i ==> decision_attached(#[trigger] t@[k], k, *execution_plan_sha256, *lane),
            ticks_fit ==> ticks == evaluated_ticks_sum(t@.take(i as int)),
            !ticks_fit ==> evaluated_ticks_sum(t@.take(i as int)) > u64::MAX,
        decreases t@.len() - i,
    {
        if !check_decision_attached(&t[i], i, execution_plan_sha256, lane) {
            attached = false;
        }
        proof {
            assert(t@.take(i + 1).drop_last() =~= t@.take(i as int));
            lemma_ticks_sum_monotone(t@.take(i + 1));
        }
        if ticks_fit {
            match ticks.checked_add(t[i].evaluated_ticks) {
                Some(v) => {
                    ticks = v;
                },
                None => {
                    ticks_fit = false;
                },
            }
        }
        i = i + 1;
    }
    proof {
        assert(t@.take(t@.len() as int) =~= t@);
    }
    let authenticated = check_authenticated_timeline(result, imported_demonstration);
    if !(result.execution_plan_sha256.same_as(execution_plan_sha256)) {
        return Err(route_message("completed tactic seed result is invalid: execution-plan identity mismatch"));
    }
    if !(result.seed == seed) {
        return Err(route_message("completed tactic seed result is invalid: seed identity mismatch"));
    }
    if !(result.decisions <= decisions_per_seed) {
        return Err(route_message("completed tactic seed result is invalid: decision budget exceeded"));
    }
    if !(result.useful_decisions <= result.decisions) {
        return Err(route_message("completed tactic seed result is invalid: useful decision count exceeded total decisions"));
    }
    if !(presence) {
        return Err(route_message("completed tactic seed result is invalid: terminal artifact presence is inconsistent"));
    }
    if !(!result.success || result.terminal_discovered) {
        return Err(route_message("completed tactic seed result is invalid: success lacks a terminal route"));
    }
    if !(result.success == result.has_successful_tape && result.success == result.has_final_result) {
        return Err(route_message("completed tactic seed result is invalid: successful output artifact presence is inconsistent"));
    }
    if !(result.final_checkpoint.as_str().unicode_len() > 0) {
        return Err(route_message("completed tactic seed result is invalid: final checkpoint is absent"));
    }
    if !(!result.state_graph_sha256.is_zero()) {
        return Err(route_message("completed tactic seed result is invalid: state graph identity is absent"));
    }
    if !(result.terminal_discovered || result.retained_candidate_artifact_micros == 0) {
        return Err(route_message("completed tactic seed result is invalid: nonterminal seed reports retained terminal artifact time"));
    }
    if !(t.len() as u128 == result.decisions as u128) {
        return Err(route_message("completed tactic seed result is invalid: durable trace length differs from decision count"));
    }
    if !(check_graph_timeline(result)) {
        return Err(route_message("completed tactic seed result is invalid: graph expansion timeline is invalid"));
    }
    if !(authenticated.0) {
        return Err(route_message("completed tactic seed result is invalid: authenticated terminal origin is inconsistent"));
    }
    if !(authenticated.1) {
        return Err(route_message("completed tactic seed result is invalid: authenticated terminal quality regresses"));
    }
    if !(authenticated.2) {
        return Err(route_message("completed tactic seed result is invalid: authenticated terminal timeline disagrees with final best tick"));
    }
    if !(check_wall_timeline(result)) {
        return Err(route_message("completed tactic seed result is invalid: wall-time timeline is invalid"));
    }
    if !(attached) {
        return Err(route_message("completed tactic seed result is invalid: a decision is detached from its lane or execution authority"));
    }
    if !(ticks_fit && result.native_ticks == ticks) {
        return Err(route_message("completed tactic seed result is invalid: native tick total differs from durable decisions"));
    }
    Ok(())
}

proof fn lemma_ticks_sum_monotone(t: Seq<NativeTacticCompletedDecision>)
    ensures
        t.len() > 0 ==> evaluated_ticks_sum(t) >= evaluated_ticks_sum(t.drop_last()),
{
}

/// The schema, objective and root checkpoint a completed seed was
/// produced under.
#[derive(Clone, Copy, Debug)]
pub struct NativeTacticSeedAuthority {
    pub feature_schema_sha256: Digest,
    pub objective_sha256: Digest,
    pub root_checkpoint_sha256: Digest,
}

pub open spec fn same_seed_authority(a: NativeTacticSeedAuthority, b: NativeTacticSeedAuthority) -> bool {
    &&& a.feature_schema_sha256.0@ == b.feature_schema_sha256.0@
    &&& a.objective_sha256.0@ == b.objective_sha256.0@
    &&& a.root_checkpoint_sha256.0@ == b.root_checkpoint_sha256.0@
}

/// The one authority that every seed of a completed campaign shares,
/// given the number of seeds its report holds and the authority of each
/// planned lane's durable seed, in lane order. Fails where the report
/// holds another number of seeds than there are lanes, where there are no
/// seeds, and where two seeds disagree.
pub fn agreed_seed_authority(
    reported_seeds: usize,
    lane_authorities: &Vec<NativeTacticSeedAuthority>,
) -> (r: Result<NativeTacticSeedAuthority, NativeTacticRouteRunError>)
    ensures
        r is Err <==> reported_seeds != lane_authorities.len() || lane_authorities.len() == 0 || exists|i: int|
            0 <= i < lane_authorities.len() && !same_seed_authority(lane_authorities@[0], #[trigger] lane_authorities@[i]),
        reported_seeds != lane_authorities.len() ==> (r matches Err(e) && e.message@
            == "completed tactic campaign report has detached seed cardinality"@),
        reported_seeds == lane_authorities.len() == 0 ==> (r matches Err(e) && e.message@
            == "completed tactic campaign has no seed authority"@),
        reported_seeds == lane_authorities.len() > 0 && r is Err ==> (r matches Err(e) && e.message@
            == "completed tactic campaign seeds disagree on authority"@),
        r matches Ok(a) ==> a == lane_authorities@[0],
{
    if reported_seeds != lane_authorities.len() {
        return Err(route_message("completed tactic campaign report has detached seed cardinality"));
    }
    if lane_authorities.len() == 0 {
        return Err(route_message("completed tactic campaign has no seed authority"));
    }
    let first = lane_authorities[0];
    let mut i: usize = 1;
    while i < lane_authorities.len()
        invariant
            1 <= i <= lane_authorities.len(),
            reported_seeds == lane_authorities.len(),
            first == lane_authorities@[0],
            forall|j: int| 0 <= j < i ==> same_seed_authority(first, #[trigger] lane_authorities@[j]),
        decreases lane_authorities.len() - i,
    {
        let a = lane_authorities[i];
        if !(first.feature_schema_sha256.same_as(&a.feature_schema_sha256) && first.objective_sha256.same_as(
            &a.objective_sha256,
        ) && first.root_checkpoint_sha256.same_as(&a.root_checkpoint_sha256)) {
            return Err(route_message("completed tactic campaign seeds disagree on authority"));
        }
        i = i + 1;
    }
    Ok(first)
}

} // verus!
