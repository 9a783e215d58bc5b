//! Per-decision scheduling rules of a seed campaign: terminal refinement
//! rollouts, incumbent continuations, branching and probing cadence,
//! recovery and learner-import decisions, and the ranking of retained
//! successful routes.

use crate::digest::{bytes_precede, Digest};
use crate::error::{route_message, NativeTacticRouteRunError};
use crate::execution_plan::{NativeTacticResourceLimit, TacticProposalPolicy};
use crate::report::NativeTacticSeedStopReason;
use vstd::prelude::*;

verus! {

/// A terminal-refinement rollout: the perturbed route may spend as many
/// ticks past its source prefix as the incumbent still needs.
#[derive(Clone, Copy, Debug, PartialEq, Eq, Structural)]
pub struct ActiveTerminalRefinementRollout {
    pub source_prefix_ticks: u64,
    pub incumbent_ticks_to_go: u64,
}

impl ActiveTerminalRefinementRollout {
    /// A rollout exists only when the incumbent's remaining ticks are known.
    pub fn new(source_prefix_ticks: u64, incumbent_ticks_to_go: Option<u64>) -> (r: Option<Self>)
        ensures
            r is Some <==> incumbent_ticks_to_go is Some,
            r matches Some(rollout) ==> rollout.source_prefix_ticks == source_prefix_ticks
                && Some(rollout.incumbent_ticks_to_go) == incumbent_ticks_to_go,
    {
        match incumbent_ticks_to_go {
            Some(incumbent_ticks_to_go) => Some(ActiveTerminalRefinementRollout { source_prefix_ticks, incumbent_ticks_to_go }),
            None => None,
        }
    }

    pub open spec fn spec_has_remaining_budget(self, current_route_ticks: u64) -> bool {
        (if current_route_ticks >= self.source_prefix_ticks {
            current_route_ticks - self.source_prefix_ticks
        } else {
            0
        }) < self.incumbent_ticks_to_go
    }

    /// Whether the rollout has ticks left at `current_route_ticks`.
    pub fn has_remaining_budget(self, current_route_ticks: u64) -> (r: bool)
        ensures
            r == self.spec_has_remaining_budget(current_route_ticks),
    {
        current_route_ticks.saturating_sub(self.source_prefix_ticks) < self.incumbent_ticks_to_go
    }
}

/// One local perturbation followed by the time-aligned authenticated
/// incumbent suffix: the candidate spans exactly two executed actions.
#[derive(Clone, Copy, Debug)]
pub struct ActiveIncumbentContinuation {
    pub terminal_route_checkpoint_sha256: Digest,
    pub executed_actions: u64,
}

impl ActiveIncumbentContinuation {
    /// A continuation exists only for an authenticated (nonzero) route.
    pub fn new(terminal_route_checkpoint_sha256: Digest, executed_actions: u64) -> (r: Option<Self>)
        ensures
            r is Some <==> !terminal_route_checkpoint_sha256.spec_is_zero(),
            r matches Some(c) ==> c.terminal_route_checkpoint_sha256 == terminal_route_checkpoint_sha256
                && c.executed_actions == executed_actions,
    {
        if terminal_route_checkpoint_sha256.is_zero() {
            None
        } else {
            Some(ActiveIncumbentContinuation { terminal_route_checkpoint_sha256, executed_actions })
        }
    }

    pub fn terminal_route_checkpoint_sha256(self) -> (r: Digest)
        ensures
            r == self.terminal_route_checkpoint_sha256,
    {
        self.terminal_route_checkpoint_sha256
    }

    /// The suffix runs as the second action, after the perturbation.
    pub fn should_execute_suffix(self) -> (r: bool)
        ensures
            r == (self.executed_actions == 1),
    {
        self.executed_actions == 1
    }

    /// The candidate is complete once both actions ran.
    pub fn candidate_completed(self) -> (r: bool)
        ensures
            r == (self.executed_actions >= 2),
    {
        self.executed_actions >= 2
    }

    /// Counts one executed action; fails only when the count would overflow.
    pub fn record_executed_action(&mut self) -> (r: Result<(), &'static str>)
        ensures
            r is Ok <==> old(self).executed_actions < u64::MAX,
            r is Ok ==> final(self).executed_actions == old(self).executed_actions + 1,
            r is Err ==> final(self).executed_actions == old(self).executed_actions,
            final(self).terminal_route_checkpoint_sha256 == old(self).terminal_route_checkpoint_sha256,
    {
        match self.executed_actions.checked_add(1) {
            Some(v) => {
                self.executed_actions = v;
                Ok(())
            },
            None => Err("incumbent continuation action count overflowed"),
        }
    }
}

/// A fresh continuation executes exactly one perturbation, then exactly the
/// suffix, and is complete after the second recorded action.
pub proof fn lemma_incumbent_continuation_is_two_actions(c: ActiveIncumbentContinuation)
    requires
        c.executed_actions == 0,
    ensures
        !(c.executed_actions == 1) && !(c.executed_actions >= 2),
        (c.executed_actions + 1 == 1) && !(c.executed_actions + 1 >= 2),
        !(c.executed_actions + 2 == 1) && (c.executed_actions + 2 >= 2),
{
}

/// The first demonstration intervention happens while coverage is pending,
/// the root is not preferred, and an uncovered demonstration frontier was
/// selected.
pub fn first_demonstration_intervention(
    coverage_pending: bool,
    prefer_root: bool,
    selected_uncovered_demonstration_frontier: bool,
) -> (r: bool)
    ensures
        r == (coverage_pending && !prefer_root && selected_uncovered_demonstration_frontier),
{
    coverage_pending && !prefer_root && selected_uncovered_demonstration_frontier
}

/// A terminal state has no legal action surface, so a pending publication
/// is probed only when the branch does not restart from a terminal.
pub fn should_probe_policy_before_branch(terminal_restart: bool) -> (r: bool)
    ensures
        r == !terminal_restart,
{
    !terminal_restart
}

/// Paired policy/control continuations belong only to attribution
/// campaigns, and never nest.
pub fn should_start_paired_terminal_return(evaluation_enabled: bool, paired_return_in_progress: bool) -> (r: bool)
    ensures
        r == (evaluation_enabled && !paired_return_in_progress),
{
    evaluation_enabled && !paired_return_in_progress
}

/// A seed branches after a terminal restart, and otherwise on every
/// positive multiple of the branch cadence.
pub fn should_periodically_branch(decision_index: u64, branch_every_decisions: u64, terminal_restart: bool) -> (r: bool)
    requires
        branch_every_decisions > 0,
    ensures
        r == (terminal_restart || (decision_index > 0 && decision_index % branch_every_decisions == 0)),
{
    terminal_restart || (decision_index > 0 && decision_index % branch_every_decisions == 0)
}

/// Whether recovery must relaunch native workers: unless every seed is
/// complete and macro discovery evidence also exists.
pub fn recovery_requires_native_fleet(completed_seed_evidence: bool, macro_discovery_evidence: bool) -> (r: bool)
    ensures
        r == (!completed_seed_evidence || !macro_discovery_evidence),
{
    !completed_seed_evidence || !macro_discovery_evidence
}

/// Demonstration evidence must exist exactly when the plan requests it.
pub fn demonstration_evidence_matches_treatment(evidence_present: bool, demonstration_chunk_ticks: Option<u32>) -> (r: bool)
    ensures
        r == (evidence_present == (demonstration_chunk_ticks is Some)),
{
    evidence_present == demonstration_chunk_ticks.is_some()
}

/// The common learner prior is imported whenever the treatment ranks with
/// it or explicitly requested an assisted demonstration.
pub fn imports_inherited_learner_snapshot(proposal_policy: TacticProposalPolicy, has_demonstration: bool) -> (r: bool)
    ensures
        r == (proposal_policy.spec_uses_learned_selector() || has_demonstration),
{
    proposal_policy.uses_learned_selector() || has_demonstration
}

/// The first authenticated terminal tick must come from the decision that
/// first proposed a terminal, unless terminal support was inherited and
/// the tick was already present at decision zero.
pub fn authenticated_terminal_origin_matches(
    inherited_terminal_support: bool,
    first_authenticated_decision: Option<u64>,
    first_terminal_proposal_decision: Option<u64>,
) -> (r: bool)
    ensures
        r == match first_authenticated_decision {
            None => true,
            Some(decision) => (decision == 0 && inherited_terminal_support)
                || Some(decision) == first_terminal_proposal_decision,
        },
{
    match first_authenticated_decision {
        None => true,
        Some(decision) => {
            if decision == 0 && inherited_terminal_support {
                true
            } else {
                match first_terminal_proposal_decision {
                    Some(first) => first == decision,
                    None => false,
                }
            }
        },
    }
}

pub open spec fn route_rank_better(cf: usize, cs: Seq<u8>, inf: usize, is: Seq<u8>) -> bool {
    cf < inf || (cf == inf && bytes_precede(cs, is))
}

/// Of two successful routes of different lengths, the one with fewer
/// frames ranks better, whatever their content digests.
pub proof fn lemma_shorter_successful_route_ranks_better(
    candidate_frames: usize,
    candidate_sha256: Seq<u8>,
    incumbent_frames: usize,
    incumbent_sha256: Seq<u8>,
)
    ensures
        candidate_frames < incumbent_frames ==> route_rank_better(
            candidate_frames,
            candidate_sha256,
            incumbent_frames,
            incumbent_sha256,
        ),
        candidate_frames > incumbent_frames ==> !route_rank_better(
            candidate_frames,
            candidate_sha256,
            incumbent_frames,
            incumbent_sha256,
        ),
        route_rank_better(candidate_frames, candidate_sha256, incumbent_frames, incumbent_sha256)
            ==> candidate_frames <= incumbent_frames,
        candidate_sha256.len() == incumbent_sha256.len() && route_rank_better(
            candidate_frames,
            candidate_sha256,
            incumbent_frames,
            incumbent_sha256,
        ) ==> !route_rank_better(incumbent_frames, incumbent_sha256, candidate_frames, candidate_sha256),
        !route_rank_better(candidate_frames, candidate_sha256, candidate_frames, candidate_sha256),
{
    lemma_bytes_precede_from_asymmetric(candidate_sha256, incumbent_sha256, 0);
    lemma_bytes_precede_from_asymmetric(candidate_sha256, candidate_sha256, 0);
}

/// Byte order is strict: no sequence precedes itself, and of two sequences
/// of one length at most one precedes the other.
pub proof fn lemma_bytes_precede_from_asymmetric(a: Seq<u8>, b: Seq<u8>, i: int)
    ensures
        a.len() == b.len() && crate::digest::bytes_precede_from(a, b, i) ==> !crate::digest::bytes_precede_from(b, a, i),
        !crate::digest::bytes_precede_from(a, a, i),
    decreases a.len() - i,
{
    if 0 <= i < a.len() {
        lemma_bytes_precede_from_asymmetric(a, b, i + 1);
    }
}

/// Shorter successful routes win; equal lengths are ordered by content
/// digest so the choice is deterministic.
pub fn successful_route_rank_is_better(
    candidate_frames: usize,
    candidate_sha256: Digest,
    incumbent_frames: usize,
    incumbent_sha256: Digest,
) -> (r: bool)
    ensures
        r == route_rank_better(candidate_frames, candidate_sha256.0@, incumbent_frames, incumbent_sha256.0@),
{
    candidate_frames < incumbent_frames
        || (candidate_frames == incumbent_frames && candidate_sha256.precedes(&incumbent_sha256))
}

/// A route promotes when its first terminal hit, counted in ticks after the
/// source frame, comes before `promotion_before_tick`.
pub fn route_frames_promote(route_frames: u64, source_frame: u64, promotion_before_tick: u64) -> (r: bool)
    ensures
        r == (route_frames > source_frame && route_frames - source_frame - 1 < promotion_before_tick),
{
    match route_frames.checked_sub(source_frame) {
        Some(route_ticks) => match route_ticks.checked_sub(1) {
            Some(first_hit_tick) => first_hit_tick < promotion_before_tick,
            None => false,
        },
        None => false,
    }
}

/// A successful route retained on disk: its length, its content digest and
/// the campaign authorities it was produced under.
#[derive(Clone, Copy, Debug)]
pub struct RetainedSuccess {
    pub route_frames: usize,
    pub content_sha256: Digest,
    pub execution_authority_sha256: Digest,
    pub objective_sha256: Digest,
    pub root_checkpoint_sha256: Digest,
}

pub open spec fn retained_better(a: RetainedSuccess, b: RetainedSuccess) -> bool {
    route_rank_better(a.route_frames, a.content_sha256.0@, b.route_frames, b.content_sha256.0@)
}

pub open spec fn retained_belongs(
    r: RetainedSuccess,
    execution_authority_sha256: Digest,
    objective_sha256: Digest,
    root_checkpoint_sha256: Digest,
) -> bool {
    &&& r.execution_authority_sha256.0@ == execution_authority_sha256.0@
    &&& r.objective_sha256.0@ == objective_sha256.0@
    &&& r.root_checkpoint_sha256.0@ == root_checkpoint_sha256.0@
}

/// Chooses the best retained success, in the order the artifacts were
/// listed. Fails when any artifact belongs to another campaign; otherwise
/// returns the position of the first candidate no later one beats.
pub fn select_best_retained_success(
    candidates: &[RetainedSuccess],
    execution_authority_sha256: Digest,
    objective_sha256: Digest,
    root_checkpoint_sha256: Digest,
) -> (r: Result<Option<usize>, NativeTacticRouteRunError>)
    ensures
        r is Err <==> exists|i: int| 0 <= i < candidates@.len()
            && !retained_belongs(#[trigger] candidates@[i], execution_authority_sha256, objective_sha256, root_checkpoint_sha256),
        r matches Ok(best) ==> (best is None <==> candidates@.len() == 0),
        r matches Ok(Some(b)) ==> {
            &&& b < candidates@.len()
            &&& forall|j: int| 0 <= j < b ==> retained_better(candidates@[b as int], #[trigger] candidates@[j])
            &&& forall|j: int| b < j < candidates@.len() ==> !retained_better(#[trigger] candidates@[j], candidates@[b as int])
        },
{
    let mut best: Option<usize> = None;
    let mut i: usize = 0;
    while i < candidates.len()
        invariant
            i <= candidates@.len(),
            forall|j: int| 0 <= j < i ==> retained_belongs(#[trigger] candidates@[j], execution_authority_sha256, objective_sha256, root_checkpoint_sha256),
            best is None <==> i == 0,
            best matches Some(b) ==> {
                &&& b < i
                &&& forall|j: int| 0 <= j < b ==> retained_better(candidates@[b as int], #[trigger] candidates@[j])
                &&& forall|j: int| b < j < i ==> !retained_better(#[trigger] candidates@[j], candidates@[b as int])
            },
        decreases candidates@.len() - i,
    {
        let candidate = &candidates[i];
        if !candidate.execution_authority_sha256.same_as(&execution_authority_sha256)
            || !candidate.objective_sha256.same_as(&objective_sha256)
            || !candidate.root_checkpoint_sha256.same_as(&root_checkpoint_sha256)
        {
            return Err(route_message("retained-success artifact is detached from the campaign"));
        }
        match best {
            None => {
                best = Some(i);
            },
            Some(b) => {
                let incumbent = &candidates[b];
                if successful_route_rank_is_better(
                    candidate.route_frames,
                    candidate.content_sha256,
                    incumbent.route_frames,
                    incumbent.content_sha256,
                ) {
                    proof {
                        assert forall|j: int| 0 <= j < i implies retained_better(candidates@[i as int], #[trigger] candidates@[j]) by {
                            lemma_route_rank_transitive_total(candidates@[i as int], candidates@[b as int], candidates@[j]);
                        }
                    }
                    best = Some(i);
                }
            },
        }
        i = i + 1;
    }
    Ok(best)
}

pub proof fn lemma_bytes_precede_from_transitive(a: Seq<u8>, b: Seq<u8>, c: Seq<u8>, i: int)
    requires
        a.len() == b.len() == c.len(),
        crate::digest::bytes_precede_from(a, b, i),
        crate::digest::bytes_precede_from(b, c, i),
    ensures
        crate::digest::bytes_precede_from(a, c, i),
    decreases a.len() - i,
{
    if 0 <= i < a.len() && a[i] == b[i] && b[i] == c[i] {
        lemma_bytes_precede_from_transitive(a, b, c, i + 1);
    }
}

pub proof fn lemma_bytes_precede_from_total(a: Seq<u8>, b: Seq<u8>, i: int)
    requires
        a.len() == b.len(),
        0 <= i <= a.len(),
        !crate::digest::bytes_precede_from(a, b, i),
        !crate::digest::bytes_precede_from(b, a, i),
    ensures
        a.subrange(i, a.len() as int) == b.subrange(i, b.len() as int),
    decreases a.len() - i,
{
    if i < a.len() {
        lemma_bytes_precede_from_total(a, b, i + 1);
        assert(a.subrange(i, a.len() as int) =~= seq![a[i]] + a.subrange(i + 1, a.len() as int));
        assert(b.subrange(i, b.len() as int) =~= seq![b[i]] + b.subrange(i + 1, b.len() as int));
    } else {
        assert(a.subrange(i, a.len() as int) =~= b.subrange(i, b.len() as int));
    }
}

/// If `x` beats `y`, and `y` beats or ties `z`, then `x` beats `z`.
pub proof fn lemma_route_rank_transitive_total(x: RetainedSuccess, y: RetainedSuccess, z: RetainedSuccess)
    requires
        retained_better(x, y),
        retained_better(y, z) || !retained_better(z, y),
    ensures
        retained_better(x, z),
{
    let (xs, ys, zs) = (x.content_sha256.0@, y.content_sha256.0@, z.content_sha256.0@);
    if x.route_frames == y.route_frames && y.route_frames == z.route_frames {
        if crate::digest::bytes_precede(ys, zs) {
            lemma_bytes_precede_from_transitive(xs, ys, zs, 0);
        } else {
            lemma_bytes_precede_from_total(ys, zs, 0);
            assert(ys =~= ys.subrange(0, 32));
            assert(zs =~= zs.subrange(0, 32));
        }
    }
}

/// The number of distinct digests of `ds`.
pub open spec fn distinct_digest_count(ds: Seq<Digest>) -> nat
    decreases ds.len(),
{
    if ds.len() == 0 {
        0
    } else {
        let earlier = ds.drop_last();
        distinct_digest_count(earlier) + if exists|k: int| 0 <= k < earlier.len() && (#[trigger] earlier[k]).0@ == ds.last().0@ {
            0nat
        } else {
            1nat
        }
    }
}

/// The number of distinct training rows that shared corpora hold, given
/// the replay identity of every row of every corpus in order.
pub fn shared_training_unique_rows(replay_identities: &Vec<Digest>) -> (n: usize)
    ensures
        n == distinct_digest_count(replay_identities@),
{
    let ds = replay_identities;
    let mut n: usize = 0;
    let mut i: usize = 0;
    proof {
        assert(ds@.take(0) =~= Seq::<Digest>::empty());
    }
    while i < ds.len()
        invariant
            i <= ds.len(),
            n == distinct_digest_count(ds@.take(i as int)),
            n <= i,
        decreases ds.len() - i,
    {
        let mut seen = false;
        let mut k: usize = 0;
        while k < i
            invariant
                k <= i < ds.len(),
                seen == exists|m: int| 0 <= m < k && (#[trigger] ds@[m]).0@ == ds@[i as int].0@,
            decreases i - k,
        {
            if ds[k].same_as(&ds[i]) {
                seen = true;
            }
            k = k + 1;
        }
        proof {
            crate::decisions::lemma_take_step(ds@, i as int);
            let earlier = ds@.take(i as int);
            let next = ds@.take(i + 1);
            assert(next.drop_last() == earlier);
            assert forall|m: int| 0 <= m < i implies #[trigger] earlier[m] == ds@[m] by {}
            if seen {
                let m = choose|m: int| 0 <= m < i && (#[trigger] ds@[m]).0@ == ds@[i as int].0@;
                assert(earlier[m] == ds@[m]);
            }
            assert(seen == exists|m: int| 0 <= m < earlier.len() && (#[trigger] earlier[m]).0@ == next.last().0@);
        }
        if !seen {
            n = n + 1;
        }
        i = i + 1;
    }
    proof {
        assert(ds@.take(ds@.len() as int) =~= ds@);
    }
    n
}

/// The sealed budgets a stopped seed exhausted, in the order the seed
/// result lists them: decisions, simulated ticks, native ticks, wall time.
pub open spec fn stop_reasons_spec(
    decision_index: u64,
    decisions_per_lane: u64,
    native_ticks: u64,
    simulated_tick_budget: u64,
    native_tick_limit: NativeTacticResourceLimit,
    wall_limit: NativeTacticResourceLimit,
    consumed_wall_micros: u64,
) -> Seq<NativeTacticSeedStopReason> {
    let decisions = if decision_index >= decisions_per_lane {
        seq![NativeTacticSeedStopReason::DecisionBudgetReached]
    } else {
        seq![]
    };
    let simulated = if native_ticks >= simulated_tick_budget {
        seq![NativeTacticSeedStopReason::SimulatedTickBudgetReached]
    } else {
        seq![]
    };
    let native = if native_tick_limit.spec_reached(native_ticks) {
        seq![NativeTacticSeedStopReason::NativeTickBudgetReached]
    } else {
        seq![]
    };
    let wall = if wall_limit.spec_reached(consumed_wall_micros) {
        seq![NativeTacticSeedStopReason::WallBudgetReached]
    } else {
        seq![]
    };
    decisions + simulated + native + wall
}

/// Why a seed stopped: every sealed budget it exhausted, given its decision
/// count, native ticks and consumed wall time. A seed that stopped with no
/// budget exhausted is refused.
pub fn seed_stop_reasons(
    decision_index: u64,
    decisions_per_lane: u64,
    native_ticks: u64,
    simulated_tick_budget: u64,
    native_tick_limit: NativeTacticResourceLimit,
    wall_limit: NativeTacticResourceLimit,
    consumed_wall_micros: u64,
) -> (r: Result<Vec<NativeTacticSeedStopReason>, NativeTacticRouteRunError>)
    ensures
        r is Err <==> stop_reasons_spec(
            decision_index,
            decisions_per_lane,
            native_ticks,
            simulated_tick_budget,
            native_tick_limit,
            wall_limit,
            consumed_wall_micros,
        ).len() == 0,
        r matches Ok(v) ==> v@ == stop_reasons_spec(
            decision_index,
            decisions_per_lane,
            native_ticks,
            simulated_tick_budget,
            native_tick_limit,
            wall_limit,
            consumed_wall_micros,
        ),
{
    let mut reasons: Vec<NativeTacticSeedStopReason> = Vec::new();
    if decision_index >= decisions_per_lane {
        reasons.push(NativeTacticSeedStopReason::DecisionBudgetReached);
    }
    if native_ticks >= simulated_tick_budget {
        reasons.push(NativeTacticSeedStopReason::SimulatedTickBudgetReached);
    }
    if native_tick_limit.reached(native_ticks) {
        reasons.push(NativeTacticSeedStopReason::NativeTickBudgetReached);
    }
    if wall_limit.reached(consumed_wall_micros) {
        reasons.push(NativeTacticSeedStopReason::WallBudgetReached);
    }
    assert(reasons@ =~= stop_reasons_spec(
        decision_index,
        decisions_per_lane,
        native_ticks,
        simulated_tick_budget,
        native_tick_limit,
        wall_limit,
        consumed_wall_micros,
    ));
    if reasons.len() == 0 {
        return Err(route_message("native tactic route stopped without exhausting a sealed budget"));
    }
    Ok(reasons)
}

/// Whether the wall budget alone stopped the seed: the wall limit is
/// reached while decisions, simulated ticks and native ticks all remain.
pub fn seed_wall_budget_reached(
    decision_index: u64,
    decisions_per_lane: u64,
    native_ticks: u64,
    simulated_tick_budget: u64,
    native_tick_limit: NativeTacticResourceLimit,
    wall_limit: NativeTacticResourceLimit,
    consumed_wall_micros: u64,
) -> (r: bool)
    ensures
        r == (wall_limit.spec_reached(consumed_wall_micros) && decision_index < decisions_per_lane && native_ticks
            < simulated_tick_budget && !native_tick_limit.spec_reached(native_ticks)),
{
    wall_limit.reached(consumed_wall_micros) && decision_index < decisions_per_lane && native_ticks < simulated_tick_budget
        && !native_tick_limit.reached(native_ticks)
}

/// The best authenticated tick of a seed whose best graph terminal path
/// spans `root_to_terminal_ticks` ticks from the root: one less than that
/// span, and none where there is no terminal path or the span is zero.
pub fn best_authenticated_tick_of(root_to_terminal_ticks: Option<u64>) -> (r: Option<u64>)
    ensures
        r == match root_to_terminal_ticks {
            Some(ticks) if ticks > 0 => Some((ticks - 1) as u64),
            _ => None,
        },
{
    match root_to_terminal_ticks {
        Some(ticks) => ticks.checked_sub(1),
        None => None,
    }
}

/// A finished seed succeeds when its best authenticated terminal comes
/// before the promotion tick.
pub fn seed_succeeded(best_authenticated_tick: Option<u64>, promotion_before_tick: u64) -> (r: bool)
    ensures
        r == (best_authenticated_tick matches Some(tick) && tick < promotion_before_tick),
{
    match best_authenticated_tick {
        Some(tick) => tick < promotion_before_tick,
        None => false,
    }
}

} // verus!
