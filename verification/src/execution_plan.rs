//! The sealed execution plan of a native tactic campaign: which seed runs in
//! which lane and generation, how each lane acquires graph nodes, and the
//! budgets every lane shares.

use crate::bytes::{append_bytes, copy_range, lemma_le_roundtrips, push_u16_le, push_u64_le, range_equals, read_u16_le, read_u64_le};
use crate::digest::{digest_bytes, sha256_of, Digest};
use vstd::bytes::{spec_u16_from_le_bytes, spec_u16_to_le_bytes, spec_u64_from_le_bytes, spec_u64_to_le_bytes};
use crate::error::{route_message, NativeTacticRouteRunError};
use crate::text::text_eq;
use vstd::prelude::*;

verus! {

pub const NATIVE_TACTIC_EXECUTION_PLAN_SCHEMA_V1: &'static str = "dusklight-native-tactic-execution-plan/v1";
pub const NATIVE_TACTIC_EXECUTION_PLAN_SCHEMA_V2: &'static str = "dusklight-native-tactic-execution-plan/v2";
pub const NATIVE_TACTIC_EXECUTION_PLAN_SCHEMA_V3: &'static str = "dusklight-native-tactic-execution-plan/v3";
pub const NATIVE_TACTIC_EXECUTION_PLAN_SCHEMA_V4: &'static str = "dusklight-native-tactic-execution-plan/v4";
pub const NATIVE_TACTIC_EXECUTION_PLAN_FILE: &'static str = "execution-plan.dtp";
pub const PLAN_VERSION: u16 = 4;
pub const PLAN_HEADER_BYTES: usize = 50;
pub const MAXIMUM_PLAN_BYTES: usize = 4194304;
pub const EPISODE_GROUP_STRIDE: u64 = 1000000;
pub const MAX_ROUTE_SEEDS: usize = 256;
pub const MAX_TACTIC_PROPOSALS_PER_DECISION: usize = 16;

/// How candidate tactics are ranked at a decision.
#[derive(Clone, Copy, Debug, PartialEq, Eq, Structural)]
pub enum TacticProposalPolicy {
    Learned,
    FrozenPolicy,
    RandomValid,
    StructuredNonLearning,
}

impl TacticProposalPolicy {
    pub open spec fn spec_uses_learned_selector(self) -> bool {
        self is Learned || self is FrozenPolicy
    }

    pub open spec fn spec_deploys_policy_updates(self) -> bool {
        self is Learned
    }

    /// Whether decisions are ranked by learned action values.
    pub fn uses_learned_selector(self) -> (r: bool)
        ensures
            r == self.spec_uses_learned_selector(),
    {
        match self {
            TacticProposalPolicy::Learned => true,
            TacticProposalPolicy::FrozenPolicy => true,
            _ => false,
        }
    }

    /// Whether learner publications are deployed to later decisions.
    pub fn deploys_policy_updates(self) -> (r: bool)
        ensures
            r == self.spec_deploys_policy_updates(),
    {
        match self {
            TacticProposalPolicy::Learned => true,
            _ => false,
        }
    }
}

/// The action-value estimator a campaign fits.
#[derive(Clone, Copy, Debug, PartialEq, Eq, Structural)]
pub enum TacticValueTreatment {
    ContinuousFittedQForestV1,
    LocalGeneralizedFittedQKnnV1,
}

/// How a selected tactic is executed natively.
#[derive(Clone, Copy, Debug, PartialEq, Eq, Structural)]
pub enum NativeGenericExecutionStrategy {
    NativeController,
    ProgressiveAudit,
}

#[derive(Clone, Copy, Debug, PartialEq, Eq, Structural)]
pub enum NativeTacticLaneRole {
    TerminalSupport,
    RankedExploration,
}

#[derive(Clone, Copy, Debug, PartialEq, Eq, Structural)]
pub enum NativeTacticAcquisitionPlan {
    FixedRank { rank: u64 },
    CyclicSupportAndRanks { cycle_width: u32, ranked_lanes_per_cycle: u32 },
}

/// `x` saturated into the `u64` range.
pub open spec fn saturate_u64(x: int) -> u64 {
    if x > u64::MAX {
        u64::MAX
    } else {
        x as u64
    }
}

impl NativeTacticAcquisitionPlan {
    pub open spec fn well_formed(self) -> bool {
        self matches NativeTacticAcquisitionPlan::CyclicSupportAndRanks { cycle_width, .. } ==> cycle_width > 0
    }

    pub open spec fn spec_rank(self, decision_index: u64) -> u64 {
        match self {
            NativeTacticAcquisitionPlan::FixedRank { rank } => rank,
            NativeTacticAcquisitionPlan::CyclicSupportAndRanks { cycle_width, ranked_lanes_per_cycle } => {
                let lane = decision_index % (cycle_width as u64);
                if lane == 0 {
                    0
                } else {
                    saturate_u64(
                        saturate_u64((decision_index / (cycle_width as u64)) * ranked_lanes_per_cycle) + lane,
                    )
                }
            },
        }
    }

    /// The graph-acquisition rank this lane uses at `decision_index`: a
    /// fixed rank, or, in a cycle, the support rank zero at each cycle start
    /// and consecutive exploration ranks in between.
    pub fn rank(self, decision_index: u64) -> (r: u64)
        requires
            self.well_formed(),
        ensures
            r == self.spec_rank(decision_index),
    {
        match self {
            NativeTacticAcquisitionPlan::FixedRank { rank } => rank,
            NativeTacticAcquisitionPlan::CyclicSupportAndRanks { cycle_width, ranked_lanes_per_cycle } => {
                let width = cycle_width as u64;
                let lane = decision_index % width;
                if lane == 0 {
                    0
                } else {
                    let cycle = decision_index / width;
                    let per = ranked_lanes_per_cycle as u64;
                    let scaled = saturating_mul_u64(cycle, per);
                    scaled.saturating_add(lane)
                }
            },
        }
    }
}

/// In a cycle of width `w` with `k` ranked lanes per cycle, a decision that
/// starts a cycle takes the support rank zero, and any other decision `d`
/// takes the rank after all `k` ranked lanes of the `d / w` earlier cycles:
/// `(d / w) * k + d % w`, below the saturation bound.
pub proof fn lemma_cyclic_rank_follows_earlier_cycles(cycle_width: u32, ranked_lanes_per_cycle: u32, decision_index: u64)
    requires
        cycle_width > 0,
        (decision_index / (cycle_width as u64)) * ranked_lanes_per_cycle + cycle_width <= u64::MAX,
    ensures
        ({
            let plan = NativeTacticAcquisitionPlan::CyclicSupportAndRanks { cycle_width, ranked_lanes_per_cycle };
            let w = cycle_width as u64;
            &&& decision_index % w == 0 ==> plan.spec_rank(decision_index) == 0
            &&& decision_index % w != 0 ==> plan.spec_rank(decision_index) == (decision_index / w)
                * ranked_lanes_per_cycle + decision_index % w
        }),
{
    let w = cycle_width as u64;
    assert(decision_index % w < w) by (nonlinear_arith)
        requires
            w > 0,
    ;
    let c = (decision_index / w) as int;
    let k = ranked_lanes_per_cycle as int;
    assert(c * k >= 0) by (nonlinear_arith)
        requires
            c >= 0,
            k >= 0,
    ;
}

/// In a cycle of width `w` with at least `w - 1` ranked lanes per cycle,
/// exploration ranks grow strictly with the decision index: of two
/// decisions that do not start a cycle, the later one gets the higher
/// rank, so no exploration rank is handed out twice (while ranks stay
/// below the saturation bound).
pub proof fn lemma_cyclic_exploration_ranks_increase(
    cycle_width: u32,
    ranked_lanes_per_cycle: u32,
    earlier: u64,
    later: u64,
)
    requires
        cycle_width > 0,
        ranked_lanes_per_cycle + 1 >= cycle_width,
        earlier < later,
        earlier % (cycle_width as u64) != 0,
        later % (cycle_width as u64) != 0,
        (later / (cycle_width as u64)) * ranked_lanes_per_cycle + cycle_width <= u64::MAX,
    ensures
        ({
            let plan = NativeTacticAcquisitionPlan::CyclicSupportAndRanks { cycle_width, ranked_lanes_per_cycle };
            plan.spec_rank(earlier) < plan.spec_rank(later)
        }),
{
    let w = cycle_width as u64;
    let k = ranked_lanes_per_cycle as int;
    let c1 = (earlier / w) as int;
    let c2 = (later / w) as int;
    let l1 = (earlier % w) as int;
    let l2 = (later % w) as int;
    assert(earlier == c1 * w + l1 && 0 < l1 < w) by (nonlinear_arith)
        requires
            w > 0,
            c1 == earlier / w,
            l1 == earlier % w,
            l1 != 0,
    ;
    assert(later == c2 * w + l2 && 0 < l2 < w) by (nonlinear_arith)
        requires
            w > 0,
            c2 == later / w,
            l2 == later % w,
            l2 != 0,
    ;
    assert(c1 <= c2) by (nonlinear_arith)
        requires
            w > 0,
            earlier < later,
            c1 == earlier / w,
            c2 == later / w,
    ;
    assert(c1 * k <= c2 * k) by (nonlinear_arith)
        requires
            c1 <= c2,
            k >= 0,
    ;
    assert(c1 * k >= 0 && c2 * k >= 0) by (nonlinear_arith)
        requires
            c1 >= 0,
            c2 >= 0,
            k >= 0,
    ;
    if c1 < c2 {
        assert(c1 * k + k <= c2 * k) by (nonlinear_arith)
            requires
                c1 < c2,
                k >= 0,
        ;
    } else {
        assert(c1 == c2);
        assert(l1 < l2) by (nonlinear_arith)
            requires
                earlier == c1 * w + l1,
                later == c2 * w + l2,
                c1 == c2,
                earlier < later,
        ;
    }
}

/// Saturating multiplication.
pub fn saturating_mul_u64(a: u64, b: u64) -> (r: u64)
    ensures
        r == saturate_u64(a * b),
{
    match a.checked_mul(b) {
        Some(v) => v,
        None => u64::MAX,
    }
}

#[derive(Clone, Copy, Debug, PartialEq, Eq, Structural)]
pub enum NativeTacticInterventionPlan {
    NoIntervention,
    DemonstrationFrontierOnce,
}

#[derive(Clone, Copy, Debug, PartialEq, Eq, Structural)]
pub struct NativeTacticLanePlan {
    pub lane_index: usize,
    pub generation_index: usize,
    pub generation_lane_index: usize,
    pub seed: u64,
    pub role: NativeTacticLaneRole,
    pub acquisition: NativeTacticAcquisitionPlan,
    pub epsilon_per_million: u32,
    pub intervention: NativeTacticInterventionPlan,
    pub root_refresh_phase: u32,
    pub episode_group_base: u64,
}

/// Where a counterfactual sibling proposal lands inside its lane.
pub open spec fn counterfactual_offset(
    decision_index: u64,
    proposal_index: usize,
    decisions_per_lane: u64,
    proposal_width_per_decision: usize,
) -> int {
    decisions_per_lane + decision_index * (proposal_width_per_decision - 1) + (proposal_index - 1)
}

impl NativeTacticLanePlan {
    /// The episode lineage of the lane's `episode`-th retained episode.
    pub fn episode_group(&self, episode: u64) -> (r: Result<u64, NativeTacticRouteRunError>)
        ensures
            r is Ok <==> self.episode_group_base + episode <= u64::MAX,
            r matches Ok(v) ==> v == self.episode_group_base + episode,
    {
        match self.episode_group_base.checked_add(episode) {
            Some(v) => Ok(v),
            None => Err(route_message("episode group overflowed")),
        }
    }

    /// Whether the lane's root is refreshed at `episode` under `cadence`.
    pub fn root_refresh_due(&self, episode: u64, cadence: u32) -> (r: bool)
        requires
            cadence > 0,
        ensures
            r == (saturate_u64(episode + self.root_refresh_phase) % (cadence as u64) == 0),
    {
        episode.saturating_add(self.root_refresh_phase as u64) % (cadence as u64) == 0
    }

    /// Whether `episode_group` lies in this lane's lineage range.
    pub fn owns_episode_group(&self, episode_group: u64) -> (r: bool)
        ensures
            r == (self.episode_group_base <= episode_group
                && episode_group < saturate_u64(self.episode_group_base + EPISODE_GROUP_STRIDE)),
    {
        episode_group >= self.episode_group_base
            && episode_group < self.episode_group_base.saturating_add(EPISODE_GROUP_STRIDE)
    }

    /// The censored lineage of sibling `proposal_index` at `decision_index`:
    /// siblings follow the lane's retained episodes and each gets its own id.
    pub fn counterfactual_episode_group(
        &self,
        decision_index: u64,
        proposal_index: usize,
        decisions_per_lane: u64,
        proposal_width_per_decision: usize,
    ) -> (r: Result<u64, NativeTacticRouteRunError>)
        ensures
            r is Ok <==> {
                &&& decision_index < decisions_per_lane
                &&& 0 < proposal_index < proposal_width_per_decision
                &&& counterfactual_offset(decision_index, proposal_index, decisions_per_lane, proposal_width_per_decision) < EPISODE_GROUP_STRIDE
                &&& self.episode_group_base + counterfactual_offset(decision_index, proposal_index, decisions_per_lane, proposal_width_per_decision) <= u64::MAX
            },
            r matches Ok(v) ==> v == self.episode_group_base + counterfactual_offset(
                decision_index,
                proposal_index,
                decisions_per_lane,
                proposal_width_per_decision,
            ),
    {
        if decision_index >= decisions_per_lane || proposal_index == 0 || proposal_index >= proposal_width_per_decision {
            return Err(route_message("counterfactual tactic episode identity is outside its execution plan"));
        }
        let sibling_width = (proposal_width_per_decision - 1) as u64;
        let sibling_index = (proposal_index - 1) as u64;
        let scaled = match decision_index.checked_mul(sibling_width) {
            Some(v) => v,
            None => {
                proof {
                    assert(decision_index * sibling_width >= 0) by (nonlinear_arith);
                }
                return Err(route_message("counterfactual episode group overflowed"));
            },
        };
        let offset = match decisions_per_lane.checked_add(scaled) {
            Some(v) => match v.checked_add(sibling_index) {
                Some(w) => w,
                None => {
                    return Err(route_message("counterfactual episode group overflowed"));
                },
            },
            None => {
                return Err(route_message("counterfactual episode group overflowed"));
            },
        };
        if offset >= EPISODE_GROUP_STRIDE {
            return Err(route_message("counterfactual tactic episode identity exceeds its lane"));
        }
        match self.episode_group_base.checked_add(offset) {
            Some(v) => Ok(v),
            None => Err(route_message("counterfactual episode group overflowed")),
        }
    }
}

#[derive(Clone, Debug, PartialEq, Eq)]
pub struct NativeTacticGenerationPlan {
    pub generation_index: usize,
    pub lane_indices: Vec<usize>,
}

#[derive(Clone, Copy, Debug, PartialEq, Eq, Structural)]
pub enum NativeTacticReplaySharingPlan {
    GenerationBarrier,
    BoundedStaleness { maximum_stale_replay_revisions: u64 },
}

#[derive(Clone, Copy, Debug, PartialEq, Eq, Structural)]
pub enum NativeTacticCheckpointOwnership {
    WorkerLocal,
}

#[derive(Clone, Copy, Debug, PartialEq, Eq, Structural)]
pub enum NativeTacticCheckpointFallback {
    AuthenticatedRootReplay,
}

#[derive(Clone, Copy, Debug, PartialEq, Eq, Structural)]
pub struct NativeTacticCheckpointPlan {
    pub ownership: NativeTacticCheckpointOwnership,
    pub fallback: NativeTacticCheckpointFallback,
    pub cross_decision_direct_restore: bool,
}

#[derive(Clone, Copy, Debug, PartialEq, Eq, Structural)]
pub enum NativeTacticResourceLimit {
    Bounded(u64),
    Unbounded,
}

impl NativeTacticResourceLimit {
    pub open spec fn spec_is_valid(self) -> bool {
        !(self matches NativeTacticResourceLimit::Bounded(limit) && limit == 0)
    }

    pub open spec fn spec_reached(self, consumed: u64) -> bool {
        self matches NativeTacticResourceLimit::Bounded(limit) && consumed >= limit
    }

    /// A bound of zero is not a budget.
    pub fn is_valid(self) -> (r: bool)
        ensures
            r == self.spec_is_valid(),
    {
        match self {
            NativeTacticResourceLimit::Bounded(limit) => limit != 0,
            NativeTacticResourceLimit::Unbounded => true,
        }
    }

    /// Whether `consumed` exhausts the limit.
    pub fn reached(self, consumed: u64) -> (r: bool)
        ensures
            r == self.spec_reached(consumed),
    {
        match self {
            NativeTacticResourceLimit::Bounded(limit) => consumed >= limit,
            NativeTacticResourceLimit::Unbounded => false,
        }
    }
}

#[derive(Clone, Copy, Debug, PartialEq, Eq, Structural)]
pub struct NativeTacticPlanBudgets {
    pub decisions_per_lane: u64,
    pub native_ticks: NativeTacticResourceLimit,
    pub memory_bytes: NativeTacticResourceLimit,
    pub wall_micros: NativeTacticResourceLimit,
}

impl NativeTacticPlanBudgets {
    pub open spec fn limits_valid(self) -> bool {
        &&& self.native_ticks.spec_is_valid()
        &&& self.memory_bytes.spec_is_valid()
        &&& self.wall_micros.spec_is_valid()
    }
}

#[derive(Clone, Debug, PartialEq, Eq)]
pub struct NativeTacticExecutionPlanRequest {
    pub seeds: Vec<u64>,
    pub proposal_policy: TacticProposalPolicy,
    pub value_treatment: TacticValueTreatment,
    pub execution_strategy: NativeGenericExecutionStrategy,
    pub promoted_tactic_registry_sha256: Option<Digest>,
    pub lanes_per_generation: usize,
    pub proposal_width_per_decision: usize,
    pub branch_every_decisions: u64,
    pub refit_every_decisions: u64,
    pub root_refresh_cadence: u32,
    pub epsilon_per_million: u32,
    pub demonstration_chunk_ticks: Option<u32>,
    pub replay_sharing: NativeTacticReplaySharingPlan,
    pub budgets: NativeTacticPlanBudgets,
}

#[derive(Clone, Debug, PartialEq, Eq)]
pub struct NativeTacticExecutionPlan {
    pub schema: String,
    pub seeds: Vec<u64>,
    pub proposal_policy: TacticProposalPolicy,
    pub value_treatment: TacticValueTreatment,
    pub execution_strategy: NativeGenericExecutionStrategy,
    pub promoted_tactic_registry_sha256: Option<Digest>,
    pub proposal_width_per_decision: usize,
    pub branch_every_decisions: u64,
    pub refit_every_decisions: u64,
    pub root_refresh_cadence: u32,
    pub demonstration_chunk_ticks: Option<u32>,
    pub replay_sharing: NativeTacticReplaySharingPlan,
    pub checkpoint: NativeTacticCheckpointPlan,
    pub budgets: NativeTacticPlanBudgets,
    pub generations: Vec<NativeTacticGenerationPlan>,
    pub lanes: Vec<NativeTacticLanePlan>,
}

pub open spec fn optional_digest_is_zero(d: Option<Digest>) -> bool {
    d matches Some(x) && x.spec_is_zero()
}

pub open spec fn strictly_increasing(s: Seq<u64>) -> bool {
    forall|i: int| 0 <= i < s.len() - 1 ==> #[trigger] s[i] < s[i + 1]
}

/// Whether a plan request describes a plan the runner can seal.
pub open spec fn plan_request_valid(r: NativeTacticExecutionPlanRequest) -> bool {
    &&& 0 < r.seeds@.len() <= MAX_ROUTE_SEEDS
    &&& strictly_increasing(r.seeds@)
    &&& 0 < r.lanes_per_generation <= r.seeds@.len()
    &&& 0 < r.proposal_width_per_decision <= MAX_TACTIC_PROPOSALS_PER_DECISION
    &&& 0 < r.branch_every_decisions <= r.budgets.decisions_per_lane
    &&& 0 < r.refit_every_decisions <= r.budgets.decisions_per_lane
    &&& r.root_refresh_cadence > 0
    &&& r.budgets.decisions_per_lane > 0
    &&& r.budgets.limits_valid()
    &&& r.budgets.decisions_per_lane * r.proposal_width_per_decision <= EPISODE_GROUP_STRIDE
    &&& r.epsilon_per_million <= 1000000
    &&& !optional_digest_is_zero(r.promoted_tactic_registry_sha256)
    &&& r.demonstration_chunk_ticks != Some(0u32)
    &&& (r.replay_sharing is BoundedStaleness ==> r.proposal_policy is Learned)
}

pub open spec fn max_usize(a: usize, b: usize) -> usize {
    if a >= b {
        a
    } else {
        b
    }
}

/// The acquisition of the lane at position `gl` of generation `g`.
pub open spec fn planned_acquisition(r: NativeTacticExecutionPlanRequest, g: int, gl: int) -> NativeTacticAcquisitionPlan {
    if r.seeds@.len() == 1 {
        NativeTacticAcquisitionPlan::CyclicSupportAndRanks {
            cycle_width: max_usize(r.lanes_per_generation, 4) as u32,
            ranked_lanes_per_cycle: (max_usize(r.lanes_per_generation, 4) - 1) as u32,
        }
    } else {
        NativeTacticAcquisitionPlan::FixedRank {
            rank: if gl == 0 { 0 } else { (g * (r.lanes_per_generation - 1) + gl) as u64 },
        }
    }
}

pub open spec fn planned_intervention(r: NativeTacticExecutionPlanRequest) -> NativeTacticInterventionPlan {
    if r.demonstration_chunk_ticks is Some {
        NativeTacticInterventionPlan::DemonstrationFrontierOnce
    } else {
        NativeTacticInterventionPlan::NoIntervention
    }
}

/// The lane sealed for seed `i`, the `gl`-th lane of generation `g`.
pub open spec fn planned_lane(r: NativeTacticExecutionPlanRequest, i: int, g: int, gl: int) -> NativeTacticLanePlan {
    NativeTacticLanePlan {
        lane_index: i as usize,
        generation_index: g as usize,
        generation_lane_index: gl as usize,
        seed: r.seeds@[i],
        role: if gl == 0 { NativeTacticLaneRole::TerminalSupport } else { NativeTacticLaneRole::RankedExploration },
        acquisition: planned_acquisition(r, g, gl),
        epsilon_per_million: r.epsilon_per_million,
        intervention: planned_intervention(r),
        root_refresh_phase: (gl % (r.root_refresh_cadence as int)) as u32,
        episode_group_base: (i * EPISODE_GROUP_STRIDE) as u64,
    }
}

/// The lanes of a sealed plan: seeds are cut into consecutive generations of
/// `lanes_per_generation`, the first lane of each being terminal support.
pub open spec fn lanes_match_request(p: NativeTacticExecutionPlan, r: NativeTacticExecutionPlanRequest) -> bool {
    &&& p.lanes@.len() == r.seeds@.len()
    &&& forall|i: int| #![trigger p.lanes@[i]] 0 <= i < p.lanes@.len() ==> {
        let lane = p.lanes@[i];
        &&& lane.generation_lane_index < r.lanes_per_generation
        &&& lane.generation_index * r.lanes_per_generation + lane.generation_lane_index == i
        &&& lane == planned_lane(r, i, lane.generation_index as int, lane.generation_lane_index as int)
    }
}

/// The generations of a sealed plan: generation `g` holds the lanes
/// `g * lanes_per_generation ..` up to the next generation or the last seed.
pub open spec fn generations_match_request(p: NativeTacticExecutionPlan, r: NativeTacticExecutionPlanRequest) -> bool {
    &&& p.generations@.len() * r.lanes_per_generation >= r.seeds@.len()
    &&& (p.generations@.len() - 1) * r.lanes_per_generation < r.seeds@.len()
    &&& forall|g: int| #![trigger p.generations@[g]] 0 <= g < p.generations@.len() ==> {
        let generation = p.generations@[g];
        &&& generation.generation_index == g
        &&& generation.lane_indices@.len() > 0
        &&& forall|k: int| #![trigger generation.lane_indices@[k]] 0 <= k < generation.lane_indices@.len()
            ==> generation.lane_indices@[k] == g * r.lanes_per_generation + k
        &&& g * r.lanes_per_generation + generation.lane_indices@.len() == if (g + 1) * r.lanes_per_generation <= r.seeds@.len() {
            (g + 1) * r.lanes_per_generation
        } else {
            r.seeds@.len() as int
        }
    }
}

/// Every field a sealed plan takes from its request.
pub open spec fn plan_carries_request(p: NativeTacticExecutionPlan, r: NativeTacticExecutionPlanRequest) -> bool {
    &&& p.schema@ == NATIVE_TACTIC_EXECUTION_PLAN_SCHEMA_V4@
    &&& p.seeds@ == r.seeds@
    &&& p.proposal_policy == r.proposal_policy
    &&& p.value_treatment == r.value_treatment
    &&& p.execution_strategy == r.execution_strategy
    &&& p.promoted_tactic_registry_sha256 == r.promoted_tactic_registry_sha256
    &&& p.proposal_width_per_decision == r.proposal_width_per_decision
    &&& p.branch_every_decisions == r.branch_every_decisions
    &&& p.refit_every_decisions == r.refit_every_decisions
    &&& p.root_refresh_cadence == r.root_refresh_cadence
    &&& p.demonstration_chunk_ticks == r.demonstration_chunk_ticks
    &&& p.replay_sharing == r.replay_sharing
    &&& p.checkpoint == (NativeTacticCheckpointPlan {
        ownership: NativeTacticCheckpointOwnership::WorkerLocal,
        fallback: NativeTacticCheckpointFallback::AuthenticatedRootReplay,
        cross_decision_direct_restore: true,
    })
    &&& p.budgets == r.budgets
}

/// Internal consistency of a sealed plan.
pub open spec fn plan_valid(p: NativeTacticExecutionPlan) -> bool {
    &&& p.schema@ == NATIVE_TACTIC_EXECUTION_PLAN_SCHEMA_V4@
    &&& !optional_digest_is_zero(p.promoted_tactic_registry_sha256)
    &&& p.seeds@.len() == p.lanes@.len()
    &&& p.generations@.len() > 0
    &&& p.budgets.limits_valid()
    &&& p.budgets.decisions_per_lane * p.proposal_width_per_decision <= EPISODE_GROUP_STRIDE
    &&& forall|i: int| #![trigger p.lanes@[i]] 0 <= i < p.lanes@.len()
        ==> p.lanes@[i].lane_index == i && p.lanes@[i].seed == p.seeds@[i]
    &&& forall|g: int| #![trigger p.generations@[g]] 0 <= g < p.generations@.len() ==> {
        let generation = p.generations@[g];
        &&& generation.generation_index == g
        &&& generation.lane_indices@.len() > 0
        &&& forall|k: int| #![trigger generation.lane_indices@[k]] 0 <= k < generation.lane_indices@.len() ==> {
            &&& generation.lane_indices@[k] < p.lanes@.len()
            &&& p.lanes@[generation.lane_indices@[k] as int].generation_index == g
        }
    }
}


fn optional_digest_zero(d: &Option<Digest>) -> (r: bool)
    ensures
        r == optional_digest_is_zero(*d),
{
    match d {
        Some(x) => x.is_zero(),
        None => false,
    }
}

fn budgets_limits_valid(b: &NativeTacticPlanBudgets) -> (r: bool)
    ensures
        r == b.limits_valid(),
{
    b.native_ticks.is_valid() && b.memory_bytes.is_valid() && b.wall_micros.is_valid()
}

/// Whether `decisions * width` exceeds the per-lane lineage stride.
fn episode_groups_exceed_stride(decisions: u64, width: usize) -> (r: bool)
    ensures
        r == (decisions * width > EPISODE_GROUP_STRIDE),
{
    match decisions.checked_mul(width as u64) {
        Some(groups) => groups > EPISODE_GROUP_STRIDE,
        None => true,
    }
}

impl NativeTacticExecutionPlan {
    /// Checks the plan's internal consistency: schema, lane numbering and
    /// seeds, non-empty generations whose lanes belong to them, and budgets.
    pub fn validate(&self) -> (r: Result<(), NativeTacticRouteRunError>)
        ensures
            r is Ok <==> plan_valid(*self),
    {
        if !text_eq(self.schema.as_str(), NATIVE_TACTIC_EXECUTION_PLAN_SCHEMA_V4) {
            assert(!plan_valid(*self));
            return Err(route_message("native tactic execution plan is detached"));
        }
        if optional_digest_zero(&self.promoted_tactic_registry_sha256) {
            assert(!plan_valid(*self));
            return Err(route_message("native tactic execution plan is detached"));
        }
        if self.seeds.len() != self.lanes.len() || self.generations.len() == 0 {
            assert(!plan_valid(*self));
            return Err(route_message("native tactic execution plan is detached"));
        }
        if !budgets_limits_valid(&self.budgets) {
            assert(!plan_valid(*self));
            return Err(route_message("native tactic execution plan is detached"));
        }
        if episode_groups_exceed_stride(self.budgets.decisions_per_lane, self.proposal_width_per_decision) {
            assert(!plan_valid(*self));
            return Err(route_message("native tactic execution plan is detached"));
        }
        let mut i: usize = 0;
        while i < self.lanes.len()
            invariant
                self.seeds@.len() == self.lanes@.len(),
                i <= self.lanes@.len(),
                forall|j: int| #![trigger self.lanes@[j]] 0 <= j < i
                    ==> self.lanes@[j].lane_index == j && self.lanes@[j].seed == self.seeds@[j],
            decreases self.lanes@.len() - i,
        {
            if self.lanes[i].lane_index != i || self.lanes[i].seed != self.seeds[i] {
                assert(!(self.lanes@[i as int].lane_index == i && self.lanes@[i as int].seed == self.seeds@[i as int]));
                assert(!plan_valid(*self));
                return Err(route_message("native tactic execution plan is detached"));
            }
            i = i + 1;
        }
        let mut g: usize = 0;
        while g < self.generations.len()
            invariant
                g <= self.generations@.len(),
                forall|h: int| #![trigger self.generations@[h]] 0 <= h < g ==> {
                    let generation = self.generations@[h];
                    &&& generation.generation_index == h
                    &&& generation.lane_indices@.len() > 0
                    &&& forall|k: int| #![trigger generation.lane_indices@[k]] 0 <= k < generation.lane_indices@.len() ==> {
                        &&& generation.lane_indices@[k] < self.lanes@.len()
                        &&& self.lanes@[generation.lane_indices@[k] as int].generation_index == h
                    }
                },
            decreases self.generations@.len() - g,
        {
            let generation = &self.generations[g];
            if generation.generation_index != g || generation.lane_indices.len() == 0 {
                return Err(route_message("native tactic execution plan is detached"));
            }
            let mut k: usize = 0;
            while k < generation.lane_indices.len()
                invariant
                    g < self.generations@.len(),
                    generation == self.generations@[g as int],
                    generation.generation_index == g,
                    k <= generation.lane_indices@.len(),
                    forall|m: int| #![trigger generation.lane_indices@[m]] 0 <= m < k ==> {
                        &&& generation.lane_indices@[m] < self.lanes@.len()
                        &&& self.lanes@[generation.lane_indices@[m] as int].generation_index == g
                    },
                decreases generation.lane_indices@.len() - k,
            {
                let lane_index = generation.lane_indices[k];
                if lane_index >= self.lanes.len() || self.lanes[lane_index].generation_index != generation.generation_index {
                    return Err(route_message("native tactic execution plan is detached"));
                }
                k = k + 1;
            }
            g = g + 1;
        }
        Ok(())
    }

    /// Seals a request into a plan. Seeds are split into consecutive
    /// generations; the first lane of each generation is terminal support
    /// at rank zero and the others explore consecutive ranks (a lone seed
    /// cycles support and ranks instead). Fails exactly when the request is
    /// not valid.
    pub fn build(request: NativeTacticExecutionPlanRequest) -> (r: Result<Self, NativeTacticRouteRunError>)
        ensures
            r is Ok <==> plan_request_valid(request),
            r matches Ok(plan) ==> {
                &&& plan_carries_request(plan, request)
                &&& lanes_match_request(plan, request)
                &&& generations_match_request(plan, request)
                &&& plan_valid(plan)
            },
    {
        if !request_is_valid(&request) {
            return Err(route_message("native tactic execution plan is invalid"));
        }
        let lanes = planned_lanes(&request);
        let generations = planned_generations(request.seeds.len(), request.lanes_per_generation);
        let ghost width = request.lanes_per_generation as int;
        let plan = NativeTacticExecutionPlan {
            schema: NATIVE_TACTIC_EXECUTION_PLAN_SCHEMA_V4.to_owned(),
            seeds: request.seeds,
            proposal_policy: request.proposal_policy,
            value_treatment: request.value_treatment,
            execution_strategy: request.execution_strategy,
            promoted_tactic_registry_sha256: request.promoted_tactic_registry_sha256,
            proposal_width_per_decision: request.proposal_width_per_decision,
            branch_every_decisions: request.branch_every_decisions,
            refit_every_decisions: request.refit_every_decisions,
            root_refresh_cadence: request.root_refresh_cadence,
            demonstration_chunk_ticks: request.demonstration_chunk_ticks,
            replay_sharing: request.replay_sharing,
            checkpoint: NativeTacticCheckpointPlan {
                ownership: NativeTacticCheckpointOwnership::WorkerLocal,
                fallback: NativeTacticCheckpointFallback::AuthenticatedRootReplay,
                cross_decision_direct_restore: true,
            },
            budgets: request.budgets,
            generations,
            lanes,
        };
        proof {
            assert forall|h: int| #![trigger plan.generations@[h]] 0 <= h < plan.generations@.len() implies {
                let generation = plan.generations@[h];
                &&& generation.generation_index == h
                &&& generation.lane_indices@.len() > 0
                &&& forall|k: int| #![trigger generation.lane_indices@[k]] 0 <= k < generation.lane_indices@.len() ==> {
                    &&& generation.lane_indices@[k] < plan.lanes@.len()
                    &&& plan.lanes@[generation.lane_indices@[k] as int].generation_index == h
                }
            } by {
                let generation = plan.generations@[h];
                assert forall|k: int| #![trigger generation.lane_indices@[k]] 0 <= k < generation.lane_indices@.len() implies {
                    &&& generation.lane_indices@[k] < plan.lanes@.len()
                    &&& plan.lanes@[generation.lane_indices@[k] as int].generation_index == h
                } by {
                    let j = generation.lane_indices@[k] as int;
                    assert(j == h * width + k);
                    let lane = plan.lanes@[j];
                    lemma_generation_position_unique(
                        lane.generation_index as int,
                        lane.generation_lane_index as int,
                        h,
                        k,
                        width,
                    );
                }
            }
        }
        match plan.validate() {
            Ok(()) => Ok(plan),
            Err(e) => Err(e),
        }
    }
}

/// A position `a * w + b` with `b < w` names its generation `a` uniquely.
pub proof fn lemma_generation_position_unique(a: int, b: int, c: int, d: int, w: int)
    by (nonlinear_arith)
    requires
        0 <= b < w,
        0 <= d < w,
        a >= 0,
        c >= 0,
        a * w + b == c * w + d,
    ensures
        a == c,
        b == d,
{
}

fn request_is_valid(request: &NativeTacticExecutionPlanRequest) -> (r: bool)
    ensures
        r == plan_request_valid(*request),
{
    let n = request.seeds.len();
    if n == 0 || n > MAX_ROUTE_SEEDS {
        return false;
    }
    let mut i: usize = 1;
    while i < n
        invariant
            n == request.seeds@.len(),
            1 <= i <= n,
            forall|j: int| 0 <= j < i - 1 ==> #[trigger] request.seeds@[j] < request.seeds@[j + 1],
        decreases n - i,
    {
        if request.seeds[i - 1] >= request.seeds[i] {
            return false;
        }
        i = i + 1;
    }
    let width = request.lanes_per_generation;
    let bounded_staleness_requires_learning = match request.replay_sharing {
        NativeTacticReplaySharingPlan::BoundedStaleness { .. } => match request.proposal_policy {
            TacticProposalPolicy::Learned => true,
            _ => false,
        },
        NativeTacticReplaySharingPlan::GenerationBarrier => true,
    };
    !(width == 0
        || width > n
        || request.proposal_width_per_decision == 0
        || request.proposal_width_per_decision > MAX_TACTIC_PROPOSALS_PER_DECISION
        || request.branch_every_decisions == 0
        || request.refit_every_decisions == 0
        || request.root_refresh_cadence == 0
        || request.branch_every_decisions > request.budgets.decisions_per_lane
        || request.refit_every_decisions > request.budgets.decisions_per_lane
        || request.budgets.decisions_per_lane == 0
        || !budgets_limits_valid(&request.budgets)
        || episode_groups_exceed_stride(request.budgets.decisions_per_lane, request.proposal_width_per_decision)
        || request.epsilon_per_million > 1000000
        || optional_digest_zero(&request.promoted_tactic_registry_sha256)
        || request.demonstration_chunk_ticks == Some(0u32)
        || !bounded_staleness_requires_learning)
}

/// The lanes of a valid request, one per seed in order.
fn planned_lanes(request: &NativeTacticExecutionPlanRequest) -> (lanes: Vec<NativeTacticLanePlan>)
    requires
        plan_request_valid(*request),
    ensures
        lanes@.len() == request.seeds@.len(),
        forall|j: int| #![trigger lanes@[j]] 0 <= j < lanes@.len() ==> {
            let lane = lanes@[j];
            &&& lane.generation_lane_index < request.lanes_per_generation
            &&& lane.generation_index * request.lanes_per_generation + lane.generation_lane_index == j
            &&& lane == planned_lane(*request, j, lane.generation_index as int, lane.generation_lane_index as int)
        },
{
    let n = request.seeds.len();
    let width = request.lanes_per_generation;
    let intervention = if request.demonstration_chunk_ticks.is_some() {
        NativeTacticInterventionPlan::DemonstrationFrontierOnce
    } else {
        NativeTacticInterventionPlan::NoIntervention
    };
    let cycle: usize = if width >= 4 { width } else { 4 };
    let mut lanes: Vec<NativeTacticLanePlan> = Vec::new();
    let mut i: usize = 0;
    let mut g: usize = 0;
    let mut gl: usize = 0;
    while i < n
        invariant
            plan_request_valid(*request),
            n == request.seeds@.len(),
            width == request.lanes_per_generation,
            cycle == max_usize(width, 4),
            intervention == planned_intervention(*request),
            i <= n,
            gl < width,
            g <= i,
            g * width + gl == i,
            lanes@.len() == i,
            forall|j: int| #![trigger lanes@[j]] 0 <= j < lanes@.len() ==> {
                let lane = lanes@[j];
                &&& lane.generation_lane_index < width
                &&& lane.generation_index * width + lane.generation_lane_index == j
                &&& lane == planned_lane(*request, j, lane.generation_index as int, lane.generation_lane_index as int)
            },
        decreases n - i,
    {
        let support = gl == 0;
        let acquisition = if n == 1 {
            NativeTacticAcquisitionPlan::CyclicSupportAndRanks {
                cycle_width: cycle as u32,
                ranked_lanes_per_cycle: (cycle - 1) as u32,
            }
        } else {
            let rank: u64 = if support {
                0
            } else {
                proof {
                    assert(g * (width - 1) <= 256 * 256) by (nonlinear_arith)
                        requires
                            g < 256,
                            width <= 256,
                            width > 0,
                    ;
                }
                (g * (width - 1) + gl) as u64
            };
            NativeTacticAcquisitionPlan::FixedRank { rank }
        };
        let lane = NativeTacticLanePlan {
            lane_index: i,
            generation_index: g,
            generation_lane_index: gl,
            seed: request.seeds[i],
            role: if support {
                NativeTacticLaneRole::TerminalSupport
            } else {
                NativeTacticLaneRole::RankedExploration
            },
            acquisition,
            epsilon_per_million: request.epsilon_per_million,
            intervention,
            root_refresh_phase: (gl as u32) % request.root_refresh_cadence,
            episode_group_base: (i as u64) * EPISODE_GROUP_STRIDE,
        };
        lanes.push(lane);
        i = i + 1;
        if gl + 1 == width {
            proof {
                assert((g + 1) * width == g * width + width) by (nonlinear_arith);
                assert(g + 1 <= (g + 1) * width) by (nonlinear_arith)
                    requires
                        width >= 1,
                ;
            }
            gl = 0;
            g = g + 1;
        } else {
            gl = gl + 1;
        }
    }
    lanes
}

/// The generations over `n` lanes cut in runs of `width`.
fn planned_generations(n: usize, width: usize) -> (generations: Vec<NativeTacticGenerationPlan>)
    requires
        0 < width <= n <= MAX_ROUTE_SEEDS,
    ensures
        generations@.len() * width >= n,
        (generations@.len() - 1) * width < n,
        forall|g: int| #![trigger generations@[g]] 0 <= g < generations@.len() ==> {
            let generation = generations@[g];
            &&& generation.generation_index == g
            &&& generation.lane_indices@.len() > 0
            &&& generation.lane_indices@.len() <= width
            &&& forall|k: int| #![trigger generation.lane_indices@[k]] 0 <= k < generation.lane_indices@.len()
                ==> generation.lane_indices@[k] == g * width + k
            &&& g * width + generation.lane_indices@.len() == if (g + 1) * width <= n {
                (g + 1) * width
            } else {
                n as int
            }
        },
{
    let mut generations: Vec<NativeTacticGenerationPlan> = Vec::new();
    let mut start: usize = 0;
    let mut g: usize = 0;
    while start < n
        invariant
            0 < width <= n <= MAX_ROUTE_SEEDS,
            start == g * width,
            start <= n,
            g <= start,
            generations@.len() == g,
            g > 0 ==> (g - 1) * width < n,
            forall|h: int| #![trigger generations@[h]] 0 <= h < generations@.len() ==> {
                let generation = generations@[h];
                &&& generation.generation_index == h
                &&& generation.lane_indices@.len() > 0
                &&& generation.lane_indices@.len() <= width
                &&& forall|k: int| #![trigger generation.lane_indices@[k]] 0 <= k < generation.lane_indices@.len()
                    ==> generation.lane_indices@[k] == h * width + k
                &&& h * width + generation.lane_indices@.len() == if (h + 1) * width <= n {
                    (h + 1) * width
                } else {
                    n as int
                }
            },
        decreases n - start,
    {
        let end: usize = if n - start > width { start + width } else { n };
        let mut lane_indices: Vec<usize> = Vec::new();
        let mut k: usize = start;
        while k < end
            invariant
                start <= k <= end,
                lane_indices@.len() == k - start,
                forall|m: int| #![trigger lane_indices@[m]] 0 <= m < lane_indices@.len() ==> lane_indices@[m] == start + m,
            decreases end - k,
        {
            lane_indices.push(k);
            k = k + 1;
        }
        proof {
            assert((g + 1) * width == g * width + width) by (nonlinear_arith);
        }
        let ghost old_generations = generations@;
        generations.push(NativeTacticGenerationPlan { generation_index: g, lane_indices });
        proof {
            assert forall|h: int| #![trigger generations@[h]] 0 <= h < generations@.len() implies {
                let generation = generations@[h];
                &&& generation.generation_index == h
                &&& generation.lane_indices@.len() > 0
                &&& generation.lane_indices@.len() <= width
                &&& forall|k: int| #![trigger generation.lane_indices@[k]] 0 <= k < generation.lane_indices@.len()
                    ==> generation.lane_indices@[k] == h * width + k
                &&& h * width + generation.lane_indices@.len() == if (h + 1) * width <= n {
                    (h + 1) * width
                } else {
                    n as int
                }
            } by {
                if h < g {
                    assert(generations@[h] == old_generations[h]);
                }
            }
        }
        if end == n {
            proof {
                assert(g + 1 <= (g + 1) * width) by (nonlinear_arith)
                    requires
                        width >= 1,
                ;
            }
            start = end;
            g = g + 1;
            proof {
                assert(g * width >= n);
            }
            return generations;
        }
        proof {
            assert(g + 1 <= (g + 1) * width) by (nonlinear_arith)
                requires
                    width >= 1,
            ;
        }
        start = end;
        g = g + 1;
    }
    generations
}

/// The eight magic bytes `DSKTPN01` that open a plan file.
pub open spec fn plan_magic() -> Seq<u8> {
    seq![0x44u8, 0x53u8, 0x4bu8, 0x54u8, 0x50u8, 0x4eu8, 0x30u8, 0x31u8]
}

fn plan_magic_bytes() -> (v: Vec<u8>)
    ensures
        v@ == plan_magic(),
{
    let v: Vec<u8> = vec![0x44u8, 0x53u8, 0x4bu8, 0x54u8, 0x50u8, 0x4eu8, 0x30u8, 0x31u8];
    assert(v@ =~= plan_magic());
    v
}

/// A plan file: magic, version, payload length, payload identity, payload.
pub open spec fn plan_envelope(payload: Seq<u8>, identity: Seq<u8>) -> Seq<u8> {
    plan_magic() + spec_u16_to_le_bytes(PLAN_VERSION) + spec_u64_to_le_bytes(payload.len() as u64) + identity + payload
}

/// The payload and declared identity of a well-framed plan file.
pub open spec fn plan_envelope_fields(bytes: Seq<u8>) -> Option<(Seq<u8>, Seq<u8>)> {
    if bytes.len() < PLAN_HEADER_BYTES || bytes.len() > MAXIMUM_PLAN_BYTES
        || bytes.subrange(0, 8) != plan_magic()
        || spec_u16_from_le_bytes(bytes.subrange(8, 10)) != PLAN_VERSION
        || spec_u64_from_le_bytes(bytes.subrange(10, 18)) != bytes.len() - PLAN_HEADER_BYTES
    {
        None
    } else {
        Some((bytes.subrange(PLAN_HEADER_BYTES as int, bytes.len() as int), bytes.subrange(18, 50)))
    }
}

/// Frames a serialized plan for durable storage and returns the file bytes
/// with the plan identity, the SHA-256 digest of the payload.
pub fn seal_plan_envelope(payload: &[u8]) -> (r: (Vec<u8>, Digest))
    ensures
        r.1.0@ == sha256_of(payload@),
        r.0@ == plan_envelope(payload@, r.1.0@),
{
    let identity = digest_bytes(payload);
    let mut envelope = plan_magic_bytes();
    push_u16_le(&mut envelope, PLAN_VERSION);
    push_u64_le(&mut envelope, payload.len() as u64);
    let identity_bytes = identity.to_vec();
    append_bytes(&mut envelope, identity_bytes.as_slice());
    append_bytes(&mut envelope, payload);
    (envelope, identity)
}

/// Opens a plan file: checks its framing and that the payload hashes to the
/// declared identity, and returns the payload with that identity.
pub fn open_plan_envelope(bytes: &[u8]) -> (r: Result<(Vec<u8>, Digest), NativeTacticRouteRunError>)
    ensures
        r is Ok <==> (plan_envelope_fields(bytes@) matches Some((payload, identity))
            && identity == sha256_of(payload)),
        r matches Ok((payload, identity)) ==> plan_envelope_fields(bytes@) == Some((payload@, identity.0@)),
{
    let n = bytes.len();
    if n < PLAN_HEADER_BYTES || n > MAXIMUM_PLAN_BYTES {
        return Err(route_message("native tactic execution plan envelope is invalid"));
    }
    let magic = plan_magic_bytes();
    let version = read_u16_le(bytes, 8);
    let payload_len = read_u64_le(bytes, 10);
    if !range_equals(bytes, 0, magic.as_slice()) || version != PLAN_VERSION || payload_len != (n - PLAN_HEADER_BYTES) as u64 {
        return Err(route_message("native tactic execution plan envelope is invalid"));
    }
    let expected_bytes = copy_range(bytes, 18, 50);
    let payload = copy_range(bytes, PLAN_HEADER_BYTES, n);
    let actual = digest_bytes(payload.as_slice());
    let actual_bytes = actual.to_vec();
    if !range_equals(expected_bytes.as_slice(), 0, actual_bytes.as_slice()) {
        proof {
            assert(expected_bytes@.subrange(0, 32) =~= expected_bytes@);
        }
        return Err(route_message("native tactic execution plan identity is invalid"));
    }
    proof {
        assert(expected_bytes@.subrange(0, 32) =~= expected_bytes@);
    }
    Ok((payload, actual))
}

/// Opening a sealed plan file gives back exactly the payload and identity
/// that were sealed, for every payload that fits the plan size bound.
pub proof fn lemma_plan_envelope_round_trip(payload: Seq<u8>, identity: Seq<u8>)
    requires
        identity.len() == 32,
        payload.len() + PLAN_HEADER_BYTES <= MAXIMUM_PLAN_BYTES,
    ensures
        plan_envelope_fields(plan_envelope(payload, identity)) == Some((payload, identity)),
{
    lemma_le_roundtrips();
    let bytes = plan_envelope(payload, identity);
    let version = spec_u16_to_le_bytes(PLAN_VERSION);
    let length = spec_u64_to_le_bytes(payload.len() as u64);
    assert(bytes.subrange(0, 8) =~= plan_magic());
    assert(bytes.subrange(8, 10) =~= version);
    assert(bytes.subrange(10, 18) =~= length);
    assert(bytes.subrange(18, 50) =~= identity);
    assert(bytes.subrange(PLAN_HEADER_BYTES as int, bytes.len() as int) =~= payload);
}

} // verus!
