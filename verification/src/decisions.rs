//! What a campaign's decision traces show: per-decision facts, and their
//! running tallies over every decision of every seed, in trace order.

use crate::digest::Digest;
use crate::report::{
    NativeTacticLeaseAccounting, NativeTacticSeedStopReason, NativeTacticApplicableAction, NativeTacticDecisionTrace, NativeTacticProposalTrace,
    NativeTacticReachabilityCalibration, NativeTacticSeedResult, TacticSelectionReason,
};
use crate::probe::NativeTacticPolicyUpdateProbe;
use crate::text::text_eq;
use vstd::prelude::*;

verus! {

/// All decisions of `seeds`, seed by seed, each in trace order.
pub open spec fn decisions_of(seeds: Seq<NativeTacticSeedResult>) -> Seq<NativeTacticDecisionTrace>
    decreases seeds.len(),
{
    if seeds.len() == 0 {
        Seq::empty()
    } else {
        decisions_of(seeds.drop_last()) + seeds.last().trace@
    }
}

/// The number of elements of `s` that satisfy `f`.
pub open spec fn count_matching<T>(s: Seq<T>, f: spec_fn(T) -> bool) -> nat
    decreases s.len(),
{
    if s.len() == 0 {
        0
    } else {
        count_matching(s.drop_last(), f) + if f(s.last()) { 1nat } else { 0nat }
    }
}

pub proof fn lemma_take_step<T>(s: Seq<T>, i: int)
    requires
        0 <= i < s.len(),
    ensures
        s.take(i + 1).drop_last() == s.take(i),
        s.take(i + 1).last() == s[i],
        s.take(i + 1).len() == i + 1,
{
    assert(s.take(i + 1).drop_last() =~= s.take(i));
}

pub open spec fn is_terminal_proposal(p: NativeTacticProposalTrace) -> bool {
    p.terminal
}

pub open spec fn is_discarded_proposal(p: NativeTacticProposalTrace) -> bool {
    !p.retained
}

/// The number of proposals of `ps` that are terminal, and that were
/// discarded.
pub fn proposal_counts(ps: &Vec<NativeTacticProposalTrace>) -> (r: (u64, u64))
    ensures
        r.0 == count_matching(ps@, |p: NativeTacticProposalTrace| is_terminal_proposal(p)),
        r.1 == count_matching(ps@, |p: NativeTacticProposalTrace| is_discarded_proposal(p)),
{
    let ghost ft = |p: NativeTacticProposalTrace| is_terminal_proposal(p);
    let ghost fd = |p: NativeTacticProposalTrace| is_discarded_proposal(p);
    let mut terminal: u64 = 0;
    let mut discarded: u64 = 0;
    let mut i: usize = 0;
    while i < ps.len()
        invariant
            i <= ps@.len(),
            ft == (|p: NativeTacticProposalTrace| is_terminal_proposal(p)),
            fd == (|p: NativeTacticProposalTrace| is_discarded_proposal(p)),
            terminal == count_matching(ps@.take(i as int), ft),
            discarded == count_matching(ps@.take(i as int), fd),
            terminal <= i,
            discarded <= i,
        decreases ps@.len() - i,
    {
        proof {
            lemma_take_step(ps@, i as int);
        }
        if ps[i].terminal {
            terminal = terminal + 1;
        }
        if !ps[i].retained {
            discarded = discarded + 1;
        }
        i = i + 1;
    }
    proof {
        assert(ps@.take(ps@.len() as int) =~= ps@);
    }
    (terminal, discarded)
}

/// Some proposal of `ps` carries a predicted goal progress.
pub open spec fn has_action_evidence(ps: Seq<NativeTacticProposalTrace>) -> bool {
    exists|i: int| 0 <= i < ps.len() && #[trigger] ps[i].has_predicted_goal_progress
}

/// Some proposal of `ps` was chosen for goal reachability.
pub open spec fn has_reachability_proposal(ps: Seq<NativeTacticProposalTrace>) -> bool {
    exists|i: int| 0 <= i < ps.len() && #[trigger] ps[i].selection_reason == TacticSelectionReason::GoalReachability
}

pub fn proposal_evidence(ps: &Vec<NativeTacticProposalTrace>) -> (r: (bool, bool))
    ensures
        r.0 == has_action_evidence(ps@),
        r.1 == has_reachability_proposal(ps@),
{
    let mut evidence = false;
    let mut reachability = false;
    let mut i: usize = 0;
    while i < ps.len()
        invariant
            i <= ps@.len(),
            evidence == exists|k: int| 0 <= k < i && #[trigger] ps@[k].has_predicted_goal_progress,
            reachability == exists|k: int|
                0 <= k < i && #[trigger] ps@[k].selection_reason == TacticSelectionReason::GoalReachability,
        decreases ps@.len() - i,
    {
        if ps[i].has_predicted_goal_progress {
            evidence = true;
        }
        if ps[i].selection_reason == TacticSelectionReason::GoalReachability {
            reachability = true;
        }
        i = i + 1;
    }
    (evidence, reachability)
}

/// Both the state before and after the decision were observed.
pub open spec fn has_observed_state(d: NativeTacticDecisionTrace) -> bool {
    !d.before_snapshot_sha256.spec_is_zero() && !d.after_snapshot_sha256.spec_is_zero()
}

pub open spec fn is_described_action(a: NativeTacticApplicableAction) -> bool {
    a.applicable && a.has_descriptor
}

pub open spec fn is_selected_action(a: NativeTacticApplicableAction) -> bool {
    a.selected
}

/// The decision records its whole legal action surface: every listed
/// action is applicable and described, exactly one is selected, and a
/// selected action is the one the decision names.
pub open spec fn has_complete_action_surface(d: NativeTacticDecisionTrace) -> bool {
    let actions = d.applicable_tactics@;
    &&& actions.len() > 0
    &&& forall|i: int| 0 <= i < actions.len() ==> is_described_action(#[trigger] actions[i])
    &&& count_matching(actions, |a: NativeTacticApplicableAction| is_selected_action(a)) == 1
    &&& exists|i: int| 0 <= i < actions.len() && #[trigger] actions[i].selected && actions[i].option_id@ == d.selected_option_id@
}

pub fn complete_action_surface(d: &NativeTacticDecisionTrace) -> (r: bool)
    ensures
        r == has_complete_action_surface(*d),
{
    let actions = &d.applicable_tactics;
    let ghost fs = |a: NativeTacticApplicableAction| is_selected_action(a);
    let mut all_described = true;
    let mut selected: u64 = 0;
    let mut names_selected = false;
    let mut i: usize = 0;
    while i < actions.len()
        invariant
            i <= actions@.len(),
            all_described == forall|k: int| 0 <= k < i ==> is_described_action(#[trigger] actions@[k]),
            fs == (|a: NativeTacticApplicableAction| is_selected_action(a)),
            selected == count_matching(actions@.take(i as int), fs),
            selected <= i,
            names_selected == exists|k: int|
                0 <= k < i && #[trigger] actions@[k].selected && actions@[k].option_id@ == d.selected_option_id@,
        decreases actions@.len() - i,
    {
        proof {
            lemma_take_step(actions@, i as int);
        }
        let action = &actions[i];
        if !(action.applicable && action.has_descriptor) {
            all_described = false;
        }
        proof {
            assert(is_described_action(actions@[i as int]) == (action.applicable && action.has_descriptor));
        }
        if action.selected {
            selected = selected + 1;
            if text_eq(action.option_id.as_str(), d.selected_option_id.as_str()) {
                names_selected = true;
            }
        }
        i = i + 1;
    }
    proof {
        assert(actions@.take(actions@.len() as int) =~= actions@);
    }
    actions.len() > 0 && all_described && selected == 1 && names_selected
}

/// The decision's probes are each valid and form one chain of learner
/// publications ending at the snapshot the decision was made with.
pub open spec fn probe_chain_valid(d: NativeTacticDecisionTrace) -> bool {
    let probes = d.policy_update_probes@;
    &&& forall|i: int| 0 <= i < probes.len() ==> (#[trigger] probes[i]).spec_valid()
    &&& probes.len() > 0 ==> probes.last().after_learner_snapshot_sha256.0@ == d.learner_snapshot_sha256.0@
    &&& forall|i: int| 0 <= i < probes.len() - 1 ==> probes_link(#[trigger] probes[i], probes[i + 1])
}

pub open spec fn probes_link(a: NativeTacticPolicyUpdateProbe, b: NativeTacticPolicyUpdateProbe) -> bool {
    &&& a.after_learner_snapshot_sha256.0@ == b.before_learner_snapshot_sha256.0@
    &&& a.after_replay_rows == b.before_replay_rows
    &&& a.after_model_revision == b.before_model_revision
}

pub open spec fn is_changed_probe(p: NativeTacticPolicyUpdateProbe) -> bool {
    p.selected_action_changed
}

/// Whether the decision's probe chain is valid, and how many of its probes
/// changed the selected action.
pub fn probe_chain(d: &NativeTacticDecisionTrace) -> (r: (bool, u64))
    ensures
        r.0 == probe_chain_valid(*d),
        r.1 == count_matching(d.policy_update_probes@, |p: NativeTacticPolicyUpdateProbe| is_changed_probe(p)),
{
    let probes = &d.policy_update_probes;
    let ghost fc = |p: NativeTacticPolicyUpdateProbe| is_changed_probe(p);
    let mut all_valid = true;
    let mut linked = true;
    let mut changed: u64 = 0;
    let mut i: usize = 0;
    while i < probes.len()
        invariant
            i <= probes@.len(),
            all_valid == forall|k: int| 0 <= k < i ==> (#[trigger] probes@[k]).spec_valid(),
            linked == forall|k: int| 0 <= k < i - 1 ==> probes_link(#[trigger] probes@[k], probes@[k + 1]),
            fc == (|p: NativeTacticPolicyUpdateProbe| is_changed_probe(p)),
            changed == count_matching(probes@.take(i as int), fc),
            changed <= i,
        decreases probes@.len() - i,
    {
        proof {
            lemma_take_step(probes@, i as int);
        }
        if probes[i].validate().is_err() {
            all_valid = false;
        }
        if i > 0 {
            let a = &probes[i - 1];
            let b = &probes[i];
            if !(a.after_learner_snapshot_sha256.same_as(&b.before_learner_snapshot_sha256)
                && a.after_replay_rows == b.before_replay_rows && a.after_model_revision == b.before_model_revision)
            {
                linked = false;
            }
        }
        if probes[i].selected_action_changed {
            changed = changed + 1;
        }
        i = i + 1;
        proof {
            assert(linked == forall|k: int| 0 <= k < i - 1 ==> probes_link(#[trigger] probes@[k], probes@[k + 1]));
        }
    }
    proof {
        assert(probes@.take(probes@.len() as int) =~= probes@);
    }
    let ends_at_decision = probes.len() == 0 || probes[probes.len() - 1].after_learner_snapshot_sha256.same_as(
        &d.learner_snapshot_sha256,
    );
    (all_valid && ends_at_decision && linked, changed)
}

/// The maturity order of calibrations: source transitions, then source
/// state groups, then comparable state groups, then evaluated predictions.
pub open spec fn more_mature(a: NativeTacticReachabilityCalibration, b: NativeTacticReachabilityCalibration) -> bool {
    ||| a.source_transitions > b.source_transitions
    ||| a.source_transitions == b.source_transitions && a.source_state_groups > b.source_state_groups
    ||| a.source_transitions == b.source_transitions && a.source_state_groups == b.source_state_groups
        && a.comparable_state_groups > b.comparable_state_groups
    ||| a.source_transitions == b.source_transitions && a.source_state_groups == b.source_state_groups
        && a.comparable_state_groups == b.comparable_state_groups
        && a.evaluated_action_predictions > b.evaluated_action_predictions
}

pub fn is_more_mature(a: &NativeTacticReachabilityCalibration, b: &NativeTacticReachabilityCalibration) -> (r: bool)
    ensures
        r == more_mature(*a, *b),
{
    if a.source_transitions != b.source_transitions {
        a.source_transitions > b.source_transitions
    } else if a.source_state_groups != b.source_state_groups {
        a.source_state_groups > b.source_state_groups
    } else if a.comparable_state_groups != b.comparable_state_groups {
        a.comparable_state_groups > b.comparable_state_groups
    } else {
        a.evaluated_action_predictions > b.evaluated_action_predictions
    }
}

/// Running totals over decisions. Every count saturates at `u64::MAX`.
#[derive(Clone, Copy, Debug, PartialEq, Eq, Structural)]
pub struct DecisionTally {
    pub decisions: u64,
    pub total_proposals: u64,
    pub terminal_proposals: u64,
    pub selected_terminal_decisions: u64,
    pub discarded_proposals: u64,
    pub decisions_with_observed_state: u64,
    pub decisions_with_complete_action_surface: u64,
    pub decisions_with_native_proposals: u64,
    pub newly_published_training_rows: u64,
    pub policy_update_probes: u64,
    pub valid_policy_update_probes: u64,
    pub selected_action_changes_from_policy_update: u64,
    pub calibration_decisions: u64,
    pub deployment_ready_decisions: u64,
    pub deployment_blocked_decisions: u64,
    pub action_evidence_decisions: u64,
    pub action_policy_authorized_decisions: u64,
    pub action_policy_blocked_decisions: u64,
    pub unproven_action_policy_deployments: u64,
    pub frontier_evidence_decisions: u64,
    pub frontier_policy_authorized_decisions: u64,
    pub frontier_policy_blocked_decisions: u64,
    pub unproven_frontier_policy_deployments: u64,
    pub reachability_primary_decisions: u64,
    pub unproven_reachability_primary_decisions: u64,
    pub most_mature: Option<NativeTacticReachabilityCalibration>,
}

pub open spec fn empty_tally() -> DecisionTally {
    DecisionTally {
        decisions: 0,
        total_proposals: 0,
        terminal_proposals: 0,
        selected_terminal_decisions: 0,
        discarded_proposals: 0,
        decisions_with_observed_state: 0,
        decisions_with_complete_action_surface: 0,
        decisions_with_native_proposals: 0,
        newly_published_training_rows: 0,
        policy_update_probes: 0,
        valid_policy_update_probes: 0,
        selected_action_changes_from_policy_update: 0,
        calibration_decisions: 0,
        deployment_ready_decisions: 0,
        deployment_blocked_decisions: 0,
        action_evidence_decisions: 0,
        action_policy_authorized_decisions: 0,
        action_policy_blocked_decisions: 0,
        unproven_action_policy_deployments: 0,
        frontier_evidence_decisions: 0,
        frontier_policy_authorized_decisions: 0,
        frontier_policy_blocked_decisions: 0,
        unproven_frontier_policy_deployments: 0,
        reachability_primary_decisions: 0,
        unproven_reachability_primary_decisions: 0,
        most_mature: None,
    }
}

/// One more when `b`, saturating.
pub open spec fn bump(n: u64, b: bool) -> u64 {
    if b { n.saturating_add(1) } else { n }
}

pub open spec fn deployment_ready(d: NativeTacticDecisionTrace) -> bool {
    d.goal_reachability_calibration matches Some(c) && c.deployment_ready
}

/// The tally after one more decision `d`.
pub open spec fn tally_step(t: DecisionTally, d: NativeTacticDecisionTrace) -> DecisionTally {
    let proposals = d.proposal_batch@;
    let ready = deployment_ready(d);
    let evidence = has_action_evidence(proposals);
    let reachability_deployed = d.selection_reason == TacticSelectionReason::GoalReachability
        || has_reachability_proposal(proposals);
    let chain = probe_chain_valid(d);
    let probes = d.policy_update_probes@.len() as u64;
    let changed = count_matching(d.policy_update_probes@, |p: NativeTacticPolicyUpdateProbe| is_changed_probe(p)) as u64;
    let calibrated = d.goal_reachability_calibration is Some;
    let frontier_evidence = d.branch_acquisition matches Some(a) && a.goal_reachability_evidence_available;
    let frontier_supported = d.branch_acquisition matches Some(a) && a.goal_reachability_supported;
    let primary = d.selection_reason == TacticSelectionReason::GoalReachability;
    DecisionTally {
        decisions: t.decisions.saturating_add(1),
        total_proposals: t.total_proposals.saturating_add(proposals.len() as u64),
        terminal_proposals: t.terminal_proposals.saturating_add(
            count_matching(proposals, |p: NativeTacticProposalTrace| is_terminal_proposal(p)) as u64,
        ),
        selected_terminal_decisions: bump(t.selected_terminal_decisions, d.terminal),
        discarded_proposals: t.discarded_proposals.saturating_add(
            count_matching(proposals, |p: NativeTacticProposalTrace| is_discarded_proposal(p)) as u64,
        ),
        decisions_with_observed_state: bump(t.decisions_with_observed_state, has_observed_state(d)),
        decisions_with_complete_action_surface: bump(
            t.decisions_with_complete_action_surface,
            has_complete_action_surface(d),
        ),
        decisions_with_native_proposals: bump(t.decisions_with_native_proposals, proposals.len() > 0),
        newly_published_training_rows: t.newly_published_training_rows.saturating_add(d.newly_admitted_training_rows),
        policy_update_probes: t.policy_update_probes.saturating_add(probes),
        valid_policy_update_probes: if chain {
            t.valid_policy_update_probes.saturating_add(probes)
        } else {
            t.valid_policy_update_probes
        },
        selected_action_changes_from_policy_update: if chain {
            t.selected_action_changes_from_policy_update.saturating_add(changed)
        } else {
            t.selected_action_changes_from_policy_update
        },
        calibration_decisions: bump(t.calibration_decisions, calibrated),
        deployment_ready_decisions: bump(t.deployment_ready_decisions, calibrated && ready),
        deployment_blocked_decisions: bump(t.deployment_blocked_decisions, calibrated && !ready),
        action_evidence_decisions: bump(t.action_evidence_decisions, evidence),
        action_policy_authorized_decisions: bump(t.action_policy_authorized_decisions, evidence && ready),
        action_policy_blocked_decisions: bump(t.action_policy_blocked_decisions, evidence && !ready),
        unproven_action_policy_deployments: bump(
            t.unproven_action_policy_deployments,
            reachability_deployed && (!ready || !evidence),
        ),
        frontier_evidence_decisions: bump(t.frontier_evidence_decisions, frontier_evidence),
        frontier_policy_authorized_decisions: bump(
            t.frontier_policy_authorized_decisions,
            frontier_evidence && frontier_supported,
        ),
        frontier_policy_blocked_decisions: bump(
            t.frontier_policy_blocked_decisions,
            frontier_evidence && !frontier_supported,
        ),
        unproven_frontier_policy_deployments: bump(
            t.unproven_frontier_policy_deployments,
            frontier_supported && (!ready || !frontier_evidence),
        ),
        reachability_primary_decisions: bump(t.reachability_primary_decisions, primary),
        unproven_reachability_primary_decisions: bump(t.unproven_reachability_primary_decisions, primary && !ready),
        most_mature: match d.goal_reachability_calibration {
            Some(c) => match t.most_mature {
                None => Some(c),
                Some(m) => if more_mature(c, m) { Some(c) } else { Some(m) },
            },
            None => t.most_mature,
        },
    }
}

/// The tally of decisions `ds`, in order.
pub open spec fn tally_of(ds: Seq<NativeTacticDecisionTrace>) -> DecisionTally
    decreases ds.len(),
{
    if ds.len() == 0 {
        empty_tally()
    } else {
        tally_step(tally_of(ds.drop_last()), ds.last())
    }
}

fn add_if(n: u64, b: bool) -> (r: u64)
    ensures
        r == bump(n, b),
{
    if b { n.saturating_add(1) } else { n }
}

/// The tally after one more decision.
pub fn tally_decision(t: &DecisionTally, d: &NativeTacticDecisionTrace) -> (r: DecisionTally)
    ensures
        r == tally_step(*t, *d),
{
    let proposals = &d.proposal_batch;
    let ready = match &d.goal_reachability_calibration {
        Some(c) => c.deployment_ready,
        None => false,
    };
    let (evidence, reachability_proposal) = proposal_evidence(proposals);
    let reachability_deployed = d.selection_reason == TacticSelectionReason::GoalReachability
        || reachability_proposal;
    let (chain, changed) = probe_chain(d);
    let probes = d.policy_update_probes.len() as u64;
    let calibrated = d.goal_reachability_calibration.is_some();
    let (frontier_evidence, frontier_supported) = match &d.branch_acquisition {
        Some(a) => (a.goal_reachability_evidence_available, a.goal_reachability_supported),
        None => (false, false),
    };
    let primary = d.selection_reason == TacticSelectionReason::GoalReachability;
    let (terminal, discarded) = proposal_counts(proposals);
    let observed = !d.before_snapshot_sha256.is_zero() && !d.after_snapshot_sha256.is_zero();
    let complete = complete_action_surface(d);
    let most_mature = match &d.goal_reachability_calibration {
        Some(c) => match &t.most_mature {
            None => Some(*c),
            Some(m) => if is_more_mature(c, m) { Some(*c) } else { Some(*m) },
        },
        None => t.most_mature,
    };
    DecisionTally {
        decisions: t.decisions.saturating_add(1),
        total_proposals: t.total_proposals.saturating_add(proposals.len() as u64),
        terminal_proposals: t.terminal_proposals.saturating_add(terminal),
        selected_terminal_decisions: add_if(t.selected_terminal_decisions, d.terminal),
        discarded_proposals: t.discarded_proposals.saturating_add(discarded),
        decisions_with_observed_state: add_if(t.decisions_with_observed_state, observed),
        decisions_with_complete_action_surface: add_if(t.decisions_with_complete_action_surface, complete),
        decisions_with_native_proposals: add_if(t.decisions_with_native_proposals, proposals.len() > 0),
        newly_published_training_rows: t.newly_published_training_rows.saturating_add(d.newly_admitted_training_rows),
        policy_update_probes: t.policy_update_probes.saturating_add(probes),
        valid_policy_update_probes: if chain {
            t.valid_policy_update_probes.saturating_add(probes)
        } else {
            t.valid_policy_update_probes
        },
        selected_action_changes_from_policy_update: if chain {
            t.selected_action_changes_from_policy_update.saturating_add(changed)
        } else {
            t.selected_action_changes_from_policy_update
        },
        calibration_decisions: add_if(t.calibration_decisions, calibrated),
        deployment_ready_decisions: add_if(t.deployment_ready_decisions, calibrated && ready),
        deployment_blocked_decisions: add_if(t.deployment_blocked_decisions, calibrated && !ready),
        action_evidence_decisions: add_if(t.action_evidence_decisions, evidence),
        action_policy_authorized_decisions: add_if(t.action_policy_authorized_decisions, evidence && ready),
        action_policy_blocked_decisions: add_if(t.action_policy_blocked_decisions, evidence && !ready),
        unproven_action_policy_deployments: add_if(
            t.unproven_action_policy_deployments,
            reachability_deployed && (!ready || !evidence),
        ),
        frontier_evidence_decisions: add_if(t.frontier_evidence_decisions, frontier_evidence),
        frontier_policy_authorized_decisions: add_if(
            t.frontier_policy_authorized_decisions,
            frontier_evidence && frontier_supported,
        ),
        frontier_policy_blocked_decisions: add_if(
            t.frontier_policy_blocked_decisions,
            frontier_evidence && !frontier_supported,
        ),
        unproven_frontier_policy_deployments: add_if(
            t.unproven_frontier_policy_deployments,
            frontier_supported && (!ready || !frontier_evidence),
        ),
        reachability_primary_decisions: add_if(t.reachability_primary_decisions, primary),
        unproven_reachability_primary_decisions: add_if(t.unproven_reachability_primary_decisions, primary && !ready),
        most_mature,
    }
}

pub proof fn lemma_decisions_of_step(seeds: Seq<NativeTacticSeedResult>, i: int)
    requires
        0 <= i < seeds.len(),
    ensures
        decisions_of(seeds.take(i + 1)) == decisions_of(seeds.take(i)) + seeds[i].trace@,
{
    lemma_take_step(seeds, i);
}

pub proof fn lemma_push_prefix<T>(x: Seq<T>, t: Seq<T>, j: int)
    requires
        0 <= j < t.len(),
    ensures
        (x + t.take(j + 1)).drop_last() == x + t.take(j),
        (x + t.take(j + 1)).last() == t[j],
        (x + t.take(j + 1)).len() == x.len() + j + 1,
{
    assert((x + t.take(j + 1)).drop_last() =~= x + t.take(j));
}

/// The tally of every decision of every seed, in order.
pub fn tally_seeds(seeds: &Vec<NativeTacticSeedResult>) -> (r: DecisionTally)
    ensures
        r == tally_of(decisions_of(seeds@)),
{
    let mut t = DecisionTally {
        decisions: 0,
        total_proposals: 0,
        terminal_proposals: 0,
        selected_terminal_decisions: 0,
        discarded_proposals: 0,
        decisions_with_observed_state: 0,
        decisions_with_complete_action_surface: 0,
        decisions_with_native_proposals: 0,
        newly_published_training_rows: 0,
        policy_update_probes: 0,
        valid_policy_update_probes: 0,
        selected_action_changes_from_policy_update: 0,
        calibration_decisions: 0,
        deployment_ready_decisions: 0,
        deployment_blocked_decisions: 0,
        action_evidence_decisions: 0,
        action_policy_authorized_decisions: 0,
        action_policy_blocked_decisions: 0,
        unproven_action_policy_deployments: 0,
        frontier_evidence_decisions: 0,
        frontier_policy_authorized_decisions: 0,
        frontier_policy_blocked_decisions: 0,
        unproven_frontier_policy_deployments: 0,
        reachability_primary_decisions: 0,
        unproven_reachability_primary_decisions: 0,
        most_mature: None,
    };
    let mut i: usize = 0;
    proof {
        assert(seeds@.take(0) =~= Seq::<NativeTacticSeedResult>::empty());
    }
    while i < seeds.len()
        invariant
            i <= seeds@.len(),
            t == tally_of(decisions_of(seeds@.take(i as int))),
        decreases seeds@.len() - i,
    {
        let trace = &seeds[i].trace;
        let ghost before = decisions_of(seeds@.take(i as int));
        let mut j: usize = 0;
        proof {
            assert(before + trace@.take(0) =~= before);
        }
        while j < trace.len()
            invariant
                j <= trace@.len(),
                t == tally_of(before + trace@.take(j as int)),
            decreases trace@.len() - j,
        {
            proof {
                lemma_push_prefix(before, trace@, j as int);
            }
            t = tally_decision(&t, &trace[j]);
            j = j + 1;
        }
        proof {
            assert(trace@.take(trace@.len() as int) =~= trace@);
            lemma_decisions_of_step(seeds@, i as int);
        }
        i = i + 1;
    }
    proof {
        assert(seeds@.take(seeds@.len() as int) =~= seeds@);
    }
    t
}

/// The number of distinct non-zero learner snapshots that decisions `ds`
/// were made with.
pub open spec fn distinct_snapshots(ds: Seq<NativeTacticDecisionTrace>) -> nat
    decreases ds.len(),
{
    if ds.len() == 0 {
        0
    } else {
        let last = ds.last().learner_snapshot_sha256;
        let earlier = ds.drop_last();
        distinct_snapshots(earlier) + if !last.spec_is_zero() && !(exists|k: int|
            0 <= k < earlier.len() && (#[trigger] earlier[k]).learner_snapshot_sha256.0@ == last.0@) {
            1nat
        } else {
            0nat
        }
    }
}

/// `seen` lists, once each, exactly the non-zero snapshots of `ds`.
pub open spec fn seen_exactly(seen: Seq<Digest>, ds: Seq<NativeTacticDecisionTrace>) -> bool {
    &&& forall|k: int| 0 <= k < seen.len() ==> !(#[trigger] seen[k]).spec_is_zero()
    &&& forall|k: int| 0 <= k < seen.len() ==> exists|j: int|
        0 <= j < ds.len() && (#[trigger] ds[j]).learner_snapshot_sha256.0@ == (#[trigger] seen[k]).0@
    &&& forall|j: int| 0 <= j < ds.len() && !(#[trigger] ds[j]).learner_snapshot_sha256.spec_is_zero() ==> exists|k: int|
        0 <= k < seen.len() && (#[trigger] seen[k]).0@ == ds[j].learner_snapshot_sha256.0@
}

proof fn lemma_known_iff_in_prefix(old_seen: Seq<Digest>, prefix: Seq<NativeTacticDecisionTrace>, snapshot: Digest, known: bool)
    requires
        seen_exactly(old_seen, prefix),
        !snapshot.spec_is_zero(),
        known == exists|k: int| 0 <= k < old_seen.len() && (#[trigger] old_seen[k]).0@ == snapshot.0@,
    ensures
        known == exists|m: int| 0 <= m < prefix.len() && (#[trigger] prefix[m]).learner_snapshot_sha256.0@ == snapshot.0@,
{
    if known {
        let k = choose|k: int| 0 <= k < old_seen.len() && (#[trigger] old_seen[k]).0@ == snapshot.0@;
        assert(exists|m: int| 0 <= m < prefix.len() && (#[trigger] prefix[m]).learner_snapshot_sha256.0@ == old_seen[k].0@);
    } else {
        assert forall|m: int| 0 <= m < prefix.len() implies (#[trigger] prefix[m]).learner_snapshot_sha256.0@ != snapshot.0@ by {
            if prefix[m].learner_snapshot_sha256.0@ == snapshot.0@ {
                assert(!prefix[m].learner_snapshot_sha256.spec_is_zero());
            }
        }
    }
}

proof fn lemma_seen_exactly_step(
    old_seen: Seq<Digest>,
    new_seen: Seq<Digest>,
    prefix: Seq<NativeTacticDecisionTrace>,
    next: Seq<NativeTacticDecisionTrace>,
    known: bool,
)
    requires
        next.len() == prefix.len() + 1,
        forall|m: int| 0 <= m < prefix.len() ==> #[trigger] next[m] == prefix[m],
        seen_exactly(old_seen, prefix),
        known == exists|k: int| 0 <= k < old_seen.len() && (#[trigger] old_seen[k]).0@ == next.last().learner_snapshot_sha256.0@,
        new_seen == if !next.last().learner_snapshot_sha256.spec_is_zero() && !known {
            old_seen.push(next.last().learner_snapshot_sha256)
        } else {
            old_seen
        },
    ensures
        seen_exactly(new_seen, next),
{
    let snapshot = next.last().learner_snapshot_sha256;
    assert forall|k: int| 0 <= k < new_seen.len() implies exists|m: int|
        0 <= m < next.len() && (#[trigger] next[m]).learner_snapshot_sha256.0@ == (#[trigger] new_seen[k]).0@ by {
        if k < old_seen.len() {
            assert(new_seen[k] == old_seen[k]);
            let m = choose|m: int| 0 <= m < prefix.len() && (#[trigger] prefix[m]).learner_snapshot_sha256.0@ == old_seen[k].0@;
            assert(next[m] == prefix[m]);
        } else {
            assert(next[prefix.len() as int] == next.last());
        }
    }
    assert forall|m: int| 0 <= m < next.len() && !(#[trigger] next[m]).learner_snapshot_sha256.spec_is_zero() implies exists|k: int|
        0 <= k < new_seen.len() && (#[trigger] new_seen[k]).0@ == next[m].learner_snapshot_sha256.0@ by {
        if m < prefix.len() {
            assert(next[m] == prefix[m]);
            let k = choose|k: int| 0 <= k < old_seen.len() && (#[trigger] old_seen[k]).0@ == prefix[m].learner_snapshot_sha256.0@;
            assert(new_seen[k] == old_seen[k]);
        } else {
            assert(next[m] == next.last());
            if known {
                let k = choose|k: int| 0 <= k < old_seen.len() && (#[trigger] old_seen[k]).0@ == snapshot.0@;
                assert(new_seen[k] == old_seen[k]);
            } else {
                assert(new_seen[new_seen.len() - 1].0@ == snapshot.0@);
            }
        }
    }
    assert forall|k: int| 0 <= k < new_seen.len() implies !(#[trigger] new_seen[k]).spec_is_zero() by {
        if k < old_seen.len() {
            assert(new_seen[k] == old_seen[k]);
        }
    }
}

proof fn lemma_seen_step(
    old_seen: Seq<Digest>,
    new_seen: Seq<Digest>,
    prefix: Seq<NativeTacticDecisionTrace>,
    next: Seq<NativeTacticDecisionTrace>,
    known: bool,
)
    requires
        next.len() == prefix.len() + 1,
        next.drop_last() == prefix,
        seen_exactly(old_seen, prefix),
        old_seen.len() == distinct_snapshots(prefix),
        known == exists|k: int| 0 <= k < old_seen.len() && (#[trigger] old_seen[k]).0@ == next.last().learner_snapshot_sha256.0@,
        new_seen == if !next.last().learner_snapshot_sha256.spec_is_zero() && !known {
            old_seen.push(next.last().learner_snapshot_sha256)
        } else {
            old_seen
        },
    ensures
        seen_exactly(new_seen, next),
        new_seen.len() == distinct_snapshots(next),
{
    let snapshot = next.last().learner_snapshot_sha256;
    assert forall|m: int| 0 <= m < prefix.len() implies #[trigger] next[m] == prefix[m] by {
        assert(next.drop_last()[m] == next[m]);
    }
    if !snapshot.spec_is_zero() {
        lemma_known_iff_in_prefix(old_seen, prefix, snapshot, known);
    }
    lemma_seen_exactly_step(old_seen, new_seen, prefix, next, known);
}

fn contains_digest(seen: &Vec<Digest>, d: &Digest) -> (r: bool)
    ensures
        r == exists|k: int| 0 <= k < seen@.len() && (#[trigger] seen@[k]).0@ == d.0@,
{
    let mut k: usize = 0;
    while k < seen.len()
        invariant
            k <= seen@.len(),
            forall|m: int| 0 <= m < k ==> (#[trigger] seen@[m]).0@ != d.0@,
        decreases seen@.len() - k,
    {
        if seen[k].same_as(d) {
            return true;
        }
        k = k + 1;
    }
    false
}

/// How many distinct non-zero learner snapshots the decisions of `seeds`
/// were made with.
pub fn distinct_consumed_snapshots(seeds: &Vec<NativeTacticSeedResult>) -> (r: u64)
    ensures
        r == distinct_snapshots(decisions_of(seeds@)),
{
    let mut seen: Vec<Digest> = Vec::new();
    let mut i: usize = 0;
    proof {
        assert(seeds@.take(0) =~= Seq::<NativeTacticSeedResult>::empty());
    }
    while i < seeds.len()
        invariant
            i <= seeds@.len(),
            seen_exactly(seen@, decisions_of(seeds@.take(i as int))),
            seen@.len() == distinct_snapshots(decisions_of(seeds@.take(i as int))),
        decreases seeds@.len() - i,
    {
        let trace = &seeds[i].trace;
        let ghost before = decisions_of(seeds@.take(i as int));
        let mut j: usize = 0;
        proof {
            assert(before + trace@.take(0) =~= before);
        }
        while j < trace.len()
            invariant
                j <= trace@.len(),
                seen_exactly(seen@, before + trace@.take(j as int)),
                seen@.len() == distinct_snapshots(before + trace@.take(j as int)),
            decreases trace@.len() - j,
        {
            let ghost prefix = before + trace@.take(j as int);
            let ghost next = before + trace@.take(j + 1);
            let ghost old_seen = seen@;
            proof {
                lemma_push_prefix(before, trace@, j as int);
            }
            let snapshot = trace[j].learner_snapshot_sha256;
            let known = contains_digest(&seen, &snapshot);
            if !snapshot.is_zero() && !known {
                seen.push(snapshot);
            }
            proof {
                lemma_seen_step(old_seen, seen@, prefix, next, known);
            }
            j = j + 1;
        }
        proof {
            assert(trace@.take(trace@.len() as int) =~= trace@);
            lemma_decisions_of_step(seeds@, i as int);
        }
        i = i + 1;
    }
    proof {
        assert(seeds@.take(seeds@.len() as int) =~= seeds@);
    }
    seen.len() as u64
}

/// Stopped seeds, by why they stopped.
#[derive(Clone, Copy, Debug, PartialEq, Eq, Structural)]
pub struct NativeTacticStopReasonCounts {
    pub decision_budget_reached: u64,
    pub simulated_tick_budget_reached: u64,
    pub native_tick_budget_reached: u64,
    pub wall_budget_reached: u64,
}

/// Running totals over seeds. Every count saturates at `u64::MAX`.
#[derive(Clone, Copy, Debug, PartialEq, Eq, Structural)]
pub struct SeedTally {
    pub selected_terminal_seeds: u64,
    pub post_update_policy_decisions: u64,
    pub selected_action_changes_at_model_change: u64,
    pub stop_reasons: NativeTacticStopReasonCounts,
    pub lease_accounting_complete: bool,
    pub leases: NativeTacticLeaseAccounting,
}

pub open spec fn empty_seed_tally() -> SeedTally {
    SeedTally {
        selected_terminal_seeds: 0,
        post_update_policy_decisions: 0,
        selected_action_changes_at_model_change: 0,
        stop_reasons: NativeTacticStopReasonCounts {
            decision_budget_reached: 0,
            simulated_tick_budget_reached: 0,
            native_tick_budget_reached: 0,
            wall_budget_reached: 0,
        },
        lease_accounting_complete: true,
        leases: NativeTacticLeaseAccounting {
            proposal_dispatches: 0,
            completed_leases: 0,
            retryable_leases: 0,
            cancelled_leases: 0,
            failed_leases: 0,
            unresolved_leases: 0,
        },
    }
}

/// Counting decision `j` of a trace against its predecessor: a decision
/// made with a different learner snapshot than its predecessor follows a
/// model change (and may change the selected action); one made with the
/// predecessor's snapshot still follows an update if that snapshot is not
/// the seed's first.
pub open spec fn model_change_step(acc: (u64, u64), trace: Seq<NativeTacticDecisionTrace>, j: int) -> (u64, u64) {
    let current = trace[j];
    let previous = trace[j - 1];
    if current.learner_snapshot_sha256.0@ != previous.learner_snapshot_sha256.0@ {
        (
            acc.0.saturating_add(1),
            if current.selected_option_id@ != previous.selected_option_id@ {
                acc.1.saturating_add(1)
            } else {
                acc.1
            },
        )
    } else if current.learner_snapshot_sha256.0@ != trace[0].learner_snapshot_sha256.0@ {
        (acc.0.saturating_add(1), acc.1)
    } else {
        acc
    }
}

pub open spec fn model_changes_upto(acc: (u64, u64), trace: Seq<NativeTacticDecisionTrace>, n: int) -> (u64, u64)
    decreases n,
{
    if n <= 1 {
        acc
    } else {
        model_change_step(model_changes_upto(acc, trace, n - 1), trace, n - 1)
    }
}

pub open spec fn stop_step(c: NativeTacticStopReasonCounts, reason: NativeTacticSeedStopReason) -> NativeTacticStopReasonCounts {
    match reason {
        NativeTacticSeedStopReason::DecisionBudgetReached => NativeTacticStopReasonCounts {
            decision_budget_reached: c.decision_budget_reached.saturating_add(1),
            ..c
        },
        NativeTacticSeedStopReason::SimulatedTickBudgetReached => NativeTacticStopReasonCounts {
            simulated_tick_budget_reached: c.simulated_tick_budget_reached.saturating_add(1),
            ..c
        },
        NativeTacticSeedStopReason::NativeTickBudgetReached => NativeTacticStopReasonCounts {
            native_tick_budget_reached: c.native_tick_budget_reached.saturating_add(1),
            ..c
        },
        NativeTacticSeedStopReason::WallBudgetReached => NativeTacticStopReasonCounts {
            wall_budget_reached: c.wall_budget_reached.saturating_add(1),
            ..c
        },
    }
}

pub open spec fn stops_upto(c: NativeTacticStopReasonCounts, reasons: Seq<NativeTacticSeedStopReason>, n: int) -> NativeTacticStopReasonCounts
    decreases n,
{
    if n <= 0 {
        c
    } else {
        stop_step(stops_upto(c, reasons, n - 1), reasons[n - 1])
    }
}

/// How many times `reason` occurs in `reasons`.
pub open spec fn occurrences(reasons: Seq<NativeTacticSeedStopReason>, reason: NativeTacticSeedStopReason) -> nat
    decreases reasons.len(),
{
    if reasons.len() == 0 {
        0
    } else {
        occurrences(reasons.drop_last(), reason) + if reasons.last() == reason { 1nat } else { 0nat }
    }
}

/// How many times `reason` occurs over the stop reasons of all `seeds`.
pub open spec fn seeds_stopped_for(seeds: Seq<NativeTacticSeedResult>, reason: NativeTacticSeedStopReason) -> nat
    decreases seeds.len(),
{
    if seeds.len() == 0 {
        0
    } else {
        seeds_stopped_for(seeds.drop_last(), reason) + occurrences(seeds.last().stop_reasons@, reason)
    }
}

/// The count that `counts` holds for `reason`.
pub open spec fn count_for(counts: NativeTacticStopReasonCounts, reason: NativeTacticSeedStopReason) -> u64 {
    match reason {
        NativeTacticSeedStopReason::DecisionBudgetReached => counts.decision_budget_reached,
        NativeTacticSeedStopReason::SimulatedTickBudgetReached => counts.simulated_tick_budget_reached,
        NativeTacticSeedStopReason::NativeTickBudgetReached => counts.native_tick_budget_reached,
        NativeTacticSeedStopReason::WallBudgetReached => counts.wall_budget_reached,
    }
}

pub open spec fn saturated(x: int) -> u64 {
    if x > u64::MAX { u64::MAX } else { x as u64 }
}

proof fn lemma_stops_upto_counts(
    c: NativeTacticStopReasonCounts,
    reasons: Seq<NativeTacticSeedStopReason>,
    n: int,
    reason: NativeTacticSeedStopReason,
)
    requires
        0 <= n <= reasons.len(),
    ensures
        count_for(stops_upto(c, reasons, n), reason) == saturated(count_for(c, reason) + occurrences(reasons.take(n), reason)),
    decreases n,
{
    if n == 0 {
        assert(reasons.take(0) =~= Seq::<NativeTacticSeedStopReason>::empty());
    } else {
        lemma_stops_upto_counts(c, reasons, n - 1, reason);
        assert(reasons.take(n).drop_last() =~= reasons.take(n - 1));
        assert(reasons.take(n).last() == reasons[n - 1]);
    }
}

/// Each stop-reason count of the seed tally is the number of times that
/// reason occurs over all seeds' stop reasons (saturating at `u64::MAX`):
/// a seed stopped for one reason is never counted under another.
pub proof fn lemma_stop_counts_are_occurrences(seeds: Seq<NativeTacticSeedResult>)
    ensures
        seed_tally_of(seeds).stop_reasons.decision_budget_reached == saturated(
            seeds_stopped_for(seeds, NativeTacticSeedStopReason::DecisionBudgetReached) as int,
        ),
        seed_tally_of(seeds).stop_reasons.simulated_tick_budget_reached == saturated(
            seeds_stopped_for(seeds, NativeTacticSeedStopReason::SimulatedTickBudgetReached) as int,
        ),
        seed_tally_of(seeds).stop_reasons.native_tick_budget_reached == saturated(
            seeds_stopped_for(seeds, NativeTacticSeedStopReason::NativeTickBudgetReached) as int,
        ),
        seed_tally_of(seeds).stop_reasons.wall_budget_reached == saturated(
            seeds_stopped_for(seeds, NativeTacticSeedStopReason::WallBudgetReached) as int,
        ),
    decreases seeds.len(),
{
    if seeds.len() > 0 {
        lemma_stop_counts_are_occurrences(seeds.drop_last());
        let prev = seed_tally_of(seeds.drop_last()).stop_reasons;
        let reasons = seeds.last().stop_reasons@;
        assert(reasons.take(reasons.len() as int) =~= reasons);
        lemma_stops_upto_counts(prev, reasons, reasons.len() as int, NativeTacticSeedStopReason::DecisionBudgetReached);
        lemma_stops_upto_counts(prev, reasons, reasons.len() as int, NativeTacticSeedStopReason::SimulatedTickBudgetReached);
        lemma_stops_upto_counts(prev, reasons, reasons.len() as int, NativeTacticSeedStopReason::NativeTickBudgetReached);
        lemma_stops_upto_counts(prev, reasons, reasons.len() as int, NativeTacticSeedStopReason::WallBudgetReached);
    }
}

pub open spec fn add_leases(a: NativeTacticLeaseAccounting, b: NativeTacticLeaseAccounting) -> NativeTacticLeaseAccounting {
    NativeTacticLeaseAccounting {
        proposal_dispatches: a.proposal_dispatches.saturating_add(b.proposal_dispatches),
        completed_leases: a.completed_leases.saturating_add(b.completed_leases),
        retryable_leases: a.retryable_leases.saturating_add(b.retryable_leases),
        cancelled_leases: a.cancelled_leases.saturating_add(b.cancelled_leases),
        failed_leases: a.failed_leases.saturating_add(b.failed_leases),
        unresolved_leases: a.unresolved_leases.saturating_add(b.unresolved_leases),
    }
}

pub open spec fn has_selected_terminal(trace: Seq<NativeTacticDecisionTrace>) -> bool {
    exists|j: int| 0 <= j < trace.len() && (#[trigger] trace[j]).terminal
}

/// The seed tally after one more seed.
pub open spec fn seed_step(t: SeedTally, seed: NativeTacticSeedResult) -> SeedTally {
    let trace = seed.trace@;
    let changes = model_changes_upto(
        (t.post_update_policy_decisions, t.selected_action_changes_at_model_change),
        trace,
        trace.len() as int,
    );
    SeedTally {
        selected_terminal_seeds: bump(t.selected_terminal_seeds, has_selected_terminal(trace)),
        post_update_policy_decisions: changes.0,
        selected_action_changes_at_model_change: changes.1,
        stop_reasons: stops_upto(t.stop_reasons, seed.stop_reasons@, seed.stop_reasons@.len() as int),
        lease_accounting_complete: t.lease_accounting_complete && seed.graph_metrics is Some,
        leases: match seed.graph_metrics {
            Some(m) => add_leases(t.leases, m.lease_accounting),
            None => t.leases,
        },
    }
}

pub open spec fn seed_tally_of(seeds: Seq<NativeTacticSeedResult>) -> SeedTally
    decreases seeds.len(),
{
    if seeds.len() == 0 {
        empty_seed_tally()
    } else {
        seed_step(seed_tally_of(seeds.drop_last()), seeds.last())
    }
}

fn tally_seed(t: &SeedTally, seed: &NativeTacticSeedResult) -> (r: SeedTally)
    ensures
        r == seed_step(*t, *seed),
{
    let trace = &seed.trace;
    let mut any_terminal = false;
    let mut post = t.post_update_policy_decisions;
    let mut changes = t.selected_action_changes_at_model_change;
    let ghost acc0 = (t.post_update_policy_decisions, t.selected_action_changes_at_model_change);
    let mut j: usize = 0;
    while j < trace.len()
        invariant
            j <= trace@.len(),
            any_terminal == exists|k: int| 0 <= k < j && (#[trigger] trace@[k]).terminal,
            (post, changes) == model_changes_upto(acc0, trace@, j as int),
        decreases trace@.len() - j,
    {
        let d = &trace[j];
        if d.terminal {
            any_terminal = true;
        }
        if j >= 1 {
            let previous = &trace[j - 1];
            if !d.learner_snapshot_sha256.same_as(&previous.learner_snapshot_sha256) {
                post = post.saturating_add(1);
                if !text_eq(d.selected_option_id.as_str(), previous.selected_option_id.as_str()) {
                    changes = changes.saturating_add(1);
                }
            } else if !d.learner_snapshot_sha256.same_as(&trace[0].learner_snapshot_sha256) {
                post = post.saturating_add(1);
            }
        }
        j = j + 1;
    }
    let reasons = &seed.stop_reasons;
    let mut stops = t.stop_reasons;
    let ghost stops0 = t.stop_reasons;
    let mut k: usize = 0;
    while k < reasons.len()
        invariant
            k <= reasons@.len(),
            stops == stops_upto(stops0, reasons@, k as int),
        decreases reasons@.len() - k,
    {
        match reasons[k] {
            NativeTacticSeedStopReason::DecisionBudgetReached => {
                stops.decision_budget_reached = stops.decision_budget_reached.saturating_add(1);
            },
            NativeTacticSeedStopReason::SimulatedTickBudgetReached => {
                stops.simulated_tick_budget_reached = stops.simulated_tick_budget_reached.saturating_add(1);
            },
            NativeTacticSeedStopReason::NativeTickBudgetReached => {
                stops.native_tick_budget_reached = stops.native_tick_budget_reached.saturating_add(1);
            },
            NativeTacticSeedStopReason::WallBudgetReached => {
                stops.wall_budget_reached = stops.wall_budget_reached.saturating_add(1);
            },
        }
        k = k + 1;
    }
    let leases = match &seed.graph_metrics {
        Some(m) => {
            let a = t.leases;
            let b = m.lease_accounting;
            NativeTacticLeaseAccounting {
                proposal_dispatches: a.proposal_dispatches.saturating_add(b.proposal_dispatches),
                completed_leases: a.completed_leases.saturating_add(b.completed_leases),
                retryable_leases: a.retryable_leases.saturating_add(b.retryable_leases),
                cancelled_leases: a.cancelled_leases.saturating_add(b.cancelled_leases),
                failed_leases: a.failed_leases.saturating_add(b.failed_leases),
                unresolved_leases: a.unresolved_leases.saturating_add(b.unresolved_leases),
            }
        },
        None => t.leases,
    };
    SeedTally {
        selected_terminal_seeds: add_if(t.selected_terminal_seeds, any_terminal),
        post_update_policy_decisions: post,
        selected_action_changes_at_model_change: changes,
        stop_reasons: stops,
        lease_accounting_complete: t.lease_accounting_complete && seed.graph_metrics.is_some(),
        leases,
    }
}

/// The seed tally of every seed, in order.
pub fn tally_seed_results(seeds: &Vec<NativeTacticSeedResult>) -> (r: SeedTally)
    ensures
        r == seed_tally_of(seeds@),
{
    let mut t = SeedTally {
        selected_terminal_seeds: 0,
        post_update_policy_decisions: 0,
        selected_action_changes_at_model_change: 0,
        stop_reasons: NativeTacticStopReasonCounts {
            decision_budget_reached: 0,
            simulated_tick_budget_reached: 0,
            native_tick_budget_reached: 0,
            wall_budget_reached: 0,
        },
        lease_accounting_complete: true,
        leases: NativeTacticLeaseAccounting {
            proposal_dispatches: 0,
            completed_leases: 0,
            retryable_leases: 0,
            cancelled_leases: 0,
            failed_leases: 0,
            unresolved_leases: 0,
        },
    };
    let mut i: usize = 0;
    proof {
        assert(seeds@.take(0) =~= Seq::<NativeTacticSeedResult>::empty());
    }
    while i < seeds.len()
        invariant
            i <= seeds@.len(),
            t == seed_tally_of(seeds@.take(i as int)),
        decreases seeds@.len() - i,
    {
        proof {
            lemma_take_step(seeds@, i as int);
        }
        t = tally_seed(&t, &seeds[i]);
        i = i + 1;
    }
    proof {
        assert(seeds@.take(seeds@.len() as int) =~= seeds@);
    }
    t
}

} // verus!
