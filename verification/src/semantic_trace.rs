//! The semantics of a decision trace: what each decision decided, without
//! the physical fields that record how one run executed it (wall time,
//! worker placement, restore source, frontier restorability and the
//! scheduler's run-specific graph, queue and decision seals).

use crate::digest::Digest;
use crate::probe::NativeTacticPolicyUpdateProbe;
use crate::report::{
    NativeTacticApplicableAction, NativeTacticBranchAcquisition, NativeTacticDecisionTrace,
    NativeTacticProposalTrace, NativeTacticReachabilityCalibration, NativeTacticSchedulerDecision,
    TacticSelectionReason,
};
use crate::text::text_eq;
use vstd::prelude::*;

verus! {

/// The scheduler's choice without its run-specific seals.
#[derive(Clone, Debug)]
pub struct NativeTacticSchedulerSemantics {
    pub learner_model_sha256: Digest,
    pub selected_expansion: String,
}

/// One decision without its physical fields.
#[derive(Clone, Debug)]
pub struct NativeTacticSemanticDecision {
    pub decision_index: u64,
    pub result_admission_schema: String,
    pub before_snapshot_sha256: Digest,
    pub after_snapshot_sha256: Digest,
    pub applicable_tactics: Vec<NativeTacticApplicableAction>,
    pub selected_option_id: String,
    pub selection_reason: TacticSelectionReason,
    pub proposal_batch: Vec<NativeTacticProposalTrace>,
    pub newly_admitted_training_rows: u64,
    pub learner_snapshot_sha256: Digest,
    pub policy_update_probes: Vec<NativeTacticPolicyUpdateProbe>,
    pub terminal: bool,
    pub goal_reachability_calibration: Option<NativeTacticReachabilityCalibration>,
    pub branch_acquisition: Option<NativeTacticBranchAcquisition>,
    pub scheduler_decision: Option<NativeTacticSchedulerSemantics>,
}

pub open spec fn same_action(a: NativeTacticApplicableAction, b: NativeTacticApplicableAction) -> bool {
    &&& a.option_id@ == b.option_id@
    &&& a.applicable == b.applicable
    &&& a.has_descriptor == b.has_descriptor
    &&& a.selected == b.selected
}

pub open spec fn same_actions(a: Seq<NativeTacticApplicableAction>, b: Seq<NativeTacticApplicableAction>) -> bool {
    &&& a.len() == b.len()
    &&& forall|i: int| 0 <= i < a.len() ==> #[trigger] same_action(a[i], b[i])
}

pub open spec fn same_probe(p: NativeTacticPolicyUpdateProbe, q: NativeTacticPolicyUpdateProbe) -> bool {
    &&& p.state_sha256.0@ == q.state_sha256.0@
    &&& p.before_action_surface_sha256.0@ == q.before_action_surface_sha256.0@
    &&& p.after_action_surface_sha256.0@ == q.after_action_surface_sha256.0@
    &&& p.before_learner_snapshot_sha256.0@ == q.before_learner_snapshot_sha256.0@
    &&& p.after_learner_snapshot_sha256.0@ == q.after_learner_snapshot_sha256.0@
    &&& p.before_replay_rows == q.before_replay_rows
    &&& p.after_replay_rows == q.after_replay_rows
    &&& p.before_model_revision == q.before_model_revision
    &&& p.after_model_revision == q.after_model_revision
    &&& p.before_selected_option_id@ == q.before_selected_option_id@
    &&& p.after_selected_option_id@ == q.after_selected_option_id@
    &&& p.before_selection_reason == q.before_selection_reason
    &&& p.after_selection_reason == q.after_selection_reason
    &&& p.selected_action_changed == q.selected_action_changed
}

pub open spec fn same_probes(a: Seq<NativeTacticPolicyUpdateProbe>, b: Seq<NativeTacticPolicyUpdateProbe>) -> bool {
    &&& a.len() == b.len()
    &&& forall|i: int| 0 <= i < a.len() ==> #[trigger] same_probe(a[i], b[i])
}

/// Two scheduler choices agree once their seals are set aside.
pub open spec fn same_scheduler_choice(
    a: Option<NativeTacticSchedulerDecision>,
    b: Option<NativeTacticSchedulerDecision>,
) -> bool {
    match (a, b) {
        (None, None) => true,
        (Some(x), Some(y)) => x.learner_model_sha256.0@ == y.learner_model_sha256.0@ && x.selected_expansion@
            == y.selected_expansion@,
        _ => false,
    }
}

/// Two decisions decided the same: every field but the physical ones
/// agrees.
pub open spec fn same_semantics(a: NativeTacticDecisionTrace, b: NativeTacticDecisionTrace) -> bool {
    &&& a.decision_index == b.decision_index
    &&& a.result_admission_schema@ == b.result_admission_schema@
    &&& a.before_snapshot_sha256.0@ == b.before_snapshot_sha256.0@
    &&& a.after_snapshot_sha256.0@ == b.after_snapshot_sha256.0@
    &&& same_actions(a.applicable_tactics@, b.applicable_tactics@)
    &&& a.selected_option_id@ == b.selected_option_id@
    &&& a.selection_reason == b.selection_reason
    &&& a.proposal_batch@ == b.proposal_batch@
    &&& a.newly_admitted_training_rows == b.newly_admitted_training_rows
    &&& a.learner_snapshot_sha256.0@ == b.learner_snapshot_sha256.0@
    &&& same_probes(a.policy_update_probes@, b.policy_update_probes@)
    &&& a.terminal == b.terminal
    &&& a.goal_reachability_calibration == b.goal_reachability_calibration
    &&& a.branch_acquisition == b.branch_acquisition
    &&& same_scheduler_choice(a.scheduler_decision, b.scheduler_decision)
}

/// Two traces decided the same, decision by decision.
pub open spec fn same_semantic_trace(a: Seq<NativeTacticDecisionTrace>, b: Seq<NativeTacticDecisionTrace>) -> bool {
    &&& a.len() == b.len()
    &&& forall|i: int| 0 <= i < a.len() ==> #[trigger] same_semantics(a[i], b[i])
}

/// `s` holds exactly the semantic fields of `d`.
pub open spec fn holds_semantics(s: NativeTacticSemanticDecision, d: NativeTacticDecisionTrace) -> bool {
    &&& s.decision_index == d.decision_index
    &&& s.result_admission_schema@ == d.result_admission_schema@
    &&& s.before_snapshot_sha256.0@ == d.before_snapshot_sha256.0@
    &&& s.after_snapshot_sha256.0@ == d.after_snapshot_sha256.0@
    &&& same_actions(s.applicable_tactics@, d.applicable_tactics@)
    &&& s.selected_option_id@ == d.selected_option_id@
    &&& s.selection_reason == d.selection_reason
    &&& s.proposal_batch@ == d.proposal_batch@
    &&& s.newly_admitted_training_rows == d.newly_admitted_training_rows
    &&& s.learner_snapshot_sha256.0@ == d.learner_snapshot_sha256.0@
    &&& same_probes(s.policy_update_probes@, d.policy_update_probes@)
    &&& s.terminal == d.terminal
    &&& s.goal_reachability_calibration == d.goal_reachability_calibration
    &&& s.branch_acquisition == d.branch_acquisition
    &&& match (s.scheduler_decision, d.scheduler_decision) {
        (None, None) => true,
        (Some(x), Some(y)) => x.learner_model_sha256.0@ == y.learner_model_sha256.0@ && x.selected_expansion@
            == y.selected_expansion@,
        _ => false,
    }
}

/// `b` is `a` run differently: only its physical fields, and the seals of
/// its scheduler choice, may differ.
pub open spec fn physical_variant(a: NativeTacticDecisionTrace, b: NativeTacticDecisionTrace) -> bool {
    &&& b == (NativeTacticDecisionTrace {
        cumulative_wall_micros: b.cumulative_wall_micros,
        checkpoint_owner_worker_slot: b.checkpoint_owner_worker_slot,
        proposal_worker_slots: b.proposal_worker_slots,
        restore_source: b.restore_source,
        directly_restorable_native_frontiers: b.directly_restorable_native_frontiers,
        replay_only_frontiers: b.replay_only_frontiers,
        scheduler_decision: b.scheduler_decision,
        ..a
    })
    &&& match (a.scheduler_decision, b.scheduler_decision) {
        (None, None) => true,
        (Some(x), Some(y)) => y == (NativeTacticSchedulerDecision {
            graph_sha256: y.graph_sha256,
            queue_sha256: y.queue_sha256,
            decision_sha256: y.decision_sha256,
            ..x
        }),
        _ => false,
    }
}

/// A trace run differently, decision by decision only in where, when and
/// from what each decision was executed and in the scheduler's seals, has
/// the same semantics as the original.
pub proof fn lemma_physical_variants_share_semantics(a: Seq<NativeTacticDecisionTrace>, b: Seq<NativeTacticDecisionTrace>)
    requires
        a.len() == b.len(),
        forall|i: int| 0 <= i < a.len() ==> #[trigger] physical_variant(a[i], b[i]),
    ensures
        same_semantic_trace(a, b),
{
    assert forall|i: int| 0 <= i < a.len() implies #[trigger] same_semantics(a[i], b[i]) by {
        assert(physical_variant(a[i], b[i]));
        assert forall|k: int| 0 <= k < a[i].applicable_tactics@.len() implies #[trigger] same_action(
            a[i].applicable_tactics@[k],
            b[i].applicable_tactics@[k],
        ) by {}
        assert forall|k: int| 0 <= k < a[i].policy_update_probes@.len() implies #[trigger] same_probe(
            a[i].policy_update_probes@[k],
            b[i].policy_update_probes@[k],
        ) by {}
    }
}

fn copy_action(a: &NativeTacticApplicableAction) -> (r: NativeTacticApplicableAction)
    ensures
        same_action(r, *a),
{
    NativeTacticApplicableAction {
        option_id: a.option_id.clone(),
        applicable: a.applicable,
        has_descriptor: a.has_descriptor,
        selected: a.selected,
    }
}

fn copy_probe(p: &NativeTacticPolicyUpdateProbe) -> (r: NativeTacticPolicyUpdateProbe)
    ensures
        same_probe(r, *p),
{
    NativeTacticPolicyUpdateProbe {
        state_sha256: p.state_sha256,
        before_action_surface_sha256: p.before_action_surface_sha256,
        after_action_surface_sha256: p.after_action_surface_sha256,
        before_learner_snapshot_sha256: p.before_learner_snapshot_sha256,
        after_learner_snapshot_sha256: p.after_learner_snapshot_sha256,
        before_replay_rows: p.before_replay_rows,
        after_replay_rows: p.after_replay_rows,
        before_model_revision: p.before_model_revision,
        after_model_revision: p.after_model_revision,
        before_selected_option_id: p.before_selected_option_id.clone(),
        after_selected_option_id: p.after_selected_option_id.clone(),
        before_selection_reason: p.before_selection_reason,
        after_selection_reason: p.after_selection_reason,
        selected_action_changed: p.selected_action_changed,
    }
}

fn copy_actions(a: &Vec<NativeTacticApplicableAction>) -> (r: Vec<NativeTacticApplicableAction>)
    ensures
        same_actions(r@, a@),
{
    let mut r: Vec<NativeTacticApplicableAction> = Vec::new();
    let mut i: usize = 0;
    while i < a.len()
        invariant
            i <= a@.len(),
            r@.len() == i,
            forall|k: int| 0 <= k < i ==> #[trigger] same_action(r@[k], a@[k]),
        decreases a@.len() - i,
    {
        r.push(copy_action(&a[i]));
        i = i + 1;
    }
    r
}

fn copy_probes(a: &Vec<NativeTacticPolicyUpdateProbe>) -> (r: Vec<NativeTacticPolicyUpdateProbe>)
    ensures
        same_probes(r@, a@),
{
    let mut r: Vec<NativeTacticPolicyUpdateProbe> = Vec::new();
    let mut i: usize = 0;
    while i < a.len()
        invariant
            i <= a@.len(),
            r@.len() == i,
            forall|k: int| 0 <= k < i ==> #[trigger] same_probe(r@[k], a@[k]),
        decreases a@.len() - i,
    {
        r.push(copy_probe(&a[i]));
        i = i + 1;
    }
    r
}

fn copy_proposals(a: &Vec<NativeTacticProposalTrace>) -> (r: Vec<NativeTacticProposalTrace>)
    ensures
        r@ == a@,
{
    let mut r: Vec<NativeTacticProposalTrace> = Vec::new();
    let mut i: usize = 0;
    while i < a.len()
        invariant
            i <= a@.len(),
            r@ == a@.take(i as int),
        decreases a@.len() - i,
    {
        r.push(a[i]);
        i = i + 1;
        assert(r@ =~= a@.take(i as int));
    }
    assert(a@.take(a@.len() as int) =~= a@);
    r
}

/// The semantic fields of one decision.
pub fn semantic_decision(d: &NativeTacticDecisionTrace) -> (s: NativeTacticSemanticDecision)
    ensures
        holds_semantics(s, *d),
{
    let scheduler_decision = match &d.scheduler_decision {
        Some(x) => Some(
            NativeTacticSchedulerSemantics {
                learner_model_sha256: x.learner_model_sha256,
                selected_expansion: x.selected_expansion.clone(),
            },
        ),
        None => None,
    };
    NativeTacticSemanticDecision {
        decision_index: d.decision_index,
        result_admission_schema: d.result_admission_schema.clone(),
        before_snapshot_sha256: d.before_snapshot_sha256,
        after_snapshot_sha256: d.after_snapshot_sha256,
        applicable_tactics: copy_actions(&d.applicable_tactics),
        selected_option_id: d.selected_option_id.clone(),
        selection_reason: d.selection_reason,
        proposal_batch: copy_proposals(&d.proposal_batch),
        newly_admitted_training_rows: d.newly_admitted_training_rows,
        learner_snapshot_sha256: d.learner_snapshot_sha256,
        policy_update_probes: copy_probes(&d.policy_update_probes),
        terminal: d.terminal,
        goal_reachability_calibration: d.goal_reachability_calibration,
        branch_acquisition: d.branch_acquisition,
        scheduler_decision,
    }
}

/// The semantic trace of `trace`: each decision without its physical
/// fields, in order.
pub fn semantic_trace(trace: &Vec<NativeTacticDecisionTrace>) -> (s: Vec<NativeTacticSemanticDecision>)
    ensures
        s@.len() == trace@.len(),
        forall|i: int| 0 <= i < trace@.len() ==> #[trigger] holds_semantics(s@[i], trace@[i]),
{
    let mut s: Vec<NativeTacticSemanticDecision> = Vec::new();
    let mut i: usize = 0;
    while i < trace.len()
        invariant
            i <= trace@.len(),
            s@.len() == i,
            forall|k: int| 0 <= k < i ==> #[trigger] holds_semantics(s@[k], trace@[k]),
        decreases trace@.len() - i,
    {
        s.push(semantic_decision(&trace[i]));
        i = i + 1;
    }
    s
}

fn actions_agree(a: &Vec<NativeTacticApplicableAction>, b: &Vec<NativeTacticApplicableAction>) -> (r: bool)
    ensures
        r == same_actions(a@, b@),
{
    if a.len() != b.len() {
        return false;
    }
    let mut i: usize = 0;
    while i < a.len()
        invariant
            i <= a@.len(),
            a@.len() == b@.len(),
            forall|k: int| 0 <= k < i ==> #[trigger] same_action(a@[k], b@[k]),
        decreases a@.len() - i,
    {
        let x = &a[i];
        let y = &b[i];
        if !text_eq(x.option_id.as_str(), y.option_id.as_str()) || x.applicable != y.applicable
            || x.has_descriptor != y.has_descriptor || x.selected != y.selected {
            assert(!same_action(a@[i as int], b@[i as int]));
            return false;
        }
        i = i + 1;
    }
    true
}

fn probe_agrees(p: &NativeTacticPolicyUpdateProbe, q: &NativeTacticPolicyUpdateProbe) -> (r: bool)
    ensures
        r == same_probe(*p, *q),
{
    p.state_sha256.same_as(&q.state_sha256) && p.before_action_surface_sha256.same_as(
        &q.before_action_surface_sha256,
    ) && p.after_action_surface_sha256.same_as(&q.after_action_surface_sha256)
        && p.before_learner_snapshot_sha256.same_as(&q.before_learner_snapshot_sha256)
        && p.after_learner_snapshot_sha256.same_as(&q.after_learner_snapshot_sha256)
        && p.before_replay_rows == q.before_replay_rows && p.after_replay_rows == q.after_replay_rows
        && p.before_model_revision == q.before_model_revision && p.after_model_revision == q.after_model_revision
        && text_eq(p.before_selected_option_id.as_str(), q.before_selected_option_id.as_str()) && text_eq(
        p.after_selected_option_id.as_str(),
        q.after_selected_option_id.as_str(),
    ) && p.before_selection_reason == q.before_selection_reason
        && p.after_selection_reason == q.after_selection_reason
        && p.selected_action_changed == q.selected_action_changed
}

fn probes_agree(a: &Vec<NativeTacticPolicyUpdateProbe>, b: &Vec<NativeTacticPolicyUpdateProbe>) -> (r: bool)
    ensures
        r == same_probes(a@, b@),
{
    if a.len() != b.len() {
        return false;
    }
    let mut i: usize = 0;
    while i < a.len()
        invariant
            i <= a@.len(),
            a@.len() == b@.len(),
            forall|k: int| 0 <= k < i ==> #[trigger] same_probe(a@[k], b@[k]),
        decreases a@.len() - i,
    {
        if !probe_agrees(&a[i], &b[i]) {
            return false;
        }
        i = i + 1;
    }
    true
}

fn proposals_agree(a: &Vec<NativeTacticProposalTrace>, b: &Vec<NativeTacticProposalTrace>) -> (r: bool)
    ensures
        r == (a@ == b@),
{
    if a.len() != b.len() {
        return false;
    }
    let mut i: usize = 0;
    while i < a.len()
        invariant
            i <= a@.len(),
            a@.len() == b@.len(),
            forall|k: int| 0 <= k < i ==> a@[k] == b@[k],
        decreases a@.len() - i,
    {
        if a[i] != b[i] {
            return false;
        }
        i = i + 1;
    }
    assert(a@ =~= b@);
    true
}

fn scheduler_choices_agree(
    a: &Option<NativeTacticSchedulerDecision>,
    b: &Option<NativeTacticSchedulerDecision>,
) -> (r: bool)
    ensures
        r == same_scheduler_choice(*a, *b),
{
    match (a, b) {
        (None, None) => true,
        (Some(x), Some(y)) => x.learner_model_sha256.same_as(&y.learner_model_sha256) && text_eq(
            x.selected_expansion.as_str(),
            y.selected_expansion.as_str(),
        ),
        _ => false,
    }
}

fn decisions_agree(a: &NativeTacticDecisionTrace, b: &NativeTacticDecisionTrace) -> (r: bool)
    ensures
        r == same_semantics(*a, *b),
{
    a.decision_index == b.decision_index && text_eq(
        a.result_admission_schema.as_str(),
        b.result_admission_schema.as_str(),
    ) && a.before_snapshot_sha256.same_as(&b.before_snapshot_sha256) && a.after_snapshot_sha256.same_as(
        &b.after_snapshot_sha256,
    ) && actions_agree(&a.applicable_tactics, &b.applicable_tactics) && text_eq(
        a.selected_option_id.as_str(),
        b.selected_option_id.as_str(),
    ) && a.selection_reason == b.selection_reason && proposals_agree(&a.proposal_batch, &b.proposal_batch)
        && a.newly_admitted_training_rows == b.newly_admitted_training_rows
        && a.learner_snapshot_sha256.same_as(&b.learner_snapshot_sha256) && probes_agree(
        &a.policy_update_probes,
        &b.policy_update_probes,
    ) && a.terminal == b.terminal && a.goal_reachability_calibration == b.goal_reachability_calibration
        && a.branch_acquisition == b.branch_acquisition && scheduler_choices_agree(
        &a.scheduler_decision,
        &b.scheduler_decision,
    )
}

/// Whether two traces decided the same, decision by decision.
pub fn semantic_traces_agree(a: &Vec<NativeTacticDecisionTrace>, b: &Vec<NativeTacticDecisionTrace>) -> (r: bool)
    ensures
        r == same_semantic_trace(a@, b@),
{
    if a.len() != b.len() {
        return false;
    }
    let mut i: usize = 0;
    while i < a.len()
        invariant
            i <= a@.len(),
            a@.len() == b@.len(),
            forall|k: int| 0 <= k < i ==> #[trigger] same_semantics(a@[k], b@[k]),
        decreases a@.len() - i,
    {
        if !decisions_agree(&a[i], &b[i]) {
            return false;
        }
        i = i + 1;
    }
    true
}

} // verus!
