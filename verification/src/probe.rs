//! Same-state, same-action-surface policy reassessment across one published
//! learner update, and the audit context of the applicable action surface.

use crate::bytes::append_bytes;
use crate::digest::{digest_bytes, sha256_of, Digest};
use crate::error::{route_message, NativeTacticRouteRunError};
use crate::report::TacticSelectionReason;
use crate::text::text_eq;
use vstd::prelude::*;

verus! {

/// A controlled reassessment of one state before and after a learner
/// update: only the learner snapshot may change between the two choices.
#[derive(Clone, Debug)]
pub struct NativeTacticPolicyUpdateProbe {
    pub state_sha256: Digest,
    pub before_action_surface_sha256: Digest,
    pub after_action_surface_sha256: Digest,
    pub before_learner_snapshot_sha256: Digest,
    pub after_learner_snapshot_sha256: Digest,
    pub before_replay_rows: u64,
    pub after_replay_rows: u64,
    pub before_model_revision: u64,
    pub after_model_revision: u64,
    pub before_selected_option_id: String,
    pub after_selected_option_id: String,
    pub before_selection_reason: TacticSelectionReason,
    pub after_selection_reason: TacticSelectionReason,
    pub selected_action_changed: bool,
}

impl NativeTacticPolicyUpdateProbe {
    /// A probe held the state and the action surface fixed, crossed exactly
    /// one forward learner publication, and reports its change truthfully.
    pub open spec fn spec_valid(self) -> bool {
        &&& !self.state_sha256.spec_is_zero()
        &&& !self.before_action_surface_sha256.spec_is_zero()
        &&& self.before_action_surface_sha256.0@ == self.after_action_surface_sha256.0@
        &&& !self.before_learner_snapshot_sha256.spec_is_zero()
        &&& !self.after_learner_snapshot_sha256.spec_is_zero()
        &&& self.before_learner_snapshot_sha256.0@ != self.after_learner_snapshot_sha256.0@
        &&& self.after_replay_rows > self.before_replay_rows
        &&& self.after_model_revision > self.before_model_revision
        &&& self.before_selected_option_id@.len() > 0
        &&& self.after_selected_option_id@.len() > 0
        &&& self.selected_action_changed == (self.before_selected_option_id@ != self.after_selected_option_id@)
    }

    pub fn validate(&self) -> (r: Result<(), NativeTacticRouteRunError>)
        ensures
            r is Ok <==> self.spec_valid(),
    {
        let changed = !text_eq(self.before_selected_option_id.as_str(), self.after_selected_option_id.as_str());
        if self.state_sha256.is_zero() || self.before_action_surface_sha256.is_zero()
            || !self.before_action_surface_sha256.same_as(&self.after_action_surface_sha256)
            || self.before_learner_snapshot_sha256.is_zero() || self.after_learner_snapshot_sha256.is_zero()
            || self.before_learner_snapshot_sha256.same_as(&self.after_learner_snapshot_sha256)
            || self.after_replay_rows <= self.before_replay_rows
            || self.after_model_revision <= self.before_model_revision
            || self.before_selected_option_id.as_str().unicode_len() == 0
            || self.after_selected_option_id.as_str().unicode_len() == 0
            || self.selected_action_changed != changed
        {
            return Err(route_message("native tactic policy-update probe is invalid"));
        }
        Ok(())
    }
}

/// The action a policy selected, and why.
#[derive(Clone, Debug)]
pub struct NativeTacticSelectedAction {
    pub option_id: String,
    pub reason: TacticSelectionReason,
}

/// Seals the probe of one learner update: the first proposal of each batch
/// is the selected action, and a probe is kept only if it is valid.
pub fn build_policy_update_probe(
    state_sha256: Digest,
    before_learner_snapshot_sha256: Digest,
    after_learner_snapshot_sha256: Digest,
    before_replay_revision: u64,
    after_replay_revision: u64,
    before_model_revision: u64,
    after_model_revision: u64,
    before_action_surface_sha256: Digest,
    after_action_surface_sha256: Digest,
    before_selected: Option<NativeTacticSelectedAction>,
    after_selected: Option<NativeTacticSelectedAction>,
) -> (r: Result<NativeTacticPolicyUpdateProbe, NativeTacticRouteRunError>)
    ensures
        r is Ok <==> {
            &&& before_selected is Some
            &&& after_selected is Some
            &&& (NativeTacticPolicyUpdateProbe {
                state_sha256,
                before_action_surface_sha256,
                after_action_surface_sha256,
                before_learner_snapshot_sha256,
                after_learner_snapshot_sha256,
                before_replay_rows: before_replay_revision,
                after_replay_rows: after_replay_revision,
                before_model_revision,
                after_model_revision,
                before_selected_option_id: before_selected->0.option_id,
                after_selected_option_id: after_selected->0.option_id,
                before_selection_reason: before_selected->0.reason,
                after_selection_reason: after_selected->0.reason,
                selected_action_changed: before_selected->0.option_id@ != after_selected->0.option_id@,
            }).spec_valid()
        },
        r matches Ok(p) ==> {
            &&& p.state_sha256 == state_sha256
            &&& p.before_action_surface_sha256 == before_action_surface_sha256
            &&& p.after_action_surface_sha256 == after_action_surface_sha256
            &&& p.before_learner_snapshot_sha256 == before_learner_snapshot_sha256
            &&& p.after_learner_snapshot_sha256 == after_learner_snapshot_sha256
            &&& p.before_replay_rows == before_replay_revision
            &&& p.after_replay_rows == after_replay_revision
            &&& p.before_model_revision == before_model_revision
            &&& p.after_model_revision == after_model_revision
            &&& p.before_selected_option_id@ == before_selected->0.option_id@
            &&& p.after_selected_option_id@ == after_selected->0.option_id@
            &&& p.before_selection_reason == before_selected->0.reason
            &&& p.after_selection_reason == after_selected->0.reason
            &&& p.selected_action_changed == (before_selected->0.option_id@ != after_selected->0.option_id@)
        },
{
    let (before_option, before_reason) = match before_selected {
        Some(selected) => (selected.option_id, selected.reason),
        None => {
            return Err(route_message("pre-update policy probe has no selected action"));
        },
    };
    let (after_option, after_reason) = match after_selected {
        Some(selected) => (selected.option_id, selected.reason),
        None => {
            return Err(route_message("post-update policy probe has no selected action"));
        },
    };
    let changed = !text_eq(before_option.as_str(), after_option.as_str());
    let probe = NativeTacticPolicyUpdateProbe {
        state_sha256,
        before_action_surface_sha256,
        after_action_surface_sha256,
        before_learner_snapshot_sha256,
        after_learner_snapshot_sha256,
        before_replay_rows: before_replay_revision,
        after_replay_rows: after_replay_revision,
        before_model_revision,
        after_model_revision,
        before_selected_option_id: before_option,
        after_selected_option_id: after_option,
        before_selection_reason: before_reason,
        after_selection_reason: after_reason,
        selected_action_changed: changed,
    };
    match probe.validate() {
        Ok(()) => Ok(probe),
        Err(e) => Err(e),
    }
}

pub const NATIVE_TACTIC_ACTION_SURFACE_AUDIT_CONTEXT_SCHEMA_V1: &'static str = "dusklight-native-tactic-action-surface-audit-context/v1";
pub const ACTION_SURFACE_AUDIT_SEED: u64 = 0;
pub const ACTION_SURFACE_AUDIT_MAXIMUM_TICKS: u32 = 40;

/// The fixed inputs of the applicable-action-surface parity probe.
#[derive(Clone, Debug)]
pub struct NativeTacticActionSurfaceAuditContext {
    pub schema: String,
    pub action_schema_sha256: Digest,
    pub goal_coordinate_f32_bits: [u32; 3],
    pub maximum_ticks: u32,
    pub seed: u64,
}

/// An IEEE-754 single-precision bit pattern is finite exactly when its
/// exponent field is not all ones.
pub open spec fn f32_bits_finite(bits: u32) -> bool {
    (bits / 0x80_0000u32) % 0x100 != 0xff
}

/// Whether the single-precision value with these bits is finite.
pub fn f32_bits_are_finite(bits: u32) -> (r: bool)
    ensures
        r == f32_bits_finite(bits),
{
    (bits / 0x80_0000u32) % 0x100 != 0xff
}

/// The domain tag of the parameterized policy action schema identity.
pub open spec fn action_schema_domain() -> Seq<u8> {
    seq![0x64u8, 0x75u8, 0x73u8, 0x6bu8, 0x6cu8, 0x69u8, 0x67u8, 0x68u8, 0x74u8, 0x2du8, 0x70u8, 0x61u8, 0x72u8, 0x61u8, 0x6du8, 0x65u8, 0x74u8, 0x65u8, 0x72u8, 0x69u8, 0x7au8, 0x65u8, 0x64u8, 0x2du8, 0x70u8, 0x6fu8, 0x6cu8, 0x69u8, 0x63u8, 0x79u8, 0x2du8, 0x61u8, 0x63u8, 0x74u8, 0x69u8, 0x6fu8, 0x6eu8, 0x2du8, 0x73u8, 0x63u8, 0x68u8, 0x65u8, 0x6du8, 0x61u8, 0x2fu8, 0x76u8, 0x32u8]
}

/// The identity of the parameterized policy action schema over a tactic
/// family schema: the SHA-256 of the domain tag and the family schema's
/// 32-byte identity.
pub open spec fn action_schema_identity(tactic_family_schema_sha256: Seq<u8>) -> Seq<u8> {
    sha256_of(action_schema_domain() + tactic_family_schema_sha256)
}

/// The parameterized policy action schema identity over the tactic family
/// schema `tactic_family_schema_sha256`.
pub fn parameterized_policy_action_schema_sha256(tactic_family_schema_sha256: &Digest) -> (d: Digest)
    ensures
        d.0@ == action_schema_identity(tactic_family_schema_sha256.0@),
{
    let mut bytes: Vec<u8> = vec![0x64u8, 0x75u8, 0x73u8, 0x6bu8, 0x6cu8, 0x69u8, 0x67u8, 0x68u8, 0x74u8, 0x2du8, 0x70u8, 0x61u8, 0x72u8, 0x61u8, 0x6du8, 0x65u8, 0x74u8, 0x65u8, 0x72u8, 0x69u8, 0x7au8, 0x65u8, 0x64u8, 0x2du8, 0x70u8, 0x6fu8, 0x6cu8, 0x69u8, 0x63u8, 0x79u8, 0x2du8, 0x61u8, 0x63u8, 0x74u8, 0x69u8, 0x6fu8, 0x6eu8, 0x2du8, 0x73u8, 0x63u8, 0x68u8, 0x65u8, 0x6du8, 0x61u8, 0x2fu8, 0x76u8, 0x32u8];
    assert(bytes@ =~= action_schema_domain());
    append_bytes(&mut bytes, tactic_family_schema_sha256.0.as_slice());
    digest_bytes(bytes.as_slice())
}

impl NativeTacticActionSurfaceAuditContext {
    pub open spec fn spec_valid(self, tactic_family_schema_sha256: Digest) -> bool {
        &&& self.schema@ == NATIVE_TACTIC_ACTION_SURFACE_AUDIT_CONTEXT_SCHEMA_V1@
        &&& self.action_schema_sha256.0@ == action_schema_identity(tactic_family_schema_sha256.0@)
        &&& forall|i: int| 0 <= i < 3 ==> f32_bits_finite(#[trigger] self.goal_coordinate_f32_bits@[i])
        &&& 0 < self.maximum_ticks <= ACTION_SURFACE_AUDIT_MAXIMUM_TICKS
        &&& self.seed == ACTION_SURFACE_AUDIT_SEED
    }

    /// A context is sealed to the current schema, to the primitive action
    /// schema (the parameterized policy action schema over the tactic
    /// family schema `tactic_family_schema_sha256`), to a finite goal
    /// coordinate, to a tick ceiling of at most 40, and to the fixed audit
    /// seed.
    pub fn validate(&self, tactic_family_schema_sha256: &Digest) -> (r: Result<(), NativeTacticRouteRunError>)
        ensures
            r is Ok <==> self.spec_valid(*tactic_family_schema_sha256),
    {
        let expected_action_schema_sha256 = parameterized_policy_action_schema_sha256(tactic_family_schema_sha256);
        let finite = f32_bits_are_finite(self.goal_coordinate_f32_bits[0])
            && f32_bits_are_finite(self.goal_coordinate_f32_bits[1])
            && f32_bits_are_finite(self.goal_coordinate_f32_bits[2]);
        proof {
            if finite {
                assert forall|i: int| 0 <= i < 3 implies f32_bits_finite(#[trigger] self.goal_coordinate_f32_bits@[i]) by {
                    if i == 0 {} else if i == 1 {} else {}
                }
            }
        }
        if !text_eq(self.schema.as_str(), NATIVE_TACTIC_ACTION_SURFACE_AUDIT_CONTEXT_SCHEMA_V1)
            || !self.action_schema_sha256.same_as(&expected_action_schema_sha256) || !finite
            || self.maximum_ticks == 0 || self.maximum_ticks > ACTION_SURFACE_AUDIT_MAXIMUM_TICKS
            || self.seed != ACTION_SURFACE_AUDIT_SEED
        {
            return Err(route_message("native tactic action-surface audit context is invalid"));
        }
        Ok(())
    }
}

} // verus!
