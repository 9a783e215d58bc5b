//! Deterministic process-loss injection at the native decision boundaries,
//! and the durable marker that makes each injected fault one-shot.

use crate::digest::Digest;
use crate::error::{route_message, NativeTacticRouteRunError};
use crate::text::text_eq;
use vstd::prelude::*;

verus! {

pub const NATIVE_TACTIC_FAULT_INJECTION_SCHEMA_V1: &'static str = "dusklight-native-tactic-fault-injection/v1";
pub const NATIVE_TACTIC_FAULT_INJECTION_FILE: &'static str = "fault-injection.json";
pub const NATIVE_TACTIC_FAULT_EXIT_CODE: i32 = 86;

/// The native boundaries at which a process loss can be injected.
#[derive(Clone, Copy, Debug, PartialEq, Eq, Structural)]
pub enum NativeTacticFaultPoint {
    BeforeDispatch,
    DuringExecution,
    AfterNativeCompletion,
    AfterRecoveryPointCommit,
    AfterDecisionCommit,
}

/// The command-line spelling of each fault point.
pub open spec fn fault_point_argument(point: NativeTacticFaultPoint) -> Seq<char> {
    match point {
        NativeTacticFaultPoint::BeforeDispatch => "before-dispatch"@,
        NativeTacticFaultPoint::DuringExecution => "during-execution"@,
        NativeTacticFaultPoint::AfterNativeCompletion => "after-native-completion"@,
        NativeTacticFaultPoint::AfterRecoveryPointCommit => "after-recovery-point-commit"@,
        NativeTacticFaultPoint::AfterDecisionCommit => "after-decision-commit"@,
    }
}

/// The name a fault point is reported under.
pub open spec fn fault_point_name(point: NativeTacticFaultPoint) -> Seq<char> {
    match point {
        NativeTacticFaultPoint::BeforeDispatch => "before_dispatch"@,
        NativeTacticFaultPoint::DuringExecution => "during_execution"@,
        NativeTacticFaultPoint::AfterNativeCompletion => "after_native_completion"@,
        NativeTacticFaultPoint::AfterRecoveryPointCommit => "after_recovery_point_commit"@,
        NativeTacticFaultPoint::AfterDecisionCommit => "after_decision_commit"@,
    }
}

impl NativeTacticFaultPoint {
    /// The name the fault point is reported under.
    pub fn name(self) -> (r: &'static str)
        ensures
            r@ == fault_point_name(self),
    {
        match self {
            NativeTacticFaultPoint::BeforeDispatch => "before_dispatch",
            NativeTacticFaultPoint::DuringExecution => "during_execution",
            NativeTacticFaultPoint::AfterNativeCompletion => "after_native_completion",
            NativeTacticFaultPoint::AfterRecoveryPointCommit => "after_recovery_point_commit",
            NativeTacticFaultPoint::AfterDecisionCommit => "after_decision_commit",
        }
    }
}

/// Parses the command-line spelling of a fault point; any other text is
/// rejected.
pub fn parse_fault_point(value: &str) -> (r: Result<NativeTacticFaultPoint, NativeTacticRouteRunError>)
    ensures
        r matches Ok(point) ==> value@ == fault_point_argument(point),
        r is Err ==> forall|point: NativeTacticFaultPoint| value@ != #[trigger] fault_point_argument(point),
{
    if text_eq(value, "before-dispatch") {
        Ok(NativeTacticFaultPoint::BeforeDispatch)
    } else if text_eq(value, "during-execution") {
        Ok(NativeTacticFaultPoint::DuringExecution)
    } else if text_eq(value, "after-native-completion") {
        Ok(NativeTacticFaultPoint::AfterNativeCompletion)
    } else if text_eq(value, "after-recovery-point-commit") {
        Ok(NativeTacticFaultPoint::AfterRecoveryPointCommit)
    } else if text_eq(value, "after-decision-commit") {
        Ok(NativeTacticFaultPoint::AfterDecisionCommit)
    } else {
        Err(route_message(
            "unknown native tactic fault point; expected before-dispatch, during-execution, after-native-completion, after-recovery-point-commit, or after-decision-commit",
        ))
    }
}

impl core::str::FromStr for NativeTacticFaultPoint {
    type Err = NativeTacticRouteRunError;

    fn from_str(value: &str) -> (r: Result<Self, Self::Err>)
        ensures
            r matches Ok(point) ==> value@ == fault_point_argument(point),
            r is Err ==> forall|point: NativeTacticFaultPoint| value@ != #[trigger] fault_point_argument(point),
    {
        parse_fault_point(value)
    }
}

/// The durable record that a fault was injected for one seed decision.
#[derive(Clone, Debug, PartialEq, Eq)]
pub struct NativeTacticFaultInjectionMarker {
    pub schema: String,
    pub execution_plan_sha256: Digest,
    pub seed: u64,
    pub decision_index: u64,
    pub point: NativeTacticFaultPoint,
}

impl NativeTacticFaultInjectionMarker {
    pub open spec fn spec_valid(self) -> bool {
        self.schema@ == NATIVE_TACTIC_FAULT_INJECTION_SCHEMA_V1@ && !self.execution_plan_sha256.spec_is_zero()
    }

    /// A marker names the current schema and a plan identity.
    pub fn validate(&self) -> (r: Result<(), NativeTacticRouteRunError>)
        ensures
            r is Ok <==> self.spec_valid(),
    {
        if !text_eq(self.schema.as_str(), NATIVE_TACTIC_FAULT_INJECTION_SCHEMA_V1) || self.execution_plan_sha256.is_zero() {
            return Err(route_message("native tactic fault-injection marker is invalid"));
        }
        Ok(())
    }

    pub open spec fn same_fault(self, other: Self) -> bool {
        &&& self.schema@ == other.schema@
        &&& self.execution_plan_sha256.0@ == other.execution_plan_sha256.0@
        &&& self.seed == other.seed
        &&& self.decision_index == other.decision_index
        &&& self.point == other.point
    }

    /// Whether two markers record the same fault.
    pub fn same_as(&self, other: &Self) -> (r: bool)
        ensures
            r == self.same_fault(*other),
    {
        self.schema == other.schema && self.execution_plan_sha256.same_as(&other.execution_plan_sha256)
            && self.seed == other.seed && self.decision_index == other.decision_index && self.point == other.point
    }
}

/// A one-shot fault: the boundary and decision at which to lose the
/// process, and whether it already fired in this process.
#[derive(Clone, Copy, Debug, PartialEq, Eq, Structural)]
pub struct NativeTacticFaultInjector {
    pub point: NativeTacticFaultPoint,
    pub decision_index: u64,
    pub fired: bool,
    pub exit_process: bool,
}

impl NativeTacticFaultInjector {
    /// An armed injector that terminates the process when it fires.
    pub fn process_exit(point: NativeTacticFaultPoint, decision_index: u64) -> (r: Self)
        ensures
            r == (NativeTacticFaultInjector { point, decision_index, fired: false, exit_process: true }),
    {
        NativeTacticFaultInjector { point, decision_index, fired: false, exit_process: true }
    }

    /// An armed injector that reports an error instead of terminating.
    pub fn returning_error(point: NativeTacticFaultPoint, decision_index: u64) -> (r: Self)
        ensures
            r == (NativeTacticFaultInjector { point, decision_index, fired: false, exit_process: false }),
    {
        NativeTacticFaultInjector { point, decision_index, fired: false, exit_process: false }
    }

    pub fn decision_index(&self) -> (r: u64)
        ensures
            r == self.decision_index,
    {
        self.decision_index
    }

    /// Claims the fault at `encountered` for `decision_index`. The fault
    /// fires once, at its own boundary and decision; the returned marker is
    /// what the durable record must hold. Any other encounter returns
    /// `None` and leaves the injector unchanged.
    pub fn claim(
        &mut self,
        encountered: NativeTacticFaultPoint,
        execution_plan_sha256: Digest,
        seed: u64,
        decision_index: u64,
    ) -> (r: Result<Option<NativeTacticFaultInjectionMarker>, NativeTacticRouteRunError>)
        ensures
            (encountered != old(self).point || decision_index != old(self).decision_index || old(self).fired) ==> {
                &&& r matches Ok(None)
                &&& *final(self) == *old(self)
            },
            (encountered == old(self).point && decision_index == old(self).decision_index && !old(self).fired) ==> {
                &&& *final(self) == (NativeTacticFaultInjector { fired: true, ..*old(self) })
                &&& (r is Ok <==> !execution_plan_sha256.spec_is_zero())
                &&& r matches Ok(Some(marker)) ==> {
                    &&& marker.schema@ == NATIVE_TACTIC_FAULT_INJECTION_SCHEMA_V1@
                    &&& marker.execution_plan_sha256 == execution_plan_sha256
                    &&& marker.seed == seed
                    &&& marker.decision_index == decision_index
                    &&& marker.point == encountered
                    &&& marker.spec_valid()
                }
                &&& !(r matches Ok(None))
            },
    {
        if encountered != self.point || decision_index != self.decision_index || self.fired {
            return Ok(None);
        }
        self.fired = true;
        let marker = NativeTacticFaultInjectionMarker {
            schema: NATIVE_TACTIC_FAULT_INJECTION_SCHEMA_V1.to_owned(),
            execution_plan_sha256,
            seed,
            decision_index,
            point: encountered,
        };
        match marker.validate() {
            Ok(()) => Ok(Some(marker)),
            Err(e) => Err(e),
        }
    }
}

/// What a claimed fault does, given the record a seed directory already
/// holds.
#[derive(Clone, Copy, Debug, PartialEq, Eq, Structural)]
pub enum NativeTacticFaultRecordAction {
    /// No record yet: write the marker, then lose the process.
    RecordAndFire,
    /// An earlier process already recorded this same fault: it does not
    /// fire again.
    AlreadyFired,
}

/// The action for a claimed fault `requested` when the seed directory
/// holds `retained` (or nothing); `None` when the retained record is
/// invalid or records another fault.
pub open spec fn retained_fault_action(
    retained: Option<NativeTacticFaultInjectionMarker>,
    requested: NativeTacticFaultInjectionMarker,
) -> Option<NativeTacticFaultRecordAction> {
    match retained {
        None => Some(NativeTacticFaultRecordAction::RecordAndFire),
        Some(m) => if m.spec_valid() && m.same_fault(requested) {
            Some(NativeTacticFaultRecordAction::AlreadyFired)
        } else {
            None
        },
    }
}

pub open spec fn owned_marker(
    retained: Option<&NativeTacticFaultInjectionMarker>,
) -> Option<NativeTacticFaultInjectionMarker> {
    match retained {
        Some(m) => Some(*m),
        None => None,
    }
}

/// Decides a claimed fault against the record already on disk: a fault
/// fires only where no record exists, and a record left by an earlier
/// process must be valid and name the same fault.
pub fn resolve_retained_fault(
    retained: Option<&NativeTacticFaultInjectionMarker>,
    requested: &NativeTacticFaultInjectionMarker,
) -> (r: Result<NativeTacticFaultRecordAction, NativeTacticRouteRunError>)
    ensures
        r is Ok <==> retained_fault_action(owned_marker(retained), *requested) is Some,
        r matches Ok(a) ==> retained_fault_action(
            owned_marker(retained),
            *requested,
        ) == Some(a),
{
    match retained {
        None => Ok(NativeTacticFaultRecordAction::RecordAndFire),
        Some(m) => {
            match m.validate() {
                Ok(()) => {},
                Err(e) => {
                    return Err(e);
                },
            }
            if !m.same_as(requested) {
                return Err(route_message("retained native tactic fault injection differs from the requested fault"));
            }
            Ok(NativeTacticFaultRecordAction::AlreadyFired)
        },
    }
}

/// A retained record counts as this fault having fired only when it names
/// the same schema, plan, seed, decision and boundary; a record of any
/// other fault is refused.
pub proof fn lemma_only_the_same_fault_counts_as_fired(
    retained: NativeTacticFaultInjectionMarker,
    requested: NativeTacticFaultInjectionMarker,
)
    ensures
        retained_fault_action(Some(retained), requested) is Some ==> {
            &&& retained.point == requested.point
            &&& retained.decision_index == requested.decision_index
            &&& retained.seed == requested.seed
            &&& retained.execution_plan_sha256.0@ == requested.execution_plan_sha256.0@
            &&& retained.schema@ == requested.schema@
        },
        retained.point != requested.point ==> retained_fault_action(Some(retained), requested) is None,
{
}

/// A fault is one-shot across processes: once a valid marker for it is
/// recorded, claiming the same fault again finds it already fired.
pub proof fn lemma_recorded_fault_does_not_fire_again(marker: NativeTacticFaultInjectionMarker)
    requires
        marker.spec_valid(),
    ensures
        retained_fault_action(None, marker) == Some(NativeTacticFaultRecordAction::RecordAndFire),
        retained_fault_action(Some(marker), marker) == Some(NativeTacticFaultRecordAction::AlreadyFired),
{
}

/// How many leases a recovered run retries for a loss at `point`: every
/// dispatched proposal of the decision, unless the decision had committed.
pub fn expected_retryable_dispatches(point: NativeTacticFaultPoint, proposal_count: u64) -> (r: u64)
    ensures
        r == if point is AfterDecisionCommit { 0 } else { proposal_count },
{
    match point {
        NativeTacticFaultPoint::AfterDecisionCommit => 0,
        _ => proposal_count,
    }
}

} // verus!
