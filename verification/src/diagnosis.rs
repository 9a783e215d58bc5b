//! Goal-reachability diagnosis: the held-out calibration experiment
//! reconstructed at chosen durable replay revisions of a completed route.

use crate::digest::Digest;
use crate::error::{route_message, NativeTacticRouteRunError};
use crate::report::{NativeTacticReachabilityCalibration, NativeTacticRouteReport};
use vstd::prelude::*;

verus! {

pub const NATIVE_TACTIC_GOAL_REACHABILITY_DIAGNOSIS_SCHEMA_V1: &'static str = "dusklight-native-tactic-goal-reachability-diagnosis/v1";
pub const MAXIMUM_DIAGNOSTIC_REVISIONS: usize = 64;

/// The calibration reconstructed at one replay revision.
#[derive(Clone, Copy, Debug)]
pub struct NativeTacticGoalReachabilityRevisionDiagnosis {
    pub replay_revision: u64,
    pub replay_snapshot_sha256: Digest,
    pub diagnosis: NativeTacticReachabilityCalibration,
}

/// Calibrations reconstructed at chosen revisions of a completed route.
#[derive(Clone, Debug)]
pub struct NativeTacticGoalReachabilityDiagnosis {
    pub schema: String,
    pub route_report_sha256: Digest,
    pub execution_plan_sha256: Digest,
    pub objective_sha256: Digest,
    pub feature_schema_sha256: Digest,
    pub revisions: Vec<NativeTacticGoalReachabilityRevisionDiagnosis>,
}

/// The identities of the durable state a diagnosis reconstructs from: the
/// seed's final checkpoint, the campaign's replay journal, and the feature
/// encoder.
#[derive(Clone, Copy, Debug)]
pub struct NativeTacticDiagnosisAuthority {
    pub checkpoint_execution_authority_sha256: Digest,
    pub checkpoint_feature_schema_sha256: Digest,
    pub checkpoint_objective_sha256: Digest,
    pub replay_revision: u64,
    pub replay_snapshot_sha256: Digest,
    pub encoder_schema_sha256: Digest,
}

/// Between one and 64 strictly increasing revisions, none past the route's
/// final replay revision.
pub open spec fn diagnosis_revisions_valid(revisions: Seq<u64>, replay_revision: u64) -> bool {
    &&& 0 < revisions.len() <= MAXIMUM_DIAGNOSTIC_REVISIONS
    &&& forall|i: int| 0 <= i < revisions.len() - 1 ==> #[trigger] revisions[i] < revisions[i + 1]
    &&& revisions.last() <= replay_revision
}

pub fn validate_diagnosis_revisions(revisions: &Vec<u64>, replay_revision: u64) -> (r: Result<(), NativeTacticRouteRunError>)
    ensures
        r is Ok <==> diagnosis_revisions_valid(revisions@, replay_revision),
{
    let n = revisions.len();
    if n == 0 || n > MAXIMUM_DIAGNOSTIC_REVISIONS {
        return Err(route_message("goal reachability diagnosis revisions are invalid"));
    }
    let mut i: usize = 1;
    while i < n
        invariant
            1 <= i <= n,
            n == revisions@.len(),
            forall|k: int| 0 <= k < i - 1 ==> #[trigger] revisions@[k] < revisions@[k + 1],
        decreases n - i,
    {
        if revisions[i - 1] >= revisions[i] {
            return Err(route_message("goal reachability diagnosis revisions are invalid"));
        }
        i = i + 1;
    }
    if revisions[n - 1] > replay_revision {
        return Err(route_message("goal reachability diagnosis revisions are invalid"));
    }
    Ok(())
}

/// The durable state reconstructs the route's own experiment.
pub open spec fn diagnosis_authority_matches(route: NativeTacticRouteReport, a: NativeTacticDiagnosisAuthority) -> bool {
    &&& a.checkpoint_execution_authority_sha256.0@ == route.execution_plan_sha256.0@
    &&& a.checkpoint_feature_schema_sha256.0@ == route.feature_schema_sha256.0@
    &&& a.checkpoint_objective_sha256.0@ == route.objective_sha256.0@
    &&& a.replay_revision == route.replay_revision
    &&& a.replay_snapshot_sha256.0@ == route.replay_snapshot_sha256.0@
    &&& a.encoder_schema_sha256.0@ == route.feature_schema_sha256.0@
}

impl NativeTacticGoalReachabilityDiagnosis {
    /// Assembles the diagnosis of `route` at `revisions` from the
    /// calibrations reconstructed at each of them, in order. No native
    /// execution or new learner evidence occurs.
    pub fn build(
        route: &NativeTacticRouteReport,
        route_report_sha256: &Digest,
        revisions: &Vec<u64>,
        authority: &NativeTacticDiagnosisAuthority,
        reconstructed: Vec<NativeTacticGoalReachabilityRevisionDiagnosis>,
    ) -> (r: Result<Self, NativeTacticRouteRunError>)
        ensures
            r is Ok <==> {
                &&& diagnosis_revisions_valid(revisions@, route.replay_revision)
                &&& route.seeds@.len() > 0
                &&& diagnosis_authority_matches(*route, *authority)
                &&& reconstructed@.len() == revisions@.len()
                &&& forall|i: int| 0 <= i < revisions@.len() ==> (#[trigger] reconstructed@[i]).replay_revision
                    == revisions@[i]
            },
            r matches Ok(d) ==> {
                &&& d.schema@ == NATIVE_TACTIC_GOAL_REACHABILITY_DIAGNOSIS_SCHEMA_V1@
                &&& d.route_report_sha256 == *route_report_sha256
                &&& d.execution_plan_sha256 == route.execution_plan_sha256
                &&& d.objective_sha256 == route.objective_sha256
                &&& d.feature_schema_sha256 == route.feature_schema_sha256
                &&& d.revisions@ == reconstructed@
            },
    {
        match validate_diagnosis_revisions(revisions, route.replay_revision) {
            Ok(()) => {},
            Err(e) => {
                return Err(e);
            },
        }
        if route.seeds.len() == 0 {
            return Err(route_message("goal reachability diagnosis has no seed authority"));
        }
        if !authority.checkpoint_execution_authority_sha256.same_as(&route.execution_plan_sha256)
            || !authority.checkpoint_feature_schema_sha256.same_as(&route.feature_schema_sha256)
            || !authority.checkpoint_objective_sha256.same_as(&route.objective_sha256)
        {
            return Err(route_message("goal reachability checkpoint differs from route authority"));
        }
        if authority.replay_revision != route.replay_revision || !authority.replay_snapshot_sha256.same_as(
            &route.replay_snapshot_sha256,
        ) {
            return Err(route_message("goal reachability replay differs from completed route"));
        }
        if !authority.encoder_schema_sha256.same_as(&route.feature_schema_sha256) {
            return Err(route_message("goal reachability feature schema differs from completed route"));
        }
        if reconstructed.len() != revisions.len() {
            return Err(route_message("goal reachability diagnosis is detached from its revisions"));
        }
        let mut i: usize = 0;
        while i < revisions.len()
            invariant
                i <= revisions@.len(),
                reconstructed@.len() == revisions@.len(),
                forall|k: int| 0 <= k < i ==> (#[trigger] reconstructed@[k]).replay_revision == revisions@[k],
            decreases revisions@.len() - i,
        {
            if reconstructed[i].replay_revision != revisions[i] {
                return Err(route_message("goal reachability diagnosis is detached from its revisions"));
            }
            i = i + 1;
        }
        Ok(NativeTacticGoalReachabilityDiagnosis {
            schema: NATIVE_TACTIC_GOAL_REACHABILITY_DIAGNOSIS_SCHEMA_V1.to_owned(),
            route_report_sha256: *route_report_sha256,
            execution_plan_sha256: route.execution_plan_sha256,
            objective_sha256: route.objective_sha256,
            feature_schema_sha256: route.feature_schema_sha256,
            revisions: reconstructed,
        })
    }
}

} // verus!
