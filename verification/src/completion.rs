//! The durable campaign-completion marker: the authority that every piece
//! of campaign work preceding its publication completed, with the wall time
//! of that work and the digests of both final artifacts.

use crate::bytes::{append_bytes, copy_range, push_u16_le, push_u32_le, range_equals, read_u16_le, read_u32_le};
use crate::digest::{digest_bytes, sha256_of, Digest};
use crate::error::{route_message, NativeTacticRouteRunError};
use crate::text::text_eq;
use vstd::bytes::{spec_u16_from_le_bytes, spec_u16_to_le_bytes, spec_u32_from_le_bytes, spec_u32_to_le_bytes};
use vstd::prelude::*;

verus! {

pub const NATIVE_TACTIC_CAMPAIGN_COMPLETION_FILE: &'static str = "campaign-complete.dtcm";
pub const NATIVE_TACTIC_CAMPAIGN_COMPLETION_SCHEMA_V1: &'static str = "dusklight-native-tactic-campaign-completion/v1";
pub const COMPLETION_VERSION: u16 = 1;
pub const COMPLETION_HEADER_BYTES: usize = 48;
pub const MAXIMUM_COMPLETION_PAYLOAD_BYTES: usize = 16384;

/// Durable authority that all campaign work preceding publication
/// completed. `campaign_wall_micros` ends immediately before the marker is
/// published: the marker's durable presence attests that the measured
/// interval and both hashed final artifacts completed.
#[derive(Clone, Debug)]
pub struct NativeTacticCampaignCompletion {
    pub schema: String,
    pub content_sha256: Digest,
    pub execution_plan_sha256: Digest,
    pub report_sha256: Digest,
    pub summary_sha256: Digest,
    pub route_cutoff_wall_micros: u64,
    pub report_build_micros: u64,
    pub fleet_shutdown_micros: u64,
    pub final_artifact_persistence_micros: u64,
    pub campaign_completion_coordination_micros: u64,
    pub campaign_wall_micros: u64,
}

/// The wall time the marker's phases account for, before coordination.
pub open spec fn accounted_wall(
    route_cutoff_wall_micros: u64,
    report_build_micros: u64,
    fleet_shutdown_micros: u64,
    final_artifact_persistence_micros: u64,
) -> int {
    route_cutoff_wall_micros + report_build_micros + fleet_shutdown_micros + final_artifact_persistence_micros
}

impl NativeTacticCampaignCompletion {
    /// The marker's phases partition its campaign wall time exactly.
    pub open spec fn wall_is_exact(self) -> bool {
        accounted_wall(
            self.route_cutoff_wall_micros,
            self.report_build_micros,
            self.fleet_shutdown_micros,
            self.final_artifact_persistence_micros,
        ) + self.campaign_completion_coordination_micros == self.campaign_wall_micros
    }

    /// Everything a valid marker asserts apart from its content seal.
    pub open spec fn spec_conditions(self) -> bool {
        &&& self.schema@ == NATIVE_TACTIC_CAMPAIGN_COMPLETION_SCHEMA_V1@
        &&& !self.content_sha256.spec_is_zero()
        &&& !self.execution_plan_sha256.spec_is_zero()
        &&& !self.report_sha256.spec_is_zero()
        &&& !self.summary_sha256.spec_is_zero()
        &&& self.wall_is_exact()
    }

    /// Derives the marker of a campaign whose final report and summary are
    /// `report_bytes` and `summary_bytes`: the campaign wall is the observed
    /// wall, or the accounted phases if they took longer, and coordination
    /// is the remainder. The marker is returned unsealed (content digest
    /// zero); `seal` seals and validates it.
    pub fn build(
        execution_plan_sha256: Digest,
        report_bytes: &[u8],
        summary_bytes: &[u8],
        route_cutoff_wall_micros: u64,
        report_build_micros: u64,
        fleet_shutdown_micros: u64,
        final_artifact_persistence_micros: u64,
        observed_campaign_wall_micros: u64,
    ) -> (r: Result<Self, NativeTacticRouteRunError>)
        ensures
            r is Ok <==> accounted_wall(
                route_cutoff_wall_micros,
                report_build_micros,
                fleet_shutdown_micros,
                final_artifact_persistence_micros,
            ) <= u64::MAX,
            r matches Ok(c) ==> {
                let accounted = accounted_wall(
                    route_cutoff_wall_micros,
                    report_build_micros,
                    fleet_shutdown_micros,
                    final_artifact_persistence_micros,
                );
                &&& c.schema@ == NATIVE_TACTIC_CAMPAIGN_COMPLETION_SCHEMA_V1@
                &&& c.content_sha256.spec_is_zero()
                &&& c.execution_plan_sha256 == execution_plan_sha256
                &&& c.report_sha256.0@ == sha256_of(report_bytes@)
                &&& c.summary_sha256.0@ == sha256_of(summary_bytes@)
                &&& c.route_cutoff_wall_micros == route_cutoff_wall_micros
                &&& c.report_build_micros == report_build_micros
                &&& c.fleet_shutdown_micros == fleet_shutdown_micros
                &&& c.final_artifact_persistence_micros == final_artifact_persistence_micros
                &&& c.campaign_wall_micros == if observed_campaign_wall_micros > accounted {
                    observed_campaign_wall_micros as int
                } else {
                    accounted
                }
                &&& c.campaign_completion_coordination_micros == c.campaign_wall_micros - accounted
                &&& c.wall_is_exact()
            },
    {
        let accounted = match route_cutoff_wall_micros.checked_add(report_build_micros) {
            Some(v) => match v.checked_add(fleet_shutdown_micros) {
                Some(v) => match v.checked_add(final_artifact_persistence_micros) {
                    Some(v) => v,
                    None => {
                        return Err(route_message("native tactic completion wall timing overflowed"));
                    },
                },
                None => {
                    return Err(route_message("native tactic completion wall timing overflowed"));
                },
            },
            None => {
                return Err(route_message("native tactic completion wall timing overflowed"));
            },
        };
        let campaign_wall_micros = if observed_campaign_wall_micros > accounted {
            observed_campaign_wall_micros
        } else {
            accounted
        };
        Ok(NativeTacticCampaignCompletion {
            schema: NATIVE_TACTIC_CAMPAIGN_COMPLETION_SCHEMA_V1.to_owned(),
            content_sha256: Digest::zero(),
            execution_plan_sha256,
            report_sha256: digest_bytes(report_bytes),
            summary_sha256: digest_bytes(summary_bytes),
            route_cutoff_wall_micros,
            report_build_micros,
            fleet_shutdown_micros,
            final_artifact_persistence_micros,
            campaign_completion_coordination_micros: campaign_wall_micros - accounted,
            campaign_wall_micros,
        })
    }

    /// Validates the marker against `unsigned_encoding`, the canonical
    /// encoding of this marker with a zero content digest.
    pub fn validate(&self, unsigned_encoding: &[u8]) -> (r: Result<(), NativeTacticRouteRunError>)
        ensures
            r is Ok <==> (self.spec_conditions() && self.content_sha256.0@ == sha256_of(unsigned_encoding@)),
    {
        let expected_wall = match self.route_cutoff_wall_micros.checked_add(self.report_build_micros) {
            Some(v) => match v.checked_add(self.fleet_shutdown_micros) {
                Some(v) => match v.checked_add(self.final_artifact_persistence_micros) {
                    Some(v) => v.checked_add(self.campaign_completion_coordination_micros),
                    None => None,
                },
                None => None,
            },
            None => None,
        };
        let wall_exact = match expected_wall {
            Some(v) => v == self.campaign_wall_micros,
            None => false,
        };
        let sealed = digest_bytes(unsigned_encoding);
        if !text_eq(self.schema.as_str(), NATIVE_TACTIC_CAMPAIGN_COMPLETION_SCHEMA_V1) || self.content_sha256.is_zero()
            || self.execution_plan_sha256.is_zero() || self.report_sha256.is_zero() || self.summary_sha256.is_zero()
            || !wall_exact || !self.content_sha256.same_as(&sealed)
        {
            return Err(route_message("native tactic campaign completion marker is invalid"));
        }
        Ok(())
    }

    /// Seals the marker with the SHA-256 of `unsigned_encoding` and
    /// validates it.
    pub fn seal(self, unsigned_encoding: &[u8]) -> (r: Result<Self, NativeTacticRouteRunError>)
        ensures
            r matches Ok(c) ==> {
                &&& c.content_sha256.0@ == sha256_of(unsigned_encoding@)
                &&& c == (NativeTacticCampaignCompletion { content_sha256: c.content_sha256, ..self })
                &&& c.spec_conditions()
            },
            r is Err ==> forall|d: Digest|
                d.0@ == sha256_of(unsigned_encoding@) ==> !(#[trigger] (NativeTacticCampaignCompletion {
                    content_sha256: d,
                    ..self
                }).spec_conditions()),
    {
        let mut sealed = self;
        sealed.content_sha256 = digest_bytes(unsigned_encoding);
        match sealed.validate(unsigned_encoding) {
            Ok(()) => Ok(sealed),
            Err(e) => {
                proof {
                    assert forall|d: Digest| d.0@ == sha256_of(unsigned_encoding@) implies !(#[trigger] (
                    NativeTacticCampaignCompletion { content_sha256: d, ..self }).spec_conditions()) by {
                        let other = NativeTacticCampaignCompletion { content_sha256: d, ..self };
                        assert(other.content_sha256.spec_is_zero() == sealed.content_sha256.spec_is_zero());
                    }
                }
                Err(e)
            },
        }
    }

    /// The report and summary bytes are the artifacts the marker hashed.
    pub fn validate_artifact_hashes(&self, report: &[u8], summary: &[u8]) -> (r: Result<(), NativeTacticRouteRunError>)
        ensures
            r is Ok <==> (sha256_of(report@) == self.report_sha256.0@ && sha256_of(summary@) == self.summary_sha256.0@),
    {
        let report_sha256 = digest_bytes(report);
        let summary_sha256 = digest_bytes(summary);
        if !report_sha256.same_as(&self.report_sha256) || !summary_sha256.same_as(&self.summary_sha256) {
            return Err(route_message("native tactic completion artifacts differ from the durable marker"));
        }
        Ok(())
    }

    /// Opens the marker file `bytes`: checks its magic, version, reserved
    /// field, payload length and payload digest, and returns the payload,
    /// the canonical encoding of the marker.
    pub fn read(bytes: &[u8]) -> (r: Result<Vec<u8>, NativeTacticRouteRunError>)
        ensures
            r is Ok <==> completion_frame_payload(bytes@) is Some,
            r matches Ok(payload) ==> completion_frame_payload(bytes@) == Some(payload@),
    {
        decode_completion(bytes)
    }
}

pub open spec fn completion_magic() -> Seq<u8> {
    seq![0x44u8, 0x53u8, 0x4bu8, 0x54u8, 0x43u8, 0x4du8, 0x30u8, 0x31u8]
}

fn completion_magic_bytes() -> (v: Vec<u8>)
    ensures
        v@ == completion_magic(),
{
    let v: Vec<u8> = vec![0x44u8, 0x53u8, 0x4bu8, 0x54u8, 0x43u8, 0x4du8, 0x30u8, 0x31u8];
    assert(v@ =~= completion_magic());
    v
}

/// A marker file: magic, version, a zero reserved field, the payload
/// length, the payload's SHA-256, and the payload.
pub open spec fn completion_frame(payload: Seq<u8>, payload_sha256: Seq<u8>) -> Seq<u8> {
    completion_magic() + spec_u16_to_le_bytes(COMPLETION_VERSION) + spec_u16_to_le_bytes(0u16)
        + spec_u32_to_le_bytes(payload.len() as u32) + payload_sha256 + payload
}

/// The payload of a well-framed marker file whose payload matches its
/// digest.
pub open spec fn completion_frame_payload(bytes: Seq<u8>) -> Option<Seq<u8>> {
    if bytes.len() < COMPLETION_HEADER_BYTES || bytes.subrange(0, 8) != completion_magic()
        || spec_u16_from_le_bytes(bytes.subrange(8, 10)) != COMPLETION_VERSION
        || spec_u16_from_le_bytes(bytes.subrange(10, 12)) != 0
        || spec_u32_from_le_bytes(bytes.subrange(12, 16)) > MAXIMUM_COMPLETION_PAYLOAD_BYTES
        || bytes.len() != COMPLETION_HEADER_BYTES + spec_u32_from_le_bytes(bytes.subrange(12, 16))
        || bytes.subrange(16, 48) != sha256_of(bytes.subrange(48, bytes.len() as int))
    {
        None
    } else {
        Some(bytes.subrange(48, bytes.len() as int))
    }
}

/// Frames a marker payload for publication; payloads over 16 KiB are
/// refused.
pub fn encode_completion(payload: &[u8]) -> (r: Result<Vec<u8>, NativeTacticRouteRunError>)
    ensures
        r is Ok <==> payload@.len() <= MAXIMUM_COMPLETION_PAYLOAD_BYTES,
        r matches Ok(bytes) ==> {
            &&& bytes@ == completion_frame(payload@, sha256_of(payload@))
            &&& sha256_of(payload@).len() == 32
            &&& completion_frame_payload(bytes@) == Some(payload@)
        },
{
    if payload.len() > MAXIMUM_COMPLETION_PAYLOAD_BYTES {
        return Err(route_message("native tactic completion marker exceeds its bound"));
    }
    let mut bytes = completion_magic_bytes();
    push_u16_le(&mut bytes, COMPLETION_VERSION);
    push_u16_le(&mut bytes, 0u16);
    push_u32_le(&mut bytes, payload.len() as u32);
    let payload_sha256 = digest_bytes(payload).to_vec();
    append_bytes(&mut bytes, payload_sha256.as_slice());
    append_bytes(&mut bytes, payload);
    proof {
        lemma_completion_frame_round_trip(payload@, sha256_of(payload@));
    }
    Ok(bytes)
}

fn decode_completion(bytes: &[u8]) -> (r: Result<Vec<u8>, NativeTacticRouteRunError>)
    ensures
        r is Ok <==> completion_frame_payload(bytes@) is Some,
        r matches Ok(payload) ==> completion_frame_payload(bytes@) == Some(payload@),
{
    let n = bytes.len();
    if n < COMPLETION_HEADER_BYTES {
        return Err(route_message("native tactic completion marker header is invalid"));
    }
    let magic = completion_magic_bytes();
    if !range_equals(bytes, 0, magic.as_slice()) || read_u16_le(bytes, 8) != COMPLETION_VERSION || read_u16_le(bytes, 10)
        != 0 {
        return Err(route_message("native tactic completion marker header is invalid"));
    }
    let payload_len = read_u32_le(bytes, 12);
    if payload_len as usize > MAXIMUM_COMPLETION_PAYLOAD_BYTES || n - COMPLETION_HEADER_BYTES != payload_len as usize {
        return Err(route_message("native tactic completion marker length is invalid"));
    }
    let expected = copy_range(bytes, 16, 48);
    let payload = copy_range(bytes, COMPLETION_HEADER_BYTES, n);
    let actual = digest_bytes(payload.as_slice()).to_vec();
    if !range_equals(expected.as_slice(), 0, actual.as_slice()) {
        proof {
            assert(expected@.subrange(0, 32) =~= expected@);
        }
        return Err(route_message("native tactic completion marker payload digest is invalid"));
    }
    proof {
        assert(expected@.subrange(0, 32) =~= expected@);
    }
    Ok(payload)
}

/// Reading a framed marker gives back exactly the payload that was framed.
pub proof fn lemma_completion_frame_round_trip(payload: Seq<u8>, payload_sha256: Seq<u8>)
    requires
        payload.len() <= MAXIMUM_COMPLETION_PAYLOAD_BYTES,
        payload_sha256 == sha256_of(payload),
        payload_sha256.len() == 32,
    ensures
        completion_frame_payload(completion_frame(payload, payload_sha256)) == Some(payload),
{
    let bytes = completion_frame(payload, payload_sha256);
    crate::bytes::lemma_le_roundtrips();
    let len = payload.len() as u32;
    assert(bytes.subrange(0, 8) =~= completion_magic());
    assert(bytes.subrange(8, 10) =~= spec_u16_to_le_bytes(COMPLETION_VERSION));
    assert(bytes.subrange(10, 12) =~= spec_u16_to_le_bytes(0u16));
    assert(bytes.subrange(12, 16) =~= spec_u32_to_le_bytes(len));
    assert(bytes.subrange(16, 48) =~= payload_sha256);
    assert(bytes.subrange(48, bytes.len() as int) =~= payload);
}

} // verus!
