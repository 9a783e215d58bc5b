//! Verified decision, validation and framing logic for native tactic
//! route campaigns: execution plans, campaign schedules, exclusive timing
//! attribution, fault injection and recovery audits, durable completion
//! markers, decision journals and campaign summaries.

pub mod digest;
pub mod bytes;
pub mod text;
pub mod error;
pub mod execution_plan;
pub mod schedule;
pub mod timing;
pub mod fault;
pub mod probe;
pub mod report;
pub mod semantic_trace;
pub mod recovery_audit;
pub mod decisions;
pub mod epsilon;
pub mod summary;
pub mod completion;
pub mod compression;
pub mod journal;
pub mod bundles;
pub mod completed_seed;
pub mod cold_replay;
pub mod diagnosis;
pub mod graph_projection;
pub mod goal_literals;
pub mod action_surface;
pub mod policy;

pub use digest::Digest;
pub use error::{NativeTacticPolicyRunError, NativeTacticRouteRunError};
