//! Errors reported by the route and policy runners.

use vstd::prelude::*;

verus! {

/// A route-runner failure: a message, and whether the run was cancelled.
#[derive(Clone, Debug)]
pub struct NativeTacticRouteRunError {
    pub message: String,
    pub cancelled: bool,
}

impl NativeTacticRouteRunError {
    /// Whether the failure is a requested cancellation rather than a fault.
    pub fn is_cancelled(&self) -> (r: bool)
        ensures
            r == self.cancelled,
    {
        self.cancelled
    }

    /// The failure's message text.
    pub fn message(&self) -> (r: String)
        ensures
            r@ == self.message@,
    {
        self.message.clone()
    }
}

/// A non-cancellation failure carrying `message`.
pub fn route_message(message: &str) -> (e: NativeTacticRouteRunError)
    ensures
        e.message@ == message@,
        !e.cancelled,
{
    NativeTacticRouteRunError { message: message.to_owned(), cancelled: false }
}

/// A cancellation carrying `message`.
pub fn route_cancelled(message: &str) -> (e: NativeTacticRouteRunError)
    ensures
        e.message@ == message@,
        e.cancelled,
{
    NativeTacticRouteRunError { message: message.to_owned(), cancelled: true }
}

/// A policy-runner failure.
#[derive(Clone, Debug)]
pub struct NativeTacticPolicyRunError(pub String);

/// A policy-runner failure carrying `message`.
pub fn policy_message(message: &str) -> (e: NativeTacticPolicyRunError)
    ensures
        e.0@ == message@,
{
    NativeTacticPolicyRunError(message.to_owned())
}

} // verus!
