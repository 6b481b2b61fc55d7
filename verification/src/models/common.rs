//! Types shared by several OSB requests and responses.

use vstd::prelude::*;

verus! {

/// Free-form object describing the platform that makes a request.
pub type Context = serde_json::Value;

/// Free-form parameters supplied by the user when provisioning or binding.
pub type Parameters = serde_json::Value;

/// Maintenance info on a plan or instance.
#[derive(Debug)]
pub struct MaintenanceInfo {
    pub version: Option<String>,
    pub description: Option<String>,
}

/// Body of an asynchronous answer: `{"operation": "<token>"}`, or `{}`
/// when there is no token.
#[derive(Debug)]
pub struct AsyncResponse {
    pub operation: Option<String>,
}

/// State of an asynchronous operation as reported by `last_operation`.
#[derive(Debug, Clone, Copy, PartialEq, Eq, Structural)]
pub enum OperationState {
    InProgress,
    Succeeded,
    Failed,
}

/// Body of a `last_operation` answer.
#[derive(Debug)]
pub struct LastOperationResponse {
    pub state: OperationState,
    pub description: Option<String>,
}

impl OperationState {
    /// The wire name of the state, as the OSB spec spells it.
    pub fn wire_name(&self) -> (s: &'static str)
        ensures
            s@ == operation_state_wire_name(*self),
    {
        match self {
            OperationState::InProgress => "in progress",
            OperationState::Succeeded => "succeeded",
            OperationState::Failed => "failed",
        }
    }
}

/// The wire name of an operation state.
pub open spec fn operation_state_wire_name(s: OperationState) -> Seq<char> {
    match s {
        OperationState::InProgress => "in progress"@,
        OperationState::Succeeded => "succeeded"@,
        OperationState::Failed => "failed"@,
    }
}

} // verus!
