//! The OSB endpoints: one module per resource. Each endpoint is a
//! function from the state and the request to the answer, and to the
//! state after the request.

pub mod catalog;
pub mod service_binding;
pub mod service_instance;

use vstd::prelude::*;

use crate::models::service_binding::ServiceBinding;
use crate::models::service_instance::ServiceInstance;
use crate::operations::{order_covers, Operation, PendingWork};
use crate::AppState;

verus! {

/// Common query string of most OSB endpoints.
#[derive(Debug)]
pub struct AcceptsIncomplete {
    /// Platform signal that it accepts asynchronous (`202`) answers.
    pub accepts_incomplete: Option<bool>,
}

/// A successful answer: its HTTP status, its body, and the work deferred
/// to complete the operation, if it was accepted asynchronously.
#[derive(Debug)]
pub struct HandlerReply<T> {
    pub status: u16,
    pub body: T,
    pub pending: Option<PendingWork>,
}

/// What a `PUT` finds under the id it creates.
#[derive(Debug, Clone, Copy, PartialEq, Eq, Structural)]
pub enum PutDecision {
    /// The same resource exists already: `200`.
    Existing,
    /// A different resource exists under the id: `409`.
    Conflict,
    /// Nothing exists under the id: it is created.
    Create,
}

/// The stored instances of a state.
pub open spec fn instances_of(s: AppState) -> Map<Seq<char>, ServiceInstance> {
    s.broker.storage.instances()
}

/// The stored bindings of a state.
pub open spec fn bindings_of(s: AppState) -> Map<Seq<char>, ServiceBinding> {
    s.broker.storage.bindings()
}

/// The tracked operations of a state.
pub open spec fn operations_of(s: AppState) -> Map<Seq<char>, Operation> {
    s.broker.operations.operations()
}

/// The tokens of the operations started in a state, oldest first.
pub open spec fn op_order_of(s: AppState) -> Seq<Seq<char>> {
    s.broker.operations.start_order()
}

/// Whether every tracked operation of a state is among its started ones,
/// as in every state reached from a new broker: then the most recent
/// operation on a resource is found whenever one is tracked.
pub open spec fn tracker_ordered(s: AppState) -> bool {
    order_covers(op_order_of(s), operations_of(s))
}

/// Whether two states have the same catalog and configuration.
pub open spec fn same_setup(a: AppState, b: AppState) -> bool {
    a.broker.catalog == b.broker.catalog && a.config == b.config
}

/// Whether two states hold the same catalog, configuration, instances,
/// bindings and operations (and the order they were started in).
pub open spec fn same_state(a: AppState, b: AppState) -> bool {
    &&& same_setup(a, b)
    &&& instances_of(a) == instances_of(b)
    &&& bindings_of(a) == bindings_of(b)
    &&& operations_of(a) == operations_of(b)
    &&& op_order_of(a) == op_order_of(b)
}

/// Whether a request is answered asynchronously: the broker simulates
/// asynchronous work and the platform accepts it.
pub open spec fn goes_async(s: AppState, accepts_incomplete: Option<bool>) -> bool {
    s.config.async_op_millis > 0 && accepts_incomplete == Some(true)
}

/// Whether a request is answered asynchronously.
fn accepts_async(state: &AppState, accepts_incomplete: Option<bool>) -> (a: bool)
    ensures
        a == goes_async(*state, accepts_incomplete),
{
    state.config.async_op_millis > 0 && match accepts_incomplete {
        Some(b) => b,
        None => false,
    }
}

} // verus!
