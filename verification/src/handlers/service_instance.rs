//! `/v2/service_instances/:instance_id`: provision, update, deprovision,
//! fetch, and poll the last operation.

use vstd::prelude::*;

use crate::broker::{applied, completed_description, plan_with_id, service_with_id, unknown_plan, unknown_service, Broker};
use crate::error::{BrokerError, BrokerResult};
use crate::json::{json_eq, json_equal};
use crate::handlers::{
    accepts_async, goes_async, instances_of, op_order_of, operations_of, bindings_of, same_setup, same_state, tracker_ordered,
    HandlerReply, PutDecision,
};
use crate::catalog_loader::is_sample_catalog;
use crate::models::catalog::{Catalog, Plan, Service};
use crate::models::common::{AsyncResponse, LastOperationResponse, OperationState};
use crate::models::service_instance::{
    GetInstanceResponse, ProvisionRequest, ProvisionResponse, ServiceInstance, UpdateRequest, UpdateResponse,
};
use crate::operations::{latest_among, ops_finished, ops_started, targets, Operation, OperationKind, PendingAction, PendingWork, ResourceKind};
use crate::storage::memory::lookup;
use crate::text::{joined, same_text};
use crate::validation::{schema_passes, schema_rejects_with, validate, SchemaKind};
use crate::AppState;

verus! {

/// Query string of provision and update.
#[derive(Debug)]
pub struct ProvisionQuery {
    pub accepts_incomplete: Option<bool>,
}

/// Query string of deprovision.
#[derive(Debug)]
pub struct DeprovisionQuery {
    pub service_id: String,
    pub plan_id: String,
    pub accepts_incomplete: Option<bool>,
}

/// Query string of `last_operation`.
#[derive(Debug)]
pub struct LastOperationQuery {
    pub service_id: Option<String>,
    pub plan_id: Option<String>,
    pub operation: Option<String>,
}

/// The instance a provision request creates under `id`.
pub open spec fn provisioned_instance(id: String, req: ProvisionRequest) -> ServiceInstance {
    ServiceInstance {
        id,
        service_id: req.service_id,
        plan_id: req.plan_id,
        parameters: req.parameters,
        context: req.context,
        dashboard_url: None,
    }
}

/// Whether stored parameters `a` agree with requested parameters `b`:
/// both absent, or both present and equal as JSON values.
pub open spec fn parameters_agree(a: Option<serde_json::Value>, b: Option<serde_json::Value>) -> bool {
    ||| a == b
    ||| (a matches Some(x) && b matches Some(y) && json_equal(x, y))
}

/// Whether stored parameters `a` agree with requested parameters `b`.
fn same_parameters(a: &Option<serde_json::Value>, b: &Option<serde_json::Value>) -> (same: bool)
    ensures
        same == parameters_agree(*a, *b),
{
    match a {
        None => b.is_none(),
        Some(x) => match b {
            None => false,
            Some(y) => json_eq(x, y),
        },
    }
}

/// What a provision finds under `id`: an instance with the same service,
/// plan and parameters (`200`), a different one (`409`), or nothing (the
/// instance is created).
pub open spec fn provision_decision(
    instances: Map<Seq<char>, ServiceInstance>,
    id: Seq<char>,
    service_id: Seq<char>,
    plan_id: Seq<char>,
    parameters: Option<serde_json::Value>,
) -> PutDecision {
    if instances.contains_key(id) {
        let existing = instances[id];
        if existing.service_id@ == service_id && existing.plan_id@ == plan_id
            && parameters_agree(existing.parameters, parameters) {
            PutDecision::Existing
        } else {
            PutDecision::Conflict
        }
    } else {
        PutDecision::Create
    }
}

/// Whether a provision body is empty: no dashboard, operation or metadata.
pub open spec fn empty_provision_body(b: ProvisionResponse) -> bool {
    b.dashboard_url is None && b.operation is None && b.metadata is None
}

/// The conflict message for an instance that exists with other parameters.
pub open spec fn instance_conflict(id: Seq<char>) -> Seq<char> {
    "instance "@ + id + " already exists with different params"@
}

/// Whether a provision that passed its catalog and schema checks answered
/// `r` and left `post` from `pre`.
pub open spec fn provision_outcome(
    pre: AppState,
    post: AppState,
    id: String,
    accepts_incomplete: Option<bool>,
    req: ProvisionRequest,
    r: BrokerResult<HandlerReply<ProvisionResponse>>,
) -> bool {
    match provision_decision(instances_of(pre), id@, req.service_id@, req.plan_id@, req.parameters) {
        PutDecision::Existing => {
            &&& r matches Ok(rep)
            &&& rep.status == 200
            &&& empty_provision_body(rep.body)
            &&& rep.pending is None
            &&& same_state(pre, post)
        },
        PutDecision::Conflict => {
            &&& r matches Err(BrokerError::Conflict(m))
            &&& m@ == instance_conflict(id@)
            &&& same_state(pre, post)
        },
        PutDecision::Create => if goes_async(pre, accepts_incomplete) {
            &&& r matches Ok(rep)
            &&& rep.status == 202
            &&& rep.body.dashboard_url is None
            &&& rep.body.metadata is None
            &&& rep.body.operation matches Some(token)
            &&& rep.pending matches Some(w)
            &&& w.op_id@ == token@
            &&& w.delay_ms == pre.config.async_op_millis
            &&& w.action == PendingAction::PutInstance(provisioned_instance(id, req))
            &&& same_setup(pre, post)
            &&& instances_of(post) == instances_of(pre)
            &&& bindings_of(post) == bindings_of(pre)
            &&& ops_started(operations_of(pre), operations_of(post), token@, ResourceKind::Instance, id@, OperationKind::Provision)
            &&& op_order_of(post) == op_order_of(pre).push(token@)
        } else {
            &&& r matches Ok(rep)
            &&& rep.status == 201
            &&& empty_provision_body(rep.body)
            &&& rep.pending is None
            &&& same_setup(pre, post)
            &&& instances_of(post) == instances_of(pre).insert(id@, provisioned_instance(id, req))
            &&& bindings_of(post) == bindings_of(pre)
            &&& operations_of(post) == operations_of(pre)
            &&& op_order_of(post) == op_order_of(pre)
        },
    }
}

/// An empty provision body.
fn empty_provision_response() -> (b: ProvisionResponse)
    ensures
        empty_provision_body(b),
{
    ProvisionResponse { dashboard_url: None, operation: None, metadata: None }
}

/// `PUT /v2/service_instances/:instance_id`.
///
/// The service and plan must be in the catalog and the parameters must
/// pass the plan's create schema. Idempotent: if an instance with the same
/// id, service, plan and parameters exists, the answer is `200`; with
/// another service, plan or parameters, `409`. Otherwise the instance is stored (`201`), or, when the
/// request goes asynchronous, an operation is started and the store is
/// deferred (`202` with the operation token).
pub fn provision(
    state: &mut AppState,
    instance_id: String,
    q: ProvisionQuery,
    req: ProvisionRequest,
) -> (r: BrokerResult<HandlerReply<ProvisionResponse>>)
    ensures
        match service_with_id(old(state).broker.catalog.services@, req.service_id@) {
            None => {
                &&& r matches Err(BrokerError::BadRequest(m))
                &&& m@ == unknown_service(req.service_id@)
                &&& same_state(*old(state), *final(state))
            },
            Some(service) => match plan_with_id(service.plans@, req.plan_id@) {
                None => {
                    &&& r matches Err(BrokerError::BadRequest(m))
                    &&& m@ == unknown_plan(req.plan_id@)
                    &&& same_state(*old(state), *final(state))
                },
                Some(plan) => {
                    if schema_passes(plan, SchemaKind::InstanceCreate, req.parameters) {
                        provision_outcome(*old(state), *final(state), instance_id, q.accepts_incomplete, req, r)
                    } else {
                        &&& r matches Err(e)
                        &&& schema_rejects_with(e, plan, SchemaKind::InstanceCreate, req.parameters)
                        &&& same_state(*old(state), *final(state))
                    }
                },
            },
        },
        old(state).broker.storage.records_keyed_by_id() ==> final(state).broker.storage.records_keyed_by_id(),
        tracker_ordered(*old(state)) ==> tracker_ordered(*final(state)),
{
    let service = match state.broker.find_service(req.service_id.as_str()) {
        Ok(s) => s,
        Err(e) => return Err(e),
    };
    let plan = match state.broker.find_plan(service, req.plan_id.as_str()) {
        Ok(p) => p,
        Err(e) => return Err(e),
    };
    match validate(plan, SchemaKind::InstanceCreate, req.parameters.as_ref()) {
        Ok(()) => {},
        Err(e) => return Err(e),
    }
    let existing = match state.broker.storage.get_instance(instance_id.as_str()) {
        Ok(found) => found,
        Err(e) => return Err(e),
    };
    if let Some(existing) = existing {
        if existing.service_id == req.service_id && existing.plan_id == req.plan_id
            && same_parameters(&existing.parameters, &req.parameters) {
            return Ok(HandlerReply { status: 200, body: empty_provision_response(), pending: None });
        } else {
            let mut m = joined("instance ", instance_id.as_str());
            m.append(" already exists with different params");
            return Err(BrokerError::Conflict(m));
        }
    }
    let go_async = accepts_async(state, q.accepts_incomplete);
    let instance = ServiceInstance {
        id: instance_id.clone(),
        service_id: req.service_id,
        plan_id: req.plan_id,
        parameters: req.parameters,
        context: req.context,
        dashboard_url: None,
    };
    if go_async {
        let op_id = state.broker.operations.start(
            ResourceKind::Instance,
            instance_id.as_str(),
            OperationKind::Provision,
        );
        let work = PendingWork {
            op_id: op_id.clone(),
            delay_ms: state.config.async_op_millis,
            action: PendingAction::PutInstance(instance),
        };
        return Ok(HandlerReply {
            status: 202,
            body: ProvisionResponse { dashboard_url: None, operation: Some(op_id), metadata: None },
            pending: Some(work),
        });
    }
    match state.broker.storage.put_instance(instance) {
        Ok(()) => {},
        Err(e) => return Err(e),
    }
    Ok(HandlerReply { status: 201, body: empty_provision_response(), pending: None })
}

/// The message naming instance `id`.
pub open spec fn instance_named(id: Seq<char>) -> Seq<char> {
    "instance "@ + id
}

/// The plan an update moves an instance to: the requested one, or the
/// current one when none is requested.
pub open spec fn target_plan(existing: ServiceInstance, req: UpdateRequest) -> Seq<char> {
    match req.plan_id {
        Some(p) => p@,
        None => existing.plan_id@,
    }
}

/// The instance an update leaves: the requested plan, parameters and
/// context replace the stored ones; what is not requested stays.
pub open spec fn updated_instance(existing: ServiceInstance, req: UpdateRequest) -> ServiceInstance {
    ServiceInstance {
        plan_id: match req.plan_id {
            Some(p) => p,
            None => existing.plan_id,
        },
        parameters: match req.parameters {
            Some(p) => Some(p),
            None => existing.parameters,
        },
        context: match req.context {
            Some(c) => Some(c),
            None => existing.context,
        },
        ..existing
    }
}

/// Whether an update of `existing` that passed its catalog and schema
/// checks answered `r` and left `post` from `pre`.
pub open spec fn update_outcome(
    pre: AppState,
    post: AppState,
    id: Seq<char>,
    accepts_incomplete: Option<bool>,
    existing: ServiceInstance,
    req: UpdateRequest,
    r: BrokerResult<HandlerReply<UpdateResponse>>,
) -> bool {
    if goes_async(pre, accepts_incomplete) {
        &&& r matches Ok(rep)
        &&& rep.status == 202
        &&& rep.body.dashboard_url is None
        &&& rep.body.operation matches Some(token)
        &&& rep.pending matches Some(w)
        &&& w.op_id@ == token@
        &&& w.delay_ms == pre.config.async_op_millis
        &&& w.action == PendingAction::PutInstance(updated_instance(existing, req))
        &&& same_setup(pre, post)
        &&& instances_of(post) == instances_of(pre)
        &&& bindings_of(post) == bindings_of(pre)
        &&& ops_started(operations_of(pre), operations_of(post), token@, ResourceKind::Instance, id, OperationKind::Update)
        &&& op_order_of(post) == op_order_of(pre).push(token@)
    } else {
        &&& r matches Ok(rep)
        &&& rep.status == 200
        &&& rep.body.dashboard_url is None
        &&& rep.body.operation is None
        &&& rep.pending is None
        &&& same_setup(pre, post)
        &&& instances_of(post) == instances_of(pre).insert(existing.id@, updated_instance(existing, req))
        &&& bindings_of(post) == bindings_of(pre)
        &&& operations_of(post) == operations_of(pre)
        &&& op_order_of(post) == op_order_of(pre)
    }
}

/// Whether an update moves `existing` to another plan.
pub open spec fn changes_plan(existing: ServiceInstance, req: UpdateRequest) -> bool {
    req.plan_id matches Some(p) && p@ != existing.plan_id@
}

/// Whether instances of `service` may be moved to `plan`: as the plan's
/// `plan_updateable` says, or, when it says nothing, as the service's
/// says; not when neither says.
pub open spec fn plan_change_allowed(service: Service, plan: Plan) -> bool {
    match plan.plan_updateable {
        Some(b) => b,
        None => service.plan_updateable == Some(true),
    }
}

/// The error code of a plan change the catalog does not allow.
pub open spec fn plan_change_code() -> Seq<char> {
    "PlanChangeNotSupported"@
}

/// The description of a plan change the catalog does not allow.
pub open spec fn plan_change_refused(plan_id: Seq<char>) -> Seq<char> {
    "instances cannot be moved to plan "@ + plan_id
}

/// The message of an update whose service differs from the instance's.
pub open spec fn service_mismatch() -> Seq<char> {
    "service_id does not match existing instance"@
}

/// `PATCH /v2/service_instances/:instance_id`.
///
/// The instance must exist (`404` otherwise) and keep its service (`400`
/// otherwise); the target plan must be in the catalog; a move to another
/// plan must be allowed by the target plan's `plan_updateable`, or, when
/// it has none, by the service's (`422` otherwise); and the parameters
/// must pass the target plan's update schema. The requested plan, parameters and context
/// replace the stored ones; the instance is stored again (`200`), or, when
/// the request goes asynchronous, an operation is started and the store is
/// deferred (`202` with the operation token).
pub fn update(
    state: &mut AppState,
    instance_id: String,
    q: ProvisionQuery,
    req: UpdateRequest,
) -> (r: BrokerResult<HandlerReply<UpdateResponse>>)
    ensures
        match lookup(instances_of(*old(state)), instance_id@) {
            None => {
                &&& r matches Err(BrokerError::NotFound(m))
                &&& m@ == instance_named(instance_id@)
                &&& same_state(*old(state), *final(state))
            },
            Some(existing) => if existing.service_id@ != req.service_id@ {
                &&& r matches Err(BrokerError::BadRequest(m))
                &&& m@ == service_mismatch()
                &&& same_state(*old(state), *final(state))
            } else {
                match service_with_id(old(state).broker.catalog.services@, existing.service_id@) {
                    None => {
                        &&& r matches Err(BrokerError::BadRequest(m))
                        &&& m@ == unknown_service(existing.service_id@)
                        &&& same_state(*old(state), *final(state))
                    },
                    Some(service) => match plan_with_id(service.plans@, target_plan(existing, req)) {
                        None => {
                            &&& r matches Err(BrokerError::BadRequest(m))
                            &&& m@ == unknown_plan(target_plan(existing, req))
                            &&& same_state(*old(state), *final(state))
                        },
                        Some(plan) => if changes_plan(existing, req) && !plan_change_allowed(service, plan) {
                            &&& r matches Err(BrokerError::Unprocessable { code, description })
                            &&& code@ == plan_change_code()
                            &&& description@ == plan_change_refused(target_plan(existing, req))
                            &&& same_state(*old(state), *final(state))
                        } else {
                            if schema_passes(plan, SchemaKind::InstanceUpdate, req.parameters) {
                                update_outcome(*old(state), *final(state), instance_id@, q.accepts_incomplete, existing, req, r)
                            } else {
                                &&& r matches Err(e)
                                &&& schema_rejects_with(e, plan, SchemaKind::InstanceUpdate, req.parameters)
                                &&& same_state(*old(state), *final(state))
                            }
                        },
                    },
                }
            },
        },
        old(state).broker.storage.records_keyed_by_id() ==> final(state).broker.storage.records_keyed_by_id(),
        tracker_ordered(*old(state)) ==> tracker_ordered(*final(state)),
{
    let found = match state.broker.storage.get_instance(instance_id.as_str()) {
        Ok(f) => f,
        Err(e) => return Err(e),
    };
    let mut instance = match found {
        Some(i) => i,
        None => return Err(BrokerError::NotFound(joined("instance ", instance_id.as_str()))),
    };
    if !(instance.service_id == req.service_id) {
        return Err(BrokerError::BadRequest(String::from_str("service_id does not match existing instance")));
    }
    let target_plan_id = match &req.plan_id {
        Some(p) => p.clone(),
        None => instance.plan_id.clone(),
    };
    let service = match state.broker.find_service(instance.service_id.as_str()) {
        Ok(s) => s,
        Err(e) => return Err(e),
    };
    let plan = match state.broker.find_plan(service, target_plan_id.as_str()) {
        Ok(p) => p,
        Err(e) => return Err(e),
    };
    let moves = match &req.plan_id {
        Some(p) => !same_text(p.as_str(), instance.plan_id.as_str()),
        None => false,
    };
    let allowed = match plan.plan_updateable {
        Some(b) => b,
        None => match service.plan_updateable {
            Some(b) => b,
            None => false,
        },
    };
    if moves && !allowed {
        return Err(BrokerError::Unprocessable {
            code: String::from_str("PlanChangeNotSupported"),
            description: joined("instances cannot be moved to plan ", target_plan_id.as_str()),
        });
    }
    match validate(plan, SchemaKind::InstanceUpdate, req.parameters.as_ref()) {
        Ok(()) => {},
        Err(e) => return Err(e),
    }
    if let Some(plan_id) = req.plan_id {
        instance.plan_id = plan_id;
    }
    if let Some(p) = req.parameters {
        instance.parameters = Some(p);
    }
    if let Some(c) = req.context {
        instance.context = Some(c);
    }
    if accepts_async(state, q.accepts_incomplete) {
        let op_id = state.broker.operations.start(
            ResourceKind::Instance,
            instance_id.as_str(),
            OperationKind::Update,
        );
        let work = PendingWork {
            op_id: op_id.clone(),
            delay_ms: state.config.async_op_millis,
            action: PendingAction::PutInstance(instance),
        };
        return Ok(HandlerReply {
            status: 202,
            body: UpdateResponse { dashboard_url: None, operation: Some(op_id) },
            pending: Some(work),
        });
    }
    match state.broker.storage.put_instance(instance) {
        Ok(()) => {},
        Err(e) => return Err(e),
    }
    Ok(HandlerReply { status: 200, body: UpdateResponse { dashboard_url: None, operation: None }, pending: None })
}

/// Whether a deprovision of `id` answered `r` and left `post` from `pre`:
/// `410` when no such instance is stored; otherwise the instance is
/// removed (`200`) or its removal deferred behind a new operation (`202`).
pub open spec fn deprovision_outcome(
    pre: AppState,
    post: AppState,
    id: Seq<char>,
    accepts_incomplete: Option<bool>,
    r: BrokerResult<HandlerReply<AsyncResponse>>,
) -> bool {
    if !instances_of(pre).contains_key(id) {
        &&& r matches Err(BrokerError::Gone(m))
        &&& m@ == instance_named(id)
        &&& same_state(pre, post)
    } else if goes_async(pre, accepts_incomplete) {
        &&& r matches Ok(rep)
        &&& rep.status == 202
        &&& rep.body.operation matches Some(token)
        &&& rep.pending matches Some(w)
        &&& w.op_id@ == token@
        &&& w.delay_ms == pre.config.async_op_millis
        &&& w.action matches PendingAction::DeleteInstance(target)
        &&& target@ == id
        &&& same_setup(pre, post)
        &&& instances_of(post) == instances_of(pre)
        &&& bindings_of(post) == bindings_of(pre)
        &&& ops_started(operations_of(pre), operations_of(post), token@, ResourceKind::Instance, id, OperationKind::Deprovision)
        &&& op_order_of(post) == op_order_of(pre).push(token@)
    } else {
        &&& r matches Ok(rep)
        &&& rep.status == 200
        &&& rep.body.operation is None
        &&& rep.pending is None
        &&& same_setup(pre, post)
        &&& instances_of(post) == instances_of(pre).remove(id)
        &&& bindings_of(post) == bindings_of(pre)
        &&& operations_of(post) == operations_of(pre)
        &&& op_order_of(post) == op_order_of(pre)
    }
}

/// `DELETE /v2/service_instances/:instance_id`.
///
/// An instance that does not exist is gone (`410`). Otherwise it is
/// removed (`200` with `{}`), or, when the request goes asynchronous, an
/// operation is started and the removal is deferred (`202` with the
/// operation token).
pub fn deprovision(
    state: &mut AppState,
    instance_id: String,
    q: DeprovisionQuery,
) -> (r: BrokerResult<HandlerReply<AsyncResponse>>)
    ensures
        deprovision_outcome(*old(state), *final(state), instance_id@, q.accepts_incomplete, r),
        old(state).broker.storage.records_keyed_by_id() ==> final(state).broker.storage.records_keyed_by_id(),
        tracker_ordered(*old(state)) ==> tracker_ordered(*final(state)),
{
    let found = match state.broker.storage.get_instance(instance_id.as_str()) {
        Ok(f) => f,
        Err(e) => return Err(e),
    };
    if found.is_none() {
        return Err(BrokerError::Gone(joined("instance ", instance_id.as_str())));
    }
    if accepts_async(state, q.accepts_incomplete) {
        let op_id = state.broker.operations.start(
            ResourceKind::Instance,
            instance_id.as_str(),
            OperationKind::Deprovision,
        );
        let work = PendingWork {
            op_id: op_id.clone(),
            delay_ms: state.config.async_op_millis,
            action: PendingAction::DeleteInstance(instance_id.clone()),
        };
        return Ok(HandlerReply {
            status: 202,
            body: AsyncResponse { operation: Some(op_id) },
            pending: Some(work),
        });
    }
    match state.broker.storage.delete_instance(instance_id.as_str()) {
        Ok(_) => {},
        Err(e) => return Err(e),
    }
    Ok(HandlerReply { status: 200, body: AsyncResponse { operation: None }, pending: None })
}

/// `GET /v2/service_instances/:instance_id`: the stored instance's
/// service, plan, dashboard and parameters; `404` when there is none.
pub fn get_instance(state: &AppState, instance_id: &str) -> (r: BrokerResult<GetInstanceResponse>)
    ensures
        match lookup(instances_of(*state), instance_id@) {
            None => r matches Err(BrokerError::NotFound(m)) && m@ == instance_named(instance_id@),
            Some(i) => r matches Ok(resp) && resp == (GetInstanceResponse {
                service_id: Some(i.service_id),
                plan_id: Some(i.plan_id),
                dashboard_url: i.dashboard_url,
                parameters: i.parameters,
                maintenance_info: None,
            }),
        },
{
    let found = match state.broker.storage.get_instance(instance_id) {
        Ok(f) => f,
        Err(e) => return Err(e),
    };
    match found {
        None => Err(BrokerError::NotFound(joined("instance ", instance_id))),
        Some(instance) => Ok(GetInstanceResponse {
            service_id: Some(instance.service_id),
            plan_id: Some(instance.plan_id),
            dashboard_url: instance.dashboard_url,
            parameters: instance.parameters,
            maintenance_info: None,
        }),
    }
}

/// Whether `resp` reports the state and description of `op`.
pub open spec fn reports(resp: LastOperationResponse, op: Operation) -> bool {
    resp.state == op.state && resp.description == Some(op.description)
}

/// Whether `resp` reports a finished operation with the given description.
pub open spec fn reports_done(resp: LastOperationResponse, description: Seq<char>) -> bool {
    &&& resp.state == OperationState::Succeeded
    &&& resp.description matches Some(d)
    &&& d@ == description
}

/// The answer of a `last_operation` poll given the tracked operations and
/// the order they were started in, the kind of the polled resource and
/// its id, the token (if any), and whether the resource is stored. A
/// token counts only when it names an operation on the polled resource;
/// otherwise the most recent operation on the resource is reported.
pub open spec fn last_operation_answer(
    ops: Map<Seq<char>, Operation>,
    order: Seq<Seq<char>>,
    kind: ResourceKind,
    resource_id: Seq<char>,
    token: Option<Seq<char>>,
    stored: bool,
    done: Seq<char>,
    removed: Seq<char>,
    resp: LastOperationResponse,
) -> bool {
    if token matches Some(t) && ops.contains_key(t) && targets(ops[t], kind, resource_id) {
        reports(resp, ops[token->0])
    } else {
        match latest_among(order, ops, kind, resource_id) {
            Some(op) => reports(resp, op),
            None => reports_done(resp, if stored { done } else { removed }),
        }
    }
}

/// `GET /v2/service_instances/:instance_id/last_operation`.
///
/// Looks the operation token up in the tracker; a token of an operation on
/// another resource is not taken for this instance's. Without a token, or
/// for an unknown or foreign one, reports the most recent operation on the
/// instance; when there is none (e.g. the broker restarted), reports
/// success, saying whether the instance is stored.
pub fn last_operation(state: &AppState, instance_id: &str, q: LastOperationQuery) -> (r: BrokerResult<LastOperationResponse>)
    ensures
        r matches Ok(resp) && last_operation_answer(
            operations_of(*state),
            op_order_of(*state),
            ResourceKind::Instance,
            instance_id@,
            match q.operation {
                Some(t) => Some(t@),
                None => None,
            },
            instances_of(*state).contains_key(instance_id@),
            "operation completed"@,
            "instance has been removed"@,
            resp,
        ),
{
    if let Some(op_id) = &q.operation {
        if let Some(op) = state.broker.operations.get(op_id.as_str()) {
            if op.resource_kind == ResourceKind::Instance && same_text(op.resource_id.as_str(), instance_id) {
                return Ok(LastOperationResponse { state: op.state, description: Some(op.description) });
            }
        }
    }
    if let Some(op) = state.broker.operations.latest_for(ResourceKind::Instance, instance_id) {
        return Ok(LastOperationResponse { state: op.state, description: Some(op.description) });
    }
    let exists = match state.broker.storage.get_instance(instance_id) {
        Ok(found) => found.is_some(),
        Err(e) => return Err(e),
    };
    let description = if exists {
        String::from_str("operation completed")
    } else {
        String::from_str("instance has been removed")
    };
    Ok(LastOperationResponse { state: OperationState::Succeeded, description: Some(description) })
}

/// Law: provisioning is idempotent. Once a provision stored its instance
/// (`201`), a provision of the same id with the same service, plan and
/// parameters that passes its checks is answered `200` and changes nothing.
pub proof fn law_repeated_provision_is_ok(
    s1: AppState,
    s2: AppState,
    s3: AppState,
    id: String,
    first_accepts: Option<bool>,
    again_accepts: Option<bool>,
    req: ProvisionRequest,
    again: ProvisionRequest,
    r1: BrokerResult<HandlerReply<ProvisionResponse>>,
    r2: BrokerResult<HandlerReply<ProvisionResponse>>,
)
    requires
        provision_outcome(s1, s2, id, first_accepts, req, r1),
        r1 matches Ok(rep) && rep.status == 201,
        again.service_id@ == req.service_id@,
        again.plan_id@ == req.plan_id@,
        again.parameters == req.parameters,
        provision_outcome(s2, s3, id, again_accepts, again, r2),
    ensures
        r2 matches Ok(rep) && rep.status == 200,
        same_state(s2, s3),
{
}

/// Law: a provision of an id already provisioned with another service,
/// plan or parameters is a conflict (`409`) and changes nothing.
pub proof fn law_provision_with_other_plan_conflicts(
    s1: AppState,
    s2: AppState,
    s3: AppState,
    id: String,
    first_accepts: Option<bool>,
    again_accepts: Option<bool>,
    req: ProvisionRequest,
    other: ProvisionRequest,
    r1: BrokerResult<HandlerReply<ProvisionResponse>>,
    r2: BrokerResult<HandlerReply<ProvisionResponse>>,
)
    requires
        provision_outcome(s1, s2, id, first_accepts, req, r1),
        r1 matches Ok(rep) && rep.status == 201,
        other.service_id@ != req.service_id@ || other.plan_id@ != req.plan_id@
            || !parameters_agree(req.parameters, other.parameters),
        provision_outcome(s2, s3, id, again_accepts, other, r2),
    ensures
        r2 matches Err(BrokerError::Conflict(m)) && m@ == instance_conflict(id@),
        same_state(s2, s3),
{
}

/// Law: what a provision stores is what a fetch reads back. After a
/// provision answered `201`, the instance stored under its id is the one
/// the request describes.
pub proof fn law_provisioned_instance_is_stored(
    s1: AppState,
    s2: AppState,
    id: String,
    accepts: Option<bool>,
    req: ProvisionRequest,
    r: BrokerResult<HandlerReply<ProvisionResponse>>,
)
    requires
        provision_outcome(s1, s2, id, accepts, req, r),
        r matches Ok(rep) && rep.status == 201,
    ensures
        lookup(instances_of(s2), id@) == Some(provisioned_instance(id, req)),
{
}

/// Law: a repeated delete is gone. Once a deprovision removed its instance
/// (`200`), a second deprovision of the same id is answered `410` and
/// changes nothing.
pub proof fn law_repeated_deprovision_is_gone(
    s1: AppState,
    s2: AppState,
    s3: AppState,
    id: Seq<char>,
    first_accepts: Option<bool>,
    again_accepts: Option<bool>,
    r1: BrokerResult<HandlerReply<AsyncResponse>>,
    r2: BrokerResult<HandlerReply<AsyncResponse>>,
)
    requires
        deprovision_outcome(s1, s2, id, first_accepts, r1),
        r1 matches Ok(rep) && rep.status == 200,
        deprovision_outcome(s2, s3, id, again_accepts, r2),
    ensures
        r2 matches Err(BrokerError::Gone(m)) && m@ == instance_named(id),
        same_state(s2, s3),
{
}

/// Law: an asynchronous provision reports its operation in progress when
/// polled with its token; once its pending work is completed, the poll
/// reports success ("operation completed") and the instance is stored.
pub proof fn law_async_provision_completes(
    s1: AppState,
    s2: AppState,
    after: Broker,
    id: String,
    accepts: Option<bool>,
    req: ProvisionRequest,
    r: BrokerResult<HandlerReply<ProvisionResponse>>,
    token: String,
)
    requires
        provision_outcome(s1, s2, id, accepts, req, r),
        r matches Ok(rep) && rep.status == 202 && rep.body.operation == Some(token),
        applied(s2.broker.storage, after.storage, PendingAction::PutInstance(provisioned_instance(id, req))),
        ops_finished(
            operations_of(s2),
            after.operations.operations(),
            token@,
            OperationState::Succeeded,
            completed_description(),
        ),
    ensures
        forall|stored: bool, resp: LastOperationResponse|
            #[trigger] last_operation_answer(
                operations_of(s2),
                op_order_of(s2),
                ResourceKind::Instance,
                id@,
                Some(token@),
                stored,
                "operation completed"@,
                "instance has been removed"@,
                resp,
            ) ==> resp.state == OperationState::InProgress,
        forall|stored: bool, resp: LastOperationResponse|
            #[trigger] last_operation_answer(
                after.operations.operations(),
                after.operations.start_order(),
                ResourceKind::Instance,
                id@,
                Some(token@),
                stored,
                "operation completed"@,
                "instance has been removed"@,
                resp,
            ) ==> reports_done(resp, completed_description()),
        lookup(after.storage.instances(), id@) == Some(provisioned_instance(id, req)),
{
}

/// Law: deprovisioning undoes provisioning. A provision that stored a new
/// instance (`201`) followed by a deprovision that removed it (`200`)
/// leaves the stored instances, bindings and operations as they were.
pub proof fn law_deprovision_undoes_provision(
    s1: AppState,
    s2: AppState,
    s3: AppState,
    id: String,
    provision_accepts: Option<bool>,
    deprovision_accepts: Option<bool>,
    req: ProvisionRequest,
    r1: BrokerResult<HandlerReply<ProvisionResponse>>,
    r2: BrokerResult<HandlerReply<AsyncResponse>>,
)
    requires
        provision_outcome(s1, s2, id, provision_accepts, req, r1),
        r1 matches Ok(rep) && rep.status == 201,
        deprovision_outcome(s2, s3, id@, deprovision_accepts, r2),
        r2 matches Ok(rep) && rep.status == 200,
    ensures
        instances_of(s3) == instances_of(s1),
        bindings_of(s3) == bindings_of(s1),
        operations_of(s3) == operations_of(s1),
        op_order_of(s3) == op_order_of(s1),
        same_setup(s1, s3),
{
    assert(instances_of(s3) =~= instances_of(s1));
}


/// Law: a synchronous update (`200`) stores, under the instance's id, the
/// instance with what the request names replaced: the requested plan,
/// parameters and context where the request carries them, the stored ones
/// where it does not; its id, service and dashboard stay.
pub proof fn law_update_replaces_what_it_names(
    pre: AppState,
    post: AppState,
    id: Seq<char>,
    accepts: Option<bool>,
    existing: ServiceInstance,
    req: UpdateRequest,
    r: BrokerResult<HandlerReply<UpdateResponse>>,
)
    requires
        pre.broker.storage.records_keyed_by_id(),
        lookup(instances_of(pre), id) == Some(existing),
        update_outcome(pre, post, id, accepts, existing, req, r),
        r matches Ok(rep) && rep.status == 200,
    ensures
        lookup(instances_of(post), id) matches Some(i) && {
            &&& req.parameters matches Some(p) ==> i.parameters == Some(p)
            &&& req.parameters is None ==> i.parameters == existing.parameters
            &&& req.plan_id matches Some(q) ==> i.plan_id == q
            &&& req.plan_id is None ==> i.plan_id == existing.plan_id
            &&& req.context matches Some(c) ==> i.context == Some(c)
            &&& req.context is None ==> i.context == existing.context
            &&& i.id == existing.id
            &&& i.service_id == existing.service_id
            &&& i.dashboard_url == existing.dashboard_url
        },
        forall|k: Seq<char>| k != id ==> lookup(instances_of(post), k) == lookup(instances_of(pre), k),
{
    assert(existing.id@ == id);
}

/// Law: without a simulated delay there is no asynchronous answer. A
/// request goes asynchronous only when the broker is configured with a
/// delay and the platform accepts incomplete answers.
pub proof fn law_async_needs_a_delay(s: AppState, accepts_incomplete: Option<bool>)
    ensures
        goes_async(s, accepts_incomplete) ==> s.config.async_op_millis > 0,
        goes_async(s, accepts_incomplete) ==> accepts_incomplete == Some(true),
        s.config.async_op_millis > 0 && accepts_incomplete == Some(true) ==> goes_async(s, accepts_incomplete),
{
}

/// Law: with no simulated delay configured, a deprovision of a stored
/// instance removes it at once and answers `200`, whatever
/// `accepts_incomplete` says.
pub proof fn law_deprovision_without_delay_is_immediate(
    pre: AppState,
    post: AppState,
    id: Seq<char>,
    accepts: Option<bool>,
    r: BrokerResult<HandlerReply<AsyncResponse>>,
)
    requires
        deprovision_outcome(pre, post, id, accepts, r),
        pre.config.async_op_millis == 0,
        instances_of(pre).contains_key(id),
    ensures
        r matches Ok(rep) && rep.status == 200 && rep.body.operation is None && rep.pending is None,
        !instances_of(post).contains_key(id),
        operations_of(post) == operations_of(pre),
{
}

/// Law: with no simulated delay configured, a provision that creates its
/// instance stores it at once and answers `201`, whatever
/// `accepts_incomplete` says.
pub proof fn law_provision_without_delay_is_immediate(
    pre: AppState,
    post: AppState,
    id: String,
    accepts: Option<bool>,
    req: ProvisionRequest,
    r: BrokerResult<HandlerReply<ProvisionResponse>>,
)
    requires
        provision_outcome(pre, post, id, accepts, req, r),
        pre.config.async_op_millis == 0,
        !instances_of(pre).contains_key(id@),
    ensures
        r matches Ok(rep) && rep.status == 201 && rep.body.operation is None && rep.pending is None,
        lookup(instances_of(post), id@) == Some(provisioned_instance(id, req)),
        operations_of(post) == operations_of(pre),
{
}

/// Law: in the built-in sample catalog every plan may be moved to: each
/// plan says `plan_updateable: true`, so an update between its plans is
/// never refused for the plan change.
pub proof fn law_sample_plans_allow_plan_changes(c: Catalog)
    requires
        is_sample_catalog(c),
    ensures
        forall|j: int|
            0 <= j < c.services@[0].plans@.len() ==> (#[trigger] c.services@[0].plans@[j]).plan_updateable == Some(true)
                && plan_change_allowed(c.services@[0], c.services@[0].plans@[j]),
{
    assert forall|j: int| 0 <= j < c.services@[0].plans@.len() implies
        (#[trigger] c.services@[0].plans@[j]).plan_updateable == Some(true) by {
        assert(j == 0 || j == 1);
    }
}


/// Law: who decides a plan change. A target plan that sets
/// `plan_updateable` decides alone; one that does not leaves it to the
/// service, and a service that does not say either refuses the change.
pub proof fn law_plan_updateable_decides(service: Service, plan: Plan)
    ensures
        plan.plan_updateable == Some(true) ==> plan_change_allowed(service, plan),
        plan.plan_updateable == Some(false) ==> !plan_change_allowed(service, plan),
        plan.plan_updateable is None ==> (plan_change_allowed(service, plan) <==> service.plan_updateable == Some(true)),
{
}

} // verus!
