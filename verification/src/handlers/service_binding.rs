//! `/v2/service_instances/:instance_id/service_bindings/:binding_id`:
//! bind, unbind, fetch, and poll the last operation.

use vstd::prelude::*;

use crate::broker::{plan_with_id, service_with_id, unknown_plan, unknown_service};
use crate::error::{BrokerError, BrokerResult};
use crate::handlers::service_instance::{last_operation_answer, instance_named};
use crate::handlers::{
    accepts_async, bindings_of, goes_async, instances_of, op_order_of, operations_of, same_setup, same_state, tracker_ordered,
    HandlerReply, PutDecision,
};
use crate::json::{entries_view, json_string, json_string_of};
use crate::models::common::{AsyncResponse, LastOperationResponse, OperationState};
use crate::models::service_binding::{distinct_keys, BindRequest, BindResponse, Credentials, ServiceBinding};
use crate::operations::{ops_started, OperationKind, PendingAction, PendingWork, ResourceKind};
use crate::storage::memory::lookup;
use crate::text::joined;
use crate::validation::{schema_passes, schema_rejects_with, validate, SchemaKind};
use crate::AppState;

verus! {

/// Query string of bind.
#[derive(Debug)]
pub struct BindQuery {
    pub accepts_incomplete: Option<bool>,
}

/// Query string of unbind.
#[derive(Debug)]
pub struct UnbindQuery {
    pub service_id: String,
    pub plan_id: String,
    pub accepts_incomplete: Option<bool>,
}

/// The sample credentials of an instance: its URI, a user and a password.
pub open spec fn sample_credentials_of(instance_id: Seq<char>) -> Seq<(Seq<char>, serde_json::Value)> {
    seq![
        ("uri"@, json_string_of("example://"@ + instance_id)),
        ("username"@, json_string_of("user"@)),
        ("password"@, json_string_of("secret"@)),
    ]
}

/// Sample credentials for an instance. A real broker would provision an
/// actual user and password in the underlying service.
pub fn sample_credentials(instance_id: &str) -> (creds: Credentials)
    ensures
        entries_view(creds@) == sample_credentials_of(instance_id@),
        distinct_keys(entries_view(creds@)),
{
    let uri = joined("example://", instance_id);
    let creds = vec![
        (String::from_str("uri"), json_string(uri.as_str())),
        (String::from_str("username"), json_string("user")),
        (String::from_str("password"), json_string("secret")),
    ];
    assert(entries_view(creds@) =~= sample_credentials_of(instance_id@));
    proof {
        reveal_strlit("uri");
        reveal_strlit("username");
        reveal_strlit("password");
        assert("uri"@.len() != "username"@.len());
        assert("uri"@.len() != "password"@.len());
        assert("username"@[0] != "password"@[0]);
    }
    creds
}

/// What a bind finds under the binding id: the same instance, service and
/// plan (`200`), different ones (`409`), or nothing (the binding is
/// created).
pub open spec fn bind_decision(
    bindings: Map<Seq<char>, ServiceBinding>,
    binding_id: Seq<char>,
    instance_id: Seq<char>,
    service_id: Seq<char>,
    plan_id: Seq<char>,
) -> PutDecision {
    if bindings.contains_key(binding_id) {
        let existing = bindings[binding_id];
        if existing.instance_id@ == instance_id && existing.service_id@ == service_id
            && existing.plan_id@ == plan_id {
            PutDecision::Existing
        } else {
            PutDecision::Conflict
        }
    } else {
        PutDecision::Create
    }
}

/// Whether `b` is the binding a bind request creates: under `binding_id`,
/// for `instance_id`, with the request's service, plan and parameters and
/// the sample credentials of the instance stored under `instance_id`
/// (named by `instance_key`).
pub open spec fn is_new_binding(
    b: ServiceBinding,
    binding_id: String,
    instance_id: String,
    req: BindRequest,
    instance_key: Seq<char>,
) -> bool {
    &&& b.id == binding_id
    &&& b.instance_id == instance_id
    &&& b.service_id == req.service_id
    &&& b.plan_id == req.plan_id
    &&& b.parameters == req.parameters
    &&& entries_view(b.credentials@) == sample_credentials_of(instance_key)
}

/// Whether a bind body carries only the given credentials.
pub open spec fn credentials_body(body: BindResponse, creds: Seq<(Seq<char>, serde_json::Value)>) -> bool {
    &&& body.credentials matches Some(c)
    &&& entries_view(c@) == creds
    &&& body.syslog_drain_url is None
    &&& body.route_service_url is None
    &&& body.volume_mounts is None
    &&& body.operation is None
}

/// The conflict message for a binding that exists with other parameters.
pub open spec fn binding_conflict(id: Seq<char>) -> Seq<char> {
    "binding "@ + id + " already exists with different params"@
}

/// The message naming binding `id`.
pub open spec fn binding_named(id: Seq<char>) -> Seq<char> {
    "binding "@ + id
}

/// Whether a bind that passed its instance, catalog and schema checks
/// answered `r` and left `post` from `pre`.
pub open spec fn bind_outcome(
    pre: AppState,
    post: AppState,
    instance_id: String,
    binding_id: String,
    accepts_incomplete: Option<bool>,
    req: BindRequest,
    r: BrokerResult<HandlerReply<BindResponse>>,
) -> bool {
    let instance_key = instances_of(pre)[instance_id@].id@;
    match bind_decision(bindings_of(pre), binding_id@, instance_id@, req.service_id@, req.plan_id@) {
        PutDecision::Existing => {
            &&& r matches Ok(rep)
            &&& rep.status == 200
            &&& credentials_body(rep.body, entries_view(bindings_of(pre)[binding_id@].credentials@))
            &&& rep.pending is None
            &&& same_state(pre, post)
        },
        PutDecision::Conflict => {
            &&& r matches Err(BrokerError::Conflict(m))
            &&& m@ == binding_conflict(binding_id@)
            &&& same_state(pre, post)
        },
        PutDecision::Create => if goes_async(pre, accepts_incomplete) {
            &&& r matches Ok(rep)
            &&& rep.status == 202
            &&& rep.body.credentials is None
            &&& rep.body.syslog_drain_url is None
            &&& rep.body.route_service_url is None
            &&& rep.body.volume_mounts is None
            &&& rep.body.operation matches Some(token)
            &&& rep.pending matches Some(w)
            &&& w.op_id@ == token@
            &&& w.delay_ms == pre.config.async_op_millis
            &&& w.action matches PendingAction::PutBinding(b)
            &&& is_new_binding(b, binding_id, instance_id, req, instance_key)
            &&& same_setup(pre, post)
            &&& instances_of(post) == instances_of(pre)
            &&& bindings_of(post) == bindings_of(pre)
            &&& ops_started(operations_of(pre), operations_of(post), token@, ResourceKind::Binding, binding_id@, OperationKind::Bind)
            &&& op_order_of(post) == op_order_of(pre).push(token@)
        } else {
            &&& r matches Ok(rep)
            &&& rep.status == 201
            &&& credentials_body(rep.body, sample_credentials_of(instance_key))
            &&& rep.pending is None
            &&& same_setup(pre, post)
            &&& instances_of(post) == instances_of(pre)
            &&& bindings_of(post) == bindings_of(pre).insert(binding_id@, bindings_of(post)[binding_id@])
            &&& is_new_binding(bindings_of(post)[binding_id@], binding_id, instance_id, req, instance_key)
            &&& operations_of(post) == operations_of(pre)
            &&& op_order_of(post) == op_order_of(pre)
        },
    }
}

/// The message of a bind to a service that is not bindable.
pub open spec fn not_bindable(name: Seq<char>) -> Seq<char> {
    "service "@ + name + " is not bindable"@
}

/// A bind body carrying only `credentials`.
fn credentials_response(credentials: Credentials) -> (body: BindResponse)
    ensures
        credentials_body(body, entries_view(credentials@)),
{
    BindResponse {
        credentials: Some(credentials),
        syslog_drain_url: None,
        route_service_url: None,
        volume_mounts: None,
        operation: None,
    }
}

/// `PUT /v2/service_instances/:instance_id/service_bindings/:binding_id`.
///
/// The instance must exist; the service must be in the catalog and
/// bindable, the plan in the service, and the parameters must pass the
/// plan's binding schema. Idempotent: a binding with the same id,
/// instance, service and plan is answered `200` with its credentials;
/// with other ones, `409`. Otherwise the binding is stored with sample
/// credentials (`201` with the credentials), or, when the request goes
/// asynchronous, an operation is started and the store is deferred (`202`
/// with the operation token).
pub fn bind(
    state: &mut AppState,
    instance_id: String,
    binding_id: String,
    q: BindQuery,
    req: BindRequest,
) -> (r: BrokerResult<HandlerReply<BindResponse>>)
    ensures
        if !instances_of(*old(state)).contains_key(instance_id@) {
            &&& r matches Err(BrokerError::BadRequest(m))
            &&& m@ == instance_named(instance_id@) + " not found"@
            &&& same_state(*old(state), *final(state))
        } else {
            match service_with_id(old(state).broker.catalog.services@, req.service_id@) {
                None => {
                    &&& r matches Err(BrokerError::BadRequest(m))
                    &&& m@ == unknown_service(req.service_id@)
                    &&& same_state(*old(state), *final(state))
                },
                Some(service) => if !service.bindable {
                    &&& r matches Err(BrokerError::BadRequest(m))
                    &&& m@ == not_bindable(service.name@)
                    &&& same_state(*old(state), *final(state))
                } else {
                    match plan_with_id(service.plans@, req.plan_id@) {
                        None => {
                            &&& r matches Err(BrokerError::BadRequest(m))
                            &&& m@ == unknown_plan(req.plan_id@)
                            &&& same_state(*old(state), *final(state))
                        },
                        Some(plan) => {
                            if schema_passes(plan, SchemaKind::BindingCreate, req.parameters) {
                                bind_outcome(*old(state), *final(state), instance_id, binding_id, q.accepts_incomplete, req, r)
                            } else {
                                &&& r matches Err(e)
                                &&& schema_rejects_with(e, plan, SchemaKind::BindingCreate, req.parameters)
                                &&& same_state(*old(state), *final(state))
                            }
                        },
                    }
                },
            }
        },
        old(state).broker.storage.records_keyed_by_id() ==> final(state).broker.storage.records_keyed_by_id(),
        tracker_ordered(*old(state)) ==> tracker_ordered(*final(state)),
{
    let found = match state.broker.storage.get_instance(instance_id.as_str()) {
        Ok(f) => f,
        Err(e) => return Err(e),
    };
    let instance = match found {
        Some(i) => i,
        None => {
            let mut m = joined("instance ", instance_id.as_str());
            m.append(" not found");
            return Err(BrokerError::BadRequest(m));
        },
    };
    let service = match state.broker.find_service(req.service_id.as_str()) {
        Ok(s) => s,
        Err(e) => return Err(e),
    };
    if !service.bindable {
        let mut m = joined("service ", service.name.as_str());
        m.append(" is not bindable");
        return Err(BrokerError::BadRequest(m));
    }
    let plan = match state.broker.find_plan(service, req.plan_id.as_str()) {
        Ok(p) => p,
        Err(e) => return Err(e),
    };
    match validate(plan, SchemaKind::BindingCreate, req.parameters.as_ref()) {
        Ok(()) => {},
        Err(e) => return Err(e),
    }
    let existing = match state.broker.storage.get_binding(binding_id.as_str()) {
        Ok(f) => f,
        Err(e) => return Err(e),
    };
    if let Some(existing) = existing {
        if existing.instance_id == instance_id && existing.service_id == req.service_id
            && existing.plan_id == req.plan_id {
            return Ok(HandlerReply {
                status: 200,
                body: credentials_response(existing.credentials),
                pending: None,
            });
        } else {
            let mut m = joined("binding ", binding_id.as_str());
            m.append(" already exists with different params");
            return Err(BrokerError::Conflict(m));
        }
    }
    let binding = ServiceBinding {
        id: binding_id.clone(),
        instance_id,
        service_id: req.service_id,
        plan_id: req.plan_id,
        credentials: sample_credentials(instance.id.as_str()),
        parameters: req.parameters,
    };
    if accepts_async(state, q.accepts_incomplete) {
        let op_id = state.broker.operations.start(
            ResourceKind::Binding,
            binding_id.as_str(),
            OperationKind::Bind,
        );
        let work = PendingWork {
            op_id: op_id.clone(),
            delay_ms: state.config.async_op_millis,
            action: PendingAction::PutBinding(binding),
        };
        return Ok(HandlerReply {
            status: 202,
            body: BindResponse {
                credentials: None,
                syslog_drain_url: None,
                route_service_url: None,
                volume_mounts: None,
                operation: Some(op_id),
            },
            pending: Some(work),
        });
    }
    let credentials = sample_credentials(instance.id.as_str());
    match state.broker.storage.put_binding(binding) {
        Ok(()) => {},
        Err(e) => return Err(e),
    }
    Ok(HandlerReply { status: 201, body: credentials_response(credentials), pending: None })
}

/// Whether an unbind of `id` answered `r` and left `post` from `pre`:
/// `410` when no such binding is stored; otherwise the binding is removed
/// (`200`) or its removal deferred behind a new operation (`202`).
pub open spec fn unbind_outcome(
    pre: AppState,
    post: AppState,
    id: Seq<char>,
    accepts_incomplete: Option<bool>,
    r: BrokerResult<HandlerReply<AsyncResponse>>,
) -> bool {
    if !bindings_of(pre).contains_key(id) {
        &&& r matches Err(BrokerError::Gone(m))
        &&& m@ == binding_named(id)
        &&& same_state(pre, post)
    } else if goes_async(pre, accepts_incomplete) {
        &&& r matches Ok(rep)
        &&& rep.status == 202
        &&& rep.body.operation matches Some(token)
        &&& rep.pending matches Some(w)
        &&& w.op_id@ == token@
        &&& w.delay_ms == pre.config.async_op_millis
        &&& w.action matches PendingAction::DeleteBinding(target)
        &&& target@ == id
        &&& same_setup(pre, post)
        &&& instances_of(post) == instances_of(pre)
        &&& bindings_of(post) == bindings_of(pre)
        &&& ops_started(operations_of(pre), operations_of(post), token@, ResourceKind::Binding, id, OperationKind::Unbind)
        &&& op_order_of(post) == op_order_of(pre).push(token@)
    } else {
        &&& r matches Ok(rep)
        &&& rep.status == 200
        &&& rep.body.operation is None
        &&& rep.pending is None
        &&& same_setup(pre, post)
        &&& instances_of(post) == instances_of(pre)
        &&& bindings_of(post) == bindings_of(pre).remove(id)
        &&& operations_of(post) == operations_of(pre)
        &&& op_order_of(post) == op_order_of(pre)
    }
}

/// `DELETE /v2/service_instances/:instance_id/service_bindings/:binding_id`.
///
/// A binding that does not exist is gone (`410`). Otherwise it is removed
/// (`200` with `{}`), or, when the request goes asynchronous, an operation
/// is started and the removal is deferred (`202` with the operation
/// token).
pub fn unbind(
    state: &mut AppState,
    instance_id: String,
    binding_id: String,
    q: UnbindQuery,
) -> (r: BrokerResult<HandlerReply<AsyncResponse>>)
    ensures
        unbind_outcome(*old(state), *final(state), binding_id@, q.accepts_incomplete, r),
        old(state).broker.storage.records_keyed_by_id() ==> final(state).broker.storage.records_keyed_by_id(),
        tracker_ordered(*old(state)) ==> tracker_ordered(*final(state)),
{
    let found = match state.broker.storage.get_binding(binding_id.as_str()) {
        Ok(f) => f,
        Err(e) => return Err(e),
    };
    if found.is_none() {
        return Err(BrokerError::Gone(joined("binding ", binding_id.as_str())));
    }
    if accepts_async(state, q.accepts_incomplete) {
        let op_id = state.broker.operations.start(
            ResourceKind::Binding,
            binding_id.as_str(),
            OperationKind::Unbind,
        );
        let work = PendingWork {
            op_id: op_id.clone(),
            delay_ms: state.config.async_op_millis,
            action: PendingAction::DeleteBinding(binding_id.clone()),
        };
        return Ok(HandlerReply {
            status: 202,
            body: AsyncResponse { operation: Some(op_id) },
            pending: Some(work),
        });
    }
    match state.broker.storage.delete_binding(binding_id.as_str()) {
        Ok(_) => {},
        Err(e) => return Err(e),
    }
    Ok(HandlerReply { status: 200, body: AsyncResponse { operation: None }, pending: None })
}

/// `GET /v2/service_instances/:instance_id/service_bindings/:binding_id`:
/// the stored binding's credentials; `404` when there is none.
pub fn get_binding(state: &AppState, instance_id: &str, binding_id: &str) -> (r: BrokerResult<BindResponse>)
    ensures
        match lookup(bindings_of(*state), binding_id@) {
            None => r matches Err(BrokerError::NotFound(m)) && m@ == binding_named(binding_id@),
            Some(b) => r matches Ok(body) && credentials_body(body, entries_view(b.credentials@)),
        },
{
    let found = match state.broker.storage.get_binding(binding_id) {
        Ok(f) => f,
        Err(e) => return Err(e),
    };
    match found {
        None => Err(BrokerError::NotFound(joined("binding ", binding_id))),
        Some(binding) => Ok(credentials_response(binding.credentials)),
    }
}

/// `GET .../service_bindings/:binding_id/last_operation`: reports the most
/// recent operation on the binding; when there is none, reports success,
/// saying whether the binding is stored.
pub fn last_operation(state: &AppState, instance_id: &str, binding_id: &str) -> (r: BrokerResult<LastOperationResponse>)
    ensures
        r matches Ok(resp) && last_operation_answer(
            operations_of(*state),
            op_order_of(*state),
            ResourceKind::Binding,
            binding_id@,
            None,
            bindings_of(*state).contains_key(binding_id@),
            "binding completed"@,
            "binding has been removed"@,
            resp,
        ),
{
    if let Some(op) = state.broker.operations.latest_for(ResourceKind::Binding, binding_id) {
        return Ok(LastOperationResponse { state: op.state, description: Some(op.description) });
    }
    let exists = match state.broker.storage.get_binding(binding_id) {
        Ok(found) => found.is_some(),
        Err(e) => return Err(e),
    };
    let description = if exists {
        String::from_str("binding completed")
    } else {
        String::from_str("binding has been removed")
    };
    Ok(LastOperationResponse { state: OperationState::Succeeded, description: Some(description) })
}

/// Law: binding is idempotent. Once a bind stored its binding (`201`), a
/// bind of the same binding id for the same instance, service and plan
/// that passes its checks is answered `200` with the same credentials and
/// changes nothing.
pub proof fn law_repeated_bind_is_ok(
    s1: AppState,
    s2: AppState,
    s3: AppState,
    instance_id: String,
    binding_id: String,
    first_accepts: Option<bool>,
    again_accepts: Option<bool>,
    req: BindRequest,
    again: BindRequest,
    r1: BrokerResult<HandlerReply<BindResponse>>,
    r2: BrokerResult<HandlerReply<BindResponse>>,
)
    requires
        bind_outcome(s1, s2, instance_id, binding_id, first_accepts, req, r1),
        r1 matches Ok(rep) && rep.status == 201,
        again.service_id@ == req.service_id@,
        again.plan_id@ == req.plan_id@,
        bind_outcome(s2, s3, instance_id, binding_id, again_accepts, again, r2),
    ensures
        r1 matches Ok(first) && r2 matches Ok(second) && second.status == 200
            && credentials_body(second.body, entries_view(first.body.credentials->0@)),
        same_state(s2, s3),
{
}

/// Law: a bind under a binding id already bound to another instance,
/// service or plan is a conflict (`409`) and changes nothing.
pub proof fn law_bind_with_other_parameters_conflicts(
    s1: AppState,
    s2: AppState,
    s3: AppState,
    instance_id: String,
    other_instance: String,
    binding_id: String,
    first_accepts: Option<bool>,
    again_accepts: Option<bool>,
    req: BindRequest,
    other: BindRequest,
    r1: BrokerResult<HandlerReply<BindResponse>>,
    r2: BrokerResult<HandlerReply<BindResponse>>,
)
    requires
        bind_outcome(s1, s2, instance_id, binding_id, first_accepts, req, r1),
        r1 matches Ok(rep) && rep.status == 201,
        other_instance@ != instance_id@ || other.service_id@ != req.service_id@ || other.plan_id@
            != req.plan_id@,
        bind_outcome(s2, s3, other_instance, binding_id, again_accepts, other, r2),
    ensures
        r2 matches Err(BrokerError::Conflict(m)) && m@ == binding_conflict(binding_id@),
        same_state(s2, s3),
{
}

/// Law: a repeated unbind is gone. Once an unbind removed its binding
/// (`200`), a second unbind of the same id is answered `410` and changes
/// nothing.
pub proof fn law_repeated_unbind_is_gone(
    s1: AppState,
    s2: AppState,
    s3: AppState,
    id: Seq<char>,
    first_accepts: Option<bool>,
    again_accepts: Option<bool>,
    r1: BrokerResult<HandlerReply<AsyncResponse>>,
    r2: BrokerResult<HandlerReply<AsyncResponse>>,
)
    requires
        unbind_outcome(s1, s2, id, first_accepts, r1),
        r1 matches Ok(rep) && rep.status == 200,
        unbind_outcome(s2, s3, id, again_accepts, r2),
    ensures
        r2 matches Err(BrokerError::Gone(m)) && m@ == binding_named(id),
        same_state(s2, s3),
{
}

/// Law: unbinding undoes binding. A bind that stored a new binding
/// (`201`) followed by an unbind that removed it (`200`) leaves the stored
/// instances, bindings and operations as they were.
pub proof fn law_unbind_undoes_bind(
    s1: AppState,
    s2: AppState,
    s3: AppState,
    instance_id: String,
    binding_id: String,
    bind_accepts: Option<bool>,
    unbind_accepts: Option<bool>,
    req: BindRequest,
    r1: BrokerResult<HandlerReply<BindResponse>>,
    r2: BrokerResult<HandlerReply<AsyncResponse>>,
)
    requires
        bind_outcome(s1, s2, instance_id, binding_id, bind_accepts, req, r1),
        r1 matches Ok(rep) && rep.status == 201,
        unbind_outcome(s2, s3, binding_id@, unbind_accepts, r2),
        r2 matches Ok(rep) && rep.status == 200,
    ensures
        instances_of(s3) == instances_of(s1),
        bindings_of(s3) == bindings_of(s1),
        operations_of(s3) == operations_of(s1),
        op_order_of(s3) == op_order_of(s1),
        same_setup(s1, s3),
{
    assert(bindings_of(s3) =~= bindings_of(s1));
}

/// Law: in a state that stores every record under its own id (as every
/// state reached from an empty storage does), the credentials a new
/// binding is answered with name the instance it binds.
pub proof fn law_bind_credentials_name_the_instance(
    s1: AppState,
    s2: AppState,
    instance_id: String,
    binding_id: String,
    accepts: Option<bool>,
    req: BindRequest,
    r: BrokerResult<HandlerReply<BindResponse>>,
)
    requires
        s1.broker.storage.records_keyed_by_id(),
        instances_of(s1).contains_key(instance_id@),
        bind_outcome(s1, s2, instance_id, binding_id, accepts, req, r),
        r matches Ok(rep) && rep.status == 201,
    ensures
        r matches Ok(rep) && credentials_body(rep.body, sample_credentials_of(instance_id@)),
{
}

} // verus!
