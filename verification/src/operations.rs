//! Tracker of asynchronous OSB operations.
//!
//! When the broker accepts an asynchronous provision, update, deprovision,
//! bind or unbind, it answers with an opaque `operation` token. The
//! platform later polls `last_operation` with that token; it is looked up
//! here.

use vstd::prelude::*;

use dashmap::DashMap;

use crate::models::common::OperationState;
use crate::models::service_binding::ServiceBinding;
use crate::models::service_instance::ServiceInstance;
use crate::text::same_text;

verus! {

/// Kind of resource an operation targets, so that a binding operation
/// cannot be confused with an instance operation.
#[derive(Debug, Clone, Copy, PartialEq, Eq, Structural)]
pub enum ResourceKind {
    Instance,
    Binding,
}

/// What an operation is doing.
#[derive(Debug, Clone, Copy, PartialEq, Eq, Structural)]
pub enum OperationKind {
    Provision,
    Update,
    Deprovision,
    Bind,
    Unbind,
}

/// The name of an operation kind, as `Debug` prints it.
pub open spec fn kind_name(kind: OperationKind) -> Seq<char> {
    match kind {
        OperationKind::Provision => "Provision"@,
        OperationKind::Update => "Update"@,
        OperationKind::Deprovision => "Deprovision"@,
        OperationKind::Bind => "Bind"@,
        OperationKind::Unbind => "Unbind"@,
    }
}

impl OperationKind {
    /// The name of the kind, as `Debug` prints it.
    pub fn name(&self) -> (s: &'static str)
        ensures
            s@ == kind_name(*self),
    {
        match self {
            OperationKind::Provision => "Provision",
            OperationKind::Update => "Update",
            OperationKind::Deprovision => "Deprovision",
            OperationKind::Bind => "Bind",
            OperationKind::Unbind => "Unbind",
        }
    }
}

/// A tracked operation.
#[derive(Debug, Clone)]
pub struct Operation {
    pub id: String,
    pub resource_kind: ResourceKind,
    pub resource_id: String,
    pub kind: OperationKind,
    pub state: OperationState,
    pub description: String,
}

/// The map of tracked operations, keyed by token.
pub type OperationMap = DashMap<String, Operation>;

/// What a map of operations holds, keyed by the text of the token.
pub uninterp spec fn operation_entries(map: OperationMap) -> Map<Seq<char>, Operation>;

/// `DashMap::new` for operations: a map that holds nothing.
#[verifier::external_body]
fn operation_map_new() -> (map: OperationMap)
    ensures
        operation_entries(map).is_empty(),
{
    DashMap::new()
}

/// `DashMap::insert` for operations: afterwards `key` maps to `value`, the
/// other entries stay.
#[verifier::external_body]
fn operation_map_insert(map: &mut OperationMap, key: String, value: Operation)
    ensures
        operation_entries(*final(map)) == operation_entries(*old(map)).insert(key@, value),
{
    map.insert(key, value);
}

/// `DashMap::get` for operations, the entry cloned (by the derived `Clone`,
/// which copies every field).
#[verifier::external_body]
fn operation_map_get(map: &OperationMap, key: &str) -> (found: Option<Operation>)
    ensures
        found == (if operation_entries(*map).contains_key(key@) {
            Some(operation_entries(*map)[key@])
        } else {
            None
        }),
{
    map.get(key).map(|entry| entry.value().clone())
}

/// `uuid::Uuid::new_v4().to_string()`: a fresh random token, in the
/// hyphenated form of 36 characters. Nothing is stated of which token.
#[verifier::external_body]
fn new_token() -> (token: String)
    ensures
        token@.len() == 36,
{
    uuid::Uuid::new_v4().to_string()
}

/// Whether `op` targets the resource `resource_id` of kind `kind`.
pub open spec fn targets(op: Operation, kind: ResourceKind, resource_id: Seq<char>) -> bool {
    op.resource_kind == kind && op.resource_id@ == resource_id
}

/// Whether `op` is the operation registered by `start` for token `token`.
pub open spec fn started_operation(
    op: Operation,
    token: Seq<char>,
    kind: ResourceKind,
    resource_id: Seq<char>,
    op_kind: OperationKind,
) -> bool {
    &&& op.id@ == token
    &&& op.resource_kind == kind
    &&& op.resource_id@ == resource_id
    &&& op.kind == op_kind
    &&& op.state == OperationState::InProgress
    &&& op.description@ == kind_name(op_kind) + " in progress"@
}

/// Whether `after` is `before` with one more operation, in progress, under
/// `token`: the one `start` registers.
pub open spec fn ops_started(
    before: Map<Seq<char>, Operation>,
    after: Map<Seq<char>, Operation>,
    token: Seq<char>,
    kind: ResourceKind,
    resource_id: Seq<char>,
    op_kind: OperationKind,
) -> bool {
    &&& after.dom() == before.dom().insert(token)
    &&& started_operation(after[token], token, kind, resource_id, op_kind)
    &&& forall|k: Seq<char>| k != token && #[trigger] before.contains_key(k) ==> after[k] == before[k]
}

/// Whether `after` is `before` with the operation `op_id`, if tracked,
/// marked finished in `state` with `description`: what `finish` does.
pub open spec fn ops_finished(
    before: Map<Seq<char>, Operation>,
    after: Map<Seq<char>, Operation>,
    op_id: Seq<char>,
    state: OperationState,
    description: Seq<char>,
) -> bool {
    &&& after.dom() == before.dom()
    &&& before.contains_key(op_id) ==> finished_operation(before[op_id], after[op_id], state, description)
    &&& forall|k: Seq<char>| k != op_id && #[trigger] before.contains_key(k) ==> after[k] == before[k]
}

/// Whether `after` is `before` marked finished in `state` with
/// `description`.
pub open spec fn finished_operation(
    before: Operation,
    after: Operation,
    state: OperationState,
    description: Seq<char>,
) -> bool {
    &&& after.id == before.id
    &&& after.resource_kind == before.resource_kind
    &&& after.resource_id == before.resource_id
    &&& after.kind == before.kind
    &&& after.state == state
    &&& after.description@ == description
}

/// What a deferred operation does to storage when it completes.
#[derive(Debug)]
pub enum PendingAction {
    PutInstance(ServiceInstance),
    DeleteInstance(String),
    PutBinding(ServiceBinding),
    DeleteBinding(String),
}

/// Work accepted asynchronously: after `delay_ms` milliseconds, `action`
/// is applied and the operation `op_id` is marked succeeded.
#[derive(Debug)]
pub struct PendingWork {
    pub op_id: String,
    pub delay_ms: u64,
    pub action: PendingAction,
}

/// The most recent operation targeting the resource `resource_id` of kind
/// `kind`: of the tokens in start order `order`, the last one whose
/// tracked operation targets it.
pub open spec fn latest_among(
    order: Seq<Seq<char>>,
    ops: Map<Seq<char>, Operation>,
    kind: ResourceKind,
    resource_id: Seq<char>,
) -> Option<Operation>
    decreases order.len(),
{
    if order.len() == 0 {
        None
    } else {
        let k = order.last();
        if ops.contains_key(k) && targets(ops[k], kind, resource_id) {
            Some(ops[k])
        } else {
            latest_among(order.drop_last(), ops, kind, resource_id)
        }
    }
}

/// Whether every tracked operation's token is among the tokens `order`.
pub open spec fn order_covers(order: Seq<Seq<char>>, ops: Map<Seq<char>, Operation>) -> bool {
    forall|k: Seq<char>| #[trigger] ops.contains_key(k) ==> order.contains(k)
}

/// If every tracked token is in `order`, the search of `order` finds an
/// operation on the resource whenever one is tracked.
proof fn lemma_latest_finds(
    order: Seq<Seq<char>>,
    ops: Map<Seq<char>, Operation>,
    kind: ResourceKind,
    resource_id: Seq<char>,
    k: Seq<char>,
)
    requires
        order.contains(k),
        ops.contains_key(k),
        targets(ops[k], kind, resource_id),
    ensures
        latest_among(order, ops, kind, resource_id) is Some,
    decreases order.len(),
{
    if order.last() != k {
        let i = choose|i: int| 0 <= i < order.len() && order[i] == k;
        assert(order.drop_last()[i] == k);
        lemma_latest_finds(order.drop_last(), ops, kind, resource_id, k);
    }
}

/// Registry of outstanding operations, with the tokens in the order the
/// operations were started.
#[derive(Debug)]
pub struct OperationTracker {
    ops: OperationMap,
    order: Vec<String>,
}

impl OperationTracker {
    /// The tracked operations, keyed by the text of their token.
    pub closed spec fn operations(&self) -> Map<Seq<char>, Operation> {
        operation_entries(self.ops)
    }

    /// The tokens of the started operations, oldest first.
    pub closed spec fn start_order(&self) -> Seq<Seq<char>> {
        self.order@.map_values(|t: String| t@)
    }

    /// A tracker with no operations.
    pub fn new() -> (t: Self)
        ensures
            t.operations().is_empty(),
            t.start_order() == Seq::<Seq<char>>::empty(),
            order_covers(t.start_order(), t.operations()),
    {
        let t = OperationTracker { ops: operation_map_new(), order: Vec::new() };
        assert(t.start_order() =~= Seq::<Seq<char>>::empty());
        t
    }

    /// Registers a new in-progress operation and returns its token.
    pub fn start(&mut self, resource_kind: ResourceKind, resource_id: &str, kind: OperationKind) -> (token: String)
        ensures
            ops_started(old(self).operations(), final(self).operations(), token@, resource_kind, resource_id@, kind),
            final(self).start_order() == old(self).start_order().push(token@),
            order_covers(old(self).start_order(), old(self).operations())
                ==> order_covers(final(self).start_order(), final(self).operations()),
    {
        let id = new_token();
        let mut description = String::from_str(kind.name());
        description.append(" in progress");
        let op = Operation {
            id: id.clone(),
            resource_kind,
            resource_id: String::from_str(resource_id),
            kind,
            state: OperationState::InProgress,
            description,
        };
        operation_map_insert(&mut self.ops, id.clone(), op);
        self.order.push(id.clone());
        assert(self.start_order() =~= old(self).start_order().push(id@));
        assert(self.start_order().last() == id@);
        assert forall|k: Seq<char>| order_covers(old(self).start_order(), old(self).operations())
            && #[trigger] self.operations().contains_key(k) implies self.start_order().contains(k) by {
            if k == id@ {
                assert(self.start_order()[self.start_order().len() - 1] == k);
            } else {
                let i = choose|i: int| 0 <= i < old(self).start_order().len() && old(self).start_order()[i] == k;
                assert(self.start_order()[i] == k);
            }
        }
        id
    }

    /// Marks the operation `op_id` finished in `state`, with `description`.
    /// Does nothing when no such operation is tracked.
    pub fn finish(&mut self, op_id: &str, state: OperationState, description: &str)
        ensures
            ops_finished(old(self).operations(), final(self).operations(), op_id@, state, description@),
            final(self).start_order() == old(self).start_order(),
            order_covers(old(self).start_order(), old(self).operations())
                ==> order_covers(final(self).start_order(), final(self).operations()),
    {
        let found = operation_map_get(&self.ops, op_id);
        if let Some(mut op) = found {
            op.state = state;
            op.description = String::from_str(description);
            operation_map_insert(&mut self.ops, String::from_str(op_id), op);
            assert(self.operations().dom() =~= old(self).operations().dom());
        }
    }

    /// The operation with token `op_id`, if any.
    pub fn get(&self, op_id: &str) -> (found: Option<Operation>)
        ensures
            found == crate::storage::memory::lookup(self.operations(), op_id@),
    {
        operation_map_get(&self.ops, op_id)
    }

    /// The most recent operation targeting the given resource: of the
    /// operations started on it, the one started last. `None` when no
    /// tracked operation targets it.
    pub fn latest_for(&self, kind: ResourceKind, resource_id: &str) -> (found: Option<Operation>)
        ensures
            found == latest_among(self.start_order(), self.operations(), kind, resource_id@),
            order_covers(self.start_order(), self.operations()) ==> (found is None <==> forall|k: Seq<char>|
                #[trigger] self.operations().contains_key(k) ==> !targets(self.operations()[k], kind, resource_id@)),
    {
        let ghost order = self.start_order();
        let ghost ops = self.operations();
        proof {
            if order_covers(order, ops) {
                assert forall|k: Seq<char>| #[trigger] ops.contains_key(k) && targets(ops[k], kind, resource_id@)
                    implies latest_among(order, ops, kind, resource_id@) is Some by {
                    lemma_latest_finds(order, ops, kind, resource_id@, k);
                }
            }
        }
        let mut j: usize = self.order.len();
        assert(order.take(j as int) =~= order);
        while j > 0
            invariant
                j <= self.order@.len(),
                order == self.start_order(),
                ops == self.operations(),
                latest_among(order, ops, kind, resource_id@) == latest_among(order.take(j as int), ops, kind, resource_id@),
            decreases j,
        {
            let found = operation_map_get(&self.ops, self.order[j - 1].as_str());
            assert(order.take(j as int).drop_last() =~= order.take(j - 1));
            assert(order.take(j as int).last() == self.order@[j - 1]@);
            if let Some(op) = found {
                if op.resource_kind == kind && same_text(op.resource_id.as_str(), resource_id) {
                    return Some(op);
                }
            }
            j = j - 1;
        }
        None
    }
}

/// Law: an operation is in progress from `start` until `finish`, and
/// then in the state `finish` gave it. The token `start` returns finds
/// the operation, on the resource and of the kind it was started for.
pub proof fn law_operation_lifecycle(
    before: Map<Seq<char>, Operation>,
    started: Map<Seq<char>, Operation>,
    finished: Map<Seq<char>, Operation>,
    token: Seq<char>,
    kind: ResourceKind,
    resource_id: Seq<char>,
    op_kind: OperationKind,
    state: OperationState,
    description: Seq<char>,
)
    requires
        ops_started(before, started, token, kind, resource_id, op_kind),
        ops_finished(started, finished, token, state, description),
    ensures
        crate::storage::memory::lookup(started, token) matches Some(op) && op.state
            == OperationState::InProgress && targets(op, kind, resource_id) && op.kind == op_kind,
        crate::storage::memory::lookup(finished, token) matches Some(op) && op.state == state
            && op.description@ == description && targets(op, kind, resource_id) && op.kind == op_kind,
{
}

} // verus!
