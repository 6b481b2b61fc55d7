//! Core broker: owns the catalog, the stored instances and bindings, and
//! the tracker of asynchronous operations.

use vstd::prelude::*;

use crate::catalog_loader;
use crate::error::{BrokerError, BrokerResult};
use crate::models::catalog::{Catalog, Plan, Service};
use crate::models::common::OperationState;
use crate::operations::{ops_finished, order_covers, OperationTracker, PendingAction, PendingWork};
use crate::storage::memory::MemoryStorage;
use crate::text::same_text;

verus! {

/// Whether `i` is the first position in `services` of a service with id `id`.
pub open spec fn first_service_at(services: Seq<Service>, id: Seq<char>, i: int) -> bool {
    &&& 0 <= i < services.len()
    &&& services[i].id@ == id
    &&& forall|j: int| 0 <= j < i ==> #[trigger] services[j].id@ != id
}

/// The first service in `services` with id `id`, if any.
pub open spec fn service_with_id(services: Seq<Service>, id: Seq<char>) -> Option<Service> {
    if exists|i: int| first_service_at(services, id, i) {
        Some(services[choose|i: int| first_service_at(services, id, i)])
    } else {
        None
    }
}

/// Whether `i` is the first position in `plans` of a plan with id `id`.
pub open spec fn first_plan_at(plans: Seq<Plan>, id: Seq<char>, i: int) -> bool {
    &&& 0 <= i < plans.len()
    &&& plans[i].id@ == id
    &&& forall|j: int| 0 <= j < i ==> #[trigger] plans[j].id@ != id
}

/// The first plan in `plans` with id `id`, if any.
pub open spec fn plan_with_id(plans: Seq<Plan>, id: Seq<char>) -> Option<Plan> {
    if exists|i: int| first_plan_at(plans, id, i) {
        Some(plans[choose|i: int| first_plan_at(plans, id, i)])
    } else {
        None
    }
}

/// The error for an unknown service id.
pub open spec fn unknown_service(id: Seq<char>) -> Seq<char> {
    "unknown service_id: "@ + id
}

/// The error for an unknown plan id.
pub open spec fn unknown_plan(id: Seq<char>) -> Seq<char> {
    "unknown plan_id: "@ + id
}

/// Whether `after` holds the records of `before` with `action` applied.
pub open spec fn applied(before: MemoryStorage, after: MemoryStorage, action: PendingAction) -> bool {
    match action {
        PendingAction::PutInstance(i) => {
            &&& after.instances() == before.instances().insert(i.id@, i)
            &&& after.bindings() == before.bindings()
        },
        PendingAction::DeleteInstance(id) => {
            &&& after.instances() == before.instances().remove(id@)
            &&& after.bindings() == before.bindings()
        },
        PendingAction::PutBinding(b) => {
            &&& after.instances() == before.instances()
            &&& after.bindings() == before.bindings().insert(b.id@, b)
        },
        PendingAction::DeleteBinding(id) => {
            &&& after.instances() == before.instances()
            &&& after.bindings() == before.bindings().remove(id@)
        },
    }
}

/// The description of a completed operation.
pub open spec fn completed_description() -> Seq<char> {
    "operation completed"@
}

/// The broker: the static catalog, the stored instances and bindings, and
/// the tracker of asynchronous operations.
#[derive(Debug)]
pub struct Broker {
    pub catalog: Catalog,
    pub storage: MemoryStorage,
    pub operations: OperationTracker,
}

impl Broker {
    /// A broker over `storage` that offers the built-in sample catalog.
    pub fn new(storage: MemoryStorage) -> (b: Self)
        ensures
            catalog_loader::is_sample_catalog(b.catalog),
            b.storage == storage,
            b.operations.operations().is_empty(),
            order_covers(b.operations.start_order(), b.operations.operations()),
    {
        Self::with_catalog(storage, catalog_loader::default_catalog())
    }

    /// A broker over `storage` that offers `catalog`.
    pub fn with_catalog(storage: MemoryStorage, catalog: Catalog) -> (b: Self)
        ensures
            b.catalog == catalog,
            b.storage == storage,
            b.operations.operations().is_empty(),
            order_covers(b.operations.start_order(), b.operations.operations()),
    {
        Broker { catalog, storage, operations: OperationTracker::new() }
    }

    /// The catalog the broker offers.
    pub fn catalog(&self) -> (c: &Catalog)
        ensures
            *c == self.catalog,
    {
        &self.catalog
    }

    /// The storage of instances and bindings.
    pub fn storage(&self) -> (s: &MemoryStorage)
        ensures
            *s == self.storage,
    {
        &self.storage
    }

    /// The tracker of asynchronous operations.
    pub fn operations(&self) -> (t: &OperationTracker)
        ensures
            *t == self.operations,
    {
        &self.operations
    }

    /// The first service of the catalog with id `service_id`; an unknown id
    /// is a bad request.
    pub fn find_service(&self, service_id: &str) -> (r: BrokerResult<&Service>)
        ensures
            match r {
                Ok(s) => service_with_id(self.catalog.services@, service_id@) == Some(*s),
                Err(e) => {
                    &&& service_with_id(self.catalog.services@, service_id@) is None
                    &&& e matches BrokerError::BadRequest(m)
                    &&& m@ == unknown_service(service_id@)
                },
            },
    {
        let services = &self.catalog.services;
        let n = services.len();
        let mut i: usize = 0;
        while i < n
            invariant
                n == services@.len(),
                services@ == self.catalog.services@,
                i <= n,
                forall|j: int| 0 <= j < i ==> #[trigger] services@[j].id@ != service_id@,
            decreases n - i,
        {
            if same_text(services[i].id.as_str(), service_id) {
                proof {
                    assert(first_service_at(services@, service_id@, i as int));
                    let k = choose|k: int| first_service_at(services@, service_id@, k);
                    assert(first_service_at(services@, service_id@, k));
                    if k < i {
                        assert(services@[k].id@ != service_id@);
                    } else if k > i {
                        assert(services@[i as int].id@ != service_id@);
                    }
                    assert(k == i);
                    assert(service_with_id(services@, service_id@) == Some(services@[i as int]));
                }
                let found = &services[i];
                assert(*found == services@[i as int]);
                return Ok(found);
            }
            i = i + 1;
        }
        let mut m = String::from_str("unknown service_id: ");
        m.append(service_id);
        Err(BrokerError::BadRequest(m))
    }

    /// The first plan of `service` with id `plan_id`; an unknown id is a
    /// bad request.
    pub fn find_plan<'a>(&'a self, service: &'a Service, plan_id: &str) -> (r: BrokerResult<&'a Plan>)
        ensures
            match r {
                Ok(p) => plan_with_id(service.plans@, plan_id@) == Some(*p),
                Err(e) => {
                    &&& plan_with_id(service.plans@, plan_id@) is None
                    &&& e matches BrokerError::BadRequest(m)
                    &&& m@ == unknown_plan(plan_id@)
                },
            },
    {
        let plans = &service.plans;
        let n = plans.len();
        let mut i: usize = 0;
        while i < n
            invariant
                n == plans@.len(),
                plans@ == service.plans@,
                i <= n,
                forall|j: int| 0 <= j < i ==> #[trigger] plans@[j].id@ != plan_id@,
            decreases n - i,
        {
            if same_text(plans[i].id.as_str(), plan_id) {
                proof {
                    assert(first_plan_at(plans@, plan_id@, i as int));
                    let k = choose|k: int| first_plan_at(plans@, plan_id@, k);
                    assert(first_plan_at(plans@, plan_id@, k));
                    if k < i {
                        assert(plans@[k].id@ != plan_id@);
                    } else if k > i {
                        assert(plans@[i as int].id@ != plan_id@);
                    }
                    assert(k == i);
                    assert(plan_with_id(plans@, plan_id@) == Some(plans@[i as int]));
                }
                let found = &plans[i];
                assert(*found == plans@[i as int]);
                return Ok(found);
            }
            i = i + 1;
        }
        let mut m = String::from_str("unknown plan_id: ");
        m.append(plan_id);
        Err(BrokerError::BadRequest(m))
    }

    /// Completes work accepted asynchronously, once its delay has passed:
    /// applies its action to storage, then marks its operation succeeded.
    pub fn complete_pending(&mut self, work: PendingWork)
        ensures
            final(self).catalog == old(self).catalog,
            applied(old(self).storage, final(self).storage, work.action),
            ops_finished(
                old(self).operations.operations(),
                final(self).operations.operations(),
                work.op_id@,
                OperationState::Succeeded,
                completed_description(),
            ),
            final(self).operations.start_order() == old(self).operations.start_order(),
            order_covers(old(self).operations.start_order(), old(self).operations.operations())
                ==> order_covers(final(self).operations.start_order(), final(self).operations.operations()),
            old(self).storage.records_keyed_by_id() ==> final(self).storage.records_keyed_by_id(),
    {
        match work.action {
            PendingAction::PutInstance(instance) => {
                let _ = self.storage.put_instance(instance);
            },
            PendingAction::DeleteInstance(id) => {
                let _ = self.storage.delete_instance(id.as_str());
            },
            PendingAction::PutBinding(binding) => {
                let _ = self.storage.put_binding(binding);
            },
            PendingAction::DeleteBinding(id) => {
                let _ = self.storage.delete_binding(id.as_str());
            },
        }
        self.operations.finish(work.op_id.as_str(), OperationState::Succeeded, "operation completed");
    }
}

} // verus!
