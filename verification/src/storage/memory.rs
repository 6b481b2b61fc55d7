//! In-memory storage backend, backed by `dashmap`.

use vstd::prelude::*;

use dashmap::DashMap;

use crate::error::BrokerResult;
use crate::models::service_binding::ServiceBinding;
use crate::models::service_instance::ServiceInstance;

verus! {

/// The map of stored instances, keyed by instance id.
pub type InstanceMap = DashMap<String, ServiceInstance>;

/// The map of stored bindings, keyed by binding id.
pub type BindingMap = DashMap<String, ServiceBinding>;

/// What a map of instances holds, keyed by the text of the instance id.
pub uninterp spec fn instance_entries(map: InstanceMap) -> Map<Seq<char>, ServiceInstance>;

/// What a map of bindings holds, keyed by the text of the binding id.
pub uninterp spec fn binding_entries(map: BindingMap) -> Map<Seq<char>, ServiceBinding>;

/// `DashMap::new` for instances: a map that holds nothing.
#[verifier::external_body]
fn instance_map_new() -> (map: InstanceMap)
    ensures
        instance_entries(map).is_empty(),
{
    DashMap::new()
}

/// `DashMap::insert` for instances: afterwards `key` maps to `value`, the
/// other entries stay.
#[verifier::external_body]
fn instance_map_insert(map: &mut InstanceMap, key: String, value: ServiceInstance)
    ensures
        instance_entries(*final(map)) == instance_entries(*old(map)).insert(key@, value),
{
    map.insert(key, value);
}

/// `DashMap::get` for instances, the entry cloned (by the derived `Clone`,
/// which copies every field).
#[verifier::external_body]
fn instance_map_get(map: &InstanceMap, key: &str) -> (found: Option<ServiceInstance>)
    ensures
        found == (if instance_entries(*map).contains_key(key@) {
            Some(instance_entries(*map)[key@])
        } else {
            None
        }),
{
    map.get(key).map(|entry| entry.value().clone())
}

/// `DashMap::remove` for instances: afterwards `key` maps to nothing; the
/// result says whether it mapped to something before.
#[verifier::external_body]
fn instance_map_remove(map: &mut InstanceMap, key: &str) -> (existed: bool)
    ensures
        existed == instance_entries(*old(map)).contains_key(key@),
        instance_entries(*final(map)) == instance_entries(*old(map)).remove(key@),
{
    map.remove(key).is_some()
}

/// `DashMap::new` for bindings: a map that holds nothing.
#[verifier::external_body]
fn binding_map_new() -> (map: BindingMap)
    ensures
        binding_entries(map).is_empty(),
{
    DashMap::new()
}

/// `DashMap::insert` for bindings: afterwards `key` maps to `value`, the
/// other entries stay.
#[verifier::external_body]
fn binding_map_insert(map: &mut BindingMap, key: String, value: ServiceBinding)
    ensures
        binding_entries(*final(map)) == binding_entries(*old(map)).insert(key@, value),
{
    map.insert(key, value);
}

/// `DashMap::get` for bindings, the entry cloned (by the derived `Clone`,
/// which copies every field).
#[verifier::external_body]
fn binding_map_get(map: &BindingMap, key: &str) -> (found: Option<ServiceBinding>)
    ensures
        found == (if binding_entries(*map).contains_key(key@) {
            Some(binding_entries(*map)[key@])
        } else {
            None
        }),
{
    map.get(key).map(|entry| entry.value().clone())
}

/// `DashMap::remove` for bindings: afterwards `key` maps to nothing; the
/// result says whether it mapped to something before.
#[verifier::external_body]
fn binding_map_remove(map: &mut BindingMap, key: &str) -> (existed: bool)
    ensures
        existed == binding_entries(*old(map)).contains_key(key@),
        binding_entries(*final(map)) == binding_entries(*old(map)).remove(key@),
{
    map.remove(key).is_some()
}

/// The entry stored under `key`, if any.
pub open spec fn lookup<V>(m: Map<Seq<char>, V>, key: Seq<char>) -> Option<V> {
    if m.contains_key(key) {
        Some(m[key])
    } else {
        None
    }
}

/// Storage of instances and bindings in memory.
#[derive(Debug)]
pub struct MemoryStorage {
    instances: InstanceMap,
    bindings: BindingMap,
}

impl MemoryStorage {
    /// The stored instances, keyed by the text of their id.
    pub closed spec fn instances(&self) -> Map<Seq<char>, ServiceInstance> {
        instance_entries(self.instances)
    }

    /// The stored bindings, keyed by the text of their id.
    pub closed spec fn bindings(&self) -> Map<Seq<char>, ServiceBinding> {
        binding_entries(self.bindings)
    }

    /// Whether every record is stored under its own id.
    pub open spec fn records_keyed_by_id(&self) -> bool {
        &&& forall|k: Seq<char>| #[trigger] self.instances().contains_key(k) ==> self.instances()[k].id@ == k
        &&& forall|k: Seq<char>| #[trigger] self.bindings().contains_key(k) ==> self.bindings()[k].id@ == k
    }

    /// An empty storage.
    pub fn new() -> (s: Self)
        ensures
            s.instances().is_empty(),
            s.bindings().is_empty(),
            s.records_keyed_by_id(),
    {
        MemoryStorage { instances: instance_map_new(), bindings: binding_map_new() }
    }

    /// Stores `instance` under its id, replacing any instance stored there.
    pub fn put_instance(&mut self, instance: ServiceInstance) -> (r: BrokerResult<()>)
        ensures
            r is Ok,
            final(self).instances() == old(self).instances().insert(instance.id@, instance),
            final(self).bindings() == old(self).bindings(),
            old(self).records_keyed_by_id() ==> final(self).records_keyed_by_id(),
    {
        let key = instance.id.clone();
        instance_map_insert(&mut self.instances, key, instance);
        Ok(())
    }

    /// The instance stored under `id`, if any.
    pub fn get_instance(&self, id: &str) -> (r: BrokerResult<Option<ServiceInstance>>)
        ensures
            r == Ok::<Option<ServiceInstance>, crate::error::BrokerError>(lookup(self.instances(), id@)),
    {
        Ok(instance_map_get(&self.instances, id))
    }

    /// Removes the instance stored under `id`; says whether there was one.
    pub fn delete_instance(&mut self, id: &str) -> (r: BrokerResult<bool>)
        ensures
            r == Ok::<bool, crate::error::BrokerError>(old(self).instances().contains_key(id@)),
            final(self).instances() == old(self).instances().remove(id@),
            final(self).bindings() == old(self).bindings(),
            old(self).records_keyed_by_id() ==> final(self).records_keyed_by_id(),
    {
        Ok(instance_map_remove(&mut self.instances, id))
    }

    /// Stores `binding` under its id, replacing any binding stored there.
    pub fn put_binding(&mut self, binding: ServiceBinding) -> (r: BrokerResult<()>)
        ensures
            r is Ok,
            final(self).bindings() == old(self).bindings().insert(binding.id@, binding),
            final(self).instances() == old(self).instances(),
            old(self).records_keyed_by_id() ==> final(self).records_keyed_by_id(),
    {
        let key = binding.id.clone();
        binding_map_insert(&mut self.bindings, key, binding);
        Ok(())
    }

    /// The binding stored under `id`, if any.
    pub fn get_binding(&self, id: &str) -> (r: BrokerResult<Option<ServiceBinding>>)
        ensures
            r == Ok::<Option<ServiceBinding>, crate::error::BrokerError>(lookup(self.bindings(), id@)),
    {
        Ok(binding_map_get(&self.bindings, id))
    }

    /// Removes the binding stored under `id`; says whether there was one.
    pub fn delete_binding(&mut self, id: &str) -> (r: BrokerResult<bool>)
        ensures
            r == Ok::<bool, crate::error::BrokerError>(old(self).bindings().contains_key(id@)),
            final(self).bindings() == old(self).bindings().remove(id@),
            final(self).instances() == old(self).instances(),
            old(self).records_keyed_by_id() ==> final(self).records_keyed_by_id(),
    {
        Ok(binding_map_remove(&mut self.bindings, id))
    }
}

/// Law: a read gives back what a write wrote. After `put_instance(i)`,
/// `get_instance` of its id finds `i`; after `delete_instance(id)`,
/// `get_instance(id)` finds nothing. The same holds of bindings.
pub proof fn law_read_after_write(
    before: MemoryStorage,
    after_put: MemoryStorage,
    after_delete: MemoryStorage,
    instance: ServiceInstance,
    binding: ServiceBinding,
    id: Seq<char>,
)
    requires
        after_put.instances() == before.instances().insert(instance.id@, instance),
        after_put.bindings() == before.bindings().insert(binding.id@, binding),
        after_delete.instances() == after_put.instances().remove(id),
        after_delete.bindings() == after_put.bindings().remove(id),
    ensures
        lookup(after_put.instances(), instance.id@) == Some(instance),
        lookup(after_put.bindings(), binding.id@) == Some(binding),
        lookup(after_delete.instances(), id) is None,
        lookup(after_delete.bindings(), id) is None,
{
}

} // verus!
