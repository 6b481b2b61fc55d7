//! The concurrent map that holds the broker's records.

use vstd::prelude::*;

verus! {

/// `dashmap::DashMap`, carried as an opaque value. What each map holds is
/// named where the map is used.
#[verifier::external_type_specification]
#[verifier::external_body]
#[verifier::reject_recursive_types(K)]
#[verifier::reject_recursive_types(V)]
#[verifier::reject_recursive_types(S)]
pub struct ExDashMap<K, V, S>(dashmap::DashMap<K, V, S>);

} // verus!
