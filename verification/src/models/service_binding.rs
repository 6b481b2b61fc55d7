//! Types of `/v2/service_instances/:id/service_bindings/:bid`.

use vstd::prelude::*;

use crate::models::common::{Context, Parameters};

verus! {

/// Credentials handed to an app: a map from names to JSON values, held as
/// key/value entries with no key twice (see `distinct_keys`). A `Vec` of
/// entries rather than a `HashMap`: vstd specifies `HashMap` contents only
/// for keys whose hashing it models (integers, `bool`), not for `String`,
/// so with a `HashMap` no contract could say which credentials a binding
/// holds. The JSON answer is an object either way.
pub type Credentials = Vec<(String, serde_json::Value)>;

/// Whether no key occurs twice among the entries.
pub open spec fn distinct_keys(entries: Seq<(Seq<char>, serde_json::Value)>) -> bool {
    forall|i: int, j: int| 0 <= i < j < entries.len() ==> #[trigger] entries[i].0 != #[trigger] entries[j].0
}

/// Body of `PUT .../service_bindings/:bid` (bind).
#[derive(Debug)]
pub struct BindRequest {
    pub service_id: String,
    pub plan_id: String,
    pub app_guid: Option<String>,
    pub bind_resource: Option<BindResource>,
    pub parameters: Option<Parameters>,
    pub context: Option<Context>,
}

/// What a binding is for.
#[derive(Debug)]
pub struct BindResource {
    pub app_guid: Option<String>,
    pub route: Option<String>,
}

/// Body of a successful bind.
#[derive(Debug)]
pub struct BindResponse {
    pub credentials: Option<Credentials>,
    pub syslog_drain_url: Option<String>,
    pub route_service_url: Option<String>,
    pub volume_mounts: Option<Vec<serde_json::Value>>,
    pub operation: Option<String>,
}

/// Stored representation of a binding.
#[derive(Debug, Clone)]
pub struct ServiceBinding {
    pub id: String,
    pub instance_id: String,
    pub service_id: String,
    pub plan_id: String,
    pub credentials: Credentials,
    pub parameters: Option<Parameters>,
}

} // verus!
