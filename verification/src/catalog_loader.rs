//! Catalog loading: the format of a catalog file, the errors of loading
//! one, and the built-in sample catalog used when no file is configured.
//! Reading the file and decoding it into a `Catalog` is the caller's part.

use vstd::prelude::*;

use crate::error::BrokerError;
use crate::json::{entries_view, json_array, json_array_of, json_object, json_object_of, json_string, json_string_of};
use crate::models::catalog::{Catalog, Plan, Service};
use crate::text::{eq_ignore_ascii_case, equals_ignoring_ascii_case, joined};

verus! {

/// How a catalog file is written.
#[derive(Debug, Clone, Copy, PartialEq, Eq, Structural)]
pub enum CatalogFormat {
    Json,
    Yaml,
}

/// The extension of the path `path`, as `std::path::Path::extension` finds
/// it (the part of the file name after its last dot, unless that dot
/// starts the name). Path syntax differs between targets (Windows also
/// separates with `\`), so this is the extension on the target the crate
/// is built for.
pub uninterp spec fn extension_of(path: Seq<char>) -> Option<Seq<char>>;

/// `std::path::Path::extension` of `path`, as text. Its contract claims
/// only that the result is a function of the path.
#[verifier::external_body]
fn path_extension(path: &str) -> (ext: Option<String>)
    ensures
        match ext {
            Some(e) => extension_of(path@) == Some(e@),
            None => extension_of(path@) is None,
        },
{
    std::path::Path::new(path).extension().and_then(|e| e.to_str()).map(|e| e.to_string())
}

/// The format a catalog file at `path` is read in: YAML for the
/// extensions `yaml` and `yml` in any ASCII case, JSON otherwise.
pub open spec fn format_for_path(path: Seq<char>) -> CatalogFormat {
    match extension_of(path) {
        Some(e) => if equals_ignoring_ascii_case(e, "yaml"@) || equals_ignoring_ascii_case(e, "yml"@) {
            CatalogFormat::Yaml
        } else {
            CatalogFormat::Json
        },
        None => CatalogFormat::Json,
    }
}

/// The format a catalog file at `path` is read in, by its extension.
pub fn catalog_format(path: &str) -> (f: CatalogFormat)
    ensures
        f == format_for_path(path@),
{
    match path_extension(path) {
        Some(ext) => {
            if eq_ignore_ascii_case(ext.as_str(), "yaml") || eq_ignore_ascii_case(ext.as_str(), "yml") {
                CatalogFormat::Yaml
            } else {
                CatalogFormat::Json
            }
        },
        None => CatalogFormat::Json,
    }
}

/// The error for a catalog file that could not be read.
pub fn read_error(path: &str, detail: &str) -> (e: BrokerError)
    ensures
        e matches BrokerError::Internal(m) && m@ == "read catalog "@ + path@ + ": "@ + detail@,
{
    let mut m = joined("read catalog ", path);
    m.append(": ");
    m.append(detail);
    BrokerError::Internal(m)
}

/// The error for a catalog file that could not be decoded.
pub fn parse_error(format: CatalogFormat, detail: &str) -> (e: BrokerError)
    ensures
        e matches BrokerError::Internal(m) && m@ == (match format {
            CatalogFormat::Yaml => "parse yaml catalog: "@,
            CatalogFormat::Json => "parse json catalog: "@,
        }) + detail@,
{
    match format {
        CatalogFormat::Yaml => BrokerError::Internal(joined("parse yaml catalog: ", detail)),
        CatalogFormat::Json => BrokerError::Internal(joined("parse json catalog: ", detail)),
    }
}

/// The texts of a list of strings.
pub open spec fn texts(v: Seq<String>) -> Seq<Seq<char>> {
    v.map_values(|s: String| s@)
}

/// The display metadata of the sample service.
pub open spec fn sample_service_metadata() -> serde_json::Value {
    json_object_of(seq![
        ("displayName"@, json_string_of("Example DB"@)),
        ("longDescription"@, json_string_of("Reference service used for testing the broker."@)),
        ("providerDisplayName"@, json_string_of("rust-open-service-broker"@)),
    ])
}

/// The display metadata of a sample plan: two bullet points.
pub open spec fn bullets_metadata(first: Seq<char>, second: Seq<char>) -> serde_json::Value {
    json_object_of(seq![("bullets"@, json_array_of(seq![json_string_of(first), json_string_of(second)]))])
}

/// Whether `p` is a plan of the sample catalog with the given id, name,
/// description, bullets and price.
pub open spec fn is_sample_plan(
    p: Plan,
    id: Seq<char>,
    name: Seq<char>,
    description: Seq<char>,
    bullets: (Seq<char>, Seq<char>),
    free: bool,
) -> bool {
    &&& p.id@ == id
    &&& p.name@ == name
    &&& p.description@ == description
    &&& p.metadata == Some(bullets_metadata(bullets.0, bullets.1))
    &&& p.free == Some(free)
    &&& p.bindable == Some(true)
    &&& p.plan_updateable == Some(true)
    &&& p.schemas is None
    &&& p.maximum_polling_duration is None
    &&& p.maintenance_info is None
}

/// Id of the sample service.
pub open spec fn sample_service_id() -> Seq<char> {
    "4f6e6cf6-ffdd-425f-a2c7-3c9258ad2468"@
}

/// Id of the free sample plan.
pub open spec fn sample_free_plan_id() -> Seq<char> {
    "86064792-7ea2-467b-af93-ac9694d96d5b"@
}

/// Id of the paid sample plan.
pub open spec fn sample_pro_plan_id() -> Seq<char> {
    "f52eabf8-e65c-4f5b-9e86-7f3c2c7b6f24"@
}

/// Whether `c` is the built-in sample catalog: one bindable service,
/// "example-db", with a free plan and a paid plan and no schemas.
pub open spec fn is_sample_catalog(c: Catalog) -> bool {
    &&& c.services@.len() == 1
    &&& {
        let s = c.services@[0];
        &&& s.id@ == sample_service_id()
        &&& s.name@ == "example-db"@
        &&& s.description@ == "An example database service offered by this broker."@
        &&& s.bindable
        &&& texts(s.tags@) == seq!["example"@, "database"@]
        &&& s.requires@.len() == 0
        &&& s.metadata == Some(sample_service_metadata())
        &&& s.plans@.len() == 2
        &&& is_sample_plan(s.plans@[0], sample_free_plan_id(), "free"@, "Free shared plan."@, ("Shared"@, "Free"@), true)
        &&& is_sample_plan(s.plans@[1], sample_pro_plan_id(), "pro"@, "Dedicated paid plan."@, ("Dedicated"@, "Paid"@), false)
        &&& s.plan_updateable == Some(true)
        &&& s.instances_retrievable == Some(true)
        &&& s.bindings_retrievable == Some(true)
        &&& s.allow_context_updates is None
        &&& s.dashboard_client is None
    }
}

/// The metadata `{"bullets": [first, second]}` of a sample plan.
fn bullets(first: &str, second: &str) -> (v: serde_json::Value)
    ensures
        v == bullets_metadata(first@, second@),
{
    let items = vec![json_string(first), json_string(second)];
    let list = json_array(items);
    let entries = vec![(String::from_str("bullets"), list)];
    let v = json_object(entries);
    assert(entries_view(entries@) =~= seq![("bullets"@, json_array_of(seq![json_string_of(first@), json_string_of(second@)]))]);
    v
}

/// A plan of the sample catalog.
fn sample_plan(id: &str, name: &str, description: &str, first: &str, second: &str, free: bool) -> (p: Plan)
    ensures
        is_sample_plan(p, id@, name@, description@, (first@, second@), free),
{
    Plan {
        id: String::from_str(id),
        name: String::from_str(name),
        description: String::from_str(description),
        metadata: Some(bullets(first, second)),
        free: Some(free),
        bindable: Some(true),
        plan_updateable: Some(true),
        schemas: None,
        maximum_polling_duration: None,
        maintenance_info: None,
    }
}

/// The built-in sample catalog, used when no catalog file is configured.
pub fn default_catalog() -> (c: Catalog)
    ensures
        is_sample_catalog(c),
{
    let metadata_entries = vec![
        (String::from_str("displayName"), json_string("Example DB")),
        (
            String::from_str("longDescription"),
            json_string("Reference service used for testing the broker."),
        ),
        (String::from_str("providerDisplayName"), json_string("rust-open-service-broker")),
    ];
    assert(entries_view(metadata_entries@) =~= seq![
        ("displayName"@, json_string_of("Example DB"@)),
        ("longDescription"@, json_string_of("Reference service used for testing the broker."@)),
        ("providerDisplayName"@, json_string_of("rust-open-service-broker"@)),
    ]);
    let metadata = json_object(metadata_entries);
    let tags = vec![String::from_str("example"), String::from_str("database")];
    assert(texts(tags@) =~= seq!["example"@, "database"@]);
    let plans = vec![
        sample_plan(
            "86064792-7ea2-467b-af93-ac9694d96d5b",
            "free",
            "Free shared plan.",
            "Shared",
            "Free",
            true,
        ),
        sample_plan(
            "f52eabf8-e65c-4f5b-9e86-7f3c2c7b6f24",
            "pro",
            "Dedicated paid plan.",
            "Dedicated",
            "Paid",
            false,
        ),
    ];
    let service = Service {
        id: String::from_str("4f6e6cf6-ffdd-425f-a2c7-3c9258ad2468"),
        name: String::from_str("example-db"),
        description: String::from_str("An example database service offered by this broker."),
        bindable: true,
        tags,
        requires: Vec::new(),
        metadata: Some(metadata),
        plans,
        plan_updateable: Some(true),
        instances_retrievable: Some(true),
        bindings_retrievable: Some(true),
        allow_context_updates: None,
        dashboard_client: None,
    };
    Catalog { services: vec![service] }
}

} // verus!
