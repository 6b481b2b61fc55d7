//! JSON-Schema validation of parameters against `plan.schemas`.

use rust_open_service_broker::broker::Broker;
use rust_open_service_broker::catalog_loader::default_catalog;
use rust_open_service_broker::config::{Config, StorageBackend};
use rust_open_service_broker::handlers::service_instance::{provision, ProvisionQuery};
use rust_open_service_broker::models::catalog::{
    Catalog, SchemaParameters, Schemas, ServiceInstanceSchema,
};
use rust_open_service_broker::models::service_instance::ProvisionRequest;
use rust_open_service_broker::storage::memory::MemoryStorage;
use rust_open_service_broker::AppState;

const SERVICE_ID: &str = "4f6e6cf6-ffdd-425f-a2c7-3c9258ad2468";
const PLAN_ID: &str = "86064792-7ea2-467b-af93-ac9694d96d5b";

/// The example catalog: the sample service whose free plan requires a
/// non-empty string `db_name` on creation.
fn example_catalog() -> Catalog {
    let mut catalog = default_catalog();
    let schema: serde_json::Value = serde_json::from_str(
        r#"{
            "$schema": "http://json-schema.org/draft-07/schema#",
            "type": "object",
            "properties": { "db_name": { "type": "string", "minLength": 1 } }
        }"#,
    )
    .unwrap();
    catalog.services[0].plans[0].schemas = Some(Schemas {
        service_instance: Some(ServiceInstanceSchema {
            create: Some(SchemaParameters { parameters: Some(schema) }),
            update: None,
        }),
        service_binding: None,
    });
    catalog
}

fn app_with_catalog_file() -> AppState {
    let config = Config {
        host: "127.0.0.1".into(),
        port: 0,
        username: "admin".into(),
        password: "password".into(),
        min_api_version: "2.13".into(),
        catalog_path: Some("catalog.example.json".into()),
        storage: StorageBackend::Memory,
        database_url: None,
        async_op_millis: 0,
    };
    AppState { broker: Broker::with_catalog(MemoryStorage::new(), example_catalog()), config }
}

fn request_with(parameters: &str) -> ProvisionRequest {
    ProvisionRequest {
        service_id: SERVICE_ID.into(),
        plan_id: PLAN_ID.into(),
        organization_guid: Some("o".into()),
        space_guid: Some("s".into()),
        context: None,
        parameters: Some(serde_json::from_str(parameters).unwrap()),
        maintenance_info: None,
    }
}

#[test]
fn provision_with_valid_parameters_succeeds() {
    let mut app = app_with_catalog_file();
    let r = provision(
        &mut app,
        "v1".into(),
        ProvisionQuery { accepts_incomplete: None },
        request_with(r#"{ "db_name": "mydb" }"#),
    );
    assert_eq!(r.ok().unwrap().status, 201);
}

#[test]
fn provision_with_invalid_parameters_is_rejected() {
    let mut app = app_with_catalog_file();
    // db_name violates minLength=1 (empty string).
    let r = provision(
        &mut app,
        "v2".into(),
        ProvisionQuery { accepts_incomplete: None },
        request_with(r#"{ "db_name": "" }"#),
    );
    let e = r.err().unwrap();
    assert_eq!(e.status_code(), 400);
    let (_, body) = e.into_response();
    assert!(body.description.contains("schema validation"));
}

#[test]
fn provision_with_wrong_type_is_rejected() {
    let mut app = app_with_catalog_file();
    // db_name should be a string.
    let r = provision(
        &mut app,
        "v3".into(),
        ProvisionQuery { accepts_incomplete: None },
        request_with(r#"{ "db_name": 42 }"#),
    );
    assert_eq!(r.err().unwrap().status_code(), 400);
}
