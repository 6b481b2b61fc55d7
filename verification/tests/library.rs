//! Scenarios and edge cases of the broker library, one per promise.

use base64::Engine;

use rust_open_service_broker::auth::{api_version_check, basic_auth, credentials_of};
use rust_open_service_broker::broker::Broker;
use rust_open_service_broker::catalog_loader::{
    catalog_format, default_catalog, parse_error, read_error, CatalogFormat,
};
use rust_open_service_broker::config::{Config, EnvValues, StorageBackend};
use rust_open_service_broker::error::BrokerError;
use rust_open_service_broker::handlers::service_binding::{
    bind, get_binding, last_operation as binding_last_operation, sample_credentials, unbind,
    BindQuery, UnbindQuery,
};
use rust_open_service_broker::handlers::service_instance::{
    deprovision, get_instance, last_operation, provision, update, DeprovisionQuery,
    LastOperationQuery, ProvisionQuery,
};
use rust_open_service_broker::models::catalog::{
    SchemaParameters, Schemas, ServiceBindingSchema, ServiceInstanceSchema,
};
use rust_open_service_broker::models::common::OperationState;
use rust_open_service_broker::models::service_binding::{BindRequest, ServiceBinding};
use rust_open_service_broker::models::service_instance::{ProvisionRequest, ServiceInstance, UpdateRequest};
use rust_open_service_broker::operations::{
    OperationKind, OperationTracker, PendingAction, ResourceKind,
};
use rust_open_service_broker::storage::memory::MemoryStorage;
use rust_open_service_broker::text::{parse_unsigned, split_once, strip_prefix, trim};
use rust_open_service_broker::validation::{join_with_semicolons, schema_check_answer, validate, SchemaKind};
use rust_open_service_broker::AppState;

const SERVICE_ID: &str = "4f6e6cf6-ffdd-425f-a2c7-3c9258ad2468";
const FREE_PLAN: &str = "86064792-7ea2-467b-af93-ac9694d96d5b";
const PRO_PLAN: &str = "f52eabf8-e65c-4f5b-9e86-7f3c2c7b6f24";

fn config(async_ms: u64) -> Config {
    Config {
        host: "127.0.0.1".into(),
        port: 0,
        username: "admin".into(),
        password: "password".into(),
        min_api_version: "2.13".into(),
        catalog_path: None,
        storage: StorageBackend::Memory,
        database_url: None,
        async_op_millis: async_ms,
    }
}

fn app(async_ms: u64) -> AppState {
    AppState { broker: Broker::new(MemoryStorage::new()), config: config(async_ms) }
}

fn json(text: &str) -> serde_json::Value {
    serde_json::from_str(text).unwrap()
}

fn provision_req(plan: &str) -> ProvisionRequest {
    ProvisionRequest {
        service_id: SERVICE_ID.into(),
        plan_id: plan.into(),
        organization_guid: None,
        space_guid: None,
        context: None,
        parameters: None,
        maintenance_info: None,
    }
}

fn bind_req(plan: &str) -> BindRequest {
    BindRequest {
        service_id: SERVICE_ID.into(),
        plan_id: plan.into(),
        app_guid: None,
        bind_resource: None,
        parameters: None,
        context: None,
    }
}

fn sync() -> ProvisionQuery {
    ProvisionQuery { accepts_incomplete: None }
}

fn message(e: &BrokerError) -> String {
    e.message()
}

fn credential(creds: &[(String, serde_json::Value)], key: &str) -> serde_json::Value {
    creds.iter().find(|(k, _)| k == key).map(|(_, v)| v.clone()).unwrap()
}

#[test]
fn default_catalog_is_the_sample() {
    let c = default_catalog();
    assert_eq!(c.services.len(), 1);
    let s = &c.services[0];
    assert_eq!(s.id, SERVICE_ID);
    assert_eq!(s.name, "example-db");
    assert!(s.bindable);
    assert_eq!(s.tags, vec!["example".to_string(), "database".to_string()]);
    assert_eq!(s.plans.len(), 2);
    assert_eq!(s.plans[0].id, FREE_PLAN);
    assert_eq!(s.plans[0].name, "free");
    assert_eq!(s.plans[0].free, Some(true));
    assert_eq!(s.plans[1].id, PRO_PLAN);
    assert_eq!(s.plans[1].free, Some(false));
    assert_eq!(
        s.metadata,
        Some(json(
            r#"{"displayName": "Example DB",
                "longDescription": "Reference service used for testing the broker.",
                "providerDisplayName": "rust-open-service-broker"}"#
        ))
    );
    assert_eq!(s.plans[0].metadata, Some(json(r#"{"bullets": ["Shared", "Free"]}"#)));
    assert_eq!(s.plans[1].metadata, Some(json(r#"{"bullets": ["Dedicated", "Paid"]}"#)));
}

#[test]
fn unknown_service_and_plan_are_bad_requests() {
    let b = Broker::new(MemoryStorage::new());
    let e = b.find_service("nope").err().unwrap();
    assert_eq!(message(&e), "invalid request: unknown service_id: nope");
    let s = b.find_service(SERVICE_ID).ok().unwrap();
    let e = b.find_plan(s, "gold").err().unwrap();
    assert_eq!(e.status_code(), 400);
    assert_eq!(message(&e), "invalid request: unknown plan_id: gold");
    assert_eq!(b.find_plan(s, PRO_PLAN).ok().unwrap().name, "pro");

    let mut a = app(0);
    let mut req = provision_req(FREE_PLAN);
    req.service_id = "other".into();
    let e = provision(&mut a, "i".into(), sync(), req).err().unwrap();
    assert_eq!(message(&e), "invalid request: unknown service_id: other");
}

#[test]
fn error_statuses_and_bodies() {
    let cases: Vec<(BrokerError, u16, Option<&str>, &str)> = vec![
        (
            BrokerError::UnsupportedApiVersion,
            412,
            Some("PreconditionFailed"),
            "missing or unsupported X-Broker-API-Version header",
        ),
        (BrokerError::Unauthorized, 401, Some("Unauthorized"), "authentication failed"),
        (BrokerError::BadRequest("x".into()), 400, None, "invalid request: x"),
        (BrokerError::NotFound("x".into()), 404, None, "resource not found: x"),
        (BrokerError::Conflict("x".into()), 409, None, "conflict: x"),
        (BrokerError::Gone("x".into()), 410, None, "gone: x"),
        (
            BrokerError::Unprocessable { code: "C".into(), description: "D".into() },
            422,
            Some("C"),
            "D",
        ),
        (
            BrokerError::AsyncRequired,
            422,
            Some("AsyncRequired"),
            "This service plan requires client support for asynchronous service operations.",
        ),
        (
            BrokerError::ConcurrencyError("x".into()),
            422,
            Some("ConcurrencyError"),
            "concurrency error: x",
        ),
        (BrokerError::Internal("x".into()), 500, None, "internal error: x"),
    ];
    for (e, status, code, description) in cases {
        let (s, body) = e.into_response();
        assert_eq!(s, status);
        assert_eq!(body.error.as_deref(), code);
        assert_eq!(body.description, description);
        assert!(body.instance_usable.is_none());
        assert!(body.update_repeatable.is_none());
    }
    let e = BrokerError::Unprocessable { code: "C".into(), description: "D".into() };
    assert_eq!(e.message(), "unprocessable: C - D");
}

#[test]
fn basic_auth_accepts_only_the_configured_credentials() {
    let c = config(0);
    let good = format!("Basic {}", base64::engine::general_purpose::STANDARD.encode("admin:password"));
    assert!(basic_auth(&c, Some(&good)).is_ok());
    let padded = format!("Basic  {}\t", base64::engine::general_purpose::STANDARD.encode("admin:password"));
    assert!(basic_auth(&c, Some(&padded)).is_ok());
    let wrong = format!("Basic {}", base64::engine::general_purpose::STANDARD.encode("admin:secret"));
    assert!(matches!(basic_auth(&c, Some(&wrong)), Err(BrokerError::Unauthorized)));
    let no_colon = format!("Basic {}", base64::engine::general_purpose::STANDARD.encode("adminpassword"));
    assert!(basic_auth(&c, Some(&no_colon)).is_err());
    let bearer = format!("Bearer {}", base64::engine::general_purpose::STANDARD.encode("admin:password"));
    assert!(basic_auth(&c, Some(&bearer)).is_err());
    assert!(basic_auth(&c, Some("Basic not*base64")).is_err());
    let not_utf8 = format!("Basic {}", base64::engine::general_purpose::STANDARD.encode([0xffu8, b':', b'x']));
    assert!(basic_auth(&c, Some(&not_utf8)).is_err());
    assert!(basic_auth(&c, None).is_err());
}

#[test]
fn credentials_split_at_the_first_colon() {
    let h = format!("Basic {}", base64::engine::general_purpose::STANDARD.encode("us:er:pa:ss"));
    let (user, pass) = credentials_of(&h).unwrap();
    assert_eq!(user, "us");
    assert_eq!(pass, "er:pa:ss");
}

#[test]
fn text_helpers() {
    assert_eq!(trim("  \t a b \n"), "a b");
    assert_eq!(trim("\u{3000}x\u{a0}"), "x");
    assert_eq!(trim("   "), "");
    assert_eq!(split_once("a:b:c", ':'), Some(("a", "b:c")));
    assert_eq!(split_once("abc", ':'), None);
    assert_eq!(strip_prefix("Basic xyz", "Basic "), Some("xyz"));
    assert_eq!(strip_prefix("Basi", "Basic "), None);
    assert_eq!(parse_unsigned("8081", 65535), Some(8081));
    assert_eq!(parse_unsigned("+7", 65535), Some(7));
    assert_eq!(parse_unsigned("0065535", 65535), Some(65535));
    assert_eq!(parse_unsigned("65536", 65535), None);
    assert_eq!(parse_unsigned("-1", 65535), None);
    assert_eq!(parse_unsigned("", 65535), None);
    assert_eq!(parse_unsigned("+", 65535), None);
    assert_eq!(parse_unsigned("12a", 65535), None);
    assert_eq!(parse_unsigned("18446744073709551615", u64::MAX), Some(u64::MAX));
    assert_eq!(parse_unsigned("18446744073709551616", u64::MAX), None);
}

#[test]
fn config_defaults_and_parsing() {
    let none = EnvValues {
        host: None,
        port: None,
        username: None,
        password: None,
        min_api_version: None,
        catalog_path: None,
        storage: None,
        database_url: None,
        async_op_millis: None,
    };
    let c = Config::from_values(none);
    assert_eq!(c.host, "0.0.0.0");
    assert_eq!(c.port, 8080);
    assert_eq!(c.username, "admin");
    assert_eq!(c.password, "password");
    assert_eq!(c.min_api_version, "2.13");
    assert_eq!(c.storage, StorageBackend::Memory);
    assert_eq!(c.async_op_millis, 0);

    let some = EnvValues {
        host: Some("127.0.0.1".into()),
        port: Some("9000".into()),
        username: Some("u".into()),
        password: Some("p".into()),
        min_api_version: Some("2.17".into()),
        catalog_path: Some("c.yaml".into()),
        storage: Some("PG".into()),
        database_url: Some("postgres://db".into()),
        async_op_millis: Some("250".into()),
    };
    let c = Config::from_values(some);
    assert_eq!(c.host, "127.0.0.1");
    assert_eq!(c.port, 9000);
    assert_eq!(c.storage, StorageBackend::Postgres);
    assert_eq!(c.catalog_path.as_deref(), Some("c.yaml"));
    assert_eq!(c.async_op_millis, 250);

    let bad = EnvValues {
        host: None,
        port: Some("99999".into()),
        username: None,
        password: None,
        min_api_version: None,
        catalog_path: None,
        storage: Some("Postgres".into()),
        database_url: None,
        async_op_millis: Some("soon".into()),
    };
    let c = Config::from_values(bad);
    assert_eq!(c.port, 8080);
    assert_eq!(c.storage, StorageBackend::Postgres);
    assert_eq!(c.async_op_millis, 0);
}

#[test]
fn catalog_format_follows_the_extension() {
    assert_eq!(catalog_format("catalog.yaml"), CatalogFormat::Yaml);
    assert_eq!(catalog_format("dir/catalog.YML"), CatalogFormat::Yaml);
    assert_eq!(catalog_format("catalog.json"), CatalogFormat::Json);
    assert_eq!(catalog_format("catalog"), CatalogFormat::Json);
    assert_eq!(catalog_format(".yaml"), CatalogFormat::Json);
    let e = parse_error(CatalogFormat::Yaml, "bad");
    assert_eq!(message(&e), "internal error: parse yaml catalog: bad");
    let e = read_error("c.json", "missing");
    assert_eq!(message(&e), "internal error: read catalog c.json: missing");
}

#[test]
fn storage_reads_back_what_it_wrote() {
    let mut app = app(0);
    assert!(provision(&mut app, "i1".into(), sync(), provision_req(FREE_PLAN)).is_ok());
    let s: &MemoryStorage = app.broker.storage();
    let got = s.get_instance("i1").ok().unwrap().unwrap();
    assert_eq!(got.id, "i1");
    assert_eq!(got.plan_id, FREE_PLAN);
    assert!(s.get_instance("i2").ok().unwrap().is_none());

    let mut storage = MemoryStorage::new();
    assert_eq!(storage.delete_binding("b").ok(), Some(false));
    let fetched = get_instance(&app, "i1").ok().unwrap();
    assert_eq!(fetched.plan_id.as_deref(), Some(FREE_PLAN));
    assert_eq!(fetched.service_id.as_deref(), Some(SERVICE_ID));
    let e = get_instance(&app, "zz").err().unwrap();
    assert_eq!(message(&e), "resource not found: instance zz");
    assert_eq!(storage.delete_instance("i1").ok(), Some(false));
}

#[test]
fn update_changes_the_plan_and_keeps_the_rest() {
    let mut app = app(0);
    let mut req = provision_req(FREE_PLAN);
    req.parameters = Some(json(r#"{"size": 1}"#));
    assert!(provision(&mut app, "i".into(), sync(), req).is_ok());
    let upd = UpdateRequest {
        service_id: SERVICE_ID.into(),
        plan_id: Some(PRO_PLAN.into()),
        parameters: None,
        context: Some(json(r#"{"platform": "k8s"}"#)),
        previous_values: None,
        maintenance_info: None,
    };
    let r = update(&mut app, "i".into(), sync(), upd).ok().unwrap();
    assert_eq!(r.status, 200);
    let got = app.broker.storage().get_instance("i").ok().unwrap().unwrap();
    assert_eq!(got.plan_id, PRO_PLAN);
    assert_eq!(got.parameters, Some(json(r#"{"size": 1}"#)));
    assert_eq!(got.context, Some(json(r#"{"platform": "k8s"}"#)));

    let wrong = UpdateRequest {
        service_id: "other".into(),
        plan_id: None,
        parameters: None,
        context: None,
        previous_values: None,
        maintenance_info: None,
    };
    let e = update(&mut app, "i".into(), sync(), wrong).err().unwrap();
    assert_eq!(message(&e), "invalid request: service_id does not match existing instance");
    let missing = UpdateRequest {
        service_id: SERVICE_ID.into(),
        plan_id: None,
        parameters: None,
        context: None,
        previous_values: None,
        maintenance_info: None,
    };
    let e = update(&mut app, "nope".into(), sync(), missing).err().unwrap();
    assert_eq!(e.status_code(), 404);
    let bad_plan = UpdateRequest {
        service_id: SERVICE_ID.into(),
        plan_id: Some("gold".into()),
        parameters: None,
        context: None,
        previous_values: None,
        maintenance_info: None,
    };
    let e = update(&mut app, "i".into(), sync(), bad_plan).err().unwrap();
    assert_eq!(message(&e), "invalid request: unknown plan_id: gold");
}

#[test]
fn provision_conflict_message() {
    let mut app = app(0);
    assert!(provision(&mut app, "i".into(), sync(), provision_req(FREE_PLAN)).is_ok());
    let e = provision(&mut app, "i".into(), sync(), provision_req(PRO_PLAN)).err().unwrap();
    assert_eq!(message(&e), "conflict: instance i already exists with different params");
}

#[test]
fn bind_checks_and_credentials() {
    let mut app = app(0);
    let q = || BindQuery { accepts_incomplete: None };
    let e = bind(&mut app, "missing".into(), "b".into(), q(), bind_req(FREE_PLAN)).err().unwrap();
    assert_eq!(message(&e), "invalid request: instance missing not found");

    assert!(provision(&mut app, "i".into(), sync(), provision_req(FREE_PLAN)).is_ok());
    let r = bind(&mut app, "i".into(), "b".into(), q(), bind_req(FREE_PLAN)).ok().unwrap();
    assert_eq!(r.status, 201);
    let creds = r.body.credentials.unwrap();
    assert_eq!(creds.len(), 3);
    assert_eq!(credential(&creds, "uri"), serde_json::Value::String("example://i".into()));
    assert_eq!(credential(&creds, "username"), serde_json::Value::String("user".into()));
    assert_eq!(credential(&creds, "password"), serde_json::Value::String("secret".into()));

    // Same binding again: 200 with the same credentials.
    let r = bind(&mut app, "i".into(), "b".into(), q(), bind_req(FREE_PLAN)).ok().unwrap();
    assert_eq!(r.status, 200);
    assert_eq!(r.body.credentials.unwrap(), creds);

    // Other plan: conflict.
    let e = bind(&mut app, "i".into(), "b".into(), q(), bind_req(PRO_PLAN)).err().unwrap();
    assert_eq!(message(&e), "conflict: binding b already exists with different params");

    let fetched = get_binding(&app, "i", "b").ok().unwrap();
    assert_eq!(fetched.credentials.unwrap(), creds);
    let e = get_binding(&app, "i", "nope").err().unwrap();
    assert_eq!(message(&e), "resource not found: binding nope");

    let lo = binding_last_operation(&app, "i", "b").ok().unwrap();
    assert_eq!(lo.state, OperationState::Succeeded);
    assert_eq!(lo.description.as_deref(), Some("binding completed"));
    let uq = UnbindQuery { service_id: SERVICE_ID.into(), plan_id: FREE_PLAN.into(), accepts_incomplete: None };
    assert_eq!(unbind(&mut app, "i".into(), "b".into(), uq).ok().unwrap().status, 200);
    let lo = binding_last_operation(&app, "i", "b").ok().unwrap();
    assert_eq!(lo.description.as_deref(), Some("binding has been removed"));
}

#[test]
fn bind_to_unbindable_service_is_rejected() {
    let mut catalog = default_catalog();
    catalog.services[0].bindable = false;
    let mut app = AppState { broker: Broker::with_catalog(MemoryStorage::new(), catalog), config: config(0) };
    assert!(provision(&mut app, "i".into(), sync(), provision_req(FREE_PLAN)).is_ok());
    let e = bind(&mut app, "i".into(), "b".into(), BindQuery { accepts_incomplete: None }, bind_req(FREE_PLAN))
        .err()
        .unwrap();
    assert_eq!(message(&e), "invalid request: service example-db is not bindable");
}

#[test]
fn sample_credentials_name_the_instance() {
    let creds = sample_credentials("abc");
    assert_eq!(credential(&creds, "uri"), serde_json::Value::String("example://abc".into()));
}

#[test]
fn async_deprovision_and_unbind_defer_their_removal() {
    let mut app = app(10);
    assert!(provision(&mut app, "i".into(), sync(), provision_req(FREE_PLAN)).is_ok());
    let r = bind(&mut app, "i".into(), "b".into(), BindQuery { accepts_incomplete: Some(true) }, bind_req(FREE_PLAN))
        .ok()
        .unwrap();
    assert_eq!(r.status, 202);
    let work = r.pending.unwrap();
    assert!(matches!(work.action, PendingAction::PutBinding(_)));
    let lo = binding_last_operation(&app, "i", "b").ok().unwrap();
    assert_eq!(lo.state, OperationState::InProgress);
    assert_eq!(lo.description.as_deref(), Some("Bind in progress"));
    app.broker.complete_pending(work);
    assert!(get_binding(&app, "i", "b").is_ok());

    let uq = UnbindQuery { service_id: SERVICE_ID.into(), plan_id: FREE_PLAN.into(), accepts_incomplete: Some(true) };
    let r = unbind(&mut app, "i".into(), "b".into(), uq).ok().unwrap();
    assert_eq!(r.status, 202);
    assert!(r.body.operation.is_some());
    app.broker.complete_pending(r.pending.unwrap());
    assert!(get_binding(&app, "i", "b").is_err());

    let dq = DeprovisionQuery { service_id: SERVICE_ID.into(), plan_id: FREE_PLAN.into(), accepts_incomplete: Some(true) };
    let r = deprovision(&mut app, "i".into(), dq).ok().unwrap();
    assert_eq!(r.status, 202);
    let op = r.body.operation.clone().unwrap();
    let q = LastOperationQuery { service_id: None, plan_id: None, operation: Some(op) };
    let lo = last_operation(&app, "i", q).ok().unwrap();
    assert_eq!(lo.description.as_deref(), Some("Deprovision in progress"));
    assert!(get_instance(&app, "i").is_ok());
    app.broker.complete_pending(r.pending.unwrap());
    assert!(get_instance(&app, "i").is_err());
    let q = LastOperationQuery { service_id: None, plan_id: None, operation: None };
    let lo = last_operation(&app, "i", q).ok().unwrap();
    assert_eq!(lo.state, OperationState::Succeeded);
    assert_eq!(lo.description.as_deref(), Some("operation completed"));
}

#[test]
fn last_operation_without_operations_reports_storage() {
    let mut app = app(0);
    let q = || LastOperationQuery { service_id: None, plan_id: None, operation: Some("unknown".into()) };
    let lo = last_operation(&app, "i", q()).ok().unwrap();
    assert_eq!(lo.state, OperationState::Succeeded);
    assert_eq!(lo.description.as_deref(), Some("instance has been removed"));
    assert!(provision(&mut app, "i".into(), sync(), provision_req(FREE_PLAN)).is_ok());
    let lo = last_operation(&app, "i", q()).ok().unwrap();
    assert_eq!(lo.description.as_deref(), Some("operation completed"));
}

#[test]
fn operation_tokens_are_fresh_and_tracked() {
    let mut t = OperationTracker::new();
    let a = t.start(ResourceKind::Instance, "x", OperationKind::Provision);
    let b = t.start(ResourceKind::Binding, "y", OperationKind::Unbind);
    assert_eq!(a.len(), 36);
    assert_ne!(a, b);
    let op = t.get(&a).unwrap();
    assert_eq!(op.state, OperationState::InProgress);
    assert_eq!(op.description, "Provision in progress");
    assert_eq!(op.resource_id, "x");
    t.finish(&a, OperationState::Failed, "boom");
    let op = t.get(&a).unwrap();
    assert_eq!(op.state, OperationState::Failed);
    assert_eq!(op.description, "boom");
    t.finish("missing", OperationState::Succeeded, "ok");
    assert!(t.get("missing").is_none());
    assert_eq!(t.latest_for(ResourceKind::Binding, "y").unwrap().id, b);
    assert!(t.latest_for(ResourceKind::Instance, "y").is_none());
}

#[test]
fn schema_checks() {
    let mut plan = default_catalog().services.remove(0).plans.remove(0);
    let params = json(r#"{"n": 1}"#);
    assert!(validate(&plan, SchemaKind::InstanceCreate, Some(&params)).is_ok());
    plan.schemas = Some(Schemas {
        service_instance: Some(ServiceInstanceSchema {
            create: Some(SchemaParameters { parameters: Some(json(r#"{"type": 12}"#)) }),
            update: Some(SchemaParameters {
                parameters: Some(json(r#"{"properties": {"n": {"type": "string"}}}"#)),
            }),
        }),
        service_binding: Some(ServiceBindingSchema {
            create: Some(SchemaParameters {
                parameters: Some(json(r#"{"properties": {"n": {"type": "integer"}}}"#)),
            }),
        }),
    });
    let e = validate(&plan, SchemaKind::InstanceCreate, Some(&params)).err().unwrap();
    assert!(matches!(&e, BrokerError::Internal(m) if m.starts_with("invalid plan schema: ")));
    let e = validate(&plan, SchemaKind::InstanceUpdate, Some(&params)).err().unwrap();
    assert!(matches!(&e, BrokerError::BadRequest(m) if m.starts_with("parameters failed schema validation: ")));
    assert!(validate(&plan, SchemaKind::InstanceUpdate, None).is_ok());
    assert!(validate(&plan, SchemaKind::BindingCreate, Some(&params)).is_ok());

    let msgs = vec!["a".to_string(), "b".to_string(), "c".to_string()];
    assert_eq!(join_with_semicolons(&msgs), "a; b; c");
    let e = schema_check_answer(None, &msgs).err().unwrap();
    assert_eq!(message(&e), "invalid request: parameters failed schema validation: a; b; c");
    let e = schema_check_answer(Some("bad".into()), &Vec::new()).err().unwrap();
    assert_eq!(message(&e), "internal error: invalid plan schema: bad");
    assert!(schema_check_answer(None, &Vec::new()).is_ok());
}

#[test]
fn deprovision_undoes_provision() {
    let mut app = app(0);
    assert!(provision(&mut app, "keep".into(), sync(), provision_req(FREE_PLAN)).is_ok());
    assert_eq!(provision(&mut app, "tmp".into(), sync(), provision_req(PRO_PLAN)).ok().unwrap().status, 201);
    let dq = DeprovisionQuery { service_id: SERVICE_ID.into(), plan_id: PRO_PLAN.into(), accepts_incomplete: None };
    assert_eq!(deprovision(&mut app, "tmp".into(), dq).ok().unwrap().status, 200);
    assert!(get_instance(&app, "tmp").is_err());
    assert_eq!(get_instance(&app, "keep").ok().unwrap().plan_id.as_deref(), Some(FREE_PLAN));
}

#[test]
fn unbind_undoes_bind() {
    let mut app = app(0);
    assert!(provision(&mut app, "i".into(), sync(), provision_req(FREE_PLAN)).is_ok());
    let q = || BindQuery { accepts_incomplete: None };
    assert!(bind(&mut app, "i".into(), "keep".into(), q(), bind_req(FREE_PLAN)).is_ok());
    assert_eq!(bind(&mut app, "i".into(), "tmp".into(), q(), bind_req(FREE_PLAN)).ok().unwrap().status, 201);
    let uq = UnbindQuery { service_id: SERVICE_ID.into(), plan_id: FREE_PLAN.into(), accepts_incomplete: None };
    assert_eq!(unbind(&mut app, "i".into(), "tmp".into(), uq).ok().unwrap().status, 200);
    assert!(get_binding(&app, "i", "tmp").is_err());
    assert!(get_binding(&app, "i", "keep").is_ok());
}

#[test]
fn memory_storage_reads_back_writes() {
    let mut s = MemoryStorage::new();
    let inst = ServiceInstance {
        id: "a".into(),
        service_id: "s".into(),
        plan_id: "p".into(),
        parameters: Some(json(r#"{"k": [1, 2]}"#)),
        context: None,
        dashboard_url: Some("http://d".into()),
    };
    assert!(s.put_instance(inst).is_ok());
    let got = s.get_instance("a").ok().unwrap().unwrap();
    assert_eq!(got.plan_id, "p");
    assert_eq!(got.parameters, Some(json(r#"{"k": [1, 2]}"#)));
    assert_eq!(got.dashboard_url.as_deref(), Some("http://d"));
    let b = ServiceBinding {
        id: "b".into(),
        instance_id: "a".into(),
        service_id: "s".into(),
        plan_id: "p".into(),
        credentials: sample_credentials("a"),
        parameters: None,
    };
    assert!(s.put_binding(b).is_ok());
    assert_eq!(s.get_binding("b").ok().unwrap().unwrap().instance_id, "a");
    assert_eq!(s.delete_instance("a").ok(), Some(true));
    assert_eq!(s.delete_instance("a").ok(), Some(false));
    assert!(s.get_instance("a").ok().unwrap().is_none());
    assert_eq!(s.delete_binding("b").ok(), Some(true));
    assert!(s.get_binding("b").ok().unwrap().is_none());
}

#[test]
fn api_version_must_reach_the_minimum() {
    let app = app(0);
    let c = &app.config;
    assert!(api_version_check(c, Some("2.13")).is_ok());
    assert!(api_version_check(c, Some("2.17")).is_ok());
    assert!(api_version_check(c, Some("3.0")).is_ok());
    assert!(api_version_check(c, Some("3")).is_ok());
    let e = api_version_check(c, Some("2.12")).unwrap_err();
    assert_eq!(e.status_code(), 412);
    assert!(matches!(e, BrokerError::UnsupportedApiVersion));
    assert!(api_version_check(c, Some("1.99")).is_err());
    assert!(api_version_check(c, Some("2")).is_err());
    assert!(api_version_check(c, Some("latest")).is_err());
    assert!(api_version_check(c, Some("")).is_err());
    assert!(api_version_check(c, None).is_err());
    let mut odd = config(0);
    odd.min_api_version = "two".into();
    assert!(api_version_check(&odd, Some("2.17")).is_err());
}

#[test]
fn provision_with_other_parameters_conflicts() {
    let mut app = app(0);
    let mut first = provision_req(FREE_PLAN);
    first.parameters = Some(json(r#"{"db_name": "a"}"#));
    assert_eq!(provision(&mut app, "i".into(), sync(), first).ok().unwrap().status, 201);
    let mut same = provision_req(FREE_PLAN);
    same.parameters = Some(json(r#"{"db_name": "a"}"#));
    assert_eq!(provision(&mut app, "i".into(), sync(), same).ok().unwrap().status, 200);
    let mut other = provision_req(FREE_PLAN);
    other.parameters = Some(json(r#"{"db_name": "b"}"#));
    let e = provision(&mut app, "i".into(), sync(), other).err().unwrap();
    assert_eq!(message(&e), "conflict: instance i already exists with different params");
    let e = provision(&mut app, "i".into(), sync(), provision_req(FREE_PLAN)).err().unwrap();
    assert_eq!(e.status_code(), 409);
    let stored = get_instance(&app, "i").ok().unwrap();
    assert_eq!(stored.parameters, Some(json(r#"{"db_name": "a"}"#)));
}

#[test]
fn instance_poll_ignores_a_binding_token() {
    let mut app = app(10);
    assert!(provision(&mut app, "i".into(), sync(), provision_req(FREE_PLAN)).is_ok());
    let r = bind(&mut app, "i".into(), "b".into(), BindQuery { accepts_incomplete: Some(true) }, bind_req(FREE_PLAN))
        .ok()
        .unwrap();
    let token = r.body.operation.clone().unwrap();
    let q = LastOperationQuery { service_id: None, plan_id: None, operation: Some(token) };
    let lo = last_operation(&app, "i", q).ok().unwrap();
    assert_eq!(lo.state, OperationState::Succeeded);
    assert_eq!(lo.description.as_deref(), Some("operation completed"));
}

#[test]
fn latest_operation_is_the_one_started_last() {
    let mut t = OperationTracker::new();
    let first = t.start(ResourceKind::Instance, "x", OperationKind::Provision);
    let _other = t.start(ResourceKind::Instance, "z", OperationKind::Provision);
    let second = t.start(ResourceKind::Instance, "x", OperationKind::Update);
    let _binding = t.start(ResourceKind::Binding, "x", OperationKind::Bind);
    t.finish(&first, OperationState::Succeeded, "operation completed");
    let latest = t.latest_for(ResourceKind::Instance, "x").unwrap();
    assert_eq!(latest.id, second);
    assert_eq!(latest.kind, OperationKind::Update);
    let third = t.start(ResourceKind::Instance, "x", OperationKind::Deprovision);
    assert_eq!(t.latest_for(ResourceKind::Instance, "x").unwrap().id, third);
    assert!(t.latest_for(ResourceKind::Instance, "w").is_none());
}

fn plan_move(plan: &str) -> UpdateRequest {
    UpdateRequest {
        service_id: SERVICE_ID.into(),
        plan_id: Some(plan.into()),
        parameters: None,
        context: None,
        previous_values: None,
        maintenance_info: None,
    }
}

#[test]
fn plan_change_needs_an_updateable_plan() {
    let mut catalog = default_catalog();
    catalog.services[0].plan_updateable = Some(false);
    for p in catalog.services[0].plans.iter_mut() {
        p.plan_updateable = None;
    }
    let mut app = AppState { broker: Broker::with_catalog(MemoryStorage::new(), catalog), config: config(10) };
    assert!(provision(&mut app, "i".into(), sync(), provision_req(FREE_PLAN)).is_ok());
    let asked = ProvisionQuery { accepts_incomplete: Some(true) };
    let e = update(&mut app, "i".into(), asked, plan_move(PRO_PLAN)).err().unwrap();
    assert_eq!(e.status_code(), 422);
    assert_eq!(
        message(&e),
        format!("unprocessable: PlanChangeNotSupported - instances cannot be moved to plan {}", PRO_PLAN)
    );
    let got = app.broker.storage().get_instance("i").ok().unwrap().unwrap();
    assert_eq!(got.plan_id, FREE_PLAN);
    assert!(app.broker.operations().latest_for(ResourceKind::Instance, "i").is_none());
    // Staying on the same plan is no plan change.
    assert_eq!(update(&mut app, "i".into(), sync(), plan_move(FREE_PLAN)).ok().unwrap().status, 200);

    // The target plan's own flag takes precedence over the service's.
    let mut catalog = default_catalog();
    catalog.services[0].plan_updateable = Some(false);
    for p in catalog.services[0].plans.iter_mut() {
        p.plan_updateable = Some(true);
    }
    let mut app = AppState { broker: Broker::with_catalog(MemoryStorage::new(), catalog), config: config(0) };
    assert!(provision(&mut app, "i".into(), sync(), provision_req(FREE_PLAN)).is_ok());
    assert_eq!(update(&mut app, "i".into(), sync(), plan_move(PRO_PLAN)).ok().unwrap().status, 200);

    // Neither the plan nor the service says anything: no plan change.
    let mut catalog = default_catalog();
    catalog.services[0].plan_updateable = None;
    for p in catalog.services[0].plans.iter_mut() {
        p.plan_updateable = None;
    }
    let mut app = AppState { broker: Broker::with_catalog(MemoryStorage::new(), catalog), config: config(0) };
    assert!(provision(&mut app, "i".into(), sync(), provision_req(FREE_PLAN)).is_ok());
    assert_eq!(update(&mut app, "i".into(), sync(), plan_move(PRO_PLAN)).err().unwrap().status_code(), 422);
}

#[test]
fn schemas_with_ref_are_not_checked_against() {
    let mut plan = default_catalog().services.remove(0).plans.remove(0);
    let params = json(r#"{"n": 1}"#);
    plan.schemas = Some(Schemas {
        service_instance: Some(ServiceInstanceSchema {
            create: Some(SchemaParameters { parameters: Some(json(r##"{"$ref": "#"}"##)) }),
            update: Some(SchemaParameters {
                parameters: Some(json(r##"{"properties": {"n": {"items": [{"$ref": "#/definitions/x"}]}}}"##)),
            }),
        }),
        service_binding: Some(ServiceBindingSchema {
            create: Some(SchemaParameters {
                parameters: Some(json(r#"{"properties": {"n": {"type": "integer", "description": "$ref"}}}"#)),
            }),
        }),
    });
    let expected = "internal error: invalid plan schema: $ref, and nesting deeper than 128 levels, are not supported";
    let e = validate(&plan, SchemaKind::InstanceCreate, Some(&params)).err().unwrap();
    assert_eq!(message(&e), expected);
    let e = validate(&plan, SchemaKind::InstanceUpdate, Some(&params)).err().unwrap();
    assert_eq!(message(&e), expected);
    // A string value "$ref" is no reference.
    assert!(validate(&plan, SchemaKind::BindingCreate, Some(&params)).is_ok());
    // Without parameters nothing is checked.
    assert!(validate(&plan, SchemaKind::InstanceCreate, None).is_ok());
}
