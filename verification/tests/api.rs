//! The OSB endpoints driven end to end through the broker state.

use rust_open_service_broker::auth::{api_version_check, basic_auth};
use rust_open_service_broker::broker::Broker;
use rust_open_service_broker::config::{Config, StorageBackend};
use rust_open_service_broker::error::BrokerError;
use rust_open_service_broker::handlers::catalog::get_catalog;
use rust_open_service_broker::handlers::service_binding::{bind, unbind, BindQuery, UnbindQuery};
use rust_open_service_broker::handlers::service_instance::{
    deprovision, provision, DeprovisionQuery, ProvisionQuery,
};
use rust_open_service_broker::models::service_binding::BindRequest;
use rust_open_service_broker::models::service_instance::ProvisionRequest;
use rust_open_service_broker::storage::memory::MemoryStorage;
use rust_open_service_broker::AppState;

const SERVICE_ID: &str = "4f6e6cf6-ffdd-425f-a2c7-3c9258ad2468";
const PLAN_ID: &str = "86064792-7ea2-467b-af93-ac9694d96d5b";

fn test_config() -> Config {
    Config {
        host: "127.0.0.1".into(),
        port: 0,
        username: "admin".into(),
        password: "password".into(),
        min_api_version: "2.13".into(),
        catalog_path: None,
        storage: StorageBackend::Memory,
        database_url: None,
        async_op_millis: 0,
    }
}

fn test_app() -> AppState {
    AppState { broker: Broker::new(MemoryStorage::new()), config: test_config() }
}

fn provision_request(service_id: &str, plan_id: &str, org: &str, space: &str) -> ProvisionRequest {
    ProvisionRequest {
        service_id: service_id.into(),
        plan_id: plan_id.into(),
        organization_guid: Some(org.into()),
        space_guid: Some(space.into()),
        context: None,
        parameters: None,
        maintenance_info: None,
    }
}

fn no_async() -> ProvisionQuery {
    ProvisionQuery { accepts_incomplete: None }
}

fn status_of<T>(r: &Result<rust_open_service_broker::handlers::HandlerReply<T>, BrokerError>) -> u16 {
    match r {
        Ok(reply) => reply.status,
        Err(e) => e.status_code(),
    }
}

#[test]
fn catalog_returns_services() {
    let app = test_app();
    let catalog = get_catalog(&app);
    assert!(!catalog.services.is_empty());
    assert_eq!(catalog.services[0].id, SERVICE_ID);
}

#[test]
fn missing_api_version_is_rejected() {
    let app = test_app();
    let r = api_version_check(&app.config, None);
    let e = r.unwrap_err();
    assert_eq!(e.status_code(), 412);
}

#[test]
fn missing_auth_is_rejected() {
    let app = test_app();
    assert!(api_version_check(&app.config, Some("2.17")).is_ok());
    let e = basic_auth(&app.config, None).unwrap_err();
    assert_eq!(e.status_code(), 401);
}

#[test]
fn provision_and_deprovision_flow() {
    let mut app = test_app();

    let body = provision_request(SERVICE_ID, PLAN_ID, "org-1", "space-1");
    let r = provision(&mut app, "inst-1".into(), no_async(), body);
    assert_eq!(status_of(&r), 201);

    let body = provision_request(SERVICE_ID, PLAN_ID, "org-1", "space-1");
    let r = provision(&mut app, "inst-1".into(), no_async(), body);
    assert_eq!(status_of(&r), 200);

    let conflict =
        provision_request(SERVICE_ID, "f52eabf8-e65c-4f5b-9e86-7f3c2c7b6f24", "org-1", "space-1");
    let r = provision(&mut app, "inst-1".into(), no_async(), conflict);
    assert_eq!(status_of(&r), 409);

    let q = DeprovisionQuery {
        service_id: SERVICE_ID.into(),
        plan_id: PLAN_ID.into(),
        accepts_incomplete: None,
    };
    let r = deprovision(&mut app, "inst-1".into(), q);
    assert_eq!(status_of(&r), 200);

    let q = DeprovisionQuery {
        service_id: SERVICE_ID.into(),
        plan_id: PLAN_ID.into(),
        accepts_incomplete: None,
    };
    let r = deprovision(&mut app, "inst-1".into(), q);
    assert_eq!(status_of(&r), 410);
}

#[test]
fn bind_and_unbind_flow() {
    let mut app = test_app();

    let body = provision_request(SERVICE_ID, PLAN_ID, "o", "s");
    let r = provision(&mut app, "inst-2".into(), no_async(), body);
    assert_eq!(status_of(&r), 201);

    let bind_body = BindRequest {
        service_id: SERVICE_ID.into(),
        plan_id: PLAN_ID.into(),
        app_guid: None,
        bind_resource: None,
        parameters: None,
        context: None,
    };
    let r = bind(
        &mut app,
        "inst-2".into(),
        "bind-1".into(),
        BindQuery { accepts_incomplete: None },
        bind_body,
    );
    assert_eq!(status_of(&r), 201);
    let reply = r.unwrap();
    let creds = reply.body.credentials.unwrap();
    let uri = creds.iter().find(|(k, _)| k == "uri").map(|(_, v)| v.clone()).unwrap();
    assert!(uri.is_string());

    let q = UnbindQuery {
        service_id: SERVICE_ID.into(),
        plan_id: PLAN_ID.into(),
        accepts_incomplete: None,
    };
    let r = unbind(&mut app, "inst-2".into(), "bind-1".into(), q);
    assert_eq!(status_of(&r), 200);

    let q = UnbindQuery {
        service_id: SERVICE_ID.into(),
        plan_id: PLAN_ID.into(),
        accepts_incomplete: None,
    };
    let r = unbind(&mut app, "inst-2".into(), "bind-1".into(), q);
    assert_eq!(status_of(&r), 410);
}
