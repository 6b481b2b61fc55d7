//! Catalog types: the body of `GET /v2/catalog`.

use vstd::prelude::*;

use crate::models::common::MaintenanceInfo;

verus! {

/// The catalog: the services the broker offers.
#[derive(Debug)]
pub struct Catalog {
    pub services: Vec<Service>,
}

/// A service offered by the broker (e.g. "postgresql").
#[derive(Debug)]
pub struct Service {
    /// Stable, unique identifier of the service.
    pub id: String,
    /// CLI-friendly name.
    pub name: String,
    /// Human-readable description.
    pub description: String,
    /// Whether instances of this service can be bound to apps.
    pub bindable: bool,
    /// Tags to help search and categorize the service.
    pub tags: Vec<String>,
    /// Permissions the service requires (e.g. "syslog_drain").
    pub requires: Vec<String>,
    /// Free-form display metadata.
    pub metadata: Option<serde_json::Value>,
    /// The plans of this service.
    pub plans: Vec<Plan>,
    /// Whether the platform may move existing instances to another plan.
    pub plan_updateable: Option<bool>,
    /// Whether instances can be fetched.
    pub instances_retrievable: Option<bool>,
    /// Whether bindings can be fetched.
    pub bindings_retrievable: Option<bool>,
    /// Whether the broker accepts context updates.
    pub allow_context_updates: Option<bool>,
    /// Identity provider configuration.
    pub dashboard_client: Option<DashboardClient>,
}

/// Dashboard single-sign-on client of a service.
#[derive(Debug)]
pub struct DashboardClient {
    pub id: String,
    pub secret: String,
    pub redirect_uri: Option<String>,
}

/// A plan: a tier of a service (e.g. "free", "pro").
#[derive(Debug)]
pub struct Plan {
    pub id: String,
    pub name: String,
    pub description: String,
    pub metadata: Option<serde_json::Value>,
    pub free: Option<bool>,
    pub bindable: Option<bool>,
    pub plan_updateable: Option<bool>,
    pub schemas: Option<Schemas>,
    pub maximum_polling_duration: Option<u64>,
    pub maintenance_info: Option<MaintenanceInfo>,
}

/// JSON-Schema definitions for parameter validation.
#[derive(Debug)]
pub struct Schemas {
    pub service_instance: Option<ServiceInstanceSchema>,
    pub service_binding: Option<ServiceBindingSchema>,
}

/// Schemas for instance creation and update.
#[derive(Debug)]
pub struct ServiceInstanceSchema {
    pub create: Option<SchemaParameters>,
    pub update: Option<SchemaParameters>,
}

/// Schema for binding creation.
#[derive(Debug)]
pub struct ServiceBindingSchema {
    pub create: Option<SchemaParameters>,
}

/// A JSON schema constraining `parameters`.
#[derive(Debug)]
pub struct SchemaParameters {
    pub parameters: Option<serde_json::Value>,
}

} // verus!
