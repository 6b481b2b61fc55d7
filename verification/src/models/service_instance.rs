//! Types of the `/v2/service_instances/:id` lifecycle.

use vstd::prelude::*;

use crate::models::common::{Context, MaintenanceInfo, Parameters};

verus! {

/// Body of `PUT /v2/service_instances/:id` (provision).
#[derive(Debug)]
pub struct ProvisionRequest {
    pub service_id: String,
    pub plan_id: String,
    pub organization_guid: Option<String>,
    pub space_guid: Option<String>,
    pub context: Option<Context>,
    pub parameters: Option<Parameters>,
    pub maintenance_info: Option<MaintenanceInfo>,
}

/// Body of a successful provision.
#[derive(Debug)]
pub struct ProvisionResponse {
    pub dashboard_url: Option<String>,
    pub operation: Option<String>,
    pub metadata: Option<serde_json::Value>,
}

/// Body of `PATCH /v2/service_instances/:id` (update).
#[derive(Debug)]
pub struct UpdateRequest {
    pub service_id: String,
    pub plan_id: Option<String>,
    pub parameters: Option<Parameters>,
    pub context: Option<Context>,
    pub previous_values: Option<PreviousValues>,
    pub maintenance_info: Option<MaintenanceInfo>,
}

/// Values of an instance before an update, as the platform saw them.
#[derive(Debug)]
pub struct PreviousValues {
    pub service_id: Option<String>,
    pub plan_id: Option<String>,
    pub organization_id: Option<String>,
    pub space_id: Option<String>,
    pub maintenance_info: Option<MaintenanceInfo>,
}

/// Body of a successful update.
#[derive(Debug)]
pub struct UpdateResponse {
    pub dashboard_url: Option<String>,
    pub operation: Option<String>,
}

/// Body of `GET /v2/service_instances/:id`.
#[derive(Debug)]
pub struct GetInstanceResponse {
    pub service_id: Option<String>,
    pub plan_id: Option<String>,
    pub dashboard_url: Option<String>,
    pub parameters: Option<Parameters>,
    pub maintenance_info: Option<MaintenanceInfo>,
}

/// Stored representation of a provisioned instance.
#[derive(Debug, Clone)]
pub struct ServiceInstance {
    pub id: String,
    pub service_id: String,
    pub plan_id: String,
    pub parameters: Option<Parameters>,
    pub context: Option<Context>,
    pub dashboard_url: Option<String>,
}

} // verus!
