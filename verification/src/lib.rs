//! An Open Service Broker (OSB API v2) core: the catalog, the stored
//! service instances and bindings, the tracker of asynchronous operations,
//! and the decisions each OSB endpoint makes, all with machine-checked
//! contracts.

pub mod auth;
pub mod broker;
pub mod catalog_loader;
pub mod concurrent_map;
pub mod config;
pub mod error;
pub mod handlers;
pub mod json;
pub mod models;
pub mod operations;
pub mod storage;
pub mod text;
pub mod validation;

use vstd::prelude::*;

use crate::broker::Broker;
use crate::config::Config;

verus! {

/// State every handler works on: the broker and its configuration.
#[derive(Debug)]
pub struct AppState {
    pub broker: Broker,
    pub config: Config,
}

} // verus!
