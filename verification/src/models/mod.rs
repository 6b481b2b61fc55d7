//! The OSB request, response and stored-record types.

pub mod catalog;
pub mod common;
pub mod service_binding;
pub mod service_instance;
