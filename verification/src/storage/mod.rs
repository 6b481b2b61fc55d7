//! Storage of service instances and bindings.

pub mod memory;
