//! Runtime configuration, built from the values of the `BROKER_*`
//! environment variables.

use vstd::prelude::*;

use crate::text::{eq_ignore_ascii_case, equals_ignoring_ascii_case, parse_unsigned, parsed_unsigned};

verus! {

/// Variable naming the bind address.
pub const HOST_VAR: &'static str = "BROKER_HOST";
/// Variable naming the bind port.
pub const PORT_VAR: &'static str = "BROKER_PORT";
/// Variable naming the Basic Auth user.
pub const USERNAME_VAR: &'static str = "BROKER_USERNAME";
/// Variable naming the Basic Auth password.
pub const PASSWORD_VAR: &'static str = "BROKER_PASSWORD";
/// Variable naming the minimum accepted OSB API version.
pub const MIN_API_VERSION_VAR: &'static str = "BROKER_MIN_API_VERSION";
/// Variable naming the catalog file.
pub const CATALOG_PATH_VAR: &'static str = "BROKER_CATALOG_PATH";
/// Variable naming the storage backend.
pub const STORAGE_VAR: &'static str = "BROKER_STORAGE";
/// Variable naming the Postgres connection URL.
pub const DATABASE_URL_VAR: &'static str = "DATABASE_URL";
/// Variable naming the simulated duration of asynchronous operations.
pub const ASYNC_OP_MILLIS_VAR: &'static str = "BROKER_ASYNC_OP_MILLIS";

/// Which storage backend to use.
#[derive(Debug, Clone, Copy, PartialEq, Eq, Structural)]
pub enum StorageBackend {
    Memory,
    Postgres,
}

/// Runtime configuration of the broker.
#[derive(Debug)]
pub struct Config {
    /// Bind address.
    pub host: String,
    /// Bind port.
    pub port: u16,
    /// HTTP Basic Auth user expected on every request.
    pub username: String,
    /// HTTP Basic Auth password expected on every request.
    pub password: String,
    /// Minimum OSB API version this broker accepts (e.g. "2.13").
    pub min_api_version: String,
    /// Optional path to a catalog JSON/YAML file; without one the built-in
    /// sample catalog is used.
    pub catalog_path: Option<String>,
    /// Storage backend to use.
    pub storage: StorageBackend,
    /// Postgres connection URL (only needed with the Postgres backend).
    pub database_url: Option<String>,
    /// Simulated duration of asynchronous operations, in milliseconds; 0
    /// makes every operation synchronous.
    pub async_op_millis: u64,
}

/// The values of the configuration variables, each absent when unset.
#[derive(Debug)]
pub struct EnvValues {
    pub host: Option<String>,
    pub port: Option<String>,
    pub username: Option<String>,
    pub password: Option<String>,
    pub min_api_version: Option<String>,
    pub catalog_path: Option<String>,
    pub storage: Option<String>,
    pub database_url: Option<String>,
    pub async_op_millis: Option<String>,
}

/// The text of a variable's value, or `default` when it is unset.
pub open spec fn text_or(v: Option<String>, default: Seq<char>) -> Seq<char> {
    match v {
        Some(s) => s@,
        None => default,
    }
}

/// The number a variable's value writes, at most `max`, or `default` when
/// it is unset or does not write such a number.
pub open spec fn number_or(v: Option<String>, max: nat, default: nat) -> nat {
    match v {
        Some(s) => match parsed_unsigned(s@, max) {
            Some(n) => n,
            None => default,
        },
        None => default,
    }
}

/// The backend a value of `BROKER_STORAGE` selects: Postgres for
/// "postgres" or "pg" in any ASCII case, memory otherwise.
pub open spec fn backend_for(v: Option<String>) -> StorageBackend {
    match v {
        Some(s) => if equals_ignoring_ascii_case(s@, "postgres"@) || equals_ignoring_ascii_case(s@, "pg"@) {
            StorageBackend::Postgres
        } else {
            StorageBackend::Memory
        },
        None => StorageBackend::Memory,
    }
}

/// The text of a variable's value, or `default` when it is unset.
fn value_or(v: Option<String>, default: &str) -> (s: String)
    ensures
        s@ == text_or(v, default@),
{
    match v {
        Some(s) => s,
        None => String::from_str(default),
    }
}

impl Config {
    /// The configuration the given variable values select. Unset or
    /// unreadable values take their defaults: host "0.0.0.0", port 8080,
    /// user "admin", password "password", minimum API version "2.13",
    /// in-memory storage, synchronous operations.
    pub fn from_values(values: EnvValues) -> (c: Config)
        ensures
            c.host@ == text_or(values.host, "0.0.0.0"@),
            c.port as nat == number_or(values.port, u16::MAX as nat, 8080),
            c.username@ == text_or(values.username, "admin"@),
            c.password@ == text_or(values.password, "password"@),
            c.min_api_version@ == text_or(values.min_api_version, "2.13"@),
            c.catalog_path == values.catalog_path,
            c.storage == backend_for(values.storage),
            c.database_url == values.database_url,
            c.async_op_millis as nat == number_or(values.async_op_millis, u64::MAX as nat, 0),
    {
        let storage = match &values.storage {
            Some(s) => {
                if eq_ignore_ascii_case(s.as_str(), "postgres") || eq_ignore_ascii_case(s.as_str(), "pg") {
                    StorageBackend::Postgres
                } else {
                    StorageBackend::Memory
                }
            },
            None => StorageBackend::Memory,
        };
        let port: u16 = match &values.port {
            Some(s) => match parse_unsigned(s.as_str(), 65535) {
                Some(n) => n as u16,
                None => 8080,
            },
            None => 8080,
        };
        let async_op_millis: u64 = match &values.async_op_millis {
            Some(s) => match parse_unsigned(s.as_str(), u64::MAX) {
                Some(n) => n,
                None => 0,
            },
            None => 0,
        };
        Config {
            host: value_or(values.host, "0.0.0.0"),
            port,
            username: value_or(values.username, "admin"),
            password: value_or(values.password, "password"),
            min_api_version: value_or(values.min_api_version, "2.13"),
            catalog_path: values.catalog_path,
            storage,
            database_url: values.database_url,
            async_op_millis,
        }
    }
}

} // verus!
