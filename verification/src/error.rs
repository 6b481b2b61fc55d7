//! The broker's error type. Each variant maps to an HTTP status code and
//! an OSB-spec error body.

use vstd::prelude::*;

use crate::text::joined;

verus! {

/// OSB-spec error body: `error` is a machine-readable code and
/// `description` a human-readable text.
#[derive(Debug)]
pub struct ErrorBody {
    pub error: Option<String>,
    pub description: String,
    pub instance_usable: Option<bool>,
    pub update_repeatable: Option<bool>,
}

/// Every way a broker request can fail.
#[derive(Debug)]
pub enum BrokerError {
    UnsupportedApiVersion,
    Unauthorized,
    BadRequest(String),
    NotFound(String),
    Conflict(String),
    Gone(String),
    Unprocessable { code: String, description: String },
    AsyncRequired,
    ConcurrencyError(String),
    Internal(String),
}

/// Result of a broker operation.
pub type BrokerResult<T> = Result<T, BrokerError>;

/// The human-readable text of an error.
pub open spec fn error_message(e: BrokerError) -> Seq<char> {
    match e {
        BrokerError::UnsupportedApiVersion => "missing or unsupported X-Broker-API-Version header"@,
        BrokerError::Unauthorized => "authentication failed"@,
        BrokerError::BadRequest(m) => "invalid request: "@ + m@,
        BrokerError::NotFound(m) => "resource not found: "@ + m@,
        BrokerError::Conflict(m) => "conflict: "@ + m@,
        BrokerError::Gone(m) => "gone: "@ + m@,
        BrokerError::Unprocessable { code, description } =>
            "unprocessable: "@ + code@ + " - "@ + description@,
        BrokerError::AsyncRequired => "async required for this operation"@,
        BrokerError::ConcurrencyError(m) => "concurrency error: "@ + m@,
        BrokerError::Internal(m) => "internal error: "@ + m@,
    }
}

/// The HTTP status code an error is answered with.
pub open spec fn error_status(e: BrokerError) -> u16 {
    match e {
        BrokerError::UnsupportedApiVersion => 412,
        BrokerError::Unauthorized => 401,
        BrokerError::BadRequest(_) => 400,
        BrokerError::NotFound(_) => 404,
        BrokerError::Conflict(_) => 409,
        BrokerError::Gone(_) => 410,
        BrokerError::Unprocessable { .. } => 422,
        BrokerError::AsyncRequired => 422,
        BrokerError::ConcurrencyError(_) => 422,
        BrokerError::Internal(_) => 500,
    }
}

/// The machine-readable code in the error body, if any.
pub open spec fn error_code(e: BrokerError) -> Option<Seq<char>> {
    match e {
        BrokerError::UnsupportedApiVersion => Some("PreconditionFailed"@),
        BrokerError::Unauthorized => Some("Unauthorized"@),
        BrokerError::Unprocessable { code, .. } => Some(code@),
        BrokerError::AsyncRequired => Some("AsyncRequired"@),
        BrokerError::ConcurrencyError(_) => Some("ConcurrencyError"@),
        _ => None,
    }
}

/// The description in the error body.
pub open spec fn error_description(e: BrokerError) -> Seq<char> {
    match e {
        BrokerError::Unprocessable { description, .. } => description@,
        BrokerError::AsyncRequired =>
            "This service plan requires client support for asynchronous service operations."@,
        _ => error_message(e),
    }
}

/// The text of an optional string, if any.
pub open spec fn opt_text(s: Option<String>) -> Option<Seq<char>> {
    match s {
        Some(t) => Some(t@),
        None => None,
    }
}

impl BrokerError {
    /// The human-readable text of the error.
    pub fn message(&self) -> (s: String)
        ensures
            s@ == error_message(*self),
    {
        match self {
            BrokerError::UnsupportedApiVersion => String::from_str(
                "missing or unsupported X-Broker-API-Version header",
            ),
            BrokerError::Unauthorized => String::from_str("authentication failed"),
            BrokerError::BadRequest(m) => joined("invalid request: ", m.as_str()),
            BrokerError::NotFound(m) => joined("resource not found: ", m.as_str()),
            BrokerError::Conflict(m) => joined("conflict: ", m.as_str()),
            BrokerError::Gone(m) => joined("gone: ", m.as_str()),
            BrokerError::Unprocessable { code, description } => {
                let mut s = joined("unprocessable: ", code.as_str());
                s.append(" - ");
                s.append(description.as_str());
                s
            },
            BrokerError::AsyncRequired => String::from_str("async required for this operation"),
            BrokerError::ConcurrencyError(m) => joined("concurrency error: ", m.as_str()),
            BrokerError::Internal(m) => joined("internal error: ", m.as_str()),
        }
    }

    /// The HTTP status code of the answer to this error.
    pub fn status_code(&self) -> (code: u16)
        ensures
            code == error_status(*self),
    {
        match self {
            BrokerError::UnsupportedApiVersion => 412,
            BrokerError::Unauthorized => 401,
            BrokerError::BadRequest(_) => 400,
            BrokerError::NotFound(_) => 404,
            BrokerError::Conflict(_) => 409,
            BrokerError::Gone(_) => 410,
            BrokerError::Unprocessable { .. } => 422,
            BrokerError::AsyncRequired => 422,
            BrokerError::ConcurrencyError(_) => 422,
            BrokerError::Internal(_) => 500,
        }
    }

    /// The answer to this error: its status code and OSB error body.
    pub fn into_response(self) -> (r: (u16, ErrorBody))
        ensures
            r.0 == error_status(self),
            opt_text(r.1.error) == error_code(self),
            r.1.description@ == error_description(self),
            r.1.instance_usable is None,
            r.1.update_repeatable is None,
    {
        let status = self.status_code();
        let (code, description) = match &self {
            BrokerError::UnsupportedApiVersion => (
                Some(String::from_str("PreconditionFailed")),
                self.message(),
            ),
            BrokerError::Unauthorized => (Some(String::from_str("Unauthorized")), self.message()),
            BrokerError::Unprocessable { code, description } => (
                Some(code.clone()),
                description.clone(),
            ),
            BrokerError::AsyncRequired => (
                Some(String::from_str("AsyncRequired")),
                String::from_str(
                    "This service plan requires client support for asynchronous service operations.",
                ),
            ),
            BrokerError::ConcurrencyError(_) => (
                Some(String::from_str("ConcurrencyError")),
                self.message(),
            ),
            _ => (None, self.message()),
        };
        let body = ErrorBody {
            error: code,
            description,
            instance_usable: None,
            update_repeatable: None,
        };
        (status, body)
    }
}

} // verus!
