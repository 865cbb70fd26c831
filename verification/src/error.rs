//! Error taxonomy of the SDK.
//!
//! `Network` covers transport and I/O failures, `Timeout` a missed deadline,
//! `Unauthorized` a missing or rejected credential; the remaining variants
//! mirror the HTTP status classes the service answers with.

use vstd::prelude::*;

verus! {

/// Error returned by the SDK's operations.
#[derive(Debug, Clone, PartialEq, Eq)]
pub enum DaytonaError {
    /// The requested resource does not exist (HTTP 404).
    NotFound(String),
    /// The service throttled the request (HTTP 429).
    RateLimit(String),
    /// A deadline expired before the awaited state change (HTTP 408).
    Timeout(String),
    /// The credential is missing or was rejected (HTTP 401/403).
    Unauthorized(String),
    /// The service failed internally (HTTP 5xx).
    InternalServerError(String),
    /// A transport-level failure; carries no HTTP status.
    Network(String),
    /// Any other HTTP status, kept verbatim.
    Api { status: u16, message: String },
}

impl DaytonaError {
    /// Classify an HTTP status code into the error taxonomy.
    pub fn from_status(status: u16, message: String) -> (r: DaytonaError)
        ensures
            r == DaytonaError::spec_from_status(status, message),
    {
        if status == 404 {
            DaytonaError::NotFound(message)
        } else if status == 429 {
            DaytonaError::RateLimit(message)
        } else if status == 408 {
            DaytonaError::Timeout(message)
        } else if status == 401 || status == 403 {
            DaytonaError::Unauthorized(message)
        } else if status == 500 || status == 502 || status == 503 || status == 504 {
            DaytonaError::InternalServerError(message)
        } else {
            DaytonaError::Api { status, message }
        }
    }

    /// What `from_status` builds from a status code and a message.
    pub open spec fn spec_from_status(status: u16, message: String) -> DaytonaError {
        if status == 404 {
            DaytonaError::NotFound(message)
        } else if status == 429 {
            DaytonaError::RateLimit(message)
        } else if status == 408 {
            DaytonaError::Timeout(message)
        } else if status == 401 || status == 403 {
            DaytonaError::Unauthorized(message)
        } else if status == 500 || status == 502 || status == 503 || status == 504 {
            DaytonaError::InternalServerError(message)
        } else {
            DaytonaError::Api { status, message }
        }
    }

    /// Whether this is the not-found variant.
    pub fn is_not_found(&self) -> (r: bool)
        ensures
            r == (self is NotFound),
    {
        matches!(self, DaytonaError::NotFound(_))
    }

    /// Whether this is the rate-limit variant.
    pub fn is_rate_limit(&self) -> (r: bool)
        ensures
            r == (self is RateLimit),
    {
        matches!(self, DaytonaError::RateLimit(_))
    }

    /// Whether this is the timeout variant.
    pub fn is_timeout(&self) -> (r: bool)
        ensures
            r == (self is Timeout),
    {
        matches!(self, DaytonaError::Timeout(_))
    }

    /// The HTTP status that corresponds to the error, if any.
    pub fn status_code(&self) -> (r: Option<u16>)
        ensures
            r == self.spec_status_code(),
    {
        match self {
            DaytonaError::NotFound(_) => Some(404),
            DaytonaError::RateLimit(_) => Some(429),
            DaytonaError::Timeout(_) => Some(408),
            DaytonaError::Unauthorized(_) => Some(401),
            DaytonaError::InternalServerError(_) => Some(500),
            DaytonaError::Api { status, .. } => Some(*status),
            DaytonaError::Network(_) => None,
        }
    }

    /// The status `status_code` reports for each variant.
    pub open spec fn spec_status_code(&self) -> Option<u16> {
        match self {
            DaytonaError::NotFound(_) => Some(404u16),
            DaytonaError::RateLimit(_) => Some(429u16),
            DaytonaError::Timeout(_) => Some(408u16),
            DaytonaError::Unauthorized(_) => Some(401u16),
            DaytonaError::InternalServerError(_) => Some(500u16),
            DaytonaError::Api { status, .. } => Some(*status),
            DaytonaError::Network(_) => None,
        }
    }

    /// The message carried by the error.
    pub fn message(&self) -> (r: String)
        ensures
            r@ == self.spec_message(),
    {
        match self {
            DaytonaError::NotFound(msg) => msg.clone(),
            DaytonaError::RateLimit(msg) => msg.clone(),
            DaytonaError::Timeout(msg) => msg.clone(),
            DaytonaError::Unauthorized(msg) => msg.clone(),
            DaytonaError::InternalServerError(msg) => msg.clone(),
            DaytonaError::Network(msg) => msg.clone(),
            DaytonaError::Api { message, .. } => message.clone(),
        }
    }

    /// The message each variant carries.
    pub open spec fn spec_message(&self) -> Seq<char> {
        match self {
            DaytonaError::NotFound(msg) => msg@,
            DaytonaError::RateLimit(msg) => msg@,
            DaytonaError::Timeout(msg) => msg@,
            DaytonaError::Unauthorized(msg) => msg@,
            DaytonaError::InternalServerError(msg) => msg@,
            DaytonaError::Network(msg) => msg@,
            DaytonaError::Api { message, .. } => message@,
        }
    }
}

} // verus!
