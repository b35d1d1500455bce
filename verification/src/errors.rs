//! The application's error taxonomy.
//!
//! Fetch failures, persistence failures and initialization failures are all
//! reported through one enum; every variant carries the detail text that a
//! log line would show.

use vstd::prelude::*;

verus! {

/// An application-level error.
///
/// `HttpRequestError` reports a failed or undecodable photo fetch,
/// `DatabaseOpError` a failed persistence write, `DatabaseInitError` a
/// failure while setting up the store, and `UnexpectedError` anything else.
#[derive(Debug)]
pub enum AppError {
    DatabaseInitError(String),
    DatabaseOpError(String),
    HttpRequestError(String),
    UnexpectedError(String),
}

impl AppError {
    /// The detail text carried by the error.
    pub open spec fn detail_spec(&self) -> Seq<char> {
        match self {
            AppError::DatabaseInitError(s) => s@,
            AppError::DatabaseOpError(s) => s@,
            AppError::HttpRequestError(s) => s@,
            AppError::UnexpectedError(s) => s@,
        }
    }

    /// The full description: a fixed prefix naming the kind, then the detail.
    pub open spec fn message_spec(&self) -> Seq<char> {
        match self {
            AppError::DatabaseInitError(s) => "Failed to initialize the database: "@ + s@,
            AppError::DatabaseOpError(s) => "Database operation failed: "@ + s@,
            AppError::HttpRequestError(s) => "HTTP request failed: "@ + s@,
            AppError::UnexpectedError(s) => "Unexpected error: "@ + s@,
        }
    }

    /// The detail text carried by the error.
    pub fn detail(&self) -> (r: &str)
        ensures
            r@ == self.detail_spec(),
    {
        match self {
            AppError::DatabaseInitError(s) => s.as_str(),
            AppError::DatabaseOpError(s) => s.as_str(),
            AppError::HttpRequestError(s) => s.as_str(),
            AppError::UnexpectedError(s) => s.as_str(),
        }
    }

    /// A human-readable description of the error.
    pub fn message(&self) -> (r: String)
        ensures
            r@ == self.message_spec(),
    {
        match self {
            AppError::DatabaseInitError(s) => String::from_str(
                "Failed to initialize the database: ",
            ).concat(s.as_str()),
            AppError::DatabaseOpError(s) => String::from_str(
                "Database operation failed: ",
            ).concat(s.as_str()),
            AppError::HttpRequestError(s) => String::from_str(
                "HTTP request failed: ",
            ).concat(s.as_str()),
            AppError::UnexpectedError(s) => String::from_str(
                "Unexpected error: ",
            ).concat(s.as_str()),
        }
    }
}

} // verus!
