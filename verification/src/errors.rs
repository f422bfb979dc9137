//! The service's error taxonomy, and the one place where an error becomes an
//! HTTP reply: invalid input is reported back to the client, store failures
//! are mapped to generic messages so that no internal detail leaks.

use vstd::prelude::*;
use vstd::string::StringExecFns;
use crate::reply::Body;
use crate::reply::HttpReply;
use crate::reply::ReplyModel;
use crate::reply::message_model;

verus! {

/// Why a store operation failed.
#[derive(Clone, Copy, Debug)]
pub enum StoreError {
    /// No connection could be obtained from the pool.
    Unavailable,
    /// A command reached the store but the operation itself failed.
    Query,
}

/// Everything a handler can fail with.
#[derive(Debug)]
pub enum AppError {
    /// The submitted string is not a well-formed absolute URL; carries the
    /// message echoed back to the client.
    InvalidUrl(String),
    /// The store's connection pool could not produce a connection.
    StoreUnavailable,
    /// A store command failed after a connection was obtained.
    StoreQuery,
}

/// The error a failed store operation surfaces to a handler.
pub open spec fn app_error_of_store(e: StoreError) -> AppError {
    match e {
        StoreError::Unavailable => AppError::StoreUnavailable,
        StoreError::Query => AppError::StoreQuery,
    }
}

/// The reply each error is turned into: 400 with the validation message, 500
/// with a generic database message, 503 with a generic unavailability message.
pub open spec fn error_model(e: AppError) -> ReplyModel {
    match e {
        AppError::InvalidUrl(msg) => message_model(400, msg@),
        AppError::StoreQuery => message_model(500, "Database error"@),
        AppError::StoreUnavailable => message_model(503, "Service temporarily unavailable"@),
    }
}

impl AppError {
    /// Converts a store failure into the service's error taxonomy.
    pub fn from_store(e: StoreError) -> (r: AppError)
        ensures
            r == app_error_of_store(e),
    {
        match e {
            StoreError::Unavailable => AppError::StoreUnavailable,
            StoreError::Query => AppError::StoreQuery,
        }
    }

    /// Maps an error to its HTTP reply: 400 echoes the validation message,
    /// store failures get a generic message only.
    pub fn error_response(&self) -> (r: HttpReply)
        ensures
            r@ == error_model(*self),
    {
        match self {
            AppError::InvalidUrl(msg) => HttpReply {
                status: 400,
                body: Body::Message(msg.clone()),
                location: Option::None,
            },
            AppError::StoreQuery => HttpReply {
                status: 500,
                body: Body::Message(String::from_str("Database error")),
                location: Option::None,
            },
            AppError::StoreUnavailable => HttpReply {
                status: 503,
                body: Body::Message(String::from_str("Service temporarily unavailable")),
                location: Option::None,
            },
        }
    }
}

} // verus!
