//! The error surface of the task lifecycle operations.

use vstd::prelude::*;

verus! {

/// What can go wrong on the submission and cancellation paths. Driver
/// failures of the outside stores are carried as their messages.
#[derive(Debug)]
pub enum ApiError {
    InvalidInput(String),
    TaskNotFound(String),
    DatabaseError(String),
    RedisError(String),
    InternalError(String),
    SerializationError(String),
}

impl ApiError {
    /// The message carried by the error.
    pub fn message(&self) -> (r: &String)
        ensures
            r == match self {
                ApiError::InvalidInput(m) => m,
                ApiError::TaskNotFound(m) => m,
                ApiError::DatabaseError(m) => m,
                ApiError::RedisError(m) => m,
                ApiError::InternalError(m) => m,
                ApiError::SerializationError(m) => m,
            },
    {
        match self {
            ApiError::InvalidInput(m) => m,
            ApiError::TaskNotFound(m) => m,
            ApiError::DatabaseError(m) => m,
            ApiError::RedisError(m) => m,
            ApiError::InternalError(m) => m,
            ApiError::SerializationError(m) => m,
        }
    }
}

} // verus!
