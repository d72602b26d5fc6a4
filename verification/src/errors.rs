//! The caller-visible error taxonomy shared by every tool handler.

use vstd::prelude::*;

verus! {

/// The three failure classifications a caller can see.
///
/// `InvalidRequest` covers bad caller input, a bad credential, rate
/// limiting and transport failures; `NotFound` an empty or missing
/// result; `InternalError` an unexpected upstream status, a parse
/// failure or any other fault.
#[derive(Clone, Copy, Debug, PartialEq, Eq, Structural)]
pub enum ErrorCategory {
    InvalidRequest,
    NotFound,
    InternalError,
}

/// A categorized handler failure: a classification plus a message for
/// the caller.
#[derive(Debug)]
pub struct ToolError {
    pub category: ErrorCategory,
    pub message: String,
}

impl ToolError {
    /// Builds an `InvalidRequest` error with the given message.
    pub fn invalid_request(message: String) -> (e: ToolError)
        ensures
            e.category == ErrorCategory::InvalidRequest,
            e.message == message,
    {
        ToolError { category: ErrorCategory::InvalidRequest, message }
    }

    /// Builds a `NotFound` error with the given message.
    pub fn not_found(message: String) -> (e: ToolError)
        ensures
            e.category == ErrorCategory::NotFound,
            e.message == message,
    {
        ToolError { category: ErrorCategory::NotFound, message }
    }

    /// Builds an `InternalError` error with the given message.
    pub fn internal_error(message: String) -> (e: ToolError)
        ensures
            e.category == ErrorCategory::InternalError,
            e.message == message,
    {
        ToolError { category: ErrorCategory::InternalError, message }
    }
}

} // verus!
