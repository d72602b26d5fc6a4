//! The shared policy mapping HTTP status codes to error categories.
//!
//! Every weather handler applies the same table: 401 and 429 are the
//! caller's fault (bad credential, rate limited), 404 is a missing
//! resource, and any other non-2xx status is an internal error whose
//! message carries the numeric status.

use vstd::prelude::*;
use vstd::string::StringExecFns;

use crate::digits::{decimal_string, spec_decimal};
use crate::errors::{ErrorCategory, ToolError};

verus! {

/// Whether an HTTP status code counts as success (the 2xx range).
pub open spec fn spec_is_success(status: u16) -> bool {
    200 <= status <= 299
}

/// The category a non-2xx status maps to.
pub open spec fn spec_status_category(status: u16) -> ErrorCategory {
    if status == 401 {
        ErrorCategory::InvalidRequest
    } else if status == 404 {
        ErrorCategory::NotFound
    } else if status == 429 {
        ErrorCategory::InvalidRequest
    } else {
        ErrorCategory::InternalError
    }
}

/// The message a non-2xx status maps to; for an unexpected status it
/// embeds the decimal status code.
pub open spec fn spec_status_message(status: u16) -> Seq<char> {
    if status == 401 {
        "Invalid API key"@
    } else if status == 404 {
        "API endpoint not found"@
    } else if status == 429 {
        "Rate limit exceeded"@
    } else {
        "OpenWeatherMap API error: "@ + spec_decimal(status as nat)
    }
}

/// Applies the status table: `None` exactly on 2xx, otherwise the
/// categorized error the table prescribes.
pub fn map_status(status: u16) -> (r: Option<ToolError>)
    ensures
        spec_is_success(status) <==> r is None,
        !spec_is_success(status) ==> (r matches Some(e) && e.category == spec_status_category(
            status,
        ) && e.message@ == spec_status_message(status)),
{
    if 200 <= status && status <= 299 {
        None
    } else if status == 401 {
        Some(ToolError::invalid_request("Invalid API key".to_owned()))
    } else if status == 404 {
        Some(ToolError::not_found("API endpoint not found".to_owned()))
    } else if status == 429 {
        Some(ToolError::invalid_request("Rate limit exceeded".to_owned()))
    } else {
        let mut m = "OpenWeatherMap API error: ".to_owned();
        m.append(decimal_string(status).as_str());
        Some(ToolError::internal_error(m))
    }
}

} // verus!
