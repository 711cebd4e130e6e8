//! The line that the request log records for each request.

use vstd::prelude::*;

use crate::repository::query::{decimal, push_decimal};
use crate::web::error::ErrorDetails;

verus! {

/// Builds request log lines.
pub struct LogController;

/// One line of the request log. The error fields are present exactly when
/// the answer was an error.
#[derive(Debug, Clone)]
pub struct RequestLogLine {
    pub uuid: String,
    /// Milliseconds since the Unix epoch, in decimal.
    pub timestamp: String,
    pub user_id: Option<u64>,
    pub uri: String,
    pub method: String,
    pub client_message: Option<String>,
    pub service_error_type: Option<String>,
    pub service_error_data: Option<String>,
}

impl LogController {
    /// The log line of a request answered at `timestamp_millis` (milliseconds
    /// since the Unix epoch). The user id is not known yet and is recorded
    /// as 0.
    pub fn log_request(
        uuid: String,
        timestamp_millis: u128,
        method: String,
        uri: String,
        error_details: Option<&ErrorDetails>,
    ) -> (r: RequestLogLine)
        ensures
            r.uuid == uuid,
            r.timestamp@ == decimal(timestamp_millis as nat),
            r.user_id == Some(0u64),
            r.uri == uri,
            r.method == method,
            match error_details {
                Some(e) => r.client_message == Some(e.client_message)
                    && r.service_error_type == Some(e.error_type)
                    && r.service_error_data == Some(e.error_data),
                None => r.client_message is None && r.service_error_type is None && r.service_error_data is None,
            },
    {
        let mut timestamp = String::new();
        push_decimal(&mut timestamp, timestamp_millis);
        let (client_message, service_error_type, service_error_data) = match error_details {
            Some(e) => (Some(e.client_message.clone()), Some(e.error_type.clone()), Some(e.error_data.clone())),
            None => (None, None, None),
        };
        RequestLogLine {
            uuid,
            timestamp,
            user_id: Some(0),
            uri,
            method,
            client_message,
            service_error_type,
            service_error_data,
        }
    }
}

} // verus!
