//! The library's error type.
use vstd::prelude::*;

verus! {

#[verifier::external_type_specification]
#[verifier::external_body]
pub struct ExJsonError(serde_json::Error);

#[verifier::external_type_specification]
#[verifier::external_body]
pub struct ExHttpError(reqwest::Error);

#[verifier::external_type_specification]
#[verifier::external_body]
pub struct ExIoError(std::io::Error);

/// Everything that can go wrong in a call to the service.
#[derive(Debug)]
pub enum DoclingError {
    /// A failure of the HTTP exchange itself (connection, DNS, timeout).
    Http(reqwest::Error),
    /// The service answered with a status outside the success range; the
    /// body is the response's text as it came.
    Api { status_code: u16, body: String },
    /// A response body did not match the expected shape.
    Json(serde_json::Error),
    /// A local file could not be read.
    Io(std::io::Error),
    /// An asynchronous task ended in failure.
    TaskFailed { task_id: String, status: String },
    /// An asynchronous task did not finish in time; `elapsed_nanos` is the
    /// time since submission when this was seen.
    Timeout { task_id: String, elapsed_nanos: u128 },
}

} // verus!
