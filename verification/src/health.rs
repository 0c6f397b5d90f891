//! The health report of the service.

use vstd::prelude::*;
use crate::builtin::SERVER_VERSION;

verus! {

/// What the service says of its own health.
#[derive(Debug, Clone, PartialEq, Eq)]
pub struct HealthResponse {
    pub status: String,
    pub version: String,
}

impl HealthResponse {
    /// The report of a service that is up.
    pub fn healthy() -> (report: Self)
        ensures
            report.status@ == "healthy"@,
            report.version@ == SERVER_VERSION@,
    {
        HealthResponse { status: "healthy".to_owned(), version: SERVER_VERSION.to_owned() }
    }
}

} // verus!
