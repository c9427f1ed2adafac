//! The health check.

use vstd::prelude::*;

verus! {

/// The body of the health check's answer.
#[derive(Debug, Clone, PartialEq, Eq)]
pub struct HealthResponse {
    /// Always `ok`: the service answered.
    pub status: String,
    /// `connected` or `disconnected`.
    pub database: String,
}

/// The mathematical value of a [`HealthResponse`].
pub struct HealthResponseView {
    pub status: Seq<char>,
    pub database: Seq<char>,
}

impl View for HealthResponse {
    type V = HealthResponseView;

    open spec fn view(&self) -> HealthResponseView {
        HealthResponseView { status: self.status@, database: self.database@ }
    }
}

/// What the health check reports, given whether the database answered.
pub open spec fn health_report(database_reachable: bool) -> HealthResponseView {
    HealthResponseView {
        status: "ok"@,
        database: if database_reachable {
            "connected"@
        } else {
            "disconnected"@
        },
    }
}

/// Builds the health check's answer. The service reports itself as `ok`
/// whether or not the database answered a trivial query.
pub fn health_check(database_reachable: bool) -> (report: HealthResponse)
    ensures
        report@ == health_report(database_reachable),
{
    let database = if database_reachable {
        "connected"
    } else {
        "disconnected"
    };
    HealthResponse { status: "ok".to_owned(), database: database.to_owned() }
}

} // verus!
