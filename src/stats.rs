//! The static endpoints: the liveness text, the status flag and the project
//! metrics. None of them reads the store.

use vstd::prelude::*;

verus! {

/// A fixed snapshot of the project's progress.
#[derive(Clone, Copy, Debug, PartialEq, Eq, Structural)]
pub struct ProjectStats {
    pub days_left: i32,
    pub completion_percentage: i32,
    pub pending_approvals: i32,
}

/// The answer of the status endpoint.
#[derive(Clone, Debug, PartialEq, Eq)]
pub struct ServiceStatus {
    pub active: bool,
    pub message: String,
}

/// The text served at the root path.
pub open spec fn availability_text() -> Seq<char> {
    "Columbia API Online!"@
}

/// The message of the status endpoint.
pub open spec fn status_text() -> Seq<char> {
    "Columbia API is running"@
}

/// The liveness text.
pub fn availability_message() -> (r: String)
    ensures
        r@ == availability_text(),
{
    String::from_str("Columbia API Online!")
}

/// The status flag: the service is active whenever it answers.
pub fn service_status() -> (r: ServiceStatus)
    ensures
        r.active,
        r.message@ == status_text(),
{
    ServiceStatus { active: true, message: String::from_str("Columbia API is running") }
}

/// The project metrics snapshot.
pub fn project_stats() -> (r: ProjectStats)
    ensures
        r == (ProjectStats { days_left: 14, completion_percentage: 92, pending_approvals: 1 }),
{
    ProjectStats { days_left: 14, completion_percentage: 92, pending_approvals: 1 }
}

} // verus!
