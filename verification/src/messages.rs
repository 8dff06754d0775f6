//! The protocol values that cross the scheduling core's boundary: the
//! inbound schedule command, the group record it is answered with, and the
//! typed requests and responses exchanged with the directory and job
//! services.

use vstd::prelude::*;

verus! {

/// Lifecycle state of a build group.
///
/// A group is created in `Pending` and moves to exactly one of
/// `Dispatched` (its job was created) or `Failed` (project resolution or
/// job creation failed).  `Complete` is reached later, when the dispatched
/// job finishes; completion handling is outside this core.
#[derive(Clone, Copy, Debug, PartialEq, Eq, Structural)]
pub enum GroupState {
    Pending,
    Dispatched,
    Failed,
    Complete,
}

/// The unit of schedulable work: one build request and its lifecycle state.
///
/// `group_id` is assigned by the datastore at creation time and is never
/// supplied by a client.  `project_ident` is the origin-qualified project
/// name the group was scheduled for, written `origin/name`.
#[derive(Clone, Debug, PartialEq)]
pub struct Group {
    pub group_id: u64,
    pub state: GroupState,
    pub project_ident: String,
}

/// A unit of downstream work created by the job service on the scheduler's
/// behalf.  `job_id` is assigned by that service and is opaque here;
/// `owner_group_id` points back at the group that requested the job.
#[derive(Clone, Copy, Debug, PartialEq, Eq, Structural)]
pub struct Job {
    pub job_id: u64,
    pub owner_group_id: u64,
}

/// The inbound command: schedule a build for the project named
/// `origin/name`.
#[derive(Clone, Debug, PartialEq)]
pub struct Schedule {
    pub origin: String,
    pub name: String,
}

/// Request to the directory service: resolve the project registered under
/// `name`, an origin-qualified identifier.
#[derive(Clone, Debug, PartialEq)]
pub struct ProjectGet {
    pub name: String,
}

/// The project descriptor the directory service answers with; consumed
/// only to build the job request.
#[derive(Clone, Debug, PartialEq)]
pub struct Project {
    pub ident: String,
}

/// Request to the job service: create a job owned by group `owner_id` for
/// the resolved project.
#[derive(Clone, Debug, PartialEq)]
pub struct JobSpec {
    pub owner_id: u64,
    pub project: Project,
}

/// What came back from routing one request to a remote service: the typed
/// response, or a failure.  The dispatcher treats every failure alike, so
/// no failure subtypes are distinguished here.
#[derive(Clone, Copy, Debug, PartialEq)]
pub enum RouteOutcome<T> {
    Delivered(T),
    Failed,
}

} // verus!
