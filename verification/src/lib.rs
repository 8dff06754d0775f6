//! Scheduling core of a distributed build-orchestration service.
//!
//! The library accepts a request to schedule a "build group", records the
//! group's lifecycle in a datastore, and drives the group through a small
//! state machine (`Pending -> Dispatched | Failed`) as the surrounding
//! services answer: a directory service resolves the named project, and a
//! job service creates the downstream job.  Transport, sockets and the
//! concrete database driver live outside this crate; the logic here is
//! verified against the datastore contract and the router outcomes.

pub mod datastore;
pub mod error;
pub mod handlers;
pub mod messages;
