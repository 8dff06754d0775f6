//! End-to-end scenarios for the scheduling dispatcher.

use scheduler_core::datastore::Datastore;
use scheduler_core::error::Error;
use scheduler_core::handlers::schedule;
use scheduler_core::handlers::schedule_begin;
use scheduler_core::handlers::schedule_project_resolved;
use scheduler_core::handlers::LookupStep;
use scheduler_core::messages::GroupState;
use scheduler_core::messages::Job;
use scheduler_core::messages::Project;
use scheduler_core::messages::RouteOutcome;
use scheduler_core::messages::Schedule;

fn request(origin: &str, name: &str) -> Schedule {
    Schedule { origin: origin.to_string(), name: name.to_string() }
}

#[test]
fn scenario_project_and_job_succeed() {
    let mut ds = Datastore::new(4);
    let msg = request("core", "hab");
    let po = RouteOutcome::Delivered(Project { ident: "core/hab".to_string() });
    let jo = RouteOutcome::Delivered(Job { job_id: 77, owner_group_id: 0 });

    let group = schedule(&mut ds, &msg, po, jo).unwrap();

    assert_eq!(group.state, GroupState::Dispatched);
    assert_eq!(group.group_id, 1);
    assert_eq!(group.project_ident, "core/hab");
    assert_eq!(ds.group_count(), 1);
    assert_eq!(ds.group_state(1), Some(GroupState::Dispatched));
    assert_eq!(ds.job_count(), 1);
    assert_eq!(ds.jobs_for_group(1), 1);
}

#[test]
fn scenario_project_lookup_fails() {
    let mut ds = Datastore::new(4);
    let msg = request("core", "missing");
    let po = RouteOutcome::<Project>::Failed;
    let jo = RouteOutcome::Delivered(Job { job_id: 5, owner_group_id: 0 });

    let group = schedule(&mut ds, &msg, po, jo).unwrap();

    assert_eq!(group.state, GroupState::Failed);
    assert_eq!(group.project_ident, "core/missing");
    assert_eq!(ds.group_count(), 1);
    assert_eq!(ds.group_state(1), Some(GroupState::Failed));
    assert_eq!(ds.job_count(), 0);
    assert_eq!(ds.jobs_for_group(1), 0);
}

#[test]
fn scenario_job_creation_fails() {
    let mut ds = Datastore::new(4);
    let msg = request("core", "hab");
    let po = RouteOutcome::Delivered(Project { ident: "core/hab".to_string() });
    let jo = RouteOutcome::<Job>::Failed;

    let group = schedule(&mut ds, &msg, po, jo).unwrap();

    assert_eq!(group.state, GroupState::Failed);
    // The group itself was committed even though the job was not created.
    assert_eq!(ds.group_count(), 1);
    assert_eq!(ds.group_state(1), Some(GroupState::Failed));
    assert_eq!(ds.jobs_for_group(1), 0);
}

#[test]
fn scenario_pool_exhausted_during_create() {
    let mut ds = Datastore::new(0);
    let msg = request("core", "hab");
    let po = RouteOutcome::Delivered(Project { ident: "core/hab".to_string() });
    let jo = RouteOutcome::Delivered(Job { job_id: 9, owner_group_id: 0 });

    let err = schedule(&mut ds, &msg, po, jo).unwrap_err();

    assert!(matches!(err, Error::ConnectionTimeout(_)));
    // No reply is owed and no group exists afterward.
    assert_eq!(ds.group_count(), 0);
    assert_eq!(ds.job_count(), 0);
}

#[test]
fn two_requests_get_distinct_group_ids() {
    let mut ds = Datastore::new(4);
    let po = RouteOutcome::Delivered(Project { ident: "core/hab".to_string() });
    let jo = RouteOutcome::Delivered(Job { job_id: 1, owner_group_id: 0 });

    let first = schedule(&mut ds, &request("core", "hab"), po.clone(), jo).unwrap();
    let second = schedule(&mut ds, &request("acme", "widget"), po, jo).unwrap();

    assert_ne!(first.group_id, second.group_id);
    assert_eq!(first.group_id, 1);
    assert_eq!(second.group_id, 2);
    assert_eq!(second.project_ident, "acme/widget");
}

#[test]
fn every_reply_carries_a_defined_terminal_state() {
    // Every combination of router answers yields exactly one reply whose
    // state is a defined value: Dispatched or Failed, never Pending.
    let project = Project { ident: "core/hab".to_string() };
    let job = Job { job_id: 3, owner_group_id: 0 };
    let outcomes = [
        (RouteOutcome::Delivered(project.clone()), RouteOutcome::Delivered(job)),
        (RouteOutcome::Delivered(project.clone()), RouteOutcome::Failed),
        (RouteOutcome::Failed, RouteOutcome::Delivered(job)),
        (RouteOutcome::Failed, RouteOutcome::Failed),
    ];
    for (po, jo) in outcomes {
        let mut ds = Datastore::new(2);
        let group = schedule(&mut ds, &request("core", "hab"), po, jo).unwrap();
        assert!(
            group.state == GroupState::Dispatched || group.state == GroupState::Failed
        );
    }
}

#[test]
fn begin_creates_pending_group_and_lookup() {
    let mut ds = Datastore::new(4);
    let (group, lookup) = schedule_begin(&mut ds, &request("core", "hab")).unwrap();

    assert_eq!(group.state, GroupState::Pending);
    assert_eq!(group.group_id, 1);
    assert_eq!(group.project_ident, "core/hab");
    assert_eq!(lookup.name, "core/hab");
    assert_eq!(ds.group_state(1), Some(GroupState::Pending));
}

#[test]
fn failed_lookup_replies_immediately_with_failed_group() {
    let mut ds = Datastore::new(4);
    let (mut group, _lookup) = schedule_begin(&mut ds, &request("core", "missing")).unwrap();

    let step = schedule_project_resolved(&mut ds, &mut group, RouteOutcome::Failed).unwrap();

    match step {
        LookupStep::ReplyNow(reply) => {
            assert_eq!(reply.state, GroupState::Failed);
            assert_eq!(reply.group_id, 1);
        }
        LookupStep::SubmitJob(_) => panic!("a failed lookup must reply, not submit a job"),
    }
    assert_eq!(ds.group_state(1), Some(GroupState::Failed));
}

#[test]
fn resolved_lookup_submits_job_owned_by_group() {
    let mut ds = Datastore::new(4);
    let (mut group, _lookup) = schedule_begin(&mut ds, &request("core", "hab")).unwrap();

    let outcome = RouteOutcome::Delivered(Project { ident: "core/hab".to_string() });
    let step = schedule_project_resolved(&mut ds, &mut group, outcome).unwrap();

    match step {
        LookupStep::SubmitJob(spec) => {
            assert_eq!(spec.owner_id, 1);
            assert_eq!(spec.project.ident, "core/hab");
        }
        LookupStep::ReplyNow(_) => panic!("a resolved lookup must submit a job, not reply"),
    }
    // The group is still Pending: nothing was persisted by this step.
    assert_eq!(ds.group_state(1), Some(GroupState::Pending));
}
