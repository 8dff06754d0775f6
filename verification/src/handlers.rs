//! The scheduling dispatcher: the handler for an inbound `Schedule`
//! command.
//!
//! Handling is a short state machine.  A group is created in `Pending`
//! state — the first durable commitment — then the project is resolved
//! through the router, then a job is created for it, and the group ends in
//! `Dispatched` (job created) or `Failed` (either remote step failed).
//! Whatever the remote services answer, the caller receives exactly one
//! reply: a well-formed group record describing the outcome.  Only a
//! datastore failure before the group exists aborts the handler without a
//! reply, since the caller would have no identifier to correlate against.
//!
//! The remote calls themselves are the surrounding transport's business:
//! each step takes the router's answer as a value, so every branch is
//! verified for every answer the services could give.

use vstd::prelude::*;
use vstd::string::StringExecFns;

use crate::datastore::count_jobs_for;
use crate::datastore::created_group;
use crate::datastore::lemma_count_after_push;
use crate::datastore::lemma_count_zero_beyond_owners;
use crate::datastore::lemma_job_owners_are_stored;
use crate::datastore::set_state;
use crate::datastore::Datastore;
use crate::error::Error;
use crate::messages::Group;
use crate::messages::GroupState;
use crate::messages::Job;
use crate::messages::JobSpec;
use crate::messages::Project;
use crate::messages::ProjectGet;
use crate::messages::RouteOutcome;
use crate::messages::Schedule;

verus! {

/// The origin-qualified project identifier a schedule command names,
/// written `origin/name`.
pub open spec fn ident_of(msg: Schedule) -> Seq<char> {
    msg.origin@ + "/"@ + msg.name@
}

/// The state the replied group ends in, given the two router answers: the
/// job outcome only counts once the project resolved.
pub open spec fn outcome_state(po: RouteOutcome<Project>, jo: RouteOutcome<Job>) -> GroupState {
    match po {
        RouteOutcome::Failed => GroupState::Failed,
        RouteOutcome::Delivered(_) => match jo {
            RouteOutcome::Failed => GroupState::Failed,
            RouteOutcome::Delivered(_) => GroupState::Dispatched,
        },
    }
}

/// The job associations after handling: exactly one new association,
/// owned by the scheduled group, when and only when the job was created.
pub open spec fn outcome_jobs(
    jobs: Seq<Job>,
    owner: u64,
    po: RouteOutcome<Project>,
    jo: RouteOutcome<Job>,
) -> Seq<Job> {
    match (po, jo) {
        (RouteOutcome::Delivered(_), RouteOutcome::Delivered(j)) => jobs.push(
            Job { job_id: j.job_id, owner_group_id: owner },
        ),
        _ => jobs,
    }
}

/// What the dispatcher does next once the project resolution came back:
/// reply straight away (resolution failed, the group is already marked
/// `Failed`), or submit this job specification to the job service.
pub enum LookupStep {
    ReplyNow(Group),
    SubmitJob(JobSpec),
}

/// Opens the group record for a schedule command: the first durable
/// commitment.  The group starts in `Pending` with a fresh identifier and
/// carries the origin-qualified project identifier; alongside it stands
/// the lookup request for the directory service.  A datastore failure
/// here aborts the handler — no group, no reply.
pub fn schedule_begin(ds: &mut Datastore, msg: &Schedule) -> (r: Result<(Group, ProjectGet), Error>)
    requires
        old(ds).wf(),
        old(ds).groups_view().len() < u64::MAX,
    ensures
        final(ds).wf(),
        final(ds).pool_free() == old(ds).pool_free(),
        !old(ds).pool_free() ==> (r matches Err(e) && e is ConnectionTimeout
            && *final(ds) == *old(ds)),
        old(ds).pool_free() ==> (r matches Ok(p) && created_group(*old(ds), *final(ds), p.0)
            && p.0.state is Pending && p.0.project_ident@ == ident_of(*msg)
            && p.1.name@ == ident_of(*msg)
            && final(ds).jobs_view() == old(ds).jobs_view()),
{
    let ident = msg.origin.clone().concat("/").concat(msg.name.as_str());
    let lookup = ProjectGet { name: ident.clone() };
    match ds.create_group(ident) {
        Ok(group) => Ok((group, lookup)),
        Err(e) => Err(e),
    }
}

/// Applies the directory service's answer.  On success the group is left
/// untouched and the job specification to submit next is returned, naming
/// the group as owner.  On failure the group moves to `Failed`, the state
/// is persisted, and the reply is due immediately.
pub fn schedule_project_resolved(
    ds: &mut Datastore,
    group: &mut Group,
    outcome: RouteOutcome<Project>,
) -> (r: Result<LookupStep, Error>)
    requires
        old(ds).wf(),
    ensures
        final(ds).wf(),
        final(ds).pool_free() == old(ds).pool_free(),
        outcome matches RouteOutcome::Delivered(p) ==> (r matches Ok(step) && step matches
            LookupStep::SubmitJob(js) && js.owner_id == old(group).group_id && js.project == p
            && *final(ds) == *old(ds) && *final(group) == *old(group)),
        outcome is Failed ==> (final(group).group_id == old(group).group_id
            && final(group).state is Failed
            && final(group).project_ident == old(group).project_ident
            && final(ds).jobs_view() == old(ds).jobs_view()),
        outcome is Failed && old(ds).pool_free() ==> (r matches Ok(step) && step matches
            LookupStep::ReplyNow(g) && g == *final(group) && final(ds).groups_view() == set_state(
            old(ds).groups_view(),
            old(group).group_id,
            GroupState::Failed,
        )),
        outcome is Failed && !old(ds).pool_free() ==> (r matches Err(e) && e is ConnectionTimeout
            && *final(ds) == *old(ds)),
{
    match outcome {
        RouteOutcome::Delivered(project) => Ok(
            LookupStep::SubmitJob(JobSpec { owner_id: group.group_id, project }),
        ),
        RouteOutcome::Failed => {
            group.state = GroupState::Failed;
            match ds.set_group_state(group) {
                Ok(()) => Ok(
                    LookupStep::ReplyNow(
                        Group {
                            group_id: group.group_id,
                            state: group.state,
                            project_ident: group.project_ident.clone(),
                        },
                    ),
                ),
                Err(e) => Err(e),
            }
        }
    }
}

/// Applies the job service's answer.  On success the group moves to
/// `Dispatched`, the association between the group and the new job is
/// persisted, then the state; the association names the group's own
/// identifier as owner.  On failure the group moves to `Failed` and only
/// the state is persisted.  Either way the single final reply is due
/// next.
pub fn schedule_job_submitted(
    ds: &mut Datastore,
    group: &mut Group,
    outcome: RouteOutcome<Job>,
) -> (r: Result<(), Error>)
    requires
        old(ds).wf(),
        1 <= old(group).group_id <= old(ds).groups_view().len(),
    ensures
        final(ds).wf(),
        final(ds).pool_free() == old(ds).pool_free(),
        final(group).group_id == old(group).group_id,
        final(group).project_ident == old(group).project_ident,
        final(group).state == (match outcome {
            RouteOutcome::Delivered(_) => GroupState::Dispatched,
            RouteOutcome::Failed => GroupState::Failed,
        }),
        old(ds).pool_free() ==> r is Ok && final(ds).groups_view() == set_state(
            old(ds).groups_view(),
            old(group).group_id,
            final(group).state,
        ),
        old(ds).pool_free() ==> final(ds).jobs_view() == (match outcome {
            RouteOutcome::Delivered(j) => old(ds).jobs_view().push(
                (Job { job_id: j.job_id, owner_group_id: old(group).group_id }),
            ),
            RouteOutcome::Failed => old(ds).jobs_view(),
        }),
        !old(ds).pool_free() ==> (r matches Err(e) && e is ConnectionTimeout
            && *final(ds) == *old(ds)),
{
    match outcome {
        RouteOutcome::Delivered(job) => {
            group.state = GroupState::Dispatched;
            match ds.add_group_job(group, &job) {
                Ok(()) => {}
                Err(e) => {
                    return Err(e);
                }
            }
            match ds.set_group_state(group) {
                Ok(()) => {}
                Err(e) => {
                    return Err(e);
                }
            }
            Ok(())
        }
        RouteOutcome::Failed => {
            group.state = GroupState::Failed;
            match ds.set_group_state(group) {
                Ok(()) => {}
                Err(e) => {
                    return Err(e);
                }
            }
            Ok(())
        }
    }
}

/// Handles one schedule command, with the two router answers injected as
/// values: what the directory service said to the project lookup, and
/// what the job service said to the job submission (consulted only once
/// the project resolved).
///
/// The returned group is the one reply the caller receives, and its state
/// is always a defined value — `Dispatched` exactly when the job was
/// created, `Failed` otherwise.  An `Err` means the handler could not
/// even open the group record: the pool was exhausted, nothing was
/// stored, and no reply is owed.
pub fn schedule(
    ds: &mut Datastore,
    msg: &Schedule,
    project_outcome: RouteOutcome<Project>,
    job_outcome: RouteOutcome<Job>,
) -> (r: Result<Group, Error>)
    requires
        old(ds).wf(),
        old(ds).groups_view().len() < u64::MAX,
    ensures
        final(ds).wf(),
        final(ds).pool_free() == old(ds).pool_free(),
        r is Ok <==> old(ds).pool_free(),
        r matches Err(e) ==> e is ConnectionTimeout && *final(ds) == *old(ds),
        r matches Ok(g) ==> (g.state is Dispatched || g.state is Failed),
        r matches Ok(g) ==> ({
            &&& g.group_id == old(ds).next_group_id()
            &&& g.project_ident@ == ident_of(*msg)
            &&& g.state == outcome_state(project_outcome, job_outcome)
            &&& final(ds).groups_view() == old(ds).groups_view().push(g)
            &&& final(ds).jobs_view() == outcome_jobs(
                old(ds).jobs_view(),
                g.group_id,
                project_outcome,
                job_outcome,
            )
        }),
{
    let (mut group, _lookup) = match schedule_begin(ds, msg) {
        Ok(p) => p,
        Err(e) => {
            return Err(e);
        }
    };
    match schedule_project_resolved(ds, &mut group, project_outcome) {
        Ok(LookupStep::ReplyNow(reply)) => {
            proof {
                assert(final(ds).groups_view() =~= old(ds).groups_view().push(reply));
            }
            Ok(reply)
        }
        Ok(LookupStep::SubmitJob(_spec)) => {
            match schedule_job_submitted(ds, &mut group, job_outcome) {
                Ok(()) => {}
                Err(e) => {
                    return Err(e);
                }
            }
            proof {
                assert(final(ds).groups_view() =~= old(ds).groups_view().push(group));
            }
            Ok(group)
        }
        Err(e) => Err(e),
    }
}

/// Law: when the scheduling attempt fails — the project did not resolve,
/// or the job was not created — the fresh group ends `Failed` and owns no
/// job association in the datastore.
pub proof fn lemma_failed_schedule_owns_no_job(
    pre: Datastore,
    g: Group,
    po: RouteOutcome<Project>,
    jo: RouteOutcome<Job>,
)
    requires
        pre.wf(),
        g.group_id == pre.next_group_id(),
        outcome_state(po, jo) is Failed,
    ensures
        count_jobs_for(outcome_jobs(pre.jobs_view(), g.group_id, po, jo), g.group_id) == 0,
{
    lemma_job_owners_are_stored(pre);
    lemma_count_zero_beyond_owners(pre.jobs_view(), pre.groups_view().len() as int, g.group_id);
}

/// Law: when the job was created, the fresh group ends `Dispatched` and
/// owns exactly one job association, naming its own identifier as owner.
pub proof fn lemma_dispatched_schedule_owns_one_job(
    pre: Datastore,
    g: Group,
    po: RouteOutcome<Project>,
    jo: RouteOutcome<Job>,
)
    requires
        pre.wf(),
        g.group_id == pre.next_group_id(),
        outcome_state(po, jo) is Dispatched,
    ensures
        count_jobs_for(outcome_jobs(pre.jobs_view(), g.group_id, po, jo), g.group_id) == 1,
{
    lemma_job_owners_are_stored(pre);
    lemma_count_zero_beyond_owners(pre.jobs_view(), pre.groups_view().len() as int, g.group_id);
    let j = jo->0;
    lemma_count_after_push(
        pre.jobs_view(),
        Job { job_id: j.job_id, owner_group_id: g.group_id },
        g.group_id,
    );
}

} // verus!
