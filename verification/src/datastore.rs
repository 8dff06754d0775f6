//! Transactional storage for group and job records.
//!
//! The store hands every operation a connection from a bounded pool; an
//! exhausted pool surfaces as `Error::ConnectionTimeout` rather than
//! blocking.  Group identifiers are allocated by the store itself,
//! densely from 1, so a record's identifier equals its position plus one
//! — the well-formedness invariant `wf` — and identifiers are never
//! reused.  Job associations only ever point at groups that exist.

use vstd::prelude::*;

use crate::error::Error;
use crate::error::PoolTimeout;
use crate::messages::Group;
use crate::messages::GroupState;
use crate::messages::Job;

verus! {

/// Storage after persisting `st` for the group keyed by `id`: the matching
/// record's state is replaced, everything else is untouched.  An unknown
/// key updates nothing, as a keyed update of a missing row would.
pub open spec fn set_state(groups: Seq<Group>, id: u64, st: GroupState) -> Seq<Group> {
    if 1 <= id && id <= groups.len() {
        groups.update(
            id - 1,
            Group {
                group_id: groups[id - 1].group_id,
                state: st,
                project_ident: groups[id - 1].project_ident,
            },
        )
    } else {
        groups
    }
}

/// How many job associations in `jobs` name `owner` as their owning group.
pub open spec fn count_jobs_for(jobs: Seq<Job>, owner: u64) -> int
    decreases jobs.len(),
{
    if jobs.len() == 0 {
        0
    } else {
        count_jobs_for(jobs.drop_last(), owner) + if jobs.last().owner_group_id == owner {
            1int
        } else {
            0int
        }
    }
}

/// One group creation: `g` was handed the next free identifier and
/// appended to storage.
pub open spec fn created_group(pre: Datastore, post: Datastore, g: Group) -> bool {
    &&& g.group_id == pre.next_group_id()
    &&& post.groups_view() == pre.groups_view().push(g)
}

/// Durable storage for groups and their job associations, reached through
/// a bounded connection pool.
pub struct Datastore {
    pool_size: usize,
    groups: Vec<Group>,
    jobs: Vec<Job>,
}

impl Datastore {
    /// The stored group records, in order of creation.
    pub closed spec fn groups_view(self) -> Seq<Group> {
        self.groups@
    }

    /// The stored group-to-job associations, in order of insertion.
    pub closed spec fn jobs_view(self) -> Seq<Job> {
        self.jobs@
    }

    /// Whether the connection pool can still serve an operation.
    pub closed spec fn pool_free(self) -> bool {
        self.pool_size > 0
    }

    /// The identifier the next created group will receive.
    pub open spec fn next_group_id(self) -> int {
        self.groups_view().len() as int + 1
    }

    /// Well-formedness: identifiers are dense from 1 (a record's
    /// identifier is its position plus one), and every job association
    /// names a group that exists.
    pub closed spec fn wf(self) -> bool {
        &&& forall|i: int|
            0 <= i < self.groups@.len() ==> (#[trigger] self.groups@[i]).group_id == i + 1
        &&& forall|k: int|
            0 <= k < self.jobs@.len() ==> 1 <= (#[trigger] self.jobs@[k]).owner_group_id
                <= self.groups@.len()
    }

    /// An empty store whose pool holds `pool_size` connections.
    pub fn new(pool_size: usize) -> (ds: Datastore)
        ensures
            ds.wf(),
            ds.groups_view() == Seq::<Group>::empty(),
            ds.jobs_view() == Seq::<Job>::empty(),
            ds.pool_free() <==> pool_size > 0,
    {
        Datastore { pool_size, groups: Vec::new(), jobs: Vec::new() }
    }

    /// Takes a connection from the pool, or times out when none is free.
    fn acquire_connection(&self) -> (r: Result<(), PoolTimeout>)
        ensures
            r is Ok <==> self.pool_free(),
            r matches Err(t) ==> t.detail@ == "no pooled connection became available"@,
    {
        if self.pool_size > 0 {
            Ok(())
        } else {
            Err(PoolTimeout { detail: "no pooled connection became available".to_owned() })
        }
    }

    /// Allocates a new group in `Pending` state with a fresh identifier,
    /// persists it, and returns the populated record.  The caller never
    /// observes a half-created group: on failure the store is unchanged.
    pub fn create_group(&mut self, project_ident: String) -> (r: Result<Group, Error>)
        requires
            old(self).wf(),
            old(self).groups_view().len() < u64::MAX,
        ensures
            final(self).wf(),
            final(self).pool_free() == old(self).pool_free(),
            !old(self).pool_free() ==> (r matches Err(e) && e is ConnectionTimeout
                && *final(self) == *old(self)),
            old(self).pool_free() ==> (r matches Ok(g) && created_group(
                *old(self),
                *final(self),
                g,
            ) && g.state is Pending && g.project_ident@ == project_ident@
                && final(self).jobs_view() == old(self).jobs_view()),
    {
        match self.acquire_connection() {
            Ok(()) => {}
            Err(t) => {
                return Err(Error::from(t));
            }
        }
        let id = self.groups.len() as u64 + 1;
        let group = Group { group_id: id, state: GroupState::Pending, project_ident };
        let stored = Group {
            group_id: id,
            state: GroupState::Pending,
            project_ident: group.project_ident.clone(),
        };
        self.groups.push(stored);
        Ok(group)
    }

    /// Persists the group's current `state` field, keyed by its
    /// identifier.  Applying the same state twice leaves storage exactly
    /// as one application (see `lemma_set_state_idempotent`).
    pub fn set_group_state(&mut self, group: &Group) -> (r: Result<(), Error>)
        requires
            old(self).wf(),
        ensures
            final(self).wf(),
            final(self).pool_free() == old(self).pool_free(),
            !old(self).pool_free() ==> (r matches Err(e) && e is ConnectionTimeout
                && *final(self) == *old(self)),
            old(self).pool_free() ==> r is Ok && final(self).groups_view() == set_state(
                old(self).groups_view(),
                group.group_id,
                group.state,
            ) && final(self).jobs_view() == old(self).jobs_view(),
    {
        match self.acquire_connection() {
            Ok(()) => {}
            Err(t) => {
                return Err(Error::from(t));
            }
        }
        let id = group.group_id;
        if 1 <= id && id <= self.groups.len() as u64 {
            let idx = (id - 1) as usize;
            self.groups[idx].state = group.state;
            proof {
                assert(self.groups@ =~= set_state(
                    old(self).groups@,
                    group.group_id,
                    group.state,
                ));
            }
        }
        Ok(())
    }

    /// Persists the association between an existing group and a newly
    /// created job.  The caller must only hand in a job after the remote
    /// job-creation call succeeded; the association names `group`'s own
    /// identifier as owner.
    pub fn add_group_job(&mut self, group: &Group, job: &Job) -> (r: Result<(), Error>)
        requires
            old(self).wf(),
            1 <= group.group_id <= old(self).groups_view().len(),
        ensures
            final(self).wf(),
            final(self).pool_free() == old(self).pool_free(),
            !old(self).pool_free() ==> (r matches Err(e) && e is ConnectionTimeout
                && *final(self) == *old(self)),
            old(self).pool_free() ==> r is Ok
                && final(self).jobs_view() == old(self).jobs_view().push(
                (Job { job_id: job.job_id, owner_group_id: group.group_id }),
            ) && final(self).groups_view() == old(self).groups_view(),
    {
        match self.acquire_connection() {
            Ok(()) => {}
            Err(t) => {
                return Err(Error::from(t));
            }
        }
        self.jobs.push(Job { job_id: job.job_id, owner_group_id: group.group_id });
        Ok(())
    }

    /// How many groups are stored.
    pub fn group_count(&self) -> (n: usize)
        ensures
            n == self.groups_view().len(),
    {
        self.groups.len()
    }

    /// How many job associations are stored.
    pub fn job_count(&self) -> (n: usize)
        ensures
            n == self.jobs_view().len(),
    {
        self.jobs.len()
    }

    /// The stored state of the group keyed by `group_id`, if it exists.
    pub fn group_state(&self, group_id: u64) -> (r: Option<GroupState>)
        requires
            self.wf(),
        ensures
            1 <= group_id <= self.groups_view().len() ==> r == Some(
                self.groups_view()[group_id - 1].state,
            ),
            !(1 <= group_id <= self.groups_view().len()) ==> r is None,
    {
        if 1 <= group_id && group_id <= self.groups.len() as u64 {
            let idx = (group_id - 1) as usize;
            Some(self.groups[idx].state)
        } else {
            None
        }
    }

    /// How many stored job associations name `owner` as their group.
    pub fn jobs_for_group(&self, owner: u64) -> (n: usize)
        ensures
            n == count_jobs_for(self.jobs_view(), owner),
    {
        let mut n: usize = 0;
        let mut k: usize = 0;
        while k < self.jobs.len()
            invariant
                0 <= k <= self.jobs@.len(),
                n <= k,
                n == count_jobs_for(self.jobs@.take(k as int), owner),
            decreases self.jobs@.len() - k,
        {
            proof {
                assert(self.jobs@.take(k + 1).drop_last() =~= self.jobs@.take(k as int));
                assert(self.jobs@.take(k + 1).last() == self.jobs@[k as int]);
            }
            if self.jobs[k].owner_group_id == owner {
                n = n + 1;
            }
            k = k + 1;
        }
        proof {
            assert(self.jobs@.take(self.jobs@.len() as int) =~= self.jobs@);
        }
        n
    }
}

/// Law: persisting the same state twice is idempotent — storage reflects
/// the same final contents as a single application.
pub proof fn lemma_set_state_idempotent(groups: Seq<Group>, id: u64, st: GroupState)
    ensures
        set_state(set_state(groups, id, st), id, st) == set_state(groups, id, st),
{
    let once = set_state(groups, id, st);
    if 1 <= id && id <= groups.len() {
        assert(set_state(once, id, st) =~= once);
    }
}

/// Law: two group creations in sequence never hand out the same
/// identifier, whatever happens in between to the records already stored.
pub proof fn lemma_created_ids_distinct(
    ds0: Datastore,
    ds1: Datastore,
    ds2: Datastore,
    g1: Group,
    g2: Group,
)
    requires
        created_group(ds0, ds1, g1),
        created_group(ds1, ds2, g2),
    ensures
        g1.group_id != g2.group_id,
{
}

/// Law: in a well-formed store no two records share an identifier.
pub proof fn lemma_stored_ids_distinct(ds: Datastore, i: int, j: int)
    requires
        ds.wf(),
        0 <= i < j < ds.groups_view().len(),
    ensures
        ds.groups_view()[i].group_id != ds.groups_view()[j].group_id,
{
}

/// In a well-formed store, every job association names one of the stored
/// groups as owner.
pub proof fn lemma_job_owners_are_stored(ds: Datastore)
    requires
        ds.wf(),
    ensures
        forall|k: int|
            0 <= k < ds.jobs_view().len() ==> 1 <= (#[trigger] ds.jobs_view()[k]).owner_group_id
                <= ds.groups_view().len(),
{
}

/// A group identifier beyond every stored owner is owned by no job.
pub proof fn lemma_count_zero_beyond_owners(jobs: Seq<Job>, bound: int, owner: u64)
    requires
        forall|k: int| 0 <= k < jobs.len() ==> 1 <= (#[trigger] jobs[k]).owner_group_id <= bound,
        owner > bound,
    ensures
        count_jobs_for(jobs, owner) == 0,
    decreases jobs.len(),
{
    if jobs.len() > 0 {
        lemma_count_zero_beyond_owners(jobs.drop_last(), bound, owner);
    }
}

/// Appending one association for `owner` raises its count by one; an
/// association for another group leaves the count unchanged.
pub proof fn lemma_count_after_push(jobs: Seq<Job>, j: Job, owner: u64)
    ensures
        count_jobs_for(jobs.push(j), owner) == count_jobs_for(jobs, owner) + if j.owner_group_id
            == owner {
            1int
        } else {
            0int
        },
{
    assert(jobs.push(j).drop_last() =~= jobs);
}

} // verus!
