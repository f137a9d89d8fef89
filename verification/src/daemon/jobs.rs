//! Who owns a Herdr job, and where its events go.

use std::collections::HashMap;

use vstd::prelude::*;

use crate::herdr_exec::HerdrEvent;

verus! {

broadcast use vstd::std_specs::hash::group_hash_axioms;

/// Who submitted a job.
#[derive(Debug, Clone, Copy, PartialEq, Eq, Structural)]
pub enum HerdrOwner {
    Prompt,
    Start,
    ReminderSnapshot,
    Clear,
    ClientRead,
    Renew,
    Adopt,
    Rename,
    Retire,
}

/// The jobs that are under way, and the next identifier.
pub struct Jobs {
    next: u64,
    owners: HashMap<u64, HerdrOwner>,
}

/// The view of the jobs.
pub struct JobsView {
    pub next: u64,
    pub owners: Map<u64, HerdrOwner>,
}

impl Jobs {
    pub closed spec fn view(&self) -> JobsView {
        JobsView { next: self.next, owners: self.owners@ }
    }

    /// No job is under way. Identifiers start at one.
    pub fn new() -> (jobs: Jobs)
        ensures
            jobs@ == (JobsView { next: 1, owners: Map::empty() }),
    {
        Jobs { next: 1, owners: HashMap::new() }
    }

    /// A fresh identifier. The last one is given again and again.
    pub fn alloc_job(&mut self) -> (job: u64)
        ensures
            job == old(self)@.next,
            final(self)@.owners == old(self)@.owners,
            final(self)@.next == if old(self)@.next == u64::MAX {
                u64::MAX as int
            } else {
                old(self)@.next + 1
            },
    {
        let job: u64 = self.next;
        if self.next != u64::MAX {
            self.next = self.next + 1;
        }
        job
    }

    /// Record who submitted a job.
    pub fn submit_owned(&mut self, job: u64, owner: HerdrOwner)
        ensures
            final(self)@ == (JobsView {
                next: old(self)@.next,
                owners: old(self)@.owners.insert(job, owner),
            }),
    {
        self.owners.insert(job, owner);
    }

    /// Who submitted a job.
    pub fn owner(&self, job: u64) -> (owner: Option<HerdrOwner>)
        ensures
            owner == if self@.owners.dom().contains(job) {
                Some(self@.owners[job])
            } else {
                None
            },
    {
        match self.owners.get(&job) {
            Some(owner) => Some(*owner),
            None => None,
        }
    }

    /// A job is over.
    pub fn release(&mut self, job: u64)
        ensures
            final(self)@ == (JobsView {
                next: old(self)@.next,
                owners: old(self)@.owners.remove(job),
            }),
    {
        self.owners.remove(&job);
    }
}

/// Every recorded job came before the next identifier.
pub open spec fn is_behind(jobs: JobsView) -> bool {
    forall|job: u64| #[trigger] jobs.owners.dom().contains(job) ==> job < jobs.next
}

/// A fresh identifier belongs to no job that is under way, and recording it keeps
/// it so for the next one. The very last identifier is the one exception: it is
/// given out again.
pub proof fn law_fresh_job_has_no_owner(jobs: JobsView, owner: HerdrOwner)
    requires
        is_behind(jobs),
        jobs.next < u64::MAX,
    ensures
        !jobs.owners.dom().contains(jobs.next),
        is_behind(
            JobsView {
                next: (jobs.next + 1) as u64,
                owners: jobs.owners.insert(jobs.next, owner),
            },
        ),
{
}

/// Where an event goes.
#[derive(Debug, Clone, Copy, PartialEq, Eq, Structural)]
pub enum Handler {
    /// A pane lane is open: the owner's flow sends its request on it.
    Opened(HerdrOwner),
    /// The owner takes no lease: give it back at once.
    GiveBack,
    /// The bytes of a request were flushed.
    Pause,
    /// The owner's flow takes the result.
    Done(HerdrOwner),
    /// The owner's flow takes the failure.
    Failed(HerdrOwner),
    /// The job is over: forget its owner.
    Forget,
    /// Nobody waits for it any more.
    Ignore,
}

/// Whether an owner's flow sends a request on an open lane.
pub open spec fn takes_lease(owner: HerdrOwner) -> bool {
    owner != HerdrOwner::ReminderSnapshot && owner != HerdrOwner::ClientRead
}

/// Where an event goes, given who owns its job.
pub open spec fn handler_of(event: HerdrEvent, owner: Option<HerdrOwner>) -> Handler {
    match event {
        HerdrEvent::Opened { .. } => match owner {
            Some(owner) => if takes_lease(owner) {
                Handler::Opened(owner)
            } else {
                Handler::GiveBack
            },
            None => Handler::GiveBack,
        },
        HerdrEvent::Written { .. } => Handler::Pause,
        HerdrEvent::Done { .. } => match owner {
            Some(owner) => Handler::Done(owner),
            None => Handler::Ignore,
        },
        HerdrEvent::Failed { .. } => match owner {
            Some(owner) => Handler::Failed(owner),
            None => Handler::Ignore,
        },
        HerdrEvent::Dropped { .. } => Handler::Forget,
    }
}

/// Decide where one event of the Herdr workers goes.
pub fn drain_herdr_event(jobs: &Jobs, event: &HerdrEvent) -> (handler: Handler)
    ensures
        handler == handler_of(
            *event,
            if jobs@.owners.dom().contains(event@.job()) {
                Some(jobs@.owners[event@.job()])
            } else {
                None
            },
        ),
{
    match event {
        HerdrEvent::Opened { job_id } => match jobs.owner(*job_id) {
            Some(HerdrOwner::ReminderSnapshot) | Some(HerdrOwner::ClientRead) | None => {
                Handler::GiveBack
            },
            Some(owner) => Handler::Opened(owner),
        },
        HerdrEvent::Written { .. } => Handler::Pause,
        HerdrEvent::Done { job_id, .. } => match jobs.owner(*job_id) {
            Some(owner) => Handler::Done(owner),
            None => Handler::Ignore,
        },
        HerdrEvent::Failed { job_id, .. } => match jobs.owner(*job_id) {
            Some(owner) => Handler::Failed(owner),
            None => Handler::Ignore,
        },
        HerdrEvent::Dropped { .. } => Handler::Forget,
    }
}

/// No lease is ever kept by nobody: an open lane goes to the flow that owns its
/// job, or is given back.
pub proof fn law_open_lane_is_taken_or_given_back(job_id: u64, owner: Option<HerdrOwner>)
    ensures
        ({
            let handler = handler_of(HerdrEvent::Opened { job_id }, owner);
            handler == Handler::GiveBack || (owner is Some && takes_lease(owner->0) && handler
                == Handler::Opened(owner->0))
        }),
{
}

/// The first parked item that waits for a job.
pub open spec fn waits_at(jobs: Seq<Option<u64>>, job: u64, at: int) -> bool {
    0 <= at < jobs.len() && jobs[at] == Some(job) && forall|i: int|
        0 <= i < at ==> (#[trigger] jobs[i]) != Some(job)
}

/// The index of the first parked item that waits for a job. `jobs` lists what
/// each parked item waits for.
pub fn index_for_job(jobs: &Vec<Option<u64>>, job: u64) -> (index: Option<usize>)
    ensures
        match index {
            Some(at) => waits_at(jobs@, job, at as int),
            None => !jobs@.contains(Some(job)),
        },
{
    let mut i: usize = 0;
    while i < jobs.len()
        invariant
            i <= jobs@.len(),
            forall|j: int| 0 <= j < i ==> (#[trigger] jobs@[j]) != Some(job),
        decreases jobs@.len() - i,
    {
        if let Some(waiting) = jobs[i] {
            if waiting == job {
                return Some(i);
            }
        }
        i = i + 1;
    }
    None
}

} // verus!
