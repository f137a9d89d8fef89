//! Herdr work off the daemon's thread: the order in which jobs run, and the
//! events that they end in.
//!
//! Jobs of one lane run one at a time, in the order of their submission. All
//! snapshots share one lane and each pane has its own.

use vstd::prelude::*;

use crate::herdr::{
    agent_result, AgentObservation, AgentStatus, AgentView, HerdrError,
    LifecycleObservation, Snapshot, SnapshotView,
};
use crate::json::{Json, JsonView};
use crate::text::same;

verus! {

/// Parallel Herdr workers. Snapshots share one lane; each pane has its own.
pub const DEFAULT_WORKERS: usize = 4;

/// Guard only. The daemon is single-threaded, so a lease this old is a bug.
pub const LEASE_TTL_MS: u64 = 30_000;

/// How many workers a pool has: at least one.
pub fn worker_count(workers: usize) -> (count: usize)
    ensures
        count == if workers == 0 {
            1
        } else {
            workers as int
        },
{
    if workers == 0 {
        1
    } else {
        workers
    }
}

/// One unit of Herdr work.
#[derive(Debug, PartialEq, Eq)]
pub enum HerdrJob {
    /// `session.snapshot` on the snapshot lane.
    Snapshot { job_id: u64, negotiate: bool },
    /// `session.snapshot` with lifecycle status, snapshot lane.
    LifecycleSnapshot { job_id: u64 },
    /// Connect (and optionally negotiate on a second socket) on a pane lane.
    Open { job_id: u64, pane_id: String, negotiate: bool },
    /// `agent.get` on a pane lane. Connects per call; does not hold a lease.
    AgentGet { job_id: u64, request_id: String, target: String },
}

/// Follow-up on an open lease. Routed to the worker that holds the socket.
#[derive(Debug, PartialEq, Eq)]
pub enum LeaseCmd {
    /// One request on the leased connection.
    Send {
        request_id: String,
        method: &'static str,
        params: Json,
        after_write_pause: &'static str,
    },
    /// Close the socket and return the worker to the pool.
    Drop,
}

/// Where a lease or request failed relative to the write boundary.
#[derive(Debug, Clone, Copy, PartialEq, Eq, Structural)]
pub enum FailPhase {
    Connect,
    Write,
    Read,
    Lease,
}

/// Successful Herdr payload for a finished job.
#[derive(Debug, PartialEq, Eq)]
pub enum HerdrJobResult {
    Snapshot(Snapshot),
    Lifecycle(Vec<LifecycleObservation>),
    Prompt(AgentObservation),
    Agent(AgentObservation),
    Closed,
}

/// The view of a payload.
pub enum ResultView {
    Snapshot(SnapshotView),
    Lifecycle(Seq<(AgentView, AgentStatus)>),
    Prompt(AgentView),
    Agent(AgentView),
    Closed,
}

impl HerdrJobResult {
    pub open spec fn view(&self) -> ResultView {
        match self {
            HerdrJobResult::Snapshot(snapshot) => ResultView::Snapshot(snapshot@),
            HerdrJobResult::Lifecycle(agents) => ResultView::Lifecycle(
                agents@.map_values(|agent: LifecycleObservation| agent@),
            ),
            HerdrJobResult::Prompt(agent) => ResultView::Prompt(agent@),
            HerdrJobResult::Agent(agent) => ResultView::Agent(agent@),
            HerdrJobResult::Closed => ResultView::Closed,
        }
    }
}

impl Clone for HerdrJobResult {
    fn clone(&self) -> (r: Self)
        ensures
            r@ == self@,
    {
        match self {
            HerdrJobResult::Snapshot(snapshot) => HerdrJobResult::Snapshot(snapshot.clone()),
            HerdrJobResult::Lifecycle(agents) => {
                let mut copies: Vec<LifecycleObservation> = Vec::new();
                let mut i: usize = 0;
                while i < agents.len()
                    invariant
                        i <= agents@.len(),
                        copies@.len() == i,
                        forall|j: int| 0 <= j < i ==> (#[trigger] copies@[j])@ == agents@[j]@,
                    decreases agents@.len() - i,
                {
                    copies.push(agents[i].clone());
                    i = i + 1;
                }
                assert(copies@.map_values(|agent: LifecycleObservation| agent@)
                    =~= agents@.map_values(|agent: LifecycleObservation| agent@));
                HerdrJobResult::Lifecycle(copies)
            },
            HerdrJobResult::Prompt(agent) => HerdrJobResult::Prompt(agent.clone()),
            HerdrJobResult::Agent(agent) => HerdrJobResult::Agent(agent.clone()),
            HerdrJobResult::Closed => HerdrJobResult::Closed,
        }
    }
}

/// Completion (and optional write-boundary) for one job.
#[derive(Debug, PartialEq, Eq)]
pub enum HerdrEvent {
    /// The pane lane holds an open socket. No mutation has been written.
    Opened { job_id: u64 },
    /// Request bytes were flushed; the response has not been read yet.
    Written { job_id: u64, after_write_pause: &'static str },
    /// A `Send` finished.
    Done { job_id: u64, result: Result<HerdrJobResult, HerdrError> },
    /// Open, write, read, or lease-timeout failure.
    Failed { job_id: u64, phase: FailPhase, error: HerdrError },
    /// The worker dropped the socket and the lane is free.
    Dropped { job_id: u64 },
}

/// The view of an event.
pub enum EventView {
    Opened { job_id: u64 },
    Written { job_id: u64, after_write_pause: Seq<char> },
    Done { job_id: u64, result: Result<ResultView, HerdrError> },
    Failed { job_id: u64, phase: FailPhase, error: HerdrError },
    Dropped { job_id: u64 },
}

impl HerdrEvent {
    pub open spec fn view(&self) -> EventView {
        match self {
            HerdrEvent::Opened { job_id } => EventView::Opened { job_id: *job_id },
            HerdrEvent::Written { job_id, after_write_pause } => EventView::Written {
                job_id: *job_id,
                after_write_pause: after_write_pause@,
            },
            HerdrEvent::Done { job_id, result } => EventView::Done {
                job_id: *job_id,
                result: match result {
                    Ok(value) => Ok(value@),
                    Err(e) => Err(*e),
                },
            },
            HerdrEvent::Failed { job_id, phase, error } => EventView::Failed {
                job_id: *job_id,
                phase: *phase,
                error: *error,
            },
            HerdrEvent::Dropped { job_id } => EventView::Dropped { job_id: *job_id },
        }
    }
}

impl EventView {
    /// The job that an event is about.
    pub open spec fn job(self) -> u64 {
        match self {
            EventView::Opened { job_id } => job_id,
            EventView::Written { job_id, .. } => job_id,
            EventView::Done { job_id, .. } => job_id,
            EventView::Failed { job_id, .. } => job_id,
            EventView::Dropped { job_id } => job_id,
        }
    }

    /// The job whose lane an event frees.
    pub open spec fn terminal(self) -> Option<u64> {
        match self {
            EventView::Dropped { job_id } => Some(job_id),
            EventView::Failed { job_id, .. } => Some(job_id),
            _ => None,
        }
    }

    /// Whether those that share the request of the event's job get it too.
    pub open spec fn is_shared(self) -> bool {
        self is Done || self is Failed || self is Dropped
    }

    /// The same event for another job.
    pub open spec fn of_job(self, job: u64) -> EventView {
        match self {
            EventView::Opened { .. } => EventView::Opened { job_id: job },
            EventView::Written { after_write_pause, .. } => EventView::Written {
                job_id: job,
                after_write_pause,
            },
            EventView::Done { result, .. } => EventView::Done { job_id: job, result },
            EventView::Failed { phase, error, .. } => EventView::Failed {
                job_id: job,
                phase,
                error,
            },
            EventView::Dropped { .. } => EventView::Dropped { job_id: job },
        }
    }
}

impl HerdrEvent {
    /// The job whose lane an event frees.
    fn terminal_job_id(&self) -> (job: Option<u64>)
        ensures
            job == self@.terminal(),
    {
        match self {
            HerdrEvent::Dropped { job_id } => Some(*job_id),
            HerdrEvent::Failed { job_id, .. } => Some(*job_id),
            _ => None,
        }
    }

    /// The same event for a job that shares the request.
    fn clone_for_follower(&self, job_id: u64) -> (event: HerdrEvent)
        ensures
            event@ == self@.of_job(job_id),
    {
        match self {
            HerdrEvent::Opened { .. } => HerdrEvent::Opened { job_id },
            HerdrEvent::Written { after_write_pause, .. } => HerdrEvent::Written {
                job_id,
                after_write_pause,
            },
            HerdrEvent::Done { result, .. } => HerdrEvent::Done {
                job_id,
                result: match result {
                    Ok(value) => Ok(value.clone()),
                    Err(e) => Err(e.clone()),
                },
            },
            HerdrEvent::Failed { phase, error, .. } => HerdrEvent::Failed {
                job_id,
                phase: *phase,
                error: error.clone(),
            },
            HerdrEvent::Dropped { .. } => HerdrEvent::Dropped { job_id },
        }
    }
}

/// Where jobs wait for each other.
#[derive(Debug, PartialEq, Eq)]
pub enum Lane {
    Snapshot,
    Pane(String),
}

impl Lane {
    /// The pane of a lane; nothing for the snapshot lane.
    pub open spec fn view(&self) -> Option<Seq<char>> {
        match self {
            Lane::Snapshot => None,
            Lane::Pane(pane) => Some(pane@),
        }
    }

    fn is_same(&self, other: &Lane) -> (r: bool)
        ensures
            r == (self@ == other@),
    {
        match (self, other) {
            (Lane::Snapshot, Lane::Snapshot) => true,
            (Lane::Pane(a), Lane::Pane(b)) => same(a.as_str(), b.as_str()),
            _ => false,
        }
    }
}

impl HerdrJob {
    /// The identifier of a job.
    pub open spec fn id(self) -> u64 {
        match self {
            HerdrJob::Snapshot { job_id, .. } => job_id,
            HerdrJob::LifecycleSnapshot { job_id } => job_id,
            HerdrJob::Open { job_id, .. } => job_id,
            HerdrJob::AgentGet { job_id, .. } => job_id,
        }
    }

    /// The lane of a job: that of its pane, or the one for snapshots.
    pub open spec fn lane(self) -> Option<Seq<char>> {
        match self {
            HerdrJob::Snapshot { .. } => None,
            HerdrJob::LifecycleSnapshot { .. } => None,
            HerdrJob::Open { pane_id, .. } => Some(pane_id@),
            HerdrJob::AgentGet { target, .. } => Some(target@),
        }
    }

    /// Whether a job can share the request of another one that has not been
    /// dispatched.
    pub open spec fn shares(self, queued: HerdrJob) -> bool {
        (self is Snapshot && queued is Snapshot) || (self is LifecycleSnapshot
            && queued is LifecycleSnapshot)
    }

    /// The identifier of a job.
    pub fn job_id(&self) -> (job: u64)
        ensures
            job == self.id(),
    {
        match self {
            HerdrJob::Snapshot { job_id, .. } => *job_id,
            HerdrJob::LifecycleSnapshot { job_id } => *job_id,
            HerdrJob::Open { job_id, .. } => *job_id,
            HerdrJob::AgentGet { job_id, .. } => *job_id,
        }
    }

    /// The lane of a job.
    fn lane_for(&self) -> (lane: Lane)
        ensures
            lane@ == self.lane(),
    {
        match self {
            HerdrJob::Snapshot { .. } => Lane::Snapshot,
            HerdrJob::LifecycleSnapshot { .. } => Lane::Snapshot,
            HerdrJob::Open { pane_id, .. } => Lane::Pane(pane_id.clone()),
            HerdrJob::AgentGet { target, .. } => Lane::Pane(target.clone()),
        }
    }

    fn can_share(&self, queued: &HerdrJob) -> (r: bool)
        ensures
            r == self.shares(*queued),
    {
        match (self, queued) {
            (HerdrJob::Snapshot { .. }, HerdrJob::Snapshot { .. }) => true,
            (HerdrJob::LifecycleSnapshot { .. }, HerdrJob::LifecycleSnapshot { .. }) => true,
            _ => false,
        }
    }
}

/// The order of Herdr work: which jobs wait, which run, and who shares whose
/// request.
pub struct HerdrExec {
    /// Jobs that have not been dispatched, in the order of submission.
    waiting: Vec<HerdrJob>,
    /// The lanes that are busy, each with the job that runs there.
    running: Vec<(Lane, u64)>,
    /// Jobs that share another job's request: that job, then the one that
    /// follows it.
    followers: Vec<(u64, u64)>,
    /// Events that are due to followers.
    pending: Vec<HerdrEvent>,
}

/// The view of the order of Herdr work.
pub struct ExecView {
    pub waiting: Seq<HerdrJob>,
    pub running: Seq<(Option<Seq<char>>, u64)>,
    pub followers: Seq<(u64, u64)>,
    pub pending: Seq<EventView>,
}

/// The index of the first waiting job of a lane.
pub open spec fn first_of_lane(waiting: Seq<HerdrJob>, lane: Option<Seq<char>>) -> Option<int>
    decreases waiting.len(),
{
    if waiting.len() == 0 {
        None
    } else {
        match first_of_lane(waiting.drop_last(), lane) {
            Some(i) => Some(i),
            None => if waiting.last().lane() == lane {
                Some(waiting.len() - 1)
            } else {
                None
            },
        }
    }
}

/// `first_of_lane` is the index of the first waiting job of a lane.
pub proof fn lemma_first_of_lane(waiting: Seq<HerdrJob>, lane: Option<Seq<char>>)
    ensures
        match first_of_lane(waiting, lane) {
            Some(i) => 0 <= i < waiting.len() && waiting[i].lane() == lane && forall|j: int|
                0 <= j < i ==> (#[trigger] waiting[j]).lane() != lane,
            None => forall|j: int|
                0 <= j < waiting.len() ==> (#[trigger] waiting[j]).lane() != lane,
        },
    decreases waiting.len(),
{
    if waiting.len() > 0 {
        let rest = waiting.drop_last();
        lemma_first_of_lane(rest, lane);
        assert forall|j: int| 0 <= j < rest.len() implies rest[j] == waiting[j] by {}
        match first_of_lane(rest, lane) {
            Some(i) => {
                assert forall|j: int| 0 <= j < i implies (#[trigger] waiting[j]).lane() != lane by {
                    assert(rest[j].lane() != lane);
                }
            },
            None => {
                assert forall|j: int| 0 <= j < waiting.len() - 1 implies (
                #[trigger] waiting[j]).lane() != lane by {
                    assert(rest[j].lane() != lane);
                }
            },
        }
    }
}

/// The first waiting job whose request a job can share.
pub open spec fn leader_for(waiting: Seq<HerdrJob>, job: HerdrJob) -> Option<int>
    decreases waiting.len(),
{
    if waiting.len() == 0 {
        None
    } else {
        match leader_for(waiting.drop_last(), job) {
            Some(i) => Some(i),
            None => if job.shares(waiting.last()) {
                Some(waiting.len() - 1)
            } else {
                None
            },
        }
    }
}

/// `leader_for` is the first waiting job whose request a job can share.
pub proof fn lemma_leader_for(waiting: Seq<HerdrJob>, job: HerdrJob)
    ensures
        match leader_for(waiting, job) {
            Some(i) => 0 <= i < waiting.len() && job.shares(waiting[i]) && forall|j: int|
                0 <= j < i ==> !job.shares(#[trigger] waiting[j]),
            None => forall|j: int| 0 <= j < waiting.len() ==> !job.shares(#[trigger] waiting[j]),
        },
    decreases waiting.len(),
{
    if waiting.len() > 0 {
        let rest = waiting.drop_last();
        lemma_leader_for(rest, job);
        assert forall|j: int| 0 <= j < rest.len() implies rest[j] == waiting[j] by {}
        match leader_for(rest, job) {
            Some(i) => {
                assert forall|j: int| 0 <= j < i implies !job.shares(#[trigger] waiting[j]) by {
                    assert(!job.shares(rest[j]));
                }
            },
            None => {
                assert forall|j: int| 0 <= j < waiting.len() - 1 implies !job.shares(
                    #[trigger] waiting[j],
                ) by {
                    assert(!job.shares(rest[j]));
                }
            },
        }
    }
}

/// The jobs that share the request of a job, in the order in which they came.
pub open spec fn followers_of(followers: Seq<(u64, u64)>, job: u64) -> Seq<u64>
    decreases followers.len(),
{
    if followers.len() == 0 {
        Seq::empty()
    } else {
        let before = followers_of(followers.drop_last(), job);
        if followers.last().0 == job {
            before.push(followers.last().1)
        } else {
            before
        }
    }
}

/// Those that follow another job.
pub open spec fn other_followers(followers: Seq<(u64, u64)>, job: u64) -> Seq<(u64, u64)>
    decreases followers.len(),
{
    if followers.len() == 0 {
        Seq::empty()
    } else {
        let before = other_followers(followers.drop_last(), job);
        if followers.last().0 == job {
            before
        } else {
            before.push(followers.last())
        }
    }
}

/// One event for each of some jobs.
pub open spec fn shared_events(event: EventView, jobs: Seq<u64>) -> Seq<EventView> {
    jobs.map_values(|job: u64| event.of_job(job))
}

/// The index of the lane where a job runs.
pub open spec fn lane_of_job(running: Seq<(Option<Seq<char>>, u64)>, job: u64) -> Option<int>
    decreases running.len(),
{
    if running.len() == 0 {
        None
    } else {
        match lane_of_job(running.drop_last(), job) {
            Some(i) => Some(i),
            None => if running.last().1 == job {
                Some(running.len() - 1)
            } else {
                None
            },
        }
    }
}

/// `lane_of_job` is the first index at which the job runs.
pub proof fn lemma_lane_of_job(running: Seq<(Option<Seq<char>>, u64)>, job: u64)
    ensures
        match lane_of_job(running, job) {
            Some(i) => 0 <= i < running.len() && running[i].1 == job && forall|j: int|
                0 <= j < i ==> (#[trigger] running[j]).1 != job,
            None => forall|j: int| 0 <= j < running.len() ==> (#[trigger] running[j]).1 != job,
        },
    decreases running.len(),
{
    if running.len() > 0 {
        let rest = running.drop_last();
        lemma_lane_of_job(rest, job);
        assert forall|j: int| 0 <= j < rest.len() implies rest[j] == running[j] by {}
        match lane_of_job(rest, job) {
            Some(i) => {
                assert forall|j: int| 0 <= j < i implies (#[trigger] running[j]).1 != job by {
                    assert(rest[j].1 != job);
                }
            },
            None => {
                assert forall|j: int| 0 <= j < running.len() - 1 implies (
                #[trigger] running[j]).1 != job by {
                    assert(rest[j].1 != job);
                }
            },
        }
    }
}

/// Where taking the next event leads: the order of work, what the workers told that is
/// left, the event, and the job that may run now.
pub struct Taken {
    pub order: ExecView,
    pub told: Seq<EventView>,
    pub event: Option<EventView>,
    pub dispatch: Option<HerdrJob>,
}

impl ExecView {
    /// Nothing waits and nothing runs.
    pub open spec fn idle() -> ExecView {
        ExecView {
            waiting: Seq::empty(),
            running: Seq::empty(),
            followers: Seq::empty(),
            pending: Seq::empty(),
        }
    }

    /// Whether a lane is busy.
    pub open spec fn is_busy(self, lane: Option<Seq<char>>) -> bool {
        exists|i: int| 0 <= i < self.running.len() && (#[trigger] self.running[i]).0 == lane
    }

    /// What holds at all times: one job runs in a lane, and a job waits only
    /// where its lane is busy.
    pub open spec fn is_valid(self) -> bool {
        &&& forall|i: int, j: int|
            0 <= i < j < self.running.len() ==> (#[trigger] self.running[i]).0 != (
            #[trigger] self.running[j]).0
        &&& forall|i: int| 0 <= i < self.waiting.len() ==> self.is_busy((#[trigger] self.waiting[i]).lane())
    }

    /// A job runs in its lane.
    pub open spec fn dispatched(self, job: HerdrJob) -> ExecView {
        ExecView { running: self.running.push((job.lane(), job.id())), ..self }
    }

    /// What a submission does: share a request that waits, wait for the lane, or
    /// be dispatched at once.
    pub open spec fn submitted(self, job: HerdrJob) -> (ExecView, Option<HerdrJob>) {
        match leader_for(self.waiting, job) {
            Some(leader) => (
                ExecView {
                    followers: self.followers.push((self.waiting[leader].id(), job.id())),
                    ..self
                },
                None,
            ),
            None => if self.is_busy(job.lane()) {
                (ExecView { waiting: self.waiting.push(job), ..self }, None)
            } else {
                (self.dispatched(job), Some(job))
            },
        }
    }

    /// The followers of an event's job get the event too.
    pub open spec fn fanned_out(self, event: EventView) -> ExecView {
        ExecView {
            pending: self.pending + shared_events(event, followers_of(self.followers, event.job())),
            ..self
        }
    }

    /// A job's lane is free again: its followers are gone, and the first job that
    /// waits for the lane is dispatched.
    pub open spec fn freed(self, job: u64) -> (ExecView, Option<HerdrJob>) {
        let alone = ExecView { followers: other_followers(self.followers, job), ..self };
        match lane_of_job(self.running, job) {
            None => (alone, None),
            Some(at) => {
                let lane = self.running[at].0;
                let idle = ExecView { running: self.running.remove(at), ..alone };
                match first_of_lane(self.waiting, lane) {
                    None => (idle, None),
                    Some(next) => (
                        ExecView { waiting: self.waiting.remove(next), ..idle }.dispatched(
                            self.waiting[next],
                        ),
                        Some(self.waiting[next]),
                    ),
                }
            },
        }
    }

    /// What the next event is, and where it leads: one that is due to a follower, else
    /// the first that the workers told. What they told otherwise stays for later.
    pub open spec fn next(self, told: Seq<EventView>) -> Taken {
        if self.pending.len() > 0 {
            Taken {
                order: ExecView { pending: self.pending.remove(0), ..self },
                told,
                event: Some(self.pending[0]),
                dispatch: None,
            }
        } else if told.len() > 0 {
            let (order, dispatch) = self.received(told[0]);
            Taken { order, told: told.remove(0), event: Some(told[0]), dispatch }
        } else {
            Taken { order: self, told, event: None, dispatch: None }
        }
    }

    /// What an event from a worker does.
    pub open spec fn received(self, event: EventView) -> (ExecView, Option<HerdrJob>) {
        if event.terminal() is Some {
            self.fanned_out(event).freed(event.job())
        } else if event is Done {
            (self.fanned_out(event), None)
        } else {
            (self, None)
        }
    }
}

impl HerdrExec {
    pub closed spec fn view(&self) -> ExecView {
        ExecView {
            waiting: self.waiting@,
            running: self.running@.map_values(|entry: (Lane, u64)| (entry.0@, entry.1)),
            followers: self.followers@,
            pending: self.pending@.map_values(|event: HerdrEvent| event@),
        }
    }

    /// Nothing waits and nothing runs.
    pub fn new() -> (order: HerdrExec)
        ensures
            order@ == ExecView::idle(),
    {
        let order = HerdrExec {
            waiting: Vec::new(),
            running: Vec::new(),
            followers: Vec::new(),
            pending: Vec::new(),
        };
        assert(order@.running =~= Seq::empty());
        assert(order@.pending =~= Seq::empty());
        order
    }

    /// How many jobs wait.
    pub fn waiting_count(&self) -> (count: usize)
        ensures
            count == self@.waiting.len(),
    {
        self.waiting.len()
    }

    /// How many lanes are busy.
    pub fn running_count(&self) -> (count: usize)
        ensures
            count == self@.running.len(),
    {
        self.running.len()
    }

    /// The first waiting job whose request a job can share.
    fn coalescing_leader(&self, job: &HerdrJob) -> (leader: Option<usize>)
        ensures
            match (leader, leader_for(self@.waiting, *job)) {
                (Some(i), Some(j)) => i == j && i < self.waiting@.len(),
                (None, None) => true,
                _ => false,
            },
    {
        proof {
            lemma_leader_for(self@.waiting, *job);
        }
        let mut i: usize = 0;
        while i < self.waiting.len()
            invariant
                i <= self.waiting@.len(),
                self@.waiting == self.waiting@,
                forall|j: int| 0 <= j < i ==> !job.shares(#[trigger] self.waiting@[j]),
            decreases self.waiting@.len() - i,
        {
            if job.can_share(&self.waiting[i]) {
                proof {
                    lemma_leader_for(self@.waiting, *job);
                }
                return Some(i);
            }
            i = i + 1;
        }
        None
    }

    /// Whether a lane is busy.
    fn lane_is_busy(&self, lane: &Lane) -> (busy: bool)
        ensures
            busy == self@.is_busy(lane@),
    {
        let mut i: usize = 0;
        while i < self.running.len()
            invariant
                i <= self.running@.len(),
                forall|j: int| 0 <= j < i ==> (#[trigger] self@.running[j]).0 != lane@,
            decreases self.running@.len() - i,
        {
            assert(self@.running[i as int].0 == self.running@[i as int].0@);
            if self.running[i].0.is_same(lane) {
                return true;
            }
            i = i + 1;
        }
        false
    }

    /// Queue `job` behind any running work on its lane, or hand it back to be
    /// dispatched now.
    ///
    /// A second snapshot queued behind another not-yet-dispatched snapshot shares
    /// that queued request. It never joins one that runs: a later occupancy or
    /// confirm check must postdate that request. Every submitted job still
    /// receives the completion.
    pub fn submit(&mut self, job: HerdrJob) -> (dispatch: Option<HerdrJob>)
        ensures
            (final(self)@, dispatch) == old(self)@.submitted(job),
    {
        if let Some(leader) = self.coalescing_leader(&job) {
            let pair = (self.waiting[leader].job_id(), job.job_id());
            self.followers.push(pair);
            return None;
        }
        let lane = job.lane_for();
        if self.lane_is_busy(&lane) {
            self.waiting.push(job);
            return None;
        }
        let ghost before = self@.running;
        let entry = (lane, job.job_id());
        self.running.push(entry);
        assert(self@.running =~= before.push((job.lane(), job.id())));
        Some(job)
    }

    /// The first event that is due to a follower.
    fn take_pending(&mut self) -> (event: Option<HerdrEvent>)
        ensures
            match event {
                Some(event) => old(self)@.pending.len() > 0 && event@ == old(self)@.pending[0]
                    && final(self)@ == (ExecView {
                    pending: old(self)@.pending.remove(0),
                    ..old(self)@
                }),
                None => old(self)@.pending.len() == 0 && final(self)@ == old(self)@,
            },
    {
        if self.pending.len() == 0 {
            return None;
        }
        let ghost before = self@.pending;
        let event = self.pending.remove(0);
        assert(self@.pending =~= before.remove(0));
        Some(event)
    }

    /// The followers of an event's job get the event too.
    fn fan_out(&mut self, event: &HerdrEvent, job: u64)
        requires
            event@.job() == job,
        ensures
            final(self)@ == old(self)@.fanned_out(event@),
    {
        let ghost due = self@.pending;
        let mut i: usize = 0;
        while i < self.followers.len()
            invariant
                i <= self.followers@.len(),
                self.followers@ == old(self).followers@,
                self.waiting@ == old(self).waiting@,
                self.running@ == old(self).running@,
                self@.pending == due + shared_events(
                    event@,
                    followers_of(self.followers@.take(i as int), job),
                ),
                due == old(self)@.pending,
            decreases self.followers@.len() - i,
        {
            let ghost next = self.followers@.take(i as int + 1);
            let ghost before = self@.pending;
            proof {
                assert(next.drop_last() =~= self.followers@.take(i as int));
                assert(next.last() == self.followers@[i as int]);
            }
            if self.followers[i].0 == job {
                let follower: u64 = self.followers[i].1;
                self.pending.push(event.clone_for_follower(follower));
                proof {
                    assert(self@.pending =~= before.push(event@.of_job(follower)));
                    assert(shared_events(event@, followers_of(next, job)) =~= shared_events(
                        event@,
                        followers_of(next.drop_last(), job),
                    ).push(event@.of_job(follower)));
                    assert(self@.pending =~= due + shared_events(event@, followers_of(next, job)));
                }
            }
            i = i + 1;
        }
        assert(self.followers@.take(self.followers@.len() as int) =~= self.followers@);
    }

    /// A job's followers are gone.
    fn forget_followers(&mut self, job: u64)
        ensures
            final(self)@ == (ExecView {
                followers: other_followers(old(self)@.followers, job),
                ..old(self)@
            }),
    {
        let mut kept: Vec<(u64, u64)> = Vec::new();
        let mut i: usize = 0;
        while i < self.followers.len()
            invariant
                i <= self.followers@.len(),
                *self == *old(self),
                kept@ == other_followers(self.followers@.take(i as int), job),
            decreases self.followers@.len() - i,
        {
            let ghost next = self.followers@.take(i as int + 1);
            proof {
                assert(next.drop_last() =~= self.followers@.take(i as int));
                assert(next.last() == self.followers@[i as int]);
            }
            let pair = self.followers[i];
            if pair.0 != job {
                kept.push(pair);
            }
            i = i + 1;
        }
        assert(self.followers@.take(self.followers@.len() as int) =~= self.followers@);
        self.followers = kept;
    }

    /// The index of the lane where a job runs.
    fn find_running(&self, job: u64) -> (at: Option<usize>)
        ensures
            match (at, lane_of_job(self@.running, job)) {
                (Some(i), Some(j)) => i == j && i < self.running@.len(),
                (None, None) => true,
                _ => false,
            },
    {
        proof {
            lemma_lane_of_job(self@.running, job);
        }
        let mut i: usize = 0;
        while i < self.running.len()
            invariant
                i <= self.running@.len(),
                forall|j: int| 0 <= j < i ==> (#[trigger] self@.running[j]).1 != job,
            decreases self.running@.len() - i,
        {
            assert(self@.running[i as int].1 == self.running@[i as int].1);
            if self.running[i].1 == job {
                proof {
                    lemma_lane_of_job(self@.running, job);
                }
                return Some(i);
            }
            i = i + 1;
        }
        None
    }

    /// The index of the first waiting job of a lane.
    fn find_waiting(&self, lane: &Lane) -> (at: Option<usize>)
        ensures
            match (at, first_of_lane(self@.waiting, lane@)) {
                (Some(i), Some(j)) => i == j && i < self.waiting@.len(),
                (None, None) => true,
                _ => false,
            },
    {
        proof {
            lemma_first_of_lane(self@.waiting, lane@);
        }
        let mut i: usize = 0;
        while i < self.waiting.len()
            invariant
                i <= self.waiting@.len(),
                self@.waiting == self.waiting@,
                forall|j: int| 0 <= j < i ==> (#[trigger] self.waiting@[j]).lane() != lane@,
            decreases self.waiting@.len() - i,
        {
            if self.waiting[i].lane_for().is_same(lane) {
                proof {
                    lemma_first_of_lane(self@.waiting, lane@);
                }
                return Some(i);
            }
            i = i + 1;
        }
        None
    }

    /// A job's lane is free again.
    fn free(&mut self, job: u64) -> (dispatch: Option<HerdrJob>)
        ensures
            (final(self)@, dispatch) == old(self)@.freed(job),
    {
        self.forget_followers(job);
        match self.find_running(job) {
            None => None,
            Some(at) => {
                let ghost running = self@.running;
                let (lane, _) = self.running.remove(at);
                assert(self@.running =~= running.remove(at as int));
                match self.find_waiting(&lane) {
                    None => None,
                    Some(next) => {
                        let job = self.waiting.remove(next);
                        let ghost idle = self@.running;
                        let entry = (lane, job.job_id());
                        self.running.push(entry);
                        proof {
                            lemma_first_of_lane(old(self)@.waiting, lane@);
                            assert(self@.running =~= idle.push((job.lane(), job.id())));
                        }
                        Some(job)
                    },
                }
            },
        }
    }

    /// Take one event from a worker. The event itself goes to its job; what is
    /// due to followers is kept for them, and the job that may run next, if any,
    /// is handed back to be dispatched.
    fn receive(&mut self, event: &HerdrEvent) -> (dispatch: Option<HerdrJob>)
        ensures
            (final(self)@, dispatch) == old(self)@.received(event@),
    {
        if let HerdrEvent::Done { job_id, .. } = event {
            self.fan_out(event, *job_id);
            return None;
        }
        match event.terminal_job_id() {
            Some(job) => {
                self.fan_out(event, job);
                self.free(job)
            },
            None => None,
        }
    }

    /// Take the next event without waiting: one that is due to a follower, else the first
    /// of what the workers `told`, in their order. Hands back the job that may run now, to
    /// be dispatched.
    pub fn try_recv(&mut self, told: &mut Vec<HerdrEvent>) -> (taken: (
        Option<HerdrEvent>,
        Option<HerdrJob>,
    ))
        ensures
            ({
                let next = old(self)@.next(event_views(old(told)@));
                &&& final(self)@ == next.order
                &&& event_views(final(told)@) == next.told
                &&& taken.1 == next.dispatch
                &&& match (taken.0, next.event) {
                    (Some(event), Some(meant)) => event@ == meant,
                    (None, None) => true,
                    _ => false,
                }
            }),
    {
        if let Some(event) = self.take_pending() {
            return (Some(event), None);
        }
        if told.len() == 0 {
            return (None, None);
        }
        let ghost before = event_views(told@);
        let event = told.remove(0);
        assert(event@ == before[0]);
        assert(event_views(told@) =~= before.remove(0));
        let dispatch = self.receive(&event);
        (Some(event), dispatch)
    }
}

/// A submission keeps one job per lane, and every waiting job behind a busy lane.
pub proof fn law_submission_keeps_lanes(order: ExecView, job: HerdrJob)
    requires
        order.is_valid(),
    ensures
        order.submitted(job).0.is_valid(),
{
    let after = order.submitted(job).0;
    lemma_leader_for(order.waiting, job);
    assert forall|i: int| 0 <= i < after.waiting.len() implies after.is_busy(
        (#[trigger] after.waiting[i]).lane(),
    ) by {
        let lane = after.waiting[i].lane();
        if i < order.waiting.len() {
            assert(order.waiting[i].lane() == lane);
        }
        assert(order.is_busy(lane));
        let at = choose|k: int| 0 <= k < order.running.len() && (#[trigger] order.running[k]).0 == lane;
        assert(after.running[at].0 == lane);
    }
    assert forall|i: int, j: int| 0 <= i < j < after.running.len() implies (
    #[trigger] after.running[i]).0 != (#[trigger] after.running[j]).0 by {
        if j < order.running.len() {
            assert(order.running[i].0 != order.running[j].0);
        } else {
            assert(order.running[i].0 == after.running[i].0);
        }
    }
}

/// An event keeps one job per lane, and every waiting job behind a busy lane.
pub proof fn law_event_keeps_lanes(order: ExecView, event: EventView)
    requires
        order.is_valid(),
    ensures
        order.received(event).0.is_valid(),
{
    let after = order.received(event).0;
    if event.terminal() is Some {
        let fanned = order.fanned_out(event);
        lemma_lane_of_job(order.running, event.job());
        if let Some(at) = lane_of_job(order.running, event.job()) {
            let lane = order.running[at].0;
            lemma_first_of_lane(order.waiting, lane);
            let idle = order.running.remove(at);
            assert forall|i: int| 0 <= i < idle.len() implies (#[trigger] idle[i]).0 != lane by {
                let k = if i < at {
                    i
                } else {
                    i + 1
                };
                assert(idle[i] == order.running[k]);
                if k < at {
                    assert(order.running[k].0 != order.running[at].0);
                } else {
                    assert(order.running[at].0 != order.running[k].0);
                }
            }
            assert forall|i: int, j: int| 0 <= i < j < idle.len() implies (
            #[trigger] idle[i]).0 != (#[trigger] idle[j]).0 by {
                let a = if i < at {
                    i
                } else {
                    i + 1
                };
                let b = if j < at {
                    j
                } else {
                    j + 1
                };
                assert(idle[i] == order.running[a] && idle[j] == order.running[b]);
                assert(order.running[a].0 != order.running[b].0);
            }
            match first_of_lane(order.waiting, lane) {
                None => {
                    assert(after.running == idle);
                },
                Some(next) => {
                    assert(after.running == idle.push((lane, order.waiting[next].id())));
                    assert(after.running[idle.len() as int].0 == lane);
                },
            }
            assert forall|i: int| 0 <= i < after.waiting.len() implies after.is_busy(
                (#[trigger] after.waiting[i]).lane(),
            ) by {
                let waits = after.waiting[i].lane();
                let k = match first_of_lane(order.waiting, lane) {
                    None => i,
                    Some(next) => if i < next {
                        i
                    } else {
                        i + 1
                    },
                };
                assert(order.waiting[k] == after.waiting[i]);
                assert(order.is_busy(order.waiting[k].lane()));
                let r = choose|r: int|
                    0 <= r < order.running.len() && (#[trigger] order.running[r]).0 == waits;
                if r == at {
                    match first_of_lane(order.waiting, lane) {
                        None => {
                            assert(order.waiting[k].lane() != lane);
                        },
                        Some(_) => {
                            assert(after.running[idle.len() as int].0 == waits);
                        },
                    }
                } else {
                    let s = if r < at {
                        r
                    } else {
                        r - 1
                    };
                    assert(idle[s] == order.running[r]);
                    assert(after.running[s] == idle[s]);
                }
            }
            assert forall|i: int, j: int| 0 <= i < j < after.running.len() implies (
            #[trigger] after.running[i]).0 != (#[trigger] after.running[j]).0 by {
                assert(after.running[i] == idle[i]);
                if j < idle.len() {
                    assert(after.running[j] == idle[j]);
                }
            }
        } else {
            assert(after.running == order.running && after.waiting == order.waiting);
            assert forall|i: int| 0 <= i < after.waiting.len() implies after.is_busy(
                (#[trigger] after.waiting[i]).lane(),
            ) by {
                let lane = order.waiting[i].lane();
                assert(order.is_busy(lane));
                let r = choose|r: int|
                    0 <= r < order.running.len() && (#[trigger] order.running[r]).0 == lane;
                assert(after.running[r].0 == lane);
            }
        }
    } else {
        assert(after.running == order.running && after.waiting == order.waiting);
        assert forall|i: int| 0 <= i < after.waiting.len() implies after.is_busy(
            (#[trigger] after.waiting[i]).lane(),
        ) by {
            let lane = order.waiting[i].lane();
            assert(order.is_busy(lane));
            let r = choose|r: int|
                0 <= r < order.running.len() && (#[trigger] order.running[r]).0 == lane;
            assert(after.running[r].0 == lane);
        }
    }
}

/// Taking the next event keeps one job per lane, and every waiting job behind a busy lane.
pub proof fn law_taking_keeps_lanes(order: ExecView, told: Seq<EventView>)
    requires
        order.is_valid(),
    ensures
        order.next(told).order.is_valid(),
{
    let after = order.next(told).order;
    if order.pending.len() > 0 {
        assert forall|i: int| 0 <= i < after.waiting.len() implies after.is_busy(
            (#[trigger] after.waiting[i]).lane(),
        ) by {
            let lane = order.waiting[i].lane();
            assert(order.is_busy(lane));
            let r = choose|r: int|
                0 <= r < order.running.len() && (#[trigger] order.running[r]).0 == lane;
            assert(after.running[r].0 == lane);
        }
    } else if told.len() > 0 {
        law_event_keeps_lanes(order, told[0]);
    }
}

/// The jobs of one lane, in order.
pub open spec fn of_lane(jobs: Seq<HerdrJob>, lane: Option<Seq<char>>) -> Seq<HerdrJob>
    decreases jobs.len(),
{
    if jobs.len() == 0 {
        Seq::empty()
    } else {
        let before = of_lane(jobs.drop_last(), lane);
        if jobs.last().lane() == lane {
            before.push(jobs.last())
        } else {
            before
        }
    }
}

/// One thing that happens to the order of work: a job is submitted, a worker tells an
/// event, or the next event is taken.
pub enum Happening {
    Submit(HerdrJob),
    Tell(EventView),
    Recv,
}

/// Where a run of happenings leads.
pub struct History {
    pub order: ExecView,
    /// What the workers told that was not taken yet, in order.
    pub told: Seq<EventView>,
    /// The events that were taken, in order.
    pub taken: Seq<EventView>,
    /// The jobs that were dispatched, in order.
    pub dispatched: Seq<HerdrJob>,
    /// The submitted jobs that have a request of their own, in order.
    pub own: Seq<HerdrJob>,
}

impl History {
    /// Where one more happening leads.
    pub open spec fn after(self, happening: Happening) -> History {
        match happening {
            Happening::Submit(job) => {
                let (order, dispatch) = self.order.submitted(job);
                History {
                    order,
                    dispatched: with_job(self.dispatched, dispatch),
                    own: if leader_for(self.order.waiting, job) is None {
                        self.own.push(job)
                    } else {
                        self.own
                    },
                    ..self
                }
            },
            Happening::Tell(event) => History { told: self.told.push(event), ..self },
            Happening::Recv => {
                let next = self.order.next(self.told);
                History {
                    order: next.order,
                    told: next.told,
                    taken: match next.event {
                        Some(event) => self.taken.push(event),
                        None => self.taken,
                    },
                    dispatched: with_job(self.dispatched, next.dispatch),
                    ..self
                }
            },
        }
    }
}

/// Jobs with one more behind them, where there is one.
pub open spec fn with_job(jobs: Seq<HerdrJob>, job: Option<HerdrJob>) -> Seq<HerdrJob> {
    match job {
        Some(job) => jobs.push(job),
        None => jobs,
    }
}

/// Where a run of happenings leads, from a beginning.
pub open spec fn history_from(start: History, run: Seq<Happening>) -> History
    decreases run.len(),
{
    if run.len() == 0 {
        start
    } else {
        history_from(start, run.drop_last()).after(run.last())
    }
}

/// Where a run of happenings leads, from nothing.
pub open spec fn history(run: Seq<Happening>) -> History {
    history_from(
        History {
            order: ExecView::idle(),
            told: Seq::empty(),
            taken: Seq::empty(),
            dispatched: Seq::empty(),
            own: Seq::empty(),
        },
        run,
    )
}

/// How often a run takes an event.
pub open spec fn takes(run: Seq<Happening>) -> nat
    decreases run.len(),
{
    if run.len() == 0 {
        0
    } else {
        takes(run.drop_last()) + (if run.last() is Recv {
            1nat
        } else {
            0nat
        })
    }
}

/// What the workers tell in a run, in order.
pub open spec fn tells(run: Seq<Happening>) -> Seq<EventView>
    decreases run.len(),
{
    if run.len() == 0 {
        Seq::empty()
    } else {
        match run.last() {
            Happening::Tell(event) => tells(run.drop_last()).push(event),
            _ => tells(run.drop_last()),
        }
    }
}

/// What is due to followers is taken next, in order, and before anything else that a
/// worker told or tells: as long as some of it is left, no worker event is taken.
pub proof fn law_copies_come_before_the_next_worker_event(start: History, run: Seq<Happening>)
    requires
        takes(run) <= start.order.pending.len(),
    ensures
        ({
            let end = history_from(start, run);
            let count = takes(run) as int;
            &&& end.taken == start.taken + start.order.pending.take(count)
            &&& end.order.pending == start.order.pending.skip(count)
            &&& end.told == start.told + tells(run)
        }),
    decreases run.len(),
{
    let pending = start.order.pending;
    if run.len() == 0 {
        assert(start.taken + pending.take(0) =~= start.taken);
        assert(pending.skip(0) =~= pending);
        assert(start.told + Seq::<EventView>::empty() =~= start.told);
    } else {
        let rest = run.drop_last();
        law_copies_come_before_the_next_worker_event(start, rest);
        let before = history_from(start, rest);
        let count = takes(rest) as int;
        match run.last() {
            Happening::Submit(_) => {},
            Happening::Tell(event) => {
                assert((start.told + tells(rest)).push(event) =~= start.told + tells(run));
            },
            Happening::Recv => {
                assert(before.order.pending[0] == pending[count]);
                assert((start.taken + pending.take(count)).push(pending[count]) =~= start.taken
                    + pending.take(count + 1));
                assert(before.order.pending.remove(0) =~= pending.skip(count + 1));
            },
        }
    }
}

/// A worker event is taken only when nothing is due to a follower. Once it is taken, one
/// copy of it is due to each follower of its job, and nothing else is: so, by
/// [`law_copies_come_before_the_next_worker_event`], the copies follow it directly.
pub proof fn law_completion_is_followed_by_its_copies(start: History)
    requires
        start.order.pending.len() == 0,
        start.told.len() > 0,
        start.told[0].is_shared(),
    ensures
        ({
            let event = start.told[0];
            let end = start.after(Happening::Recv);
            &&& end.taken == start.taken.push(event)
            &&& end.order.pending == shared_events(
                event,
                followers_of(start.order.followers, event.job()),
            )
        }),
{
    let event = start.told[0];
    let copies = shared_events(event, followers_of(start.order.followers, event.job()));
    assert(start.order.pending + copies =~= copies);
}

/// A lane is given on only where the end of its job is taken: no other happening
/// dispatches a job in a busy lane.
pub proof fn law_lane_is_given_on_at_the_end_of_its_job(start: History, happening: Happening)
    requires
        start.order.is_valid(),
    ensures
        start.after(happening).dispatched != start.dispatched ==> {
            let job = start.after(happening).dispatched.last();
            &&& start.after(happening).dispatched == start.dispatched.push(job)
            &&& start.order.is_busy(job.lane()) ==> {
                &&& happening is Recv
                &&& start.order.pending.len() == 0
                &&& start.told.len() > 0
                &&& start.told[0].terminal() is Some
                &&& lane_of_job(start.order.running, start.told[0].job()) matches Some(at)
                    && start.order.running[at].0 == job.lane()
            }
        },
{
    match happening {
        Happening::Submit(job) => {
            lemma_leader_for(start.order.waiting, job);
            if let Some(job) = start.order.submitted(job).1 {
                assert(start.dispatched.push(job).last() == job);
            }
        },
        Happening::Tell(_) => {},
        Happening::Recv => {
            if start.order.pending.len() == 0 && start.told.len() > 0 {
                let event = start.told[0];
                if let Some(job) = start.order.received(event).1 {
                    assert(start.dispatched.push(job).last() == job);
                    if let Some(at) = lane_of_job(start.order.running, event.job()) {
                        lemma_first_of_lane(start.order.waiting, start.order.running[at].0);
                    }
                }
            }
        },
    }
}

/// The first job of a lane comes first among the jobs of that lane, and leaves
/// those of every other lane alone.
proof fn lemma_first_leaves(waiting: Seq<HerdrJob>, at: int, lane: Option<Seq<char>>)
    requires
        0 <= at < waiting.len(),
        forall|j: int|
            0 <= j < at ==> (#[trigger] waiting[j]).lane() != waiting[at].lane(),
    ensures
        of_lane(waiting, lane) == if waiting[at].lane() == lane {
            seq![waiting[at]] + of_lane(waiting.remove(at), lane)
        } else {
            of_lane(waiting.remove(at), lane)
        },
    decreases waiting.len(),
{
    let rest = waiting.drop_last();
    let left = waiting.remove(at);
    if at == waiting.len() - 1 {
        assert(left =~= rest);
        if waiting[at].lane() == lane {
            lemma_none_of_lane(rest, lane);
        }
    } else {
        assert(rest[at] == waiting[at]);
        lemma_first_leaves(rest, at, lane);
        assert(left.drop_last() =~= rest.remove(at));
        assert(left.last() == waiting.last());
        if waiting[at].lane() == lane && waiting.last().lane() == lane {
            assert((seq![waiting[at]] + of_lane(rest.remove(at), lane)).push(waiting.last())
                =~= seq![waiting[at]] + of_lane(left, lane));
        }
    }
}

proof fn lemma_none_of_lane(jobs: Seq<HerdrJob>, lane: Option<Seq<char>>)
    requires
        forall|j: int| 0 <= j < jobs.len() ==> (#[trigger] jobs[j]).lane() != lane,
    ensures
        of_lane(jobs, lane) == Seq::<HerdrJob>::empty(),
    decreases jobs.len(),
{
    if jobs.len() > 0 {
        assert(jobs[jobs.len() - 1].lane() != lane);
        assert forall|j: int| 0 <= j < jobs.len() - 1 implies (
        #[trigger] jobs.drop_last()[j]).lane() != lane by {
            assert(jobs[j].lane() != lane);
        }
        lemma_none_of_lane(jobs.drop_last(), lane);
    }
}

proof fn lemma_pushed_job(jobs: Seq<HerdrJob>, job: HerdrJob, lane: Option<Seq<char>>)
    ensures
        of_lane(jobs.push(job), lane) == if job.lane() == lane {
            of_lane(jobs, lane).push(job)
        } else {
            of_lane(jobs, lane)
        },
{
    assert(jobs.push(job).drop_last() =~= jobs);
}

/// Whatever happens, the lanes stay valid.
pub proof fn law_lanes_stay_valid(run: Seq<Happening>)
    ensures
        history(run).order.is_valid(),
    decreases run.len(),
{
    if run.len() > 0 {
        law_lanes_stay_valid(run.drop_last());
        let before = history(run.drop_last());
        match run.last() {
            Happening::Submit(job) => law_submission_keeps_lanes(before.order, job),
            Happening::Tell(_) => {},
            Happening::Recv => law_taking_keeps_lanes(before.order, before.told),
        }
    }
}

/// Within a lane the jobs that have a request of their own are dispatched in the
/// order of their submission, and none is lost: those that were dispatched,
/// followed by those that still wait, are all of them.
pub proof fn law_lane_is_first_in_first_out(run: Seq<Happening>, lane: Option<Seq<char>>)
    ensures
        of_lane(history(run).dispatched, lane) + of_lane(history(run).order.waiting, lane)
            == of_lane(history(run).own, lane),
    decreases run.len(),
{
    if run.len() == 0 {
        assert(of_lane(Seq::empty(), lane) + of_lane(Seq::empty(), lane) =~= Seq::<
            HerdrJob,
        >::empty());
    } else {
        let before = history(run.drop_last());
        let after = history(run);
        law_lane_is_first_in_first_out(run.drop_last(), lane);
        law_lanes_stay_valid(run.drop_last());
        let dispatched = of_lane(before.dispatched, lane);
        let waiting = of_lane(before.order.waiting, lane);
        match run.last() {
            Happening::Submit(job) => {
                if leader_for(before.order.waiting, job) is None {
                    lemma_pushed_job(before.own, job, lane);
                    if before.order.is_busy(job.lane()) {
                        lemma_pushed_job(before.order.waiting, job, lane);
                        assert(dispatched + waiting.push(job) =~= (dispatched + waiting).push(job));
                    } else {
                        lemma_pushed_job(before.dispatched, job, lane);
                        if job.lane() == lane {
                            assert forall|j: int| 0 <= j < before.order.waiting.len() implies (
                            #[trigger] before.order.waiting[j]).lane() != lane by {
                                assert(before.order.is_busy(before.order.waiting[j].lane()));
                            }
                            lemma_none_of_lane(before.order.waiting, lane);
                            assert(dispatched.push(job) + waiting =~= (dispatched + waiting).push(
                                job,
                            ));
                        }
                    }
                }
            },
            Happening::Tell(_) => {},
            Happening::Recv => {
                let event = before.told[0];
                if before.order.pending.len() == 0 && before.told.len() > 0
                    && event.terminal() is Some {
                    if let Some(at) = lane_of_job(before.order.running, event.job()) {
                        let freed = before.order.running[at].0;
                        lemma_first_of_lane(before.order.waiting, freed);
                        if let Some(next) = first_of_lane(before.order.waiting, freed) {
                            let job = before.order.waiting[next];
                            lemma_first_leaves(before.order.waiting, next, lane);
                            lemma_pushed_job(before.dispatched, job, lane);
                            if job.lane() == lane {
                                assert(dispatched.push(job) + of_lane(
                                    before.order.waiting.remove(next),
                                    lane,
                                ) =~= dispatched + waiting);
                            }
                        }
                    }
                }
            },
        }
    }
}

/// A job never joins a request that runs: the one it follows still waits, and
/// runs nowhere, as long as no identifier is used twice.
pub proof fn law_running_request_is_not_joined(order: ExecView, job: HerdrJob)
    requires
        forall|i: int, j: int|
            0 <= i < order.waiting.len() && 0 <= j < order.running.len() ==> (
            #[trigger] order.waiting[i]).id() != (#[trigger] order.running[j]).1,
    ensures
        order.submitted(job).0.followers != order.followers ==> {
            let leader = order.submitted(job).0.followers.last().0;
            &&& exists|i: int| 0 <= i < order.waiting.len() && (#[trigger] order.waiting[i]).id() == leader
            &&& forall|j: int| 0 <= j < order.running.len() ==> (#[trigger] order.running[j]).1 != leader
        },
{
    lemma_leader_for(order.waiting, job);
}

proof fn lemma_follower_listed(followers: Seq<(u64, u64)>, at: int)
    requires
        0 <= at < followers.len(),
    ensures
        exists|k: int|
            0 <= k < followers_of(followers, followers[at].0).len() && #[trigger] followers_of(
                followers,
                followers[at].0,
            )[k] == followers[at].1,
    decreases followers.len(),
{
    let job = followers[at].0;
    let before = followers_of(followers.drop_last(), job);
    if at == followers.len() - 1 {
        assert(followers_of(followers, job)[before.len() as int] == followers[at].1);
    } else {
        assert(followers.drop_last()[at] == followers[at]);
        lemma_follower_listed(followers.drop_last(), at);
        let k = choose|k: int| 0 <= k < before.len() && #[trigger] before[k] == followers[at].1;
        assert(followers_of(followers, job)[k] == followers[at].1);
    }
}

/// Every job that shares a request gets its completion: whatever ends the
/// request is due, under the follower's own identifier, to each follower.
pub proof fn law_followers_get_the_completion(order: ExecView, event: EventView, at: int)
    requires
        0 <= at < order.followers.len(),
        order.followers[at].0 == event.job(),
        event.is_shared(),
    ensures
        order.received(event).0.pending.contains(event.of_job(order.followers[at].1)),
{
    lemma_follower_listed(order.followers, at);
    let jobs = followers_of(order.followers, event.job());
    let k = choose|k: int| 0 <= k < jobs.len() && #[trigger] jobs[k] == order.followers[at].1;
    let pending = order.received(event).0.pending;
    assert(pending == order.pending + shared_events(event, jobs));
    assert(pending[order.pending.len() + k] == event.of_job(order.followers[at].1));
}

/// The calls that a worker makes for a job: a negotiation first, where it was
/// asked for, then the call itself.
#[derive(Debug, PartialEq, Eq)]
pub enum WorkerCall {
    Snapshot,
    Lifecycle,
    AgentGet { request_id: String, target: String },
    Connect,
}

impl HerdrJob {
    /// Whether a job negotiates the protocol before its call.
    pub open spec fn negotiates(self) -> bool {
        match self {
            HerdrJob::Snapshot { negotiate, .. } => negotiate,
            HerdrJob::Open { negotiate, .. } => negotiate,
            _ => false,
        }
    }

    /// What a worker does for a job: whether it negotiates first, and its call.
    pub fn plan(&self) -> (plan: (bool, WorkerCall))
        ensures
            plan.0 == self.negotiates(),
            match (*self, plan.1) {
                (HerdrJob::Snapshot { .. }, WorkerCall::Snapshot) => true,
                (HerdrJob::LifecycleSnapshot { .. }, WorkerCall::Lifecycle) => true,
                (
                    HerdrJob::AgentGet { request_id, target, .. },
                    WorkerCall::AgentGet { request_id: r, target: t },
                ) => r == request_id && t == target,
                (HerdrJob::Open { .. }, WorkerCall::Connect) => true,
                _ => false,
            },
    {
        match self {
            HerdrJob::Snapshot { negotiate, .. } => (*negotiate, WorkerCall::Snapshot),
            HerdrJob::LifecycleSnapshot { .. } => (false, WorkerCall::Lifecycle),
            HerdrJob::AgentGet { request_id, target, .. } => (
                false,
                WorkerCall::AgentGet { request_id: request_id.clone(), target: target.clone() },
            ),
            HerdrJob::Open { negotiate, .. } => (*negotiate, WorkerCall::Connect),
        }
    }
}

/// The views of some events.
pub open spec fn event_views(events: Seq<HerdrEvent>) -> Seq<EventView> {
    events.map_values(|event: HerdrEvent| event@)
}

/// The events that a read ends in: its result, and then its lane is free.
pub fn read_events(job_id: u64, result: Result<HerdrJobResult, HerdrError>) -> (events: Vec<
    HerdrEvent,
>)
    ensures
        event_views(events@) == seq![
            EventView::Done {
                job_id,
                result: match result {
                    Ok(value) => Ok(value@),
                    Err(e) => Err(e),
                },
            },
            EventView::Dropped { job_id },
        ],
{
    let mut events: Vec<HerdrEvent> = Vec::new();
    events.push(HerdrEvent::Done { job_id, result });
    events.push(HerdrEvent::Dropped { job_id });
    assert(event_views(events@) =~= seq![events@[0]@, events@[1]@]);
    events
}

/// The event that opening a connection ends in. One that could not be made, or
/// whose protocol could not be negotiated, failed before anything was written.
pub fn open_event(job_id: u64, outcome: Result<(), HerdrError>) -> (event: HerdrEvent)
    ensures
        event@ == match outcome {
            Ok(()) => EventView::Opened { job_id },
            Err(error) => EventView::Failed { job_id, phase: FailPhase::Connect, error },
        },
{
    match outcome {
        Ok(()) => HerdrEvent::Opened { job_id },
        Err(error) => HerdrEvent::Failed { job_id, phase: FailPhase::Connect, error },
    }
}

/// What ends or continues a lease.
#[derive(Debug, PartialEq, Eq)]
pub enum LeaseInput {
    /// The holder gave the lease back.
    Drop,
    /// The holder is gone.
    Disconnected,
    /// The holder said nothing for the time to live.
    TimedOut,
    /// A request was sent: its method, whether its bytes were flushed, its
    /// result, and what reading the result's agent gave.
    Sent {
        method: String,
        wrote: bool,
        answer: Result<Json, HerdrError>,
        parsed: Result<AgentObservation, String>,
    },
}

/// Whether the lease goes on after an input.
pub open spec fn lease_goes_on(input: LeaseInput) -> bool {
    input is Sent
}

/// The outcome of reading an agent in an answer.
pub open spec fn agent_outcome(answer: JsonView, parsed: Result<AgentObservation, String>) -> Result<
    AgentView,
    Option<String>,
> {
    match (answer.get("agent"@), parsed) {
        (None, _) => Err(None),
        (Some(_), Ok(agent)) => Ok(agent@),
        (Some(_), Err(e)) => Err(Some(e)),
    }
}

/// Whether an event ends a request with that agent, or with the reason why there
/// is none.
pub open spec fn ends_with_agent(
    event: EventView,
    job_id: u64,
    outcome: Result<AgentView, Option<String>>,
    prompt: bool,
) -> bool {
    event matches EventView::Done { job_id: id, result } && id == job_id && match (
        outcome,
        result,
    ) {
        (Ok(agent), Ok(ResultView::Prompt(view))) => prompt && view == agent,
        (Ok(agent), Ok(ResultView::Agent(view))) => !prompt && view == agent,
        (Err(None), Err(HerdrError::Unexpected(what))) => what@ == "agent result without agent"@,
        (Err(Some(e)), Err(HerdrError::Malformed(text))) => text == e,
        _ => false,
    }
}

/// Whether an event is what an input of a lease leads to.
pub open spec fn lease_event_is(event: EventView, job_id: u64, input: LeaseInput) -> bool {
    match input {
        LeaseInput::Drop => event == (EventView::Dropped { job_id }),
        LeaseInput::Disconnected => event == (EventView::Dropped { job_id }),
        LeaseInput::TimedOut => event matches EventView::Failed { job_id: id, phase, error }
            && id == job_id && phase == FailPhase::Lease && (error matches HerdrError::Unexpected(
            what,
        ) && what@ == "herdr lease exceeded 30s"@),
        LeaseInput::Sent { method, wrote, answer, parsed } => match answer {
            Err(error) => event == (EventView::Failed {
                job_id,
                phase: if wrote {
                    FailPhase::Read
                } else {
                    FailPhase::Write
                },
                error,
            }),
            Ok(value) => if method@ == "agent.prompt"@ {
                ends_with_agent(event, job_id, agent_outcome(value@, parsed), true)
            } else if method@ == "agent.start"@ || method@ == "agent.get"@ || method@
                == "agent.rename"@ {
                ends_with_agent(event, job_id, agent_outcome(value@, parsed), false)
            } else if method@ == "pane.close"@ {
                event == (EventView::Done { job_id, result: Ok(ResultView::Closed) })
            } else {
                event matches EventView::Done { job_id: id, result: Err(HerdrError::Unexpected(what)) }
                    && id == job_id && what@ == "lease send returned an unexpected result"@
            },
        },
    }
}

/// The event that an input of a lease leads to, and whether the lease goes on.
pub fn lease_step(job_id: u64, input: LeaseInput) -> (r: (HerdrEvent, bool))
    ensures
        lease_event_is(r.0@, job_id, input),
        r.1 == lease_goes_on(input),
{
    match input {
        LeaseInput::Drop => (HerdrEvent::Dropped { job_id }, false),
        LeaseInput::Disconnected => (HerdrEvent::Dropped { job_id }, false),
        LeaseInput::TimedOut => (
            HerdrEvent::Failed {
                job_id,
                phase: FailPhase::Lease,
                error: HerdrError::Unexpected("herdr lease exceeded 30s".to_owned()),
            },
            false,
        ),
        LeaseInput::Sent { method, wrote, answer, parsed } => match answer {
            Err(error) => (
                HerdrEvent::Failed {
                    job_id,
                    phase: if wrote {
                        FailPhase::Read
                    } else {
                        FailPhase::Write
                    },
                    error,
                },
                true,
            ),
            Ok(value) => {
                let name = method.as_str();
                let result = if same(name, "agent.prompt") {
                    match agent_result(&value, parsed) {
                        Ok(agent) => Ok(HerdrJobResult::Prompt(agent)),
                        Err(e) => Err(e),
                    }
                } else if same(name, "agent.start") || same(name, "agent.get") || same(
                    name,
                    "agent.rename",
                ) {
                    match agent_result(&value, parsed) {
                        Ok(agent) => Ok(HerdrJobResult::Agent(agent)),
                        Err(e) => Err(e),
                    }
                } else if same(name, "pane.close") {
                    Ok(HerdrJobResult::Closed)
                } else {
                    Err(
                        HerdrError::Unexpected(
                            "lease send returned an unexpected result".to_owned(),
                        ),
                    )
                };
                (HerdrEvent::Done { job_id, result }, true)
            },
        },
    }
}

/// A failure before the bytes of a request were flushed is told apart from one
/// after it: only the latter leaves the outcome of the request unknown.
pub proof fn law_write_boundary_is_kept(
    event: EventView,
    job_id: u64,
    method: String,
    wrote: bool,
    error: HerdrError,
    parsed: Result<AgentObservation, String>,
)
    requires
        lease_event_is(
            event,
            job_id,
            (LeaseInput::Sent { method, wrote, answer: Err(error), parsed }),
        ),
    ensures
        event matches EventView::Failed { phase, .. } && (phase == FailPhase::Read <==> wrote) && (
        phase == FailPhase::Write <==> !wrote),
{
}

} // verus!
