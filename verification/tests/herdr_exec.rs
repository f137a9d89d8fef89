use kelpie::herdr::{HerdrError, Snapshot};
use kelpie::herdr_exec::{
    lease_step, open_event, read_events, worker_count, FailPhase, HerdrEvent, HerdrExec, HerdrJob,
    HerdrJobResult, LeaseInput, WorkerCall,
};
use kelpie::json::Json;

fn snapshot_job(job_id: u64) -> HerdrJob {
    HerdrJob::Snapshot {
        job_id,
        negotiate: false,
    }
}

fn open_job(job_id: u64, pane: &str) -> HerdrJob {
    HerdrJob::Open {
        job_id,
        pane_id: pane.into(),
        negotiate: false,
    }
}

fn empty_snapshot() -> HerdrJobResult {
    HerdrJobResult::Snapshot(Snapshot {
        protocol: 20,
        panes: vec![],
        agents: vec![],
    })
}

/// Take the next event, where a worker tells one.
fn told(order: &mut HerdrExec, event: HerdrEvent) -> Option<HerdrJob> {
    let mut inbox = vec![event];
    let (event, dispatch) = order.try_recv(&mut inbox);
    assert!(event.is_some());
    assert!(inbox.is_empty());
    dispatch
}

/// Let a worker finish a job: every event it sends, and what is due to others.
fn finish(order: &mut HerdrExec, job_id: u64) -> (Vec<u64>, Option<HerdrJob>) {
    let mut done = vec![];
    let mut next = None;
    let mut inbox = read_events(job_id, Ok(empty_snapshot()));
    while let (Some(event), dispatch) = order.try_recv(&mut inbox) {
        if let HerdrEvent::Done { job_id, result } = event {
            assert_eq!(result, Ok(empty_snapshot()));
            done.push(job_id);
        }
        if dispatch.is_some() {
            next = dispatch;
        }
    }
    (done, next)
}

#[test]
fn a_snapshot_submitted_after_done_does_not_share_the_previous_wire_request() {
    let mut order = HerdrExec::new();
    let mut wire = 0;
    assert_eq!(order.submit(snapshot_job(1)), Some(snapshot_job(1)));
    wire += 1;
    assert_eq!(finish(&mut order, 1), (vec![1], None));
    assert_eq!(order.submit(snapshot_job(2)), Some(snapshot_job(2)));
    wire += 1;
    assert_eq!(finish(&mut order, 2), (vec![2], None));
    assert_eq!(
        wire, 2,
        "a snapshot submitted after Done must be its own wire request"
    );
}

#[test]
fn queued_snapshot_followers_all_receive_the_shared_result() {
    let mut order = HerdrExec::new();
    let mut wire = 0;
    assert_eq!(order.submit(snapshot_job(1)), Some(snapshot_job(1)));
    wire += 1;
    for job_id in [2, 3] {
        assert_eq!(order.submit(snapshot_job(job_id)), None);
    }
    assert_eq!(order.waiting_count(), 1);
    let (first, next) = finish(&mut order, 1);
    assert_eq!(first, vec![1]);
    assert_eq!(next, Some(snapshot_job(2)));
    wire += 1;
    let (shared, next) = finish(&mut order, 2);
    assert_eq!(
        shared,
        vec![2, 3],
        "the queued leader and follower must both receive Done"
    );
    assert_eq!(next, None);
    assert_eq!(wire, 2);
    assert_eq!(order.running_count(), 0);
}

#[test]
fn an_in_flight_snapshot_is_not_joined() {
    let mut order = HerdrExec::new();
    assert_eq!(order.submit(snapshot_job(1)), Some(snapshot_job(1)));
    assert_eq!(order.submit(snapshot_job(2)), None);
    let (first, next) = finish(&mut order, 1);
    assert_eq!(first, vec![1]);
    assert_eq!(
        next,
        Some(snapshot_job(2)),
        "the second snapshot must wait for its own wire request"
    );
    assert_eq!(finish(&mut order, 2), (vec![2], None));
}

#[test]
fn two_panes_run_at_once_and_one_pane_in_order() {
    let mut order = HerdrExec::new();
    assert_eq!(order.submit(open_job(1, "w1:p1")), Some(open_job(1, "w1:p1")));
    assert_eq!(order.submit(open_job(2, "w1:p2")), Some(open_job(2, "w1:p2")));
    assert_eq!(order.submit(open_job(3, "w1:p1")), None);
    assert_eq!(order.submit(open_job(4, "w1:p1")), None);
    assert_eq!(told(&mut order, HerdrEvent::Opened { job_id: 1 }), None);
    assert_eq!(
        told(&mut order, HerdrEvent::Dropped { job_id: 1 }),
        Some(open_job(3, "w1:p1"))
    );
    let failed = HerdrEvent::Failed {
        job_id: 3,
        phase: FailPhase::Connect,
        error: HerdrError::Unexpected("gone".into()),
    };
    assert_eq!(told(&mut order, failed), Some(open_job(4, "w1:p1")));
    assert_eq!(order.running_count(), 2);
}

#[test]
fn a_job_tells_its_worker_what_to_call() {
    assert_eq!(
        HerdrJob::Snapshot {
            job_id: 1,
            negotiate: true
        }
        .plan(),
        (true, WorkerCall::Snapshot)
    );
    assert_eq!(
        HerdrJob::LifecycleSnapshot { job_id: 1 }.plan(),
        (false, WorkerCall::Lifecycle)
    );
    assert_eq!(open_job(1, "p").plan(), (false, WorkerCall::Connect));
    assert_eq!(
        open_event(7, Ok(())),
        HerdrEvent::Opened { job_id: 7 }
    );
    assert_eq!(
        open_event(7, Err(HerdrError::Unexpected("x".into()))),
        HerdrEvent::Failed {
            job_id: 7,
            phase: FailPhase::Connect,
            error: HerdrError::Unexpected("x".into())
        }
    );
    assert_eq!(worker_count(0), 1);
    assert_eq!(worker_count(3), 3);
}

fn sent(method: &str, wrote: bool, answer: Result<Json, HerdrError>) -> LeaseInput {
    LeaseInput::Sent {
        method: method.into(),
        wrote,
        answer,
        parsed: Err("unread".into()),
    }
}

#[test]
fn a_lease_keeps_the_write_boundary() {
    let broken = || HerdrError::Unavailable("broken".into());
    for (wrote, wanted) in [(true, FailPhase::Read), (false, FailPhase::Write)] {
        let (event, goes_on) = lease_step(5, sent("agent.prompt", wrote, Err(broken())));
        assert_eq!(
            event,
            HerdrEvent::Failed {
                job_id: 5,
                phase: wanted,
                error: broken()
            }
        );
        assert!(goes_on);
    }
}

#[test]
fn a_lease_ends_when_it_is_given_back_or_forgotten() {
    assert_eq!(
        lease_step(5, LeaseInput::Drop),
        (HerdrEvent::Dropped { job_id: 5 }, false)
    );
    assert_eq!(
        lease_step(5, LeaseInput::Disconnected),
        (HerdrEvent::Dropped { job_id: 5 }, false)
    );
    assert_eq!(
        lease_step(5, LeaseInput::TimedOut),
        (
            HerdrEvent::Failed {
                job_id: 5,
                phase: FailPhase::Lease,
                error: HerdrError::Unexpected("herdr lease exceeded 30s".into())
            },
            false
        )
    );
    assert_eq!(
        lease_step(5, sent("pane.close", true, Ok(Json::object()))),
        (
            HerdrEvent::Done {
                job_id: 5,
                result: Ok(HerdrJobResult::Closed)
            },
            true
        )
    );
    assert_eq!(
        lease_step(5, sent("agent.prompt", true, Ok(Json::object()))).0,
        HerdrEvent::Done {
            job_id: 5,
            result: Err(HerdrError::Unexpected("agent result without agent".into()))
        }
    );
    assert_eq!(
        lease_step(5, sent("session.snapshot", true, Ok(Json::object()))).0,
        HerdrEvent::Done {
            job_id: 5,
            result: Err(HerdrError::Unexpected(
                "lease send returned an unexpected result".into()
            ))
        }
    );
}

#[test]
fn copies_come_before_the_next_worker_event() {
    let mut order = HerdrExec::new();
    order.submit(snapshot_job(1));
    for job_id in [2, 3, 4] {
        assert_eq!(order.submit(snapshot_job(job_id)), None);
    }
    finish(&mut order, 1);
    let mut inbox = read_events(2, Ok(empty_snapshot()));
    inbox.push(HerdrEvent::Opened { job_id: 9 });
    let mut jobs = vec![];
    while let (Some(event), _) = order.try_recv(&mut inbox) {
        jobs.push(match event {
            HerdrEvent::Done { job_id, .. } => ("done", job_id),
            HerdrEvent::Dropped { job_id } => ("dropped", job_id),
            HerdrEvent::Opened { job_id } => ("opened", job_id),
            other => panic!("{other:?}"),
        });
    }
    assert_eq!(
        jobs,
        vec![
            ("done", 2),
            ("done", 3),
            ("done", 4),
            ("dropped", 2),
            ("dropped", 3),
            ("dropped", 4),
            ("opened", 9),
        ]
    );
    assert_eq!(order.try_recv(&mut inbox), (None, None));
}
