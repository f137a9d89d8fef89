use kelpie::daemon::adopt::{
    adopt_done, adopt_failed, adopt_judged, adopt_opened, adopt_submitted, answer_adopt,
    AdoptAfterSnapshot, AdoptRename, AdoptReply, AdoptState, AdoptStep,
};
use kelpie::daemon::clear::{
    advance_clear, begin_clear, clear_applied, clear_begun, clear_bound, clear_committed,
    clear_done, drive_rotation, drive_settling, drive_submitted, settle_until, ClearAdvance,
    ClearDispatch, ClearState, ClearStep, ClearSubmission, ClearWork, ResolvedClear, Settled,
};
use kelpie::daemon::errors::{invalid, SliceError, StoreError};
use kelpie::daemon::parked::Parked;
use kelpie::daemon::prompt::{
    note_cancel_notice, note_waiter_retire_notice, park_cancel, park_waiter_retire,
    prepare_client_prompt, prompt_committed, releases_due, settle, OwingNotice, ParkedPrompt,
    PreparedPrompt, PromptNeed, PromptOwner, PromptParams, PromptStep, Settle,
};
use kelpie::daemon::params::TellParams;
use kelpie::daemon::rename::{
    rename_committed, rename_done, rename_failed, rename_opened, rename_verified, RenamePreflight,
    RenameState, RenameStep, RenameWork,
};
use kelpie::daemon::renew::{
    advance_renew, count_verdict, drop_renew, renew_advanced, renew_ask, renew_clearing,
    renew_confirmed, renew_done, renew_inject, renew_opened, renew_prepared, renew_probe_allowed,
    renew_spacing, renews_terminated, renews_unlisted, DueRenew, RenewAdvance, RenewAsk,
    RenewClearWrite, RenewInjectWrite, RenewPass, RenewState, RenewStep, RenewVerdict,
};
use kelpie::daemon::results::{CancelOutcome, ClearResult, DeclaredStart, ReadyIdentity};
use kelpie::daemon::retire::{
    answer_retire, retire_done, retire_failed, retire_judged, retire_opened, RetireAfterSnapshot,
    RetireCloseWork, RetirePreflight, RetireState, RetireStep,
};
use kelpie::daemon::start::{
    advance_start, fail_start, new_start, start_applied, start_committed, start_declared,
    start_done, start_opened, StartAdvance, StartOpened, StartPhase, StartStep, StartSubmit,
};
use kelpie::domain::{
    AdoptIntent, IncarnationId, LogicalAgentId, MessageId, OperationId, OperationOutcome, Parent,
    RenewId, RenewPhase,
};
use kelpie::herdr::{AgentObservation, HerdrError, Snapshot};
use kelpie::herdr_exec::{FailPhase, HerdrJobResult, LeaseCmd};
use kelpie::json::Json;

fn agent() -> AgentObservation {
    AgentObservation {
        terminal_id: "term-1".into(),
        pane_id: "w1:p1".into(),
        name: None,
        agent: None,
        interactive_ready: true,
        launch_pending: false,
        agent_session: None,
    }
}

fn snapshot() -> Snapshot {
    Snapshot {
        protocol: 20,
        panes: vec![],
        agents: vec![],
    }
}

fn looked() -> Result<HerdrJobResult, HerdrError> {
    Ok(HerdrJobResult::Snapshot(snapshot()))
}

fn broken() -> HerdrError {
    HerdrError::Unavailable("broken".into())
}

fn unexpected(text: &str) -> SliceError {
    SliceError::Herdr(HerdrError::Unexpected(text.into()))
}

fn declared() -> DeclaredStart {
    DeclaredStart {
        logical_agent_id: LogicalAgentId { value: 1 },
        incarnation_id: IncarnationId { value: 2 },
        operation_id: OperationId { value: 3 },
    }
}

fn sent(cmd: &LeaseCmd) -> (&str, &str, &Json) {
    match cmd {
        LeaseCmd::Send {
            request_id,
            method,
            params,
            ..
        } => (request_id, method, params),
        LeaseCmd::Drop => panic!("nothing is sent"),
    }
}

fn close_work() -> RetireCloseWork {
    RetireCloseWork {
        operation_id: OperationId { value: 3 },
        request: "kelpie:retire-close:3".into(),
        pane: "w1:p1".into(),
    }
}

#[test]
fn a_retirement_closes_and_looks_again() {
    let preflight = RetirePreflight {
        operation_id: OperationId { value: 3 },
        incarnation_id: IncarnationId { value: 2 },
    };
    assert_eq!(
        retire_done(RetireState::Snapshot(preflight), looked()),
        RetireStep::Judge {
            preflight,
            snapshot: snapshot()
        }
    );
    assert_eq!(
        retire_judged(preflight, Ok(RetireAfterSnapshot::Close(close_work()))),
        RetireStep::Open {
            pane: "w1:p1".into(),
            state: RetireState::Closing(close_work())
        }
    );
    assert_eq!(
        retire_judged(preflight, Ok(RetireAfterSnapshot::Done { released: true })),
        RetireStep::Answer(Ok((OperationId { value: 3 }, true)))
    );
    let cmd = retire_opened(&RetireState::Closing(close_work())).expect("a close");
    let (id, method, params) = sent(&cmd);
    assert_eq!((id, method), ("kelpie:retire-close:3", "pane.close"));
    assert_eq!(params.text_at("pane_id"), Some("w1:p1"));
    assert_eq!(retire_opened(&RetireState::Snapshot(preflight)), None);
    assert_eq!(
        retire_done(
            RetireState::Closing(close_work()),
            Ok(HerdrJobResult::Closed)
        ),
        RetireStep::Look {
            state: RetireState::Confirm(close_work())
        }
    );
    assert_eq!(
        retire_done(RetireState::Confirm(close_work()), looked()),
        RetireStep::Confirm {
            work: close_work(),
            snapshot: snapshot()
        }
    );
    assert_eq!(
        retire_failed(
            RetireState::Closing(close_work()),
            FailPhase::Read,
            broken()
        ),
        RetireStep::Explain {
            work: close_work(),
            source: broken()
        }
    );
    let answer = answer_retire(&Parked::new("r", ()), Ok((OperationId { value: 3 }, true))).document();
    assert_eq!(
        answer
            .get("result")
            .expect("result")
            .bool_at("pane_released"),
        Some(true)
    );
}

fn rename_work() -> RenameWork {
    RenameWork {
        request_id: "kelpie:rename:1".into(),
        pane_id: "w1:p1".into(),
        new_name: "bob".into(),
    }
}

fn rename_preflight() -> RenamePreflight {
    RenamePreflight {
        logical_agent_id: LogicalAgentId { value: 1 },
        pane_id: "w1:p1".into(),
        new_name: "bob".into(),
    }
}

#[test]
fn a_rename_is_recorded_before_it_is_written_and_looked_at_after() {
    assert_eq!(
        rename_done(RenameState::Snapshot(rename_preflight()), looked()),
        RenameStep::Verify {
            preflight: rename_preflight(),
            snapshot: snapshot()
        }
    );
    assert_eq!(
        rename_verified(rename_preflight(), Ok(())),
        RenameStep::Open {
            pane: "w1:p1".into(),
            state: RenameState::Opening(rename_preflight())
        }
    );
    assert_eq!(
        rename_opened(RenameState::Opening(rename_preflight())),
        RenameStep::Commit {
            preflight: rename_preflight()
        }
    );
    match rename_committed(Ok(rename_work())) {
        RenameStep::Send { cmd, state } => {
            let (id, method, params) = sent(&cmd);
            assert_eq!((id, method), ("kelpie:rename:1", "agent.rename"));
            assert_eq!(params.text_at("name"), Some("bob"));
            assert_eq!(state, RenameState::Sending(rename_work()));
        }
        other => panic!("{other:?}"),
    }
    assert_eq!(
        rename_done(
            RenameState::Sending(rename_work()),
            Ok(HerdrJobResult::Agent(agent()))
        ),
        RenameStep::Look {
            state: RenameState::Confirm(rename_work())
        }
    );
    assert_eq!(
        rename_failed(
            RenameState::Sending(rename_work()),
            FailPhase::Read,
            broken()
        ),
        RenameStep::WriteFailed {
            work: rename_work(),
            source: broken()
        }
    );
    assert_eq!(
        rename_failed(
            RenameState::Sending(rename_work()),
            FailPhase::Write,
            broken()
        ),
        RenameStep::Abandon {
            work: rename_work(),
            source: broken()
        }
    );
}

fn adopt_work() -> AdoptRename {
    AdoptRename {
        declared: declared(),
        pane_id: "w1:p1".into(),
        public_name: "bob".into(),
    }
}

fn adopt_intent() -> AdoptIntent {
    AdoptIntent {
        pane_id: "w1:p1".into(),
        expected_terminal_id: "term-1".into(),
        public_name: Some("bob".into()),
        logical_agent_id: None,
        parent: Parent::Parentless,
        herdr_session: "default".into(),
        backend_kind: None,
        backend_args: vec![],
        requested_model: None,
        requested_provider: None,
        requested_effort: None,
        idempotency_key: "adopt".into(),
    }
}

#[test]
fn an_adoption_renames_only_where_it_has_to() {
    assert_eq!(
        adopt_done(AdoptState::Snapshot(adopt_intent()), looked()),
        AdoptStep::Judge {
            intent: adopt_intent(),
            snapshot: snapshot()
        }
    );
    assert_eq!(
        adopt_judged(Ok(AdoptAfterSnapshot::Ready(declared()))),
        AdoptStep::Finish(Ok(declared()))
    );
    assert_eq!(
        adopt_judged(Ok(AdoptAfterSnapshot::Rename(adopt_work()))),
        AdoptStep::Open {
            pane: "w1:p1".into(),
            state: AdoptState::Renaming {
                work: adopt_work(),
                request_id: None
            }
        }
    );
    assert_eq!(
        adopt_opened(AdoptState::Renaming {
            work: adopt_work(),
            request_id: None
        }),
        AdoptStep::Submit { work: adopt_work() }
    );
    match adopt_submitted(adopt_work(), Ok("kelpie:adopt-rename:1".into())) {
        AdoptStep::Send { cmd, .. } => {
            assert_eq!(sent(&cmd).0, "kelpie:adopt-rename:1");
            assert_eq!(sent(&cmd).1, "agent.rename");
        }
        other => panic!("{other:?}"),
    }
    let recorded = AdoptState::Renaming {
        work: adopt_work(),
        request_id: Some("r".into()),
    };
    assert_eq!(
        adopt_failed(recorded, broken()),
        AdoptStep::RenameFailed {
            declared: declared(),
            source: broken()
        }
    );
    assert_eq!(
        adopt_failed(AdoptState::Snapshot(adopt_intent()), broken()),
        AdoptStep::Finish(Err(SliceError::Herdr(broken())))
    );
    let identity = Some(ReadyIdentity {
        logical_agent_id: LogicalAgentId { value: 1 },
        incarnation_id: IncarnationId { value: 2 },
        public_name: "bob".into(),
    });
    let whoami = answer_adopt(AdoptReply::Whoami, Ok(declared()), &identity).expect("who");
    assert_eq!(whoami.text_at("public_name"), Some("bob"));
    let adopted = answer_adopt(AdoptReply::Rpc, Ok(declared()), &None).expect("adopted");
    assert_eq!(adopted.text_at("outcome"), Some("succeeded"));
}

#[test]
fn a_start_is_declared_sent_and_watched() {
    let mut flow = new_start(1_000, 5_000);
    assert_eq!(flow.deadline, 6_000);
    assert_eq!(new_start(u64::MAX, 1).deadline, u64::MAX);
    assert_eq!(
        start_done(&flow, looked()),
        StartStep::Declare(snapshot())
    );
    assert_eq!(
        start_done(&flow, Ok(HerdrJobResult::Closed)),
        StartStep::Fail(unexpected("start snapshot returned a non-snapshot result"))
    );
    assert_eq!(
        start_declared(&mut flow, Ok((declared(), 6_000, 3_000))),
        StartStep::Open
    );
    match start_opened(&flow) {
        StartOpened::Commit {
            declared: d,
            attempt_index,
            busy_deadline,
        } => {
            assert_eq!(d, declared());
            let cmd = start_committed(
                &mut flow,
                busy_deadline,
                attempt_index,
                "kelpie:start:3",
                Json::object(),
            );
            assert_eq!(sent(&cmd).1, "agent.start");
        }
        other => panic!("{other:?}"),
    }
    assert!(flow.intent_committed);
    assert!(matches!(flow.phase, StartPhase::Sending { .. }));
    match start_done(&flow, Ok(HerdrJobResult::Agent(agent()))) {
        StartStep::Apply { agent: answered, .. } => assert_eq!(answered, Ok(agent())),
        other => panic!("{other:?}"),
    }
    assert_eq!(
        start_applied(
            &mut flow,
            Ok(StartSubmit::Submitted {
                declared: declared(),
                deadline: 6_000
            })
        ),
        StartStep::Wait
    );
    assert_eq!(flow.phase, StartPhase::Ready);
    match advance_start(&flow, false, 2_000) {
        StartAdvance::Poll { request_id } => assert_eq!(
            request_id,
            format!("kelpie:start-ready:{}", declared().operation_id.to_text())
        ),
        other => panic!("{other:?}"),
    }
    assert_eq!(advance_start(&flow, true, 2_000), StartAdvance::Wait);
    assert_eq!(
        fail_start(&flow, invalid("no")),
        StartStep::Fail(invalid("no"))
    );
}

fn prepared(pause: &'static str) -> PreparedPrompt {
    PreparedPrompt {
        operation_id: OperationId { value: 3 },
        recipient_incarnation: IncarnationId { value: 2 },
        pane_id: "w1:p1".into(),
        envelope: "<kelpie from=alice>\nhi\n</kelpie>".into(),
        request_id: "kelpie:tell:3".into(),
        queued: false,
        pause_before_write: "",
        after_write_pause: pause,
        pause_before_commit: "",
    }
}

#[test]
fn a_prompt_is_written_once_its_intent_is_recorded() {
    match prompt_committed(&prepared(""), false, Ok(())) {
        PromptStep::Send(cmd) => {
            let (id, method, params) = sent(&cmd);
            assert_eq!((id, method), ("kelpie:tell:3", "agent.prompt"));
            assert_eq!(params.text_at("target"), Some("w1:p1"));
            assert!(params.text_at("text").expect("text").contains("hi"));
        }
        other => panic!("{other:?}"),
    }
    assert_eq!(
        prompt_committed(&prepared(""), false, Err(invalid("taken"))),
        PromptStep::Answer(invalid("taken"))
    );
    let client = ParkedPrompt {
        owner: PromptOwner::Client,
        reminder: false,
        intent_committed: true,
    };
    assert_eq!(settle(client, true), Settle::Complete);
    assert_eq!(settle(client, false), Settle::Complete);
    let due = ParkedPrompt {
        owner: PromptOwner::Internal,
        reminder: false,
        intent_committed: false,
    };
    assert!(releases_due(due));
    assert!(!releases_due(client));
    let reminder = ParkedPrompt {
        owner: PromptOwner::Internal,
        reminder: true,
        intent_committed: true,
    };
    assert_eq!(settle(reminder, true), Settle::CompleteReminder);
}

#[test]
fn a_cancellation_is_answered_with_its_last_notice() {
    let mut cancel = park_cancel(
        CancelOutcome {
            delivered: false,
            message_id: Some(MessageId { value: 1 }),
            owing_delivered: false,
            owing_message_id: None,
        },
        2,
    );
    assert_eq!(note_cancel_notice(&mut cancel, true, true), None);
    let outcome = note_cancel_notice(&mut cancel, false, true).expect("the last notice");
    assert!(outcome.delivered);
    assert!(outcome.owing_delivered);
}

#[test]
fn a_waiter_is_retired_with_its_last_notice() {
    let notice = |ask: u128, prepared: bool| OwingNotice {
        ask_message_id: MessageId { value: ask },
        message_id: MessageId { value: ask + 10 },
        prepared,
    };
    let mut retire = park_waiter_retire(
        vec![MessageId { value: 1 }, MessageId { value: 2 }],
        &vec![notice(1, true), notice(2, false)],
    );
    assert_eq!(retire.remaining, 1);
    assert!(note_waiter_retire_notice(
        &mut retire,
        MessageId { value: 1 },
        true
    ));
    assert!(retire.outcome.owing_notices[0].delivered);
    assert!(!retire.outcome.owing_notices[1].delivered);
}

#[test]
fn a_message_names_what_it_needs_first() {
    let tell = |alias: Option<&str>| {
        PromptParams::Tell(TellParams {
            sender: LogicalAgentId { value: 1 },
            recipient: None,
            recipient_incarnation: None,
            recipient_alias: alias.map(str::to_string),
            body: "hi".into(),
            idempotency_key: "k".into(),
            due_at_ms: None,
        })
    };
    let named = tell(Some("worker"));
    assert!(!matches!(
        prepare_client_prompt(&named).expect("a need"),
        PromptNeed::RecordAsk { .. }
    ));
    assert!(prepare_client_prompt(&tell(None)).is_err());
}

fn clear() -> ResolvedClear {
    ResolvedClear {
        recipient: LogicalAgentId { value: 1 },
        recipient_incarnation: IncarnationId { value: 2 },
        idempotency_key: "k".into(),
    }
}

fn cleared() -> ClearResult {
    ClearResult {
        operation_id: OperationId { value: 3 },
        recipient: LogicalAgentId { value: 1 },
        recipient_incarnation: IncarnationId { value: 2 },
        outcome: OperationOutcome::Succeeded,
    }
}

#[test]
fn a_clear_settles_probes_writes_and_watches() {
    let state = begin_clear(
        LogicalAgentId { value: 1 },
        IncarnationId { value: 2 },
        "k".into(),
        500,
    );
    assert_eq!(advance_clear(&state, false, 499), ClearAdvance::Wait);
    assert_ne!(advance_clear(&state, false, 500), ClearAdvance::Wait);
    assert_eq!(settle_until(5, 9), 9);
    assert_eq!(settle_until(9, 5), 9);
    match clear_bound(clear(), Ok("w1:p1".into())) {
        ClearStep::Get {
            request_id, target, ..
        } => {
            assert_eq!(request_id, "kelpie:clear:probe:k");
            assert_eq!(target, "w1:p1");
        }
        other => panic!("{other:?}"),
    }
    let probe = ClearState::Probe {
        clear: clear(),
        pane_id: "w1:p1".into(),
    };
    assert!(matches!(
        clear_done(probe, Ok(HerdrJobResult::Closed)),
        ClearStep::Answer(Err(_))
    ));
    let work = ClearWork {
        operation_id: OperationId { value: 3 },
        command: "/clear".into(),
    };
    let work = match clear_begun(clear(), "w1:p1".into(), Ok(work)) {
        ClearStep::Open {
            pane,
            state: ClearState::Sending { work, .. },
        } => {
            assert_eq!(pane, "w1:p1");
            work
        }
        other => panic!("{other:?}"),
    };
    match clear_committed(clear(), "w1:p1".into(), work, Ok(())) {
        ClearStep::Send { cmd, .. } => {
            assert_eq!(sent(&cmd).1, "agent.prompt");
            assert_eq!(sent(&cmd).2.text_at("text"), Some("/clear"));
        }
        other => panic!("{other:?}"),
    }
    assert_eq!(
        clear_applied(Ok(ClearSubmission::Complete(cleared()))),
        ClearStep::Answer(Ok(cleared()))
    );
}

#[test]
fn a_clear_that_is_driven_by_itself_waits_its_turn() {
    assert_eq!(
        drive_settling(clear(), 5, Ok(9), Ok(8)),
        Settled::Wait(ClearState::Settling {
            clear: clear(),
            not_before_ms: 9
        })
    );
    assert_eq!(
        drive_settling(clear(), 5, Ok(9), Ok(9)),
        Settled::Submit(clear())
    );
    assert_eq!(
        drive_settling(clear(), 5, Err(invalid("x")), Ok(9)),
        Settled::Fail(invalid("x"))
    );
    assert_eq!(
        drive_settling(clear(), 5, Ok(1), Err(StoreError::Sql("clock".into()))),
        Settled::Fail(SliceError::Store(StoreError::Sql("clock".into())))
    );
    let watched = || ClearState::Rotation {
        operation_id: OperationId { value: 3 },
        pane_id: "w1:p1".into(),
    };
    assert_eq!(
        drive_submitted(Ok(ClearSubmission::Awaiting {
            operation_id: OperationId { value: 3 },
            pane_id: "w1:p1".into()
        })),
        Ok(ClearDispatch::Awaiting(watched()))
    );
    assert_eq!(
        drive_rotation(OperationId { value: 3 }, "w1:p1".into(), Ok(None)),
        Ok(ClearDispatch::Awaiting(watched()))
    );
    assert_eq!(
        drive_rotation(OperationId { value: 3 }, "w1:p1".into(), Ok(Some(cleared()))),
        Ok(ClearDispatch::Complete(cleared()))
    );
}

fn renew(phase: RenewPhase, inject_not_before_ms: Option<i64>) -> DueRenew {
    DueRenew {
        renew_id: RenewId { value: 9 },
        incarnation_id: IncarnationId { value: 2 },
        pane_id: "w1:p1".into(),
        phase,
        inject_not_before_ms,
    }
}

#[test]
fn every_phase_of_a_cycle_has_one_next_move() {
    let skip = || RenewAsk::Settled(RenewVerdict::Next { moved: false });
    for (phase, since, ask) in [
        (RenewPhase::Scheduled, None, RenewAsk::Spacing),
        (RenewPhase::Preparing, None, RenewAsk::Advance),
        (RenewPhase::TimedOut, None, RenewAsk::Advance),
        (RenewPhase::Ready, None, RenewAsk::ReadyToProbe),
        (
            RenewPhase::Clearing,
            None,
            RenewAsk::Settled(RenewVerdict::ParkRotation),
        ),
        (RenewPhase::Injected, None, RenewAsk::Advance),
        (
            RenewPhase::Injected,
            Some(5),
            RenewAsk::Settled(RenewVerdict::ParkConfirm),
        ),
        (RenewPhase::Done, None, skip()),
        (RenewPhase::Aborted, None, skip()),
        (RenewPhase::Terminated, None, skip()),
    ] {
        assert_eq!(renew_ask(&renew(phase, since), false), ask);
        assert_eq!(renew_ask(&renew(phase, since), true), skip());
    }
}

#[test]
fn one_failing_renew_stops_a_pass_unless_it_may_be_retried() {
    let skipped = || SliceError::Herdr(broken());
    let fatal = || invalid("corrupt");
    let note = "renew drive failed: corrupt".to_string();
    assert_eq!(
        renew_spacing(Ok(true)),
        RenewVerdict::Next { moved: false }
    );
    assert_eq!(renew_spacing(Ok(false)), RenewVerdict::Prepare);
    assert_eq!(
        renew_spacing(Err(fatal())),
        RenewVerdict::NoteAndNext(note.clone())
    );
    assert_eq!(renew_prepared(Ok(())), RenewVerdict::ParkPrompt);
    assert_eq!(
        renew_prepared(Err(skipped())),
        RenewVerdict::Next { moved: false }
    );
    assert_eq!(
        renew_advanced(Err(fatal())),
        RenewVerdict::NoteAndStop(note.clone())
    );
    assert_eq!(renew_probe_allowed(Ok(true)), RenewVerdict::ParkProbe);
    let mut pass = RenewPass {
        progressed: false,
        stopped: false,
    };
    count_verdict(&mut pass, &renew_advanced(Ok(false)));
    assert!(!pass.progressed);
    count_verdict(&mut pass, &renew_probe_allowed(Ok(true)));
    count_verdict(&mut pass, &renew_advanced(Err(fatal())));
    assert!(pass.progressed && pass.stopped);
    assert_eq!(renews_terminated(&Err(fatal())), Some(note.clone()));
    assert_eq!(renews_terminated(&Ok(())), None);
    assert_eq!(
        renews_unlisted(&StoreError::Sql("corrupt".into())),
        note
    );
}

#[test]
fn a_cycle_clears_injects_and_confirms() {
    let clear_write = || RenewClearWrite {
        request_id: "kelpie:renew:clear:9".into(),
        pane_id: "w1:p1".into(),
        command: "/clear".into(),
    };
    let inject_write = || RenewInjectWrite {
        request_id: "kelpie:renew:inject:9".into(),
        pane_id: "w1:p1".into(),
        envelope: "resume".into(),
    };
    let item = renew(RenewPhase::Ready, None);
    match advance_renew(&item, &RenewState::Probe, false) {
        RenewAdvance::Get { request_id, target } => {
            assert_eq!(
                request_id,
                format!("kelpie:renew:probe:{}", RenewId { value: 9 }.to_text())
            );
            assert_eq!(target, "w1:p1");
        }
        other => panic!("{other:?}"),
    }
    assert_eq!(
        advance_renew(&item, &RenewState::Probe, true),
        RenewAdvance::Wait
    );
    assert_eq!(
        renew_done(RenewState::Probe, Ok(HerdrJobResult::Agent(agent()))),
        RenewStep::RecordClearing(agent())
    );
    assert_eq!(
        renew_done(RenewState::Probe, Err(broken())),
        RenewStep::Leave { notice: None }
    );
    assert_eq!(
        renew_clearing(Ok(clear_write())),
        RenewStep::Open {
            pane: "w1:p1".into(),
            state: RenewState::ClearingSend(clear_write())
        }
    );
    let cmd = renew_opened(&RenewState::ClearingSend(clear_write())).expect("a command");
    assert_eq!(sent(&cmd).2.text_at("text"), Some("/clear"));
    assert_eq!(renew_opened(&RenewState::Probe), None);
    assert_eq!(
        renew_done(
            RenewState::ClearingSend(clear_write()),
            Ok(HerdrJobResult::Prompt(agent()))
        ),
        RenewStep::ApplyClear {
            write: clear_write(),
            outcome: Ok(())
        }
    );
    assert_eq!(
        renew_done(
            RenewState::InjectSend(inject_write()),
            Ok(HerdrJobResult::Closed)
        ),
        RenewStep::ApplyInject {
            write: inject_write(),
            outcome: Err(HerdrError::Unexpected(
                "renew inject returned a non-agent result".into()
            ))
        }
    );
    assert_eq!(
        renew_inject(Ok(Some(inject_write()))),
        RenewStep::Open {
            pane: "w1:p1".into(),
            state: RenewState::InjectSend(inject_write())
        }
    );
    assert_eq!(renew_inject(Ok(None)), RenewStep::Leave { notice: None });
    assert_eq!(renew_confirmed(Ok(true)), RenewStep::Complete);
    assert_eq!(
        drop_renew(&invalid("corrupt")),
        RenewStep::Leave {
            notice: Some("renew drive failed: corrupt".into())
        }
    );
}
