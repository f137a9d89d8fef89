use kelpie::daemon::adopt::{
    adopt_next, finish_adopt, new_adopt, renaming_adopt, AdoptAfterSnapshot, AdoptAnswer,
    AdoptEvent, AdoptFlow, AdoptRename, AdoptReply, AdoptStep,
};
use kelpie::daemon::clear::{
    begin_clear, clear_next, ClearEvent, ClearState, ClearStep, ClearSubmission, ClearWork,
};
use kelpie::daemon::errors::{invalid, ClientResponse, SliceError};
use kelpie::daemon::parked::{Next, Parked};
use kelpie::daemon::prompt::{
    answer_prompt, cancel_noted, park_cancel, park_prompt, park_waiter_retire, prompt_done,
    prompt_next, waiter_retire_noted, waiter_retire_waits, OwingNotice, PreparedPrompt, PromptAct,
    PromptEnd, PromptEvent, PromptFlow, PromptOwner, Settle, WaiterRetireWork,
};
use kelpie::daemon::reads::{
    alias_next, pane_next, read_looked, AliasNext, ClientRequest, PaneNext, ReadKind, ReadStep,
};
use kelpie::daemon::rename::{
    rename_next, RenameEvent, RenamePreflight, RenameState, RenameStep, RenameWork,
};
use kelpie::daemon::renew::{
    renew_next, DueRenew, RenewClearWrite, RenewEvent, RenewInjectWrite, RenewState, RenewStep,
};
use kelpie::daemon::results::{
    CancelOutcome, ClearResult, DeclaredStart, LaunchResult, ReadyIdentity,
};
use kelpie::daemon::retire::{
    retire_next, RetireAfterSnapshot, RetireCloseWork, RetireEvent, RetirePreflight, RetireState,
    RetireStep,
};
use kelpie::daemon::start::{
    new_start, park_start, start_next, StartEvent, StartStep, StartSubmit, StartWork,
};
use kelpie::domain::{
    AdoptIntent, DeliveryOutcome, IncarnationId, LogicalAgentId, MessageId, OperationId,
    OperationOutcome, Parent, RenewId, RenewPhase,
};
use kelpie::herdr::{AgentObservation, HerdrError, Snapshot};
use kelpie::herdr_exec::{FailPhase, HerdrJobResult, LeaseCmd};
use kelpie::json::Json;

fn agent() -> AgentObservation {
    AgentObservation {
        terminal_id: "term-1".into(),
        pane_id: "w1:p1".into(),
        name: None,
        agent: None,
        interactive_ready: true,
        launch_pending: false,
        agent_session: None,
    }
}

fn looked() -> Result<HerdrJobResult, HerdrError> {
    Ok(HerdrJobResult::Snapshot(Snapshot {
        protocol: 20,
        panes: vec![],
        agents: vec![],
    }))
}

fn seen() -> Result<HerdrJobResult, HerdrError> {
    Ok(HerdrJobResult::Agent(agent()))
}

fn broken() -> HerdrError {
    HerdrError::Unavailable("broken".into())
}

fn declared() -> DeclaredStart {
    DeclaredStart {
        logical_agent_id: LogicalAgentId { value: 1 },
        incarnation_id: IncarnationId { value: 2 },
        operation_id: OperationId { value: 3 },
    }
}

fn identity() -> ReadyIdentity {
    ReadyIdentity {
        logical_agent_id: LogicalAgentId { value: 1 },
        incarnation_id: IncarnationId { value: 2 },
        public_name: "bob".into(),
    }
}

fn prepared() -> PreparedPrompt {
    PreparedPrompt {
        operation_id: OperationId { value: 3 },
        recipient_incarnation: IncarnationId { value: 2 },
        pane_id: "w1:p1".into(),
        envelope: "hi".into(),
        request_id: "kelpie:tell:3".into(),
        queued: false,
        pause_before_write: "",
        after_write_pause: "tell_after_write",
        pause_before_commit: "",
    }
}

fn method(cmd: &LeaseCmd) -> &str {
    match cmd {
        LeaseCmd::Send { method, .. } => method,
        LeaseCmd::Drop => panic!("nothing is sent"),
    }
}

fn go<W: std::fmt::Debug>(next: Next<W>) -> Parked<W> {
    match next {
        Next::Go(parked) => {
            assert_eq!(parked.request_id, "r-1");
            parked
        }
        other => panic!("{other:?}"),
    }
}

fn answer<W: std::fmt::Debug>(next: Next<W>) -> Json {
    match next {
        Next::Answer(response) => told(response),
        other => panic!("{other:?}"),
    }
}

fn told(response: ClientResponse) -> Json {
    assert_eq!(response.id, "r-1");
    response.document()
}

fn message(document: &Json) -> &str {
    document
        .get("error")
        .expect("an error")
        .text_at("message")
        .expect("message")
}

fn preflight() -> RenamePreflight {
    RenamePreflight {
        logical_agent_id: LogicalAgentId { value: 1 },
        pane_id: "w1:p1".into(),
        new_name: "bob".into(),
    }
}

fn rename_work() -> RenameWork {
    RenameWork {
        request_id: "kelpie:rename:1".into(),
        pane_id: "w1:p1".into(),
        new_name: "bob".into(),
    }
}

fn renaming() -> Parked<RenameStep> {
    Parked::new(
        "r-1",
        RenameStep::First {
            state: RenameState::Snapshot(preflight()),
        },
    )
}

#[test]
fn a_rename_runs_to_its_answer_under_one_identifier() {
    let parked = go(rename_next(renaming(), RenameEvent::Done(looked())));
    assert!(matches!(parked.work, RenameStep::Verify { .. }));
    let parked = go(rename_next(parked, RenameEvent::Verified(Ok(()))));
    let parked = go(rename_next(parked, RenameEvent::Opened));
    assert!(matches!(parked.work, RenameStep::Commit { .. }));
    let parked = go(rename_next(
        parked,
        RenameEvent::Committed(Ok(rename_work())),
    ));
    match &parked.work {
        RenameStep::Send { cmd, .. } => assert_eq!(method(cmd), "agent.rename"),
        other => panic!("{other:?}"),
    }
    let parked = go(rename_next(parked, RenameEvent::Done(seen())));
    assert!(matches!(parked.work, RenameStep::Look { .. }));
    let parked = go(rename_next(parked, RenameEvent::Done(looked())));
    let document = answer(rename_next(parked, RenameEvent::Settled(Ok(identity()))));
    assert_eq!(
        document.get("result").expect("result").text_at("public_name"),
        Some("bob")
    );
}

#[test]
fn a_rename_that_failed_before_its_write_is_withdrawn() {
    let parked = Parked::new("r-1", RenameStep::Commit { preflight: preflight() });
    let parked = go(rename_next(
        parked,
        RenameEvent::Committed(Ok(rename_work())),
    ));
    let parked = go(rename_next(
        parked,
        RenameEvent::Failed {
            phase: FailPhase::Write,
            source: broken(),
        },
    ));
    assert_eq!(
        parked.work,
        RenameStep::Abandon {
            work: rename_work(),
            source: broken()
        }
    );
    let document = answer(rename_next(parked, RenameEvent::Settled(Err(invalid("no")))));
    assert_eq!(message(&document), "no");
    assert_eq!(
        rename_next(renaming(), RenameEvent::Opened),
        Next::Stay(renaming())
    );
}

fn retiring() -> Parked<RetireStep> {
    Parked::new(
        "r-1",
        RetireStep::First {
            state: RetireState::Snapshot(RetirePreflight {
                operation_id: OperationId { value: 3 },
                incarnation_id: IncarnationId { value: 2 },
            }),
        },
    )
}

#[test]
fn a_retirement_runs_to_its_answer_under_one_identifier() {
    let work = RetireCloseWork {
        operation_id: OperationId { value: 3 },
        request: "kelpie:retire-close:3".into(),
        pane: "w1:p1".into(),
    };
    let parked = go(retire_next(retiring(), RetireEvent::Done(looked())));
    let parked = go(retire_next(
        parked,
        RetireEvent::Judged(Ok(RetireAfterSnapshot::Close(work))),
    ));
    let parked = go(retire_next(parked, RetireEvent::Opened));
    match &parked.work {
        RetireStep::Send { cmd, .. } => assert_eq!(method(cmd), "pane.close"),
        other => panic!("{other:?}"),
    }
    let parked = go(retire_next(
        parked,
        RetireEvent::Done(Ok(HerdrJobResult::Closed)),
    ));
    let parked = go(retire_next(parked, RetireEvent::Done(looked())));
    assert!(matches!(parked.work, RetireStep::Confirm { .. }));
    let document = answer(retire_next(
        parked,
        RetireEvent::Settled(Ok((OperationId { value: 3 }, true))),
    ));
    assert_eq!(
        document
            .get("result")
            .expect("result")
            .bool_at("pane_released"),
        Some(true)
    );
    let unsent = Parked::new(
        "r-1",
        RetireStep::Send {
            cmd: LeaseCmd::Drop,
            state: RetireState::Snapshot(RetirePreflight {
                operation_id: OperationId { value: 3 },
                incarnation_id: IncarnationId { value: 2 },
            }),
        },
    );
    assert_eq!(
        message(&answer(retire_next(unsent, RetireEvent::Unsent))),
        SliceError::Herdr(HerdrError::Unexpected(
            "herdr lease closed before retire close".into()
        ))
        .message()
    );
}

fn adopt_intent() -> AdoptIntent {
    AdoptIntent {
        pane_id: "w1:p1".into(),
        expected_terminal_id: "term-1".into(),
        public_name: Some("bob".into()),
        logical_agent_id: None,
        parent: Parent::Parentless,
        herdr_session: "default".into(),
        backend_kind: None,
        backend_args: vec![],
        requested_model: None,
        requested_provider: None,
        requested_effort: None,
        idempotency_key: "adopt".into(),
    }
}

fn adopt_work() -> AdoptRename {
    AdoptRename {
        declared: declared(),
        pane_id: "w1:p9".into(),
        public_name: "bob".into(),
    }
}

fn confirmed(flow: AdoptFlow) -> Parked<AdoptFlow> {
    let parked = go(adopt_next(Parked::new("r-1", flow), AdoptEvent::Opened));
    assert!(matches!(parked.work.step, AdoptStep::Submit { .. }));
    let parked = go(adopt_next(parked, AdoptEvent::Submitted(Ok("i-1".into()))));
    match &parked.work.step {
        AdoptStep::Send { cmd, .. } => assert_eq!(method(cmd), "agent.rename"),
        other => panic!("{other:?}"),
    }
    let parked = go(adopt_next(parked, AdoptEvent::Done(seen())));
    let parked = go(adopt_next(parked, AdoptEvent::Done(looked())));
    go(adopt_next(parked, AdoptEvent::Accepted(Ok(declared()))))
}

#[test]
fn an_adoption_runs_to_its_answer_under_one_identifier() {
    let parked = Parked::new("r-1", new_adopt(adopt_intent()));
    let parked = go(adopt_next(parked, AdoptEvent::Done(looked())));
    let parked = go(adopt_next(
        parked,
        AdoptEvent::Judged(Ok(AdoptAfterSnapshot::Rename(adopt_work()))),
    ));
    assert_eq!(parked.work.pane, "w1:p9");
    let parked = confirmed(parked.work);
    match finish_adopt(parked, &None) {
        AdoptAnswer::Answer(response) => assert_eq!(
            told(response)
                .get("result")
                .expect("result")
                .text_at("outcome"),
            Some("succeeded")
        ),
        other => panic!("{other:?}"),
    }
}

#[test]
fn a_request_goes_on_after_the_adoption_it_waited_for() {
    let resume = || ClientRequest {
        id: "r-1".into(),
        method: "tell".into(),
        params: Json::object(),
    };
    let parked = confirmed(renaming_adopt(AdoptReply::Rpc, Some(resume()), adopt_work()));
    assert_eq!(finish_adopt(parked, &None), AdoptAnswer::Resume(resume()));
    let who = confirmed(renaming_adopt(
        AdoptReply::Who { refresh: true },
        None,
        adopt_work(),
    ));
    assert!(matches!(
        who.work.step,
        AdoptStep::Tell { refresh: true, .. }
    ));
    let failed = Parked::new("r-1", renaming_adopt(AdoptReply::Whoami, None, adopt_work()));
    let document = answer(adopt_next(failed, AdoptEvent::Failed(broken())));
    assert_eq!(message(&document), SliceError::Herdr(broken()).message());
}

#[test]
fn a_clear_runs_to_its_answer_under_one_identifier() {
    let state = begin_clear(
        LogicalAgentId { value: 1 },
        IncarnationId { value: 2 },
        "k".into(),
        500,
    );
    let parked = Parked::new("r-1", ClearStep::Rest { state });
    let parked = match clear_next(parked, ClearEvent::Pass { now_ms: 499 }) {
        Next::Stay(parked) => parked,
        other => panic!("{other:?}"),
    };
    let parked = go(clear_next(parked, ClearEvent::Pass { now_ms: 500 }));
    assert!(matches!(parked.work, ClearStep::LookUp { .. }));
    let parked = go(clear_next(parked, ClearEvent::Bound(Ok("w1:p1".into()))));
    let parked = go(clear_next(parked, ClearEvent::Done(seen())));
    assert!(matches!(parked.work, ClearStep::Begin { .. }));
    let parked = go(clear_next(
        parked,
        ClearEvent::Begun(Ok(ClearWork {
            operation_id: OperationId { value: 3 },
            command: "/clear".into(),
        })),
    ));
    let parked = go(clear_next(parked, ClearEvent::Opened));
    match &parked.work {
        ClearStep::Commit { request_id, .. } => assert_eq!(
            *request_id,
            format!("kelpie:clear:{}", OperationId { value: 3 }.to_text())
        ),
        other => panic!("{other:?}"),
    }
    let parked = go(clear_next(parked, ClearEvent::Committed(Ok(()))));
    let parked = go(clear_next(
        parked,
        ClearEvent::Done(Ok(HerdrJobResult::Prompt(agent()))),
    ));
    let parked = go(clear_next(
        parked,
        ClearEvent::Applied(Ok(ClearSubmission::Awaiting {
            operation_id: OperationId { value: 3 },
            pane_id: "w1:p1".into(),
        })),
    ));
    let parked = go(clear_next(parked, ClearEvent::Done(seen())));
    let parked = go(clear_next(parked, ClearEvent::Watched(Ok(None))));
    assert!(matches!(parked.work, ClearStep::Rest { .. }));
    let parked = go(clear_next(parked, ClearEvent::Pass { now_ms: 900 }));
    let parked = go(clear_next(parked, ClearEvent::Done(seen())));
    let parked = go(clear_next(
        parked,
        ClearEvent::Watched(Err(invalid("not now"))),
    ));
    assert!(matches!(
        parked.work,
        ClearStep::Rest {
            state: ClearState::Rotation { .. }
        }
    ));
    let parked = go(clear_next(parked, ClearEvent::Pass { now_ms: 1_000 }));
    let parked = go(clear_next(parked, ClearEvent::Done(seen())));
    let document = answer(clear_next(
        parked,
        ClearEvent::Watched(Ok(Some(ClearResult {
            operation_id: OperationId { value: 3 },
            recipient: LogicalAgentId { value: 1 },
            recipient_incarnation: IncarnationId { value: 2 },
            outcome: OperationOutcome::Succeeded,
        }))),
    ));
    assert!(document.get("result").is_some());
}

fn started() -> Parked<StartWork> {
    let parked = Parked::new("r-1", park_start(new_start(0, 5_000)));
    assert_eq!(parked.work.step, StartStep::Look { negotiate: true });
    let parked = go(start_next(parked, StartEvent::Done(looked())));
    let parked = go(start_next(
        parked,
        StartEvent::Declared(Ok((declared(), 5_000, 3_000))),
    ));
    let parked = go(start_next(parked, StartEvent::Opened));
    assert!(matches!(
        parked.work.step,
        StartStep::Commit {
            attempt_index: 1,
            busy_deadline: 3_000,
            ..
        }
    ));
    let parked = go(start_next(
        parked,
        StartEvent::Committed(Ok(("kelpie:start:3".into(), Json::object()))),
    ));
    match &parked.work.step {
        StartStep::Send(cmd) => assert_eq!(method(cmd), "agent.start"),
        other => panic!("{other:?}"),
    }
    parked
}

#[test]
fn a_start_runs_to_its_answer_under_one_identifier() {
    let parked = go(start_next(started(), StartEvent::Done(seen())));
    let parked = go(start_next(
        parked,
        StartEvent::Applied(Ok(StartSubmit::Submitted {
            declared: declared(),
            deadline: 5_000,
        })),
    ));
    let parked = go(start_next(parked, StartEvent::Pass { now: 10 }));
    assert!(matches!(parked.work.step, StartStep::Poll { .. }));
    let parked = go(start_next(parked, StartEvent::Done(seen())));
    let parked = go(start_next(
        parked,
        StartEvent::Observed(Ok(Some(declared()))),
    ));
    let parked = go(start_next(
        parked,
        StartEvent::InitialBegun(Ok((prepared(), MessageId { value: 4 }))),
    ));
    let parked = go(start_next(parked, StartEvent::Opened));
    let parked = go(start_next(parked, StartEvent::CommittedInitial(Ok(()))));
    match &parked.work.step {
        StartStep::Send(cmd) => assert_eq!(method(cmd), "agent.prompt"),
        other => panic!("{other:?}"),
    }
    let parked = go(start_next(
        parked,
        StartEvent::Done(Ok(HerdrJobResult::Prompt(agent()))),
    ));
    assert!(matches!(
        parked.work.step,
        StartStep::CompleteInitial { .. }
    ));
    let document = answer(start_next(
        parked,
        StartEvent::Launched(Ok(LaunchResult {
            logical_agent_id: LogicalAgentId { value: 1 },
            incarnation_id: IncarnationId { value: 2 },
            start_operation_id: OperationId { value: 3 },
            start_outcome: OperationOutcome::Succeeded,
            initial_message_id: MessageId { value: 4 },
            initial_message_operation_id: OperationId { value: 5 },
            initial_message_outcome: DeliveryOutcome::Accepted,
        })),
    ));
    assert!(document.get("result").is_some());
}

#[test]
fn a_busy_start_is_tried_again_and_given_up_in_time() {
    let refused = HerdrError::Rejected {
        code: "busy".into(),
        message: "busy".into(),
    };
    let parked = go(start_next(started(), StartEvent::Failed(refused)));
    assert!(matches!(parked.work.step, StartStep::Apply { .. }));
    let parked = go(start_next(
        parked,
        StartEvent::Applied(Ok(StartSubmit::BusyRetry {
            declared: declared(),
            deadline: 5_000,
            busy_deadline: 3_000,
            not_before: 100,
            attempt_index: 1,
        })),
    ));
    let parked = match start_next(parked, StartEvent::Pass { now: 99 }) {
        Next::Stay(parked) => parked,
        other => panic!("{other:?}"),
    };
    let parked = go(start_next(parked, StartEvent::Pass { now: 100 }));
    assert_eq!(parked.work.step, StartStep::Look { negotiate: false });
    let parked = go(start_next(parked, StartEvent::Done(looked())));
    let parked = go(start_next(parked, StartEvent::Checked(Err(invalid("moved")))));
    let parked = go(start_next(parked, StartEvent::Rejected));
    assert_eq!(parked.work.step, StartStep::Fail(invalid("moved")));
    assert_eq!(
        message(&answer(start_next(parked, StartEvent::Noted))),
        "moved"
    );
}

#[test]
fn a_prompt_answers_only_with_a_prompt() {
    assert_eq!(
        prompt_done(Ok(HerdrJobResult::Prompt(agent()))),
        Ok(agent())
    );
    assert_eq!(
        prompt_done(seen()),
        Err(HerdrError::Unexpected(
            "prompt job returned a non-prompt result".into()
        ))
    );
    assert_eq!(prompt_done(Err(broken())), Err(broken()));
}

fn on(flow: PromptFlow, event: PromptEvent) -> PromptFlow {
    prompt_next(flow, event).expect("it waits for that")
}

#[test]
fn a_prompt_is_settled_before_its_client_is_told() {
    let flow = park_prompt(prepared(), PromptOwner::Client, false);
    let flow = on(flow, PromptEvent::Opened);
    let flow = on(flow, PromptEvent::Committed(Ok(())));
    assert!(flow.prompt.intent_committed);
    let flow = on(flow, PromptEvent::Done(Ok(HerdrJobResult::Prompt(agent()))));
    assert_eq!(
        flow.act,
        PromptAct::Settle {
            settle: Settle::Complete,
            prompt: Ok(agent())
        }
    );
    let flow = on(flow, PromptEvent::Settled(Ok(())));
    assert_eq!(flow.act, PromptAct::End(PromptEnd::Answer(Ok(()))));
    let document = told(answer_prompt(
        Parked::new("r-1", Json::object()),
        Ok(()),
        Some(DeliveryOutcome::Accepted),
        None,
    ));
    assert_eq!(
        document
            .get("result")
            .expect("result")
            .text_at("delivery_outcome"),
        Some("accepted")
    );
    let unsent = park_prompt(
        prepared(),
        PromptOwner::Cancel {
            session: 7,
            waiting: true,
        },
        false,
    );
    let unsent = on(unsent, PromptEvent::Failed(broken()));
    assert_eq!(
        unsent.act,
        PromptAct::Settle {
            settle: Settle::RejectUnsent,
            prompt: Err(broken())
        }
    );
    let unsent = on(unsent, PromptEvent::Settled(Ok(())));
    assert_eq!(
        unsent.act,
        PromptAct::End(PromptEnd::NoteCancel {
            session: 7,
            waiting: true,
            delivered: false
        })
    );
    assert!(prompt_next(unsent, PromptEvent::Opened).is_err());
}

#[test]
fn notices_are_counted_under_the_identifier_of_their_request() {
    let outcome = CancelOutcome {
        delivered: false,
        message_id: Some(MessageId { value: 1 }),
        owing_delivered: false,
        owing_message_id: None,
    };
    let parked = Parked::new("r-1", park_cancel(outcome, 2));
    let parked = go(cancel_noted(parked, true, true));
    assert!(answer(cancel_noted(parked, false, false))
        .get("result")
        .is_some());
    let work = |prepared: bool| {
        Parked::new(
            "r-1",
            WaiterRetireWork {
                agent: LogicalAgentId { value: 5 },
                awaiting: park_waiter_retire(
                    vec![MessageId { value: 1 }],
                    &vec![OwingNotice {
                        ask_message_id: MessageId { value: 1 },
                        message_id: MessageId { value: 11 },
                        prepared,
                    }],
                ),
            },
        )
    };
    assert!(answer(waiter_retire_waits(work(false)))
        .get("result")
        .is_some());
    let parked = go(waiter_retire_waits(work(true)));
    assert!(
        answer(waiter_retire_noted(parked, MessageId { value: 1 }, true))
            .get("result")
            .is_some()
    );
}

#[test]
fn a_read_keeps_its_identifier_whatever_it_becomes() {
    let read = |kind| Parked::new("r-1", kind);
    let looked_at = read_looked(read(ReadKind::Recover), looked()).expect("it goes on");
    assert_eq!(looked_at.request_id, "r-1");
    assert!(matches!(looked_at.work, ReadStep::Recover(_)));
    let refused = read_looked(read(ReadKind::Recover), seen()).expect_err("a refusal");
    assert_eq!(
        message(&told(refused)),
        SliceError::Herdr(HerdrError::Unexpected(
            "client read returned the wrong Herdr result".into()
        ))
        .message()
    );
    let rename = || Ok(AdoptAfterSnapshot::Rename(adopt_work()));
    match pane_next(Parked::new("r-1", ()), AdoptReply::Whoami, rename()) {
        PaneNext::Adopt(parked) => {
            assert_eq!(parked.request_id, "r-1");
            assert_eq!(parked.work.pane, "w1:p9");
            assert_eq!(parked.work.resume, None);
        }
        other => panic!("{other:?}"),
    }
    match pane_next(
        Parked::new("r-1", ()),
        AdoptReply::Rpc,
        Ok(AdoptAfterSnapshot::Ready(declared())),
    ) {
        PaneNext::Answer(response) => assert!(told(response).get("result").is_some()),
        other => panic!("{other:?}"),
    }
    let resume = || ClientRequest {
        id: "r-1".into(),
        method: "ask".into(),
        params: Json::object(),
    };
    match alias_next(Parked::new("r-1", ()), resume(), rename()) {
        AliasNext::Adopt(parked) => assert_eq!(parked.work.resume, Some(resume())),
        other => panic!("{other:?}"),
    }
    assert_eq!(
        alias_next(
            Parked::new("r-1", ()),
            resume(),
            Ok(AdoptAfterSnapshot::Ready(declared()))
        ),
        AliasNext::Resume(resume())
    );
}

#[test]
fn a_cycle_runs_from_probe_to_injection() {
    let item = DueRenew {
        renew_id: RenewId { value: 9 },
        incarnation_id: IncarnationId { value: 2 },
        pane_id: "w1:p1".into(),
        phase: RenewPhase::Ready,
        inject_not_before_ms: None,
    };
    let step = |step, event| renew_next(&item, step, event).expect("it waits for that");
    let probing = step(
        RenewStep::Rest {
            state: RenewState::Probe,
        },
        RenewEvent::Pass,
    );
    assert!(matches!(probing, RenewStep::Get { .. }));
    let recording = step(probing, RenewEvent::Done(seen()));
    let opening = step(
        recording,
        RenewEvent::Recorded(Ok(RenewClearWrite {
            request_id: "kelpie:renew:clear:9".into(),
            pane_id: "w1:p1".into(),
            command: "/clear".into(),
        })),
    );
    let sending = step(opening, RenewEvent::Opened);
    match &sending {
        RenewStep::Send { cmd, .. } => assert_eq!(method(cmd), "agent.prompt"),
        other => panic!("{other:?}"),
    }
    let applying = step(sending, RenewEvent::Done(seen()));
    assert_eq!(
        step(applying, RenewEvent::Applied(Ok(()))),
        RenewStep::Leave { notice: None }
    );
    let deciding = step(
        RenewStep::Get {
            request_id: "r".into(),
            target: "w1:p1".into(),
            state: RenewState::RotationGet,
        },
        RenewEvent::Done(seen()),
    );
    let injecting = step(
        deciding,
        RenewEvent::Decided(Ok(Some(RenewInjectWrite {
            request_id: "kelpie:renew:inject:9".into(),
            pane_id: "w1:p1".into(),
            envelope: "resume".into(),
        }))),
    );
    assert!(matches!(injecting, RenewStep::Open { .. }));
    let confirming = step(
        RenewStep::Get {
            request_id: "r".into(),
            target: "w1:p1".into(),
            state: RenewState::ConfirmGet,
        },
        RenewEvent::Done(seen()),
    );
    let complete = step(confirming, RenewEvent::Confirmed(Ok(true)));
    assert_eq!(complete, RenewStep::Complete);
    assert!(renew_next(&item, complete, RenewEvent::Opened).is_err());
}
