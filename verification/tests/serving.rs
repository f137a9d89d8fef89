use kelpie::daemon::clear::{ClearState, ClearStep};
use kelpie::daemon::errors::{invalid, ClientResponse, StoreError};
use kelpie::daemon::message::{
    message_first, message_next, MessageEvent, MessageOutcome, MessageStep,
};
use kelpie::daemon::params::{
    AskParams, CancelParams, ClearParams, Held, RenameParams, ReplyParams, RetireParams,
    TellParams, WaiterRetireParams,
};
use kelpie::daemon::prompt::{CreatedMessage, CreatedReply, PreparedPrompt, PromptParams};
use kelpie::daemon::rename::{RenamePreflight, RenameState, RenameStep};
use kelpie::daemon::results::CancelOutcome;
use kelpie::daemon::route::{PendingCancel, PreparedWaiterRetire, Served};
use kelpie::daemon::serving::{
    serve_bound, serve_first, serve_next, Call, ServeEvent, ServeStep,
};
use kelpie::domain::{
    DeliveryOutcome, IncarnationId, LogicalAgentId, MessageId, ObligationState, OperationId,
    ReplyDisposition,
};
use kelpie::json::Json;

const AGENT: LogicalAgentId = LogicalAgentId { value: 1 };
const WORKER: LogicalAgentId = LogicalAgentId { value: 2 };
const INCARNATION: IncarnationId = IncarnationId { value: 3 };
const MESSAGE: MessageId = MessageId { value: 4 };
const OPERATION: OperationId = OperationId { value: 5 };

fn ask(alias: Option<&str>) -> PromptParams {
    PromptParams::Ask(AskParams {
        sender: AGENT,
        recipient: if alias.is_none() { Some(WORKER) } else { None },
        recipient_incarnation: if alias.is_none() { Some(INCARNATION) } else { None },
        recipient_alias: alias.map(|name| name.to_string()),
        body: "what now".into(),
        idempotency_key: "key".into(),
        due_at_ms: None,
        remind_after_ms: Some(60_000),
        no_remind: false,
        from_operator: false,
    })
}

fn tell(alias: &str) -> PromptParams {
    PromptParams::Tell(TellParams {
        sender: AGENT,
        recipient: None,
        recipient_incarnation: None,
        recipient_alias: Some(alias.into()),
        body: "hello".into(),
        idempotency_key: "key".into(),
        due_at_ms: None,
    })
}

fn reply() -> PromptParams {
    PromptParams::Reply(ReplyParams {
        reply_to: MESSAGE,
        requester_agent_id: AGENT,
        body: "done".into(),
        disposition: ReplyDisposition::Final,
        idempotency_key: "key".into(),
    })
}

fn prepared() -> PreparedPrompt {
    PreparedPrompt {
        operation_id: OPERATION,
        recipient_incarnation: INCARNATION,
        pane_id: "w1:p1".into(),
        envelope: "hi".into(),
        request_id: "kelpie:ask:5".into(),
        queued: false,
        pause_before_write: "",
        after_write_pause: "ask_after_write",
        pause_before_commit: "",
    }
}

fn created() -> CreatedMessage {
    CreatedMessage { message_id: MESSAGE, operation_id: OPERATION }
}

fn goes(params: &PromptParams, step: MessageStep, event: MessageEvent) -> MessageStep {
    match message_next(params, step, event) {
        Ok(after) => after,
        Err(same) => panic!("{same:?}"),
    }
}

fn ended(step: MessageStep) -> MessageOutcome {
    match step {
        MessageStep::End(Ok(outcome)) => outcome,
        other => panic!("{other:?}"),
    }
}

fn text<'a>(result: &'a Json, name: &str) -> Option<&'a str> {
    result.text_at(name)
}

fn refused(step: ServeStep) -> (String, String) {
    match step {
        ServeStep::Done(Served::Answered(ClientResponse { id, error: Some(error), .. })) => {
            (id, error.message)
        }
        other => panic!("{other:?}"),
    }
}

#[test]
fn an_ask_is_told_only_what_a_prompt_leaves_open() {
    let params = ask(None);
    let first = message_first(&params);
    assert_eq!(
        first,
        MessageStep::RecordAsk {
            recipient: WORKER,
            incarnation: INCARNATION,
            interval: Some(60_000)
        }
    );
    let outcome = ended(goes(
        &params,
        first,
        MessageEvent::Recorded(Ok((created(), Some(prepared())))),
    ));
    assert_eq!(outcome.prepared, Some(prepared()));
    assert_eq!(text(&outcome.result, "delivery_outcome"), None);
    let again = goes(
        &params,
        message_first(&params),
        MessageEvent::Recorded(Ok((created(), None))),
    );
    let outcome = ended(goes(
        &params,
        again,
        MessageEvent::Outcome(Ok(DeliveryOutcome::Accepted)),
    ));
    assert_eq!(outcome.prepared, None);
    assert_eq!(text(&outcome.result, "delivery_outcome"), Some("accepted"));
}

#[test]
fn a_tell_goes_to_whoever_holds_its_alias() {
    let params = tell("worker");
    let held = |ready, waiter| {
        goes(
            &params,
            message_first(&params),
            MessageEvent::Held { ready: Ok(ready), waiter: Ok(waiter) },
        )
    };
    assert_eq!(
        held(Some((WORKER, INCARNATION)), None),
        MessageStep::RecordTell { recipient: WORKER, incarnation: INCARNATION }
    );
    assert_eq!(
        held(None, Some(WORKER)),
        MessageStep::RecordSocketTell { recipient: WORKER }
    );
    assert_eq!(
        held(None, None),
        MessageStep::ResolveTell {
            alias: "worker".into(),
            key: "key:lazy-adopt:recipient".into()
        }
    );
    match held(Some((WORKER, INCARNATION)), Some(WORKER)) {
        MessageStep::End(Err(_)) => {}
        other => panic!("{other:?}"),
    }
    let socket = goes(
        &params,
        held(None, Some(WORKER)),
        MessageEvent::RecordedForSocket(Ok(MESSAGE)),
    );
    let outcome = ended(goes(
        &params,
        socket,
        MessageEvent::Outcome(Ok(DeliveryOutcome::Queued)),
    ));
    assert_eq!(outcome.prepared, None);
    assert_eq!(text(&outcome.result, "delivery_outcome"), Some("queued"));
}

#[test]
fn a_reply_without_a_prompt_is_told_what_became_of_the_obligation() {
    let params = reply();
    let recorded = goes(
        &params,
        message_first(&params),
        MessageEvent::RecordedReply(Ok((
            CreatedReply {
                message_id: MESSAGE,
                operation_id: None,
                recipient_incarnation: None,
                disposition: ReplyDisposition::Final,
            },
            None,
        ))),
    );
    let outcome = ended(goes(
        &params,
        recorded,
        MessageEvent::Settled {
            outcome: Ok(DeliveryOutcome::Queued),
            state: Ok(ObligationState::Resolved),
        },
    ));
    assert_eq!(outcome.reply_to, Some(MESSAGE));
    assert_eq!(text(&outcome.result, "delivery_outcome"), Some("queued"));
}

#[test]
fn a_message_refuses_what_it_does_not_wait_for() {
    let params = reply();
    assert_eq!(
        message_next(
            &params,
            message_first(&params),
            MessageEvent::Outcome(Ok(DeliveryOutcome::Queued))
        ),
        Err(MessageStep::RecordReply)
    );
}

#[test]
fn only_an_alias_that_nobody_holds_waits_for_a_look() {
    let call = Call::Message(tell("worker"));
    let first = || serve_first("7", &call);
    assert_eq!(first(), ServeStep::FindHolders { alias: "worker".into() });
    let held = |waiter, ready| {
        serve_next("7", &call, 0, first(), ServeEvent::Holders { waiter, ready })
    };
    assert_eq!(
        held(Held::No, Held::No),
        Ok(ServeStep::Bind {
            alias: "worker".into(),
            lazy_key: "key:lazy-adopt:recipient".into()
        })
    );
    for (waiter, ready) in [
        (Held::Yes, Held::No),
        (Held::No, Held::Yes),
        (Held::No, Held::Unknown),
    ] {
        match held(waiter, ready) {
            Ok(ServeStep::Record(MessageStep::LookUpTell { .. })) => {}
            other => panic!("{other:?}"),
        }
    }
    match serve_bound("7", &call) {
        ServeStep::Record(MessageStep::LookUpTell { alias, .. }) => assert_eq!(alias, "worker"),
        other => panic!("{other:?}"),
    }
    assert_eq!(
        refused(serve_bound("7", &Call::NoticeList)),
        ("7".into(), "cannot resume this method after alias bind".into())
    );
}

#[test]
fn a_recorded_message_waits_for_its_prompt_under_its_own_identifier() {
    let call = Call::Message(ask(None));
    let first = serve_first("7", &call);
    let event = MessageEvent::Recorded(Ok((created(), Some(prepared()))));
    match serve_next("7", &call, 0, first, ServeEvent::Message(event)) {
        Ok(ServeStep::Done(Served::Prompt(parked))) => {
            assert_eq!(parked.request_id, "7");
            assert_eq!(parked.work.prepared, prepared());
        }
        other => panic!("{other:?}"),
    }
}

#[test]
fn a_clear_is_spaced_once_its_recipient_is_known() {
    let call = Call::Clear(ClearParams {
        recipient: None,
        recipient_incarnation: None,
        recipient_alias: Some("worker".into()),
        idempotency_key: "key".into(),
    });
    let found = serve_next(
        "7",
        &call,
        0,
        serve_first("7", &call),
        ServeEvent::Holders { waiter: Held::No, ready: Held::Yes },
    );
    let Ok(resolving) = found else { panic!("{found:?}") };
    assert_eq!(
        resolving,
        ServeStep::ResolveClear {
            alias: "worker".into(),
            key: "key:lazy-adopt:recipient".into()
        }
    );
    let spacing = serve_next(
        "7",
        &call,
        0,
        resolving,
        ServeEvent::Resolved(Ok((WORKER, INCARNATION))),
    );
    let Ok(spacing) = spacing else { panic!("{spacing:?}") };
    match serve_next("7", &call, 0, spacing, ServeEvent::Spacing(Ok(250))) {
        Ok(ServeStep::Done(Served::Clear(parked))) => {
            assert_eq!(parked.request_id, "7");
            match parked.work {
                ClearStep::Rest { state: ClearState::Settling { clear, not_before_ms } } => {
                    assert_eq!(clear.recipient, WORKER);
                    assert_eq!(clear.recipient_incarnation, INCARNATION);
                    assert_eq!(clear.idempotency_key, "key");
                    assert_eq!(not_before_ms, 250);
                }
                other => panic!("{other:?}"),
            }
        }
        other => panic!("{other:?}"),
    }
    let neither = Call::Clear(ClearParams {
        recipient: None,
        recipient_incarnation: None,
        recipient_alias: None,
        idempotency_key: "key".into(),
    });
    assert_eq!(
        refused(serve_first("7", &neither)).1,
        "provide either exact recipient and recipient_incarnation, or recipient_alias"
    );
}

#[test]
fn a_rename_finds_whom_it_names_first() {
    let rename = |agent_id, alias: Option<&str>| {
        Call::Rename(RenameParams {
            agent_id,
            alias: alias.map(|name| name.to_string()),
            name: "new".into(),
        })
    };
    let call = rename(None, Some("worker"));
    let found = serve_next(
        "7",
        &call,
        0,
        serve_first("7", &call),
        ServeEvent::Found(Ok((WORKER, INCARNATION))),
    );
    assert_eq!(found, Ok(ServeStep::PrepareRename { agent: WORKER }));
    assert_eq!(
        serve_first("7", &rename(Some(WORKER), None)),
        ServeStep::PrepareRename { agent: WORKER }
    );
    assert_eq!(
        refused(serve_first("7", &rename(None, None))).1,
        "provide exactly one of agent_id or alias"
    );
    let preflight = RenamePreflight {
        logical_agent_id: WORKER,
        pane_id: "w1:p1".into(),
        new_name: "new".into(),
    };
    match serve_next(
        "7",
        &call,
        0,
        ServeStep::PrepareRename { agent: WORKER },
        ServeEvent::Renaming(Ok(preflight)),
    ) {
        Ok(ServeStep::Done(Served::Rename(parked))) => {
            assert_eq!(parked.request_id, "7");
            assert!(matches!(
                parked.work,
                RenameStep::First { state: RenameState::Snapshot(_) }
            ));
        }
        other => panic!("{other:?}"),
    }
}

#[test]
fn a_retirement_closes_its_pane_only_where_it_says_so() {
    let retire = |close_pane| {
        Call::Retire(RetireParams {
            incarnation_id: INCARNATION,
            idempotency_key: "key".into(),
            close_pane,
        })
    };
    assert_eq!(serve_first("7", &retire(true)), ServeStep::PrepareRetire);
    assert_eq!(serve_first("7", &retire(false)), ServeStep::AtOnce);
}

#[test]
fn a_socket_waiter_is_retired_only_where_it_alone_holds_its_alias() {
    let call = Call::WaiterRetire(WaiterRetireParams {
        logical_agent_id: None,
        alias: Some("hook".into()),
    });
    let held = |ready, waiter| {
        serve_next(
            "7",
            &call,
            0,
            serve_first("7", &call),
            ServeEvent::WaiterHeld { ready, waiter },
        )
    };
    assert_eq!(
        held(Ok(None), Ok(Some(WORKER))),
        Ok(ServeStep::PrepareWaiterRetire { waiter: WORKER })
    );
    match held(Ok(None), Ok(None)) {
        Ok(step) => {
            assert!(refused(step).1.contains("no unique active socket waiter for alias hook"))
        }
        other => panic!("{other:?}"),
    }
    match held(Ok(Some((WORKER, INCARNATION))), Ok(Some(WORKER))) {
        Ok(step) => assert!(refused(step).1.contains("simultaneously held")),
        other => panic!("{other:?}"),
    }
    match held(Err(StoreError::Conflict("busy".into())), Ok(None)) {
        Ok(step) => assert!(refused(step).1.contains("busy")),
        other => panic!("{other:?}"),
    }
    let prepared = PreparedWaiterRetire {
        cancelled_ask_ids: vec![],
        notices: vec![],
        prompts: vec![],
    };
    match serve_next(
        "7",
        &call,
        0,
        ServeStep::PrepareWaiterRetire { waiter: WORKER },
        ServeEvent::WaiterRetiring(Ok(prepared)),
    ) {
        Ok(ServeStep::Done(Served::WaiterRetire(parked))) => {
            assert_eq!(parked.request_id, "7");
            assert_eq!(parked.work.agent, WORKER);
        }
        other => panic!("{other:?}"),
    }
}

#[test]
fn a_request_refuses_what_it_does_not_wait_for() {
    let call = Call::Cancel(CancelParams {
        requester_agent_id: AGENT,
        ask_message_id: MESSAGE,
        reason: "over".into(),
    });
    assert_eq!(
        serve_next("7", &call, 0, serve_first("7", &call), ServeEvent::Claimed(Ok(()))),
        Err(ServeStep::RecordCancel)
    );
    let outcome = CancelOutcome {
        delivered: false,
        message_id: None,
        owing_delivered: false,
        owing_message_id: None,
    };
    match serve_next(
        "7",
        &call,
        0,
        serve_first("7", &call),
        ServeEvent::Cancelled(Ok(PendingCancel { outcome, prompts: vec![] })),
    ) {
        Ok(ServeStep::Done(Served::Answered(response))) => assert_eq!(response.id, "7"),
        other => panic!("{other:?}"),
    }
    match serve_next(
        "7",
        &call,
        0,
        serve_first("7", &call),
        ServeEvent::Cancelled(Err(invalid("no"))),
    ) {
        Ok(step) => assert_eq!(refused(step), ("7".into(), "no".into())),
        other => panic!("{other:?}"),
    }
}
