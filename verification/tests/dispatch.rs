use kelpie::daemon::dispatch::{answer_direct, dispatch, who_need, Direct, Order, Reply, WhoNeed};
use kelpie::daemon::errors::{SliceError, StoreError};
use kelpie::daemon::params::{
    ReminderDisableParams, ReminderSnoozeParams, RenewCancelParams, RenewParams, RetireParams,
    Selector, WaiterRegisterParams, WhoIdentity, WhoParams, WhoamiParams,
};
use kelpie::daemon::results::{
    AttributionEvidence, NameInfo, OperatorNotice, PendingObligation, ReadyIdentity,
};
use kelpie::attribution::RequestedAttribution;
use kelpie::domain::{
    IncarnationId, IncarnationState, LogicalAgentId, MessageId, ObligationState, OperationId,
    OperatorNoticeId, Parent, RenewId, RenewTimeout,
};
use kelpie::json::Json;

const AGENT: LogicalAgentId = LogicalAgentId { value: 7 };
const INCARNATION: IncarnationId = IncarnationId { value: 8 };
const AGENT_TEXT: &str = "00000000-0000-0000-0000-000000000007";
const INCARNATION_TEXT: &str = "00000000-0000-0000-0000-000000000008";

fn renew() -> RenewParams {
    RenewParams {
        requester: AGENT,
        recipient: Some(AGENT),
        recipient_incarnation: Some(INCARNATION),
        prepare_prompt: "save".into(),
        prompt: "resume".into(),
        on_timeout: RenewTimeout::Abort,
        prepare_timeout_ms: 1_000,
        every_ms: Some(60_000),
        due_at_ms: None,
    }
}

fn who() -> WhoParams {
    WhoParams {
        incarnation_id: None,
        agent_id: None,
        alias: Some("worker".into()),
        pane_id: None,
        history: false,
        refresh: false,
        lazy_adopt_key: None,
    }
}

fn refusal(refused: Result<Order<'_>, SliceError>) -> String {
    match refused {
        Err(SliceError::Store(StoreError::InvalidRecord(text))) => text,
        other => panic!("{other:?}"),
    }
}

fn evidence(state: IncarnationState) -> AttributionEvidence {
    AttributionEvidence {
        logical_agent_id: AGENT,
        incarnation_id: INCARNATION,
        public_name: "worker".into(),
        backend_kind: "codex".into(),
        incarnation_state: state,
        requested: RequestedAttribution::default(),
        requested_backend_args: Vec::new(),
        latest: None,
        observations: Vec::new(),
    }
}

fn result_of(order: &Order<'_>, reply: Reply) -> Json {
    let document = answer_direct("r1", order, Ok(reply)).document();
    assert_eq!(document.text_at("id"), Some("r1"));
    document.get("result").expect("a result").clone()
}

#[test]
fn a_renew_is_armed_for_the_exact_incarnation() {
    let params = renew();
    let order = dispatch(Direct::Renew(&params), "r1", Ok(1_000)).expect("armed");
    match &order {
        Order::ArmRenew {
            recipient,
            incarnation,
            scheduled_at_ms,
            ..
        } => {
            assert_eq!(*recipient, AGENT);
            assert_eq!(*incarnation, INCARNATION);
            assert_eq!(*scheduled_at_ms, 61_000);
        }
        other => panic!("{other:?}"),
    }
    let result = result_of(&order, Reply::Armed(RenewId { value: 9 }));
    assert_eq!(result.text_at("recipient"), Some(AGENT_TEXT));
    assert_eq!(result.text_at("recipient_incarnation"), Some(INCARNATION_TEXT));
    assert_eq!(result.i64_at("scheduled_at_ms"), Some(61_000));
    assert_eq!(result.i64_at("every_ms"), Some(60_000));
    assert_eq!(result.text_at("on_timeout"), Some("abort"));
    assert_eq!(result.text_at("phase"), Some("scheduled"));
}

#[test]
fn a_renew_is_refused_before_the_clock_is_asked() {
    let mut params = renew();
    params.recipient = None;
    let clock = || Err(StoreError::Sql("no clock".into()));
    assert!(refusal(dispatch(Direct::Renew(&params), "r1", clock()))
        .starts_with("renew requires recipient and recipient_incarnation"));
    params.recipient = Some(AGENT);
    params.due_at_ms = Some(5);
    assert!(refusal(dispatch(Direct::Renew(&params), "r1", clock()))
        .starts_with("renew accepts either a one-shot due time or every_ms"));
    params.due_at_ms = None;
    assert_eq!(
        dispatch(Direct::Renew(&params), "r1", clock()),
        Err(SliceError::Store(StoreError::Sql("no clock".into())))
    );
}

#[test]
fn a_whoami_names_its_caller_in_one_way() {
    let mut params = WhoamiParams {
        pane_id: Some("p1".into()),
        alias: None,
        lazy_adopt_key: None,
    };
    assert_eq!(
        dispatch(Direct::Whoami(&params), "r1", Ok(0)),
        Ok(Order::IdentifyPane {
            pane: &"p1".to_string(),
            lazy_key: "r1".into()
        })
    );
    params.lazy_adopt_key = Some("key".into());
    assert_eq!(
        dispatch(Direct::Whoami(&params), "r1", Ok(0)),
        Ok(Order::IdentifyPane {
            pane: &"p1".to_string(),
            lazy_key: "key".into()
        })
    );
    params.alias = Some("worker".into());
    assert_eq!(
        refusal(dispatch(Direct::Whoami(&params), "r1", Ok(0))),
        "provide either pane_id or alias"
    );
    params.pane_id = None;
    let order = dispatch(Direct::Whoami(&params), "r1", Ok(0)).expect("by alias");
    assert_eq!(order, Order::IdentifyAlias(&"worker".to_string()));
    let result = result_of(
        &order,
        Reply::Identity(ReadyIdentity {
            logical_agent_id: AGENT,
            incarnation_id: INCARNATION,
            public_name: "worker".into(),
        }),
    );
    assert_eq!(result.text_at("logical_agent_id"), Some(AGENT_TEXT));
    assert_eq!(result.text_at("public_name"), Some("worker"));
}

#[test]
fn a_who_asks_for_a_history_or_an_identity() {
    let mut params = who();
    params.history = true;
    assert_eq!(
        dispatch(Direct::Who(&params), "r1", Ok(0)),
        Ok(Order::FindName(&"worker".to_string()))
    );
    params.refresh = true;
    assert_eq!(
        refusal(dispatch(Direct::Who(&params), "r1", Ok(0))),
        "who history requires exactly one alias and does not accept refresh"
    );
    params.history = false;
    assert_eq!(
        dispatch(Direct::Who(&params), "r1", Ok(0)),
        Ok(Order::Identify {
            selector: Selector::Alias(&"worker".to_string()),
            refresh: true
        })
    );
    assert_eq!(
        dispatch(Direct::Attribution(&params), "r1", Ok(0)),
        Ok(Order::Attribute {
            selector: Selector::Alias(&"worker".to_string()),
            refresh: true
        })
    );
    params.agent_id = Some(AGENT);
    assert_eq!(
        refusal(dispatch(Direct::Who(&params), "r1", Ok(0))),
        "provide exactly one of incarnation_id, agent_id, alias, or pane_id"
    );
    assert_eq!(
        refusal(dispatch(Direct::Attribution(&params), "r1", Ok(0))),
        "provide exactly one of incarnation_id, agent_id, alias, or pane_id"
    );
}

#[test]
fn a_socket_waiter_has_nothing_to_refresh() {
    assert_eq!(
        who_need(WhoIdentity::Incarnation(INCARNATION), true),
        Ok(WhoNeed::Refresh(INCARNATION))
    );
    assert_eq!(
        who_need(WhoIdentity::Incarnation(INCARNATION), false),
        Ok(WhoNeed::Evidence(INCARNATION))
    );
    assert_eq!(
        who_need(WhoIdentity::SocketWaiter(AGENT), false),
        Ok(WhoNeed::Waiter(AGENT))
    );
    assert!(who_need(WhoIdentity::SocketWaiter(AGENT), true).is_err());
}

#[test]
fn an_identity_is_answered_with_how_it_is_reached() {
    let params = who();
    let order = dispatch(Direct::Who(&params), "r1", Ok(0)).expect("identified");
    let ready = result_of(
        &order,
        Reply::Evidence {
            evidence: evidence(IncarnationState::Ready),
            reason: Some("no turn yet".into()),
        },
    );
    assert_eq!(ready.text_at("delivery_transport"), Some("herdr_prompt"));
    assert_eq!(ready.bool_at("addressable"), Some(true));
    assert_eq!(ready.text_at("undetermined_because"), Some("no turn yet"));
    let lost = result_of(
        &order,
        Reply::Evidence {
            evidence: evidence(IncarnationState::Lost),
            reason: None,
        },
    );
    assert_eq!(lost.bool_at("addressable"), Some(false));
    let waiter = result_of(
        &order,
        Reply::Waiter {
            agent: AGENT,
            public_name: "waiter".into(),
            addressable: true,
        },
    );
    assert_eq!(waiter.text_at("delivery_transport"), Some("socket_inbox"));
    assert!(waiter.get("incarnation_id").expect("there").is_null());
    let order = dispatch(Direct::Attribution(&params), "r1", Ok(0)).expect("attributed");
    let plain = result_of(
        &order,
        Reply::Evidence {
            evidence: evidence(IncarnationState::Ready),
            reason: None,
        },
    );
    assert_eq!(plain.get("delivery_transport"), None);
}

#[test]
fn every_other_order_carries_what_was_asked() {
    let waiter = WaiterRegisterParams {
        public_name: "inbox".into(),
        parent: Parent::Parentless,
        idempotency_key: "k".into(),
    };
    let order = dispatch(Direct::WaiterRegister(&waiter), "r1", Ok(0)).expect("registered");
    let result = result_of(&order, Reply::Registered(AGENT));
    assert_eq!(result.text_at("public_name"), Some("inbox"));
    assert_eq!(result.text_at("delivery_transport"), Some("socket_inbox"));

    let cancel = RenewCancelParams {
        renew_id: RenewId { value: 7 },
        requester_agent_id: AGENT,
        reason: "done".into(),
    };
    let order = dispatch(Direct::RenewCancel(&cancel), "r1", Ok(0)).expect("cancelled");
    let result = result_of(&order, Reply::RenewCancelled(OperatorNoticeId { value: 8 }));
    assert_eq!(result.text_at("renew_id"), Some(AGENT_TEXT));
    assert_eq!(result.text_at("notice_id"), Some(INCARNATION_TEXT));

    let snooze = ReminderSnoozeParams {
        requester_agent_id: AGENT,
        ask_message_id: MessageId { value: 3 },
        until_ms: 99,
    };
    let order = dispatch(Direct::ReminderSnooze(&snooze), "r1", Ok(0)).expect("snoozed");
    let result = result_of(&order, Reply::Snoozed);
    assert_eq!(result.text_at("state"), Some("snoozed"));
    assert_eq!(result.i64_at("until_ms"), Some(99));

    let disable = ReminderDisableParams {
        requester_agent_id: AGENT,
        ask_message_id: MessageId { value: 3 },
    };
    let order = dispatch(Direct::ReminderDisable(&disable), "r1", Ok(0)).expect("disabled");
    assert_eq!(result_of(&order, Reply::Disabled).text_at("state"), Some("disabled"));

    let retire = RetireParams {
        incarnation_id: INCARNATION,
        idempotency_key: "k".into(),
        close_pane: false,
    };
    let order = dispatch(Direct::Retire(&retire), "r1", Ok(0)).expect("retired");
    let result = result_of(
        &order,
        Reply::Retired {
            operation_id: OperationId { value: 8 },
            released: false,
        },
    );
    assert_eq!(result.text_at("operation_id"), Some(INCARNATION_TEXT));
    assert_eq!(result.bool_at("pane_released"), Some(false));

    let name = "worker".to_string();
    let order = dispatch(Direct::NameInfo(&name), "r1", Ok(0)).expect("found");
    let result = result_of(
        &order,
        Reply::Name(NameInfo {
            public_name: "worker".into(),
            claimants: Vec::new(),
            unresolved: Vec::new(),
        }),
    );
    assert_eq!(result.text_at("name"), Some("worker"));

    assert_eq!(
        dispatch(Direct::AskInfo(MessageId { value: 3 }), "r1", Ok(0)),
        Ok(Order::FindAsk(MessageId { value: 3 }))
    );
    assert_eq!(
        dispatch(Direct::NoticeCreate(&name), "r1", Ok(0)),
        Ok(Order::CreateNotice(&name))
    );

    let order = dispatch(Direct::NoticeList, "r1", Ok(0)).expect("listed");
    match result_of(
        &order,
        Reply::Notices(vec![OperatorNotice {
            id: OperatorNoticeId { value: 7 },
            body: "look".into(),
            created_at_ms: 5,
            acknowledged: true,
        }]),
    ) {
        Json::List(items) => {
            assert_eq!(items.len(), 1);
            assert_eq!(items[0].text_at("notice_id"), Some(AGENT_TEXT));
            assert_eq!(items[0].bool_at("acknowledged"), Some(true));
        }
        other => panic!("{other:?}"),
    }

    let order = dispatch(Direct::Pending(AGENT), "r1", Ok(0)).expect("listed");
    match result_of(
        &order,
        Reply::Pending {
            owed: vec![PendingObligation {
                ask_message_id: MessageId { value: 8 },
                waiting_agent_id: AGENT,
                state: ObligationState::Open,
            }],
            waiting: Vec::new(),
            owing: Vec::new(),
        },
    ) {
        Json::List(items) => {
            assert_eq!(items.len(), 1);
            assert_eq!(items[0].text_at("ask_message_id"), Some(INCARNATION_TEXT));
            assert_eq!(items[0].text_at("state"), Some("open"));
        }
        other => panic!("{other:?}"),
    }
}

#[test]
fn a_failed_order_is_answered_with_its_class() {
    let name = "worker".to_string();
    let order = dispatch(Direct::NameInfo(&name), "r1", Ok(0)).expect("asked");
    let failed = Err(SliceError::Store(StoreError::Conflict("held twice".into())));
    let document = answer_direct("r1", &order, failed).document();
    let error = document.get("error").expect("an error");
    assert_eq!(error.text_at("class"), Some("conflict"));
}
