use kelpie::daemon::adopt::{AdoptAfterSnapshot, AdoptReply, AdoptState, AdoptStep};
use kelpie::daemon::clear::ClearDispatch;
use kelpie::daemon::errors::{invalid, SliceError, StoreError};
use kelpie::daemon::inbox::{
    acks_read, answer_ack, begin_pump, inbox_line, inbox_text, offer_queued_inbox, park_inbox,
    pump_inbox, queue_failed, take_lines, wrote, FlushStep, InboxAct, InboxLine, WriteProgress,
};
use kelpie::daemon::inflight::Inflight;
use kelpie::daemon::message::MessageOutcome;
use kelpie::daemon::params::{ReportParams, RetireParams, Selector, WhoIdentity, WhoParams, WhoamiParams};
use kelpie::daemon::parked::Parked;
use kelpie::daemon::prompt::{OwingNotice, PreparedPrompt};
use kelpie::daemon::reads::{
    alias_judged, answer_alias, answer_recover, answer_whoami, attribution_resolved, pane_judged,
    prepare_attribution_read, prepare_report_read, prepare_who_read, prepare_whoami_read,
    read_done, read_job, resume_bound_request, snapshot_needed, who_pane_found, who_resolved,
    whoami_pane_found, AliasEnd, ClientRequest, Document, LookNeed, PaneEnd, ReadKind, ReadStep,
    Resumption,
};
use kelpie::daemon::results::{
    CancelOutcome, ClearResult, DeclaredStart, InboxDelivery, ReadyIdentity, RecoveryReport,
    WaiterRetireOutcome,
};
use kelpie::daemon::retire::{RetireState, RetireStep};
use kelpie::daemon::route::{
    inline_adopt, inline_cancel_notice, inline_retire, inline_waiter_notice, misread,
    retire_route, serve_bind, serve_cancel, serve_clear, serve_inbox_claim, serve_line, serve_look,
    serve_message, serve_recover, serve_rename, serve_start, serve_waiter_retire, CancelPrompt,
    Line, Looked, Method, Misread, PendingCancel, PendingWaiterRetire,
    PreparedWaiterRetire, RetireRoute, Served,
};
use kelpie::domain::{
    DeliveryOutcome, IncarnationId, LogicalAgentId, MessageId, MessageKind, OperationId,
    OperationOutcome,
};
use kelpie::herdr::{HerdrError, Snapshot};
use kelpie::herdr_exec::{HerdrJob, HerdrJobResult};
use kelpie::json::Json;

fn request(method: &str) -> ClientRequest {
    ClientRequest {
        id: "1".into(),
        method: method.into(),
        params: Json::object(),
    }
}

fn snapshot() -> Snapshot {
    Snapshot {
        protocol: 20,
        panes: vec![],
        agents: vec![],
    }
}

fn declared() -> DeclaredStart {
    DeclaredStart {
        logical_agent_id: LogicalAgentId { value: 1 },
        incarnation_id: IncarnationId { value: 2 },
        operation_id: OperationId { value: 3 },
    }
}

fn error_of(document: &Json) -> (&str, &str) {
    let error = document.get("error").expect("an error");
    (
        error.text_at("class").expect("class"),
        error.text_at("message").expect("message"),
    )
}

fn answered(served: Served) -> Json {
    match served {
        Served::Answered(response) => response.document(),
        other => panic!("{other:?}"),
    }
}

#[test]
fn a_line_becomes_a_request_or_an_answer() {
    match serve_line(Ok(request("tell"))) {
        Line::Serve { method, request } => {
            assert_eq!(method, Method::Tell);
            assert_eq!(request.id, "1");
        }
        other => panic!("{other:?}"),
    }
    match serve_line(Ok(request("dance"))) {
        Line::Answer(response) => assert_eq!(
            error_of(&response.document()),
            ("invalid_request", "unknown client method dance")
        ),
        other => panic!("{other:?}"),
    }
    match serve_line(Err("expected value".into())) {
        Line::Answer(response) => {
            let document = response.document();
            assert_eq!(document.text_at("id"), Some(""));
            assert_eq!(error_of(&document), ("invalid_request", "expected value"));
        }
        other => panic!("{other:?}"),
    }
}

#[test]
fn every_method_is_known_by_its_name() {
    for (name, method) in [
        ("start", Method::Start),
        ("handoff", Method::Handoff),
        ("inbox.claim", Method::InboxClaim),
        ("ask", Method::Ask),
        ("tell", Method::Tell),
        ("reply", Method::Reply),
        ("clear", Method::Clear),
        ("recover", Method::Recover),
        ("attribution", Method::Attribution),
        ("who", Method::Who),
        ("report", Method::Report),
        ("whoami", Method::Whoami),
        ("adopt", Method::Adopt),
        ("rename", Method::Rename),
        ("retire", Method::Retire),
        ("waiter.register", Method::WaiterRegister),
        ("waiter.retire", Method::WaiterRetire),
        ("cancel", Method::Cancel),
        ("renew", Method::Renew),
        ("renew.cancel", Method::RenewCancel),
        ("pending", Method::Pending),
        ("name.info", Method::NameInfo),
        ("ask.info", Method::AskInfo),
        ("reminder.snooze", Method::ReminderSnooze),
        ("reminder.disable", Method::ReminderDisable),
        ("notice.create", Method::NoticeCreate),
        ("notice.list", Method::NoticeList),
    ] {
        assert_eq!(Method::of(name), Some(method));
    }
    assert_eq!(Method::of("Tell"), None);
}

#[test]
fn unreadable_params_are_answered_or_hung_up_on() {
    for method in [
        Method::Report,
        Method::Adopt,
        Method::Rename,
        Method::Retire,
        Method::WaiterRetire,
    ] {
        assert_eq!(
            misread(method, "1", "missing field"),
            Misread::HangUp("missing field".into())
        );
    }
    match misread(Method::Ask, "1", "missing field") {
        Misread::Answer(response) => assert_eq!(
            error_of(&response.document()),
            ("invalid_request", "missing field")
        ),
        other => panic!("{other:?}"),
    }
}

#[test]
fn requests_are_answered_at_once_or_parked() {
    match serve_start("1", Ok(()), 10, 90) {
        Served::Start(parked) => {
            assert_eq!(parked.request_id, "1");
            assert_eq!(parked.work.flow.deadline, 100);
        }
        other => panic!("{other:?}"),
    }
    assert_eq!(
        error_of(&answered(serve_start("1", Err(invalid("no")), 10, 90))).1,
        "no"
    );
    match serve_inbox_claim("1", LogicalAgentId { value: 5 }, Ok(())) {
        Served::Inbox {
            waiter_id,
            response,
        } => {
            assert_eq!(waiter_id, LogicalAgentId { value: 5 });
            let result = response.document();
            let result = result.get("result").expect("result");
            assert_eq!(result.bool_at("claimed"), Some(true));
            assert_eq!(result.text_at("delivery_transport"), Some("socket_inbox"));
        }
        other => panic!("{other:?}"),
    }
    assert_eq!(
        error_of(&answered(serve_inbox_claim(
            "1",
            LogicalAgentId { value: 5 },
            Err(StoreError::Conflict("foreign".into()))
        )))
        .0,
        "conflict"
    );
    assert_eq!(
        serve_recover("1"),
        Served::Read(Parked::new("1", ReadKind::Recover))
    );
    let cleared = ClearResult {
        operation_id: OperationId { value: 3 },
        recipient: LogicalAgentId { value: 1 },
        recipient_incarnation: IncarnationId { value: 2 },
        outcome: OperationOutcome::Succeeded,
    };
    assert!(answered(serve_clear("1", Ok(ClearDispatch::Complete(cleared))))
        .get("result")
        .is_some());
    assert_eq!(
        answered(serve_message(
            "1",
            Ok(MessageOutcome {
                result: Json::text("queued"),
                prepared: None,
                reply_to: None
            })
        ))
        .text_at("result"),
        Some("queued")
    );
    assert_eq!(
        error_of(&answered(serve_rename("1", Err(invalid("no"))))).1,
        "no"
    );
}

#[test]
fn a_message_to_an_unbound_alias_waits_and_goes_on() {
    match serve_bind(request("tell"), "worker".into(), "k".into()) {
        Served::Read(Parked {
            request_id,
            work: ReadKind::Alias { alias, resume, .. },
        }) => {
            assert_eq!(request_id, "1");
            assert_eq!(alias, "worker");
            assert_eq!(resume, request("tell"));
        }
        other => panic!("{other:?}"),
    }
    assert_eq!(resume_bound_request("ask"), Resumption::Prompt);
    assert_eq!(resume_bound_request("clear"), Resumption::Clear);
    assert_eq!(
        resume_bound_request("who"),
        Resumption::Refuse(invalid("cannot resume this method after alias bind"))
    );
    assert_eq!(
        alias_judged(Ok(AdoptAfterSnapshot::Ready(declared()))),
        AliasEnd::Resume
    );
}

#[test]
fn a_cancellation_without_notices_is_answered_at_once() {
    let outcome = CancelOutcome {
        delivered: false,
        message_id: None,
        owing_delivered: false,
        owing_message_id: None,
    };
    let pending = |prompts| PendingCancel { outcome, prompts };
    assert!(answered(serve_cancel("1", Ok(pending(vec![]))))
        .get("result")
        .is_some());
    let prompt = || CancelPrompt {
        prepared: PreparedPrompt {
            operation_id: OperationId { value: 3 },
            recipient_incarnation: IncarnationId { value: 2 },
            pane_id: "w1:p1".into(),
            envelope: "cancelled".into(),
            request_id: "kelpie:cancel:3".into(),
            queued: false,
            pause_before_write: "",
            after_write_pause: "",
            pause_before_commit: "",
        },
        waiting: true,
    };
    assert_eq!(
        serve_cancel("1", Ok(pending(vec![prompt()]))),
        Served::Cancel(Parked::new("1", pending(vec![prompt()])))
    );
    let mut inline = outcome;
    assert_eq!(inline_cancel_notice(&mut inline, true, Ok(true)), Ok(()));
    assert!(inline.delivered && !inline.owing_delivered);
    assert_eq!(
        inline_cancel_notice(&mut inline, false, Err(invalid("x"))),
        Err(invalid("x"))
    );
}

#[test]
fn a_pane_stays_unless_its_close_is_asked_for() {
    let params = |close_pane| RetireParams {
        incarnation_id: IncarnationId { value: 2 },
        idempotency_key: "k".into(),
        close_pane,
    };
    assert_eq!(retire_route(&params(false)), RetireRoute::AtOnce);
    assert_eq!(retire_route(&params(true)), RetireRoute::Close);
}

#[test]
fn one_request_by_itself_needs_its_snapshot_intent() {
    let work = kelpie::daemon::retire::RetireCloseWork {
        operation_id: OperationId { value: 3 },
        request: "r".into(),
        pane: "p".into(),
    };
    assert_eq!(
        inline_retire(&RetireStep::Look {
            state: RetireState::Confirm(work)
        }),
        Err(SliceError::Herdr(HerdrError::Unexpected(
            "inline retire is missing its snapshot intent".into()
        )))
    );
    let confirm = AdoptState::Confirm(kelpie::daemon::adopt::AdoptRename {
        declared: declared(),
        pane_id: "p".into(),
        public_name: "n".into(),
    });
    assert!(inline_adopt(&AdoptStep::Look { state: confirm }).is_err());
    let mut outcome = WaiterRetireOutcome {
        cancelled_ask_ids: vec![],
        owing_notices: vec![],
    };
    let notice = OwingNotice {
        ask_message_id: MessageId { value: 1 },
        message_id: MessageId { value: 2 },
        prepared: false,
    };
    assert_eq!(inline_waiter_notice(&mut outcome, notice, None), Ok(()));
    assert!(!outcome.owing_notices[0].delivered);
    let agent = LogicalAgentId { value: 5 };
    let prepared = || PreparedWaiterRetire {
        cancelled_ask_ids: vec![],
        notices: vec![notice],
        prompts: vec![],
    };
    assert_eq!(
        serve_waiter_retire("1", agent, Ok(prepared())),
        Served::WaiterRetire(Parked::new(
            "1",
            PendingWaiterRetire {
                agent,
                prepared: prepared()
            }
        ))
    );
}

fn who_params() -> WhoParams {
    WhoParams {
        incarnation_id: None,
        agent_id: None,
        alias: None,
        pane_id: Some("w1:p1".into()),
        history: false,
        refresh: true,
        lazy_adopt_key: Some("lazy".into()),
    }
}

#[test]
fn a_who_of_an_unknown_pane_waits_for_a_look() {
    let params = who_params();
    match prepare_who_read(&params).expect("a need") {
        LookNeed::FindPane(pane) => assert_eq!(pane, "w1:p1"),
        other => panic!("{other:?}"),
    }
    let pane = "w1:p1".to_string();
    assert_eq!(
        who_pane_found(&params, &pane, "1", Ok(false)),
        Ok(LookNeed::Park(ReadKind::WhoPane {
            pane_id: "w1:p1".into(),
            lazy_key: "lazy".into(),
            refresh: true
        }))
    );
    assert_eq!(
        who_pane_found(&params, &pane, "1", Ok(true)),
        Ok(LookNeed::Resolve(Selector::Pane(&pane)))
    );
    let known = IncarnationId { value: 2 };
    assert_eq!(
        who_resolved(true, Ok(WhoIdentity::Incarnation(known))),
        Ok(LookNeed::AskSnapshot(known))
    );
    assert_eq!(
        who_resolved(
            true,
            Ok(WhoIdentity::SocketWaiter(LogicalAgentId { value: 1 }))
        ),
        Ok(LookNeed::Answer)
    );
    assert_eq!(
        snapshot_needed(Document::Who, known, Ok(true)),
        Ok(LookNeed::Park(ReadKind::WhoAttribution {
            incarnation_id: known
        }))
    );
    assert_eq!(
        snapshot_needed(Document::Attribution, known, Ok(false)),
        Ok(LookNeed::Answer)
    );
    assert_eq!(
        attribution_resolved(false, Ok(known)),
        Ok(LookNeed::Answer)
    );
    assert!(prepare_attribution_read(&params).is_ok());
    let mut history = who_params();
    history.history = true;
    assert!(prepare_who_read(&history).is_err());
}

#[test]
fn a_whoami_adopts_under_its_own_request() {
    let params = WhoamiParams {
        pane_id: Some("w1:p1".into()),
        alias: None,
        lazy_adopt_key: None,
    };
    assert!(matches!(
        prepare_whoami_read(&params),
        Ok(LookNeed::FindPane(_))
    ));
    assert_eq!(
        whoami_pane_found(&params, &"w1:p1".to_string(), "request-1", Ok(false)),
        Ok(LookNeed::Park(ReadKind::Whoami {
            pane_id: "w1:p1".into(),
            lazy_key: "request-1".into()
        }))
    );
    assert_eq!(
        prepare_report_read(ReportParams {
            live: true,
            active: true
        }),
        LookNeed::Park(ReadKind::Report { active: true })
    );
    assert_eq!(
        serve_look("1", Ok(LookNeed::Park(ReadKind::Recover))),
        Looked::Served(Served::Read(Parked::new("1", ReadKind::Recover)))
    );
    assert_eq!(
        serve_look("1", Ok(LookNeed::Answer)),
        Looked::Ask(LookNeed::Answer)
    );
}

#[test]
fn every_read_takes_the_look_it_asked_for() {
    let looks = || Ok(HerdrJobResult::Snapshot(snapshot()));
    assert_eq!(
        read_job(&ReadKind::Report { active: false }, 4),
        HerdrJob::LifecycleSnapshot { job_id: 4 }
    );
    assert_eq!(
        read_job(&ReadKind::Recover, 4),
        HerdrJob::Snapshot {
            job_id: 4,
            negotiate: true
        }
    );
    assert_eq!(
        read_done(ReadKind::Recover, looks()),
        ReadStep::Recover(snapshot())
    );
    assert_eq!(
        read_done(ReadKind::Report { active: true }, looks()),
        ReadStep::Fail(SliceError::Herdr(HerdrError::Unexpected(
            "client read returned the wrong Herdr result".into()
        )))
    );
    assert_eq!(
        read_done(
            ReadKind::Report { active: true },
            Ok(HerdrJobResult::Lifecycle(vec![]))
        ),
        ReadStep::Report {
            active: true,
            observed: vec![]
        }
    );
    let down = || HerdrError::Unavailable("down".into());
    assert_eq!(
        read_done(ReadKind::Recover, Err(down())),
        ReadStep::Fail(SliceError::Herdr(down()))
    );
    assert_eq!(
        pane_judged(
            AdoptReply::Who { refresh: true },
            Ok(AdoptAfterSnapshot::Ready(declared()))
        ),
        PaneEnd::Who {
            incarnation_id: IncarnationId { value: 2 },
            refresh: true
        }
    );
    assert_eq!(
        pane_judged(
            AdoptReply::Whoami,
            Ok(AdoptAfterSnapshot::Ready(declared()))
        ),
        PaneEnd::Identity
    );
}

#[test]
fn reads_are_answered_in_their_documents() {
    let report = RecoveryReport {
        starts_recovered: 1,
        outcomes_marked_unknown: 2,
        untouched_pending_intents: 3,
        unattempted_clears_failed: 4,
        retirements_completed: 5,
        retirements_still_live: 6,
        incarnations_marked_lost: 7,
        native_sessions_refreshed: 8,
    };
    let document = answer_recover(&Parked::new("1", ()), Ok(report)).document();
    let result = document.get("result").expect("result");
    assert_eq!(result.i64_at("incarnations_marked_lost"), Some(7));
    let who = answer_whoami(
        &Parked::new("1", ()),
        Ok(ReadyIdentity {
            logical_agent_id: LogicalAgentId { value: 1 },
            incarnation_id: IncarnationId { value: 2 },
            public_name: "bob".into(),
        }),
    )
    .document();
    assert_eq!(
        who.get("result").expect("result").text_at("public_name"),
        Some("bob")
    );
    let alias = answer_alias(
        &Parked::new("1", ()),
        Ok((LogicalAgentId { value: 1 }, IncarnationId { value: 2 })),
        &"worker".to_string(),
    )
    .document();
    assert_eq!(
        alias.get("result").expect("result").text_at("public_name"),
        Some("worker")
    );
}

fn delivery(id: u128) -> InboxDelivery {
    InboxDelivery {
        message_id: MessageId { value: id },
        kind: MessageKind::Tell,
        body: "hello".into(),
        reply_to: None,
        disposition: None,
        attempt_number: 1,
        sender_agent_id: None,
        sender_public_name: Some("alice".into()),
    }
}

#[test]
fn a_delivery_is_offered_once_on_a_connection() {
    let mut offered = Inflight::new();
    let events = offer_queued_inbox(&mut offered, &vec![delivery(1), delivery(2)]);
    assert_eq!(events.len(), 2);
    assert_eq!(events[0].text_at("method"), Some("inbox.delivery"));
    assert_ne!(events[0].text_at("id"), events[1].text_at("id"));
    assert_eq!(events[0].text_at("id").expect("id").len(), 36);
    let params = events[1].get("params").expect("params");
    assert_eq!(
        params.text_at("message_id"),
        Some(MessageId { value: 2 }.to_text().as_str())
    );
    assert_eq!(params.text_at("body"), Some("hello"));
    let more = offer_queued_inbox(&mut offered, &vec![delivery(2), delivery(3)]);
    assert_eq!(more.len(), 1);
    assert_eq!(
        queue_failed(&StoreError::Sql("locked".into())),
        "queued socket inbox failed: locked"
    );
}

#[test]
fn a_waiter_has_one_inbox() {
    let id = |value| LogicalAgentId { value };
    assert_eq!(park_inbox(&vec![id(1), id(2), id(1), id(3)], id(1)), vec![1, 3]);
    assert_eq!(park_inbox(&vec![], id(1)), Vec::<usize>::new());
}

#[test]
fn an_inbox_is_pumped_in_order() {
    let (mut pump, act) = begin_pump();
    assert_eq!(act, InboxAct::Flush);
    assert_eq!(pump_inbox(&mut pump, Ok(false), false), InboxAct::Offer);
    assert_eq!(pump_inbox(&mut pump, Ok(true), true), InboxAct::Flush);
    assert_eq!(pump_inbox(&mut pump, Ok(true), false), InboxAct::ReadAcks);
    assert_eq!(pump_inbox(&mut pump, Ok(false), false), InboxAct::Flush);
    assert_eq!(
        pump_inbox(&mut pump, Ok(false), false),
        InboxAct::Done { progressed: true }
    );
    let (mut stuck, _) = begin_pump();
    assert_eq!(
        pump_inbox(&mut stuck, Ok(false), true),
        InboxAct::Done { progressed: false }
    );
    let (mut ended, _) = begin_pump();
    pump_inbox(&mut ended, Ok(false), false);
    pump_inbox(&mut ended, Ok(false), false);
    pump_inbox(&mut ended, Ok(false), false);
    assert_eq!(
        pump_inbox(&mut ended, acks_read(true, true), false),
        InboxAct::Flush,
        "the answers still go out"
    );
    assert_eq!(pump_inbox(&mut ended, Ok(true), false), InboxAct::Close);
}

#[test]
fn buffered_bytes_go_out_in_order() {
    let mut buffer = b"hello".to_vec();
    assert_eq!(
        wrote(&mut buffer, WriteProgress::Wrote(2)),
        FlushStep::Again
    );
    assert_eq!(buffer, b"llo".to_vec());
    assert_eq!(wrote(&mut buffer, WriteProgress::WouldBlock), FlushStep::Stop);
    assert_eq!(wrote(&mut buffer, WriteProgress::Wrote(0)), FlushStep::Close);
    assert_eq!(wrote(&mut buffer, WriteProgress::Failed), FlushStep::Close);
    assert_eq!(wrote(&mut buffer, WriteProgress::Wrote(3)), FlushStep::Stop);
    assert!(buffer.is_empty());
}

#[test]
fn an_inbox_takes_whole_lines_and_only_acks() {
    let mut bytes = b"one\r\n\ntwo\nthr".to_vec();
    assert_eq!(
        take_lines(&mut bytes),
        vec![b"one\r\n".to_vec(), b"\n".to_vec(), b"two\n".to_vec()]
    );
    assert_eq!(bytes, b"thr".to_vec());
    assert_eq!(inbox_text("one\r\n"), Some("one".to_string()));
    assert_eq!(inbox_text(" \n"), None);
    assert_eq!(
        inbox_line(Ok(request("inbox.ack"))),
        InboxLine::Ack(request("inbox.ack"))
    );
    match inbox_line(Ok(request("tell"))) {
        InboxLine::Answer(response) => assert_eq!(
            error_of(&response.document()).1,
            "inbox connection accepts only inbox.ack"
        ),
        other => panic!("{other:?}"),
    }
    assert!(matches!(
        inbox_line(Err("bad".into())),
        InboxLine::Answer(_)
    ));
    let (response, moved) = answer_ack("1", MessageId { value: 2 }, Ok(DeliveryOutcome::Accepted));
    assert!(moved);
    assert_eq!(
        response
            .document()
            .get("result")
            .expect("result")
            .text_at("outcome"),
        Some("accepted")
    );
    let (_, moved) = answer_ack(
        "1",
        MessageId { value: 2 },
        Err(StoreError::Conflict("foreign".into())),
    );
    assert!(!moved);
}
