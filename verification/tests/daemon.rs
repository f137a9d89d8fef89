use kelpie::daemon::due::{
    due_failed, may_remind, reminder_prompt, reminder_snapshot, reminders_failed,
    schedule_reminders, take_due, PreparedReminder, ReminderPass,
};
use kelpie::daemon::errors::{classify_error, conflict, invalid, malformed, respond, wrong_answer};
use kelpie::daemon::errors::{SliceError, StoreError};
use kelpie::daemon::framing::{
    claim_socket_path, pump_reading, take_line, Claim, DaemonError, Probe, Pumped, ReadProgress,
};
use kelpie::daemon::inflight::Inflight;
use kelpie::daemon::jobs::{drain_herdr_event, index_for_job, Handler, HerdrOwner, Jobs};
use kelpie::daemon::params::{
    adopt_key, ask_reminder_interval, check_ask, check_refresh, check_renew, first_cycle_at_ms,
    history_alias, pending_alias_bind, recipient_form, rename_target, selector, tell_recipient,
    waiter_for_alias, waiter_target, who_agent, who_alias, who_pane, who_selector_count,
    whoami_form, Addressed, AgentForm, AskParams, Held, RecipientForm, RenameParams, RenewParams,
    Selector, TellRecipient, WaiterRetireParams, WhoIdentity, WhoParams, WhoamiForm, WhoamiParams,
};
use kelpie::daemon::poll::{
    accepts_more, first_phase, is_slow, poll_is_busy, Phase, PollMoves, PollParked, PHASES,
};
use kelpie::daemon::prompt::PreparedPrompt;
use kelpie::domain::{
    DeliveryTransport, IncarnationId, LogicalAgentId, MessageId, OperationId, RenewTimeout,
};
use kelpie::herdr::HerdrError;
use kelpie::herdr_exec::{FailPhase, HerdrEvent, HerdrJobResult};
use kelpie::json::Json;

fn refusal(text: &str) -> SliceError {
    SliceError::Store(StoreError::InvalidRecord(text.into()))
}

fn taken(text: &str) -> SliceError {
    SliceError::Store(StoreError::Conflict(text.into()))
}

#[test]
fn a_policy_waits_out_its_own_interval_before_its_first_cycle() {
    let every_ms = 45 * 60 * 1_000;
    assert_eq!(
        first_cycle_at_ms(None, Some(every_ms), 1_000),
        1_000 + every_ms,
        "arming a policy is not a request to clear right now"
    );
    // A one-shot with no due time still means now. An explicit due time is
    // a one-shot; combining it with `--every` is refused before this runs.
    assert_eq!(first_cycle_at_ms(None, None, 1_000), 1_000);
    assert_eq!(first_cycle_at_ms(Some(50), None, 1_000), 50);
}

fn ask_params(remind_after_ms: Option<i64>, no_remind: bool) -> AskParams {
    AskParams {
        sender: LogicalAgentId::new(),
        recipient: None,
        recipient_incarnation: None,
        recipient_alias: Some("worker".into()),
        body: "question".into(),
        idempotency_key: "ask".into(),
        due_at_ms: None,
        remind_after_ms,
        no_remind,
        from_operator: false,
    }
}

#[test]
fn asks_default_to_five_minute_reminders_with_explicit_override_and_opt_out() {
    assert_eq!(
        ask_reminder_interval(&ask_params(None, false)).expect("default"),
        Some(300_000)
    );
    assert_eq!(
        ask_reminder_interval(&ask_params(Some(600_000), false)).expect("override"),
        Some(600_000)
    );
    assert_eq!(
        ask_reminder_interval(&ask_params(None, true)).expect("disabled"),
        None
    );
    assert!(ask_reminder_interval(&ask_params(Some(1), true)).is_err());
}

#[test]
fn a_postponed_ask_is_refused() {
    let mut params = ask_params(None, false);
    assert_eq!(check_ask(&params), Ok(Some(300_000)));
    params.due_at_ms = Some(1);
    let error = check_ask(&params).expect_err("a due time");
    assert_eq!(classify_error(&error).class, "invalid_request");
    assert!(error.message().contains("tell"), "{error:?}");
}

#[test]
fn a_policy_never_starts_past_the_end_of_time() {
    assert_eq!(first_cycle_at_ms(None, Some(i64::MAX), 1), i64::MAX);
}

fn renew_params() -> RenewParams {
    RenewParams {
        requester: LogicalAgentId { value: 1 },
        recipient: Some(LogicalAgentId { value: 2 }),
        recipient_incarnation: Some(IncarnationId { value: 3 }),
        prepare_prompt: "checkpoint".into(),
        prompt: "resume".into(),
        on_timeout: RenewTimeout::Abort,
        prepare_timeout_ms: 60_000,
        every_ms: Some(1_000),
        due_at_ms: None,
    }
}

#[test]
fn a_renew_needs_exact_ids_and_one_schedule() {
    let exact = check_renew(&renew_params(), 5_000).expect("exact");
    assert_eq!(
        exact,
        (
            LogicalAgentId { value: 2 },
            IncarnationId { value: 3 },
            6_000
        )
    );
    let mut half = renew_params();
    half.recipient_incarnation = None;
    let error = check_renew(&half, 5_000).expect_err("no alias form");
    assert!(
        error
            .message()
            .contains("clears its conversation every cycle"),
        "{error:?}"
    );
    let mut both = renew_params();
    both.due_at_ms = Some(9);
    let error = check_renew(&both, 5_000).expect_err("two schedules");
    assert!(error.message().contains("not both"), "{error:?}");
}

#[test]
fn a_recipient_is_named_in_one_way() {
    let agent = LogicalAgentId { value: 1 };
    let incarnation = IncarnationId { value: 2 };
    let alias = Some("worker".to_string());
    assert_eq!(
        recipient_form(Some(agent), Some(incarnation), &None),
        Ok(RecipientForm::Exact(agent, incarnation))
    );
    match recipient_form(None, None, &alias) {
        Ok(RecipientForm::Alias(name)) => assert_eq!(name, "worker"),
        other => panic!("{other:?}"),
    }
    assert!(recipient_form(Some(agent), None, &None).is_err());
    assert!(recipient_form(Some(agent), Some(incarnation), &alias).is_err());
    assert_eq!(adopt_key("key"), "key:lazy-adopt:recipient");
}

#[test]
fn a_tell_goes_to_the_one_that_holds_the_alias() {
    let agent = LogicalAgentId { value: 1 };
    let incarnation = IncarnationId { value: 2 };
    let waiter = LogicalAgentId { value: 3 };
    let both = tell_recipient("w", Some((agent, incarnation)), Some(waiter));
    assert_eq!(
        both,
        Err(taken("alias w is simultaneously held by a Ready incarnation and an active socket waiter"))
    );
    assert!(matches!(
        tell_recipient("w", None, Some(waiter)),
        Ok(TellRecipient::SocketInbox(id)) if id == waiter
    ));
}

#[test]
fn an_alias_that_nobody_holds_waits_for_a_look() {
    let mut params = ask_params(None, false);
    assert_eq!(
        pending_alias_bind(&Addressed::Ask(&params), Held::No, Held::No),
        Some(("worker".to_string(), "ask:lazy-adopt:recipient".to_string()))
    );
    for (waiter, ready) in [(Held::No, Held::Yes), (Held::No, Held::Unknown)] {
        assert_eq!(
            pending_alias_bind(&Addressed::Ask(&params), waiter, ready),
            None
        );
    }
    params.due_at_ms = Some(1);
    assert_eq!(
        pending_alias_bind(&Addressed::Ask(&params), Held::No, Held::No),
        None,
        "an ask that is going to be refused binds nothing"
    );
}

fn who_params() -> WhoParams {
    WhoParams {
        incarnation_id: None,
        agent_id: None,
        alias: None,
        pane_id: None,
        history: false,
        refresh: false,
        lazy_adopt_key: None,
    }
}

#[test]
fn a_who_takes_exactly_one_selector() {
    let none = who_params();
    assert_eq!(who_selector_count(&none), 0);
    assert_eq!(
        selector(&none),
        Err(refusal(
            "provide exactly one of incarnation_id, agent_id, alias, or pane_id"
        ))
    );
    let mut one = who_params();
    one.agent_id = Some(LogicalAgentId { value: 7 });
    assert_eq!(
        selector(&one),
        Ok(Selector::Agent(LogicalAgentId { value: 7 }))
    );
    one.pane_id = Some("w1:p1".into());
    assert!(selector(&one).is_err());
}

#[test]
fn who_is_told_by_transport_alias_and_pane() {
    let agent = LogicalAgentId { value: 1 };
    let incarnation = IncarnationId { value: 2 };
    assert_eq!(
        who_agent(agent, DeliveryTransport::SocketInbox, Ok(incarnation)),
        Ok(WhoIdentity::SocketWaiter(agent))
    );
    assert_eq!(
        who_agent(agent, DeliveryTransport::HerdrPrompt, Ok(incarnation)),
        Ok(WhoIdentity::Incarnation(incarnation))
    );
    assert!(who_alias("a", Some(incarnation), Some(agent), Ok(incarnation)).is_err());
    assert_eq!(
        who_alias("a", None, Some(agent), Ok(incarnation)),
        Ok(WhoIdentity::SocketWaiter(agent))
    );
    let lost = who_pane("w1:p1", Err(StoreError::Conflict("none".into())))
        .expect_err("nobody is there");
    assert!(
        lost.message().starts_with("pane w1:p1 has no Ready Kelpie identity;"),
        "{lost:?}"
    );
    assert!(check_refresh(WhoIdentity::SocketWaiter(agent), true).is_err());
    assert_eq!(check_refresh(WhoIdentity::SocketWaiter(agent), false), Ok(()));
}

#[test]
fn a_history_is_of_one_alias() {
    let mut params = who_params();
    params.history = true;
    assert!(history_alias(&params).is_err());
    params.alias = Some("botserver".into());
    assert_eq!(history_alias(&params), Ok(&"botserver".to_string()));
    params.refresh = true;
    assert!(history_alias(&params).is_err());
}

#[test]
fn targets_are_an_id_or_an_alias() {
    let by_id = RenameParams {
        agent_id: Some(LogicalAgentId { value: 1 }),
        alias: None,
        name: "new".into(),
    };
    assert_eq!(
        rename_target(&by_id),
        Ok(AgentForm::Id(LogicalAgentId { value: 1 }))
    );
    let neither = WaiterRetireParams {
        logical_agent_id: None,
        alias: None,
    };
    assert_eq!(
        waiter_target(&neither),
        Err(refusal("provide exactly one of logical_agent_id or alias"))
    );
    assert_eq!(
        waiter_for_alias("w", None, None),
        Err(taken("no unique active socket waiter for alias w"))
    );
    let whoami = WhoamiParams {
        pane_id: Some("w1:p1".into()),
        alias: None,
        lazy_adopt_key: None,
    };
    assert_eq!(
        whoami_form(&whoami),
        Ok(WhoamiForm::Pane(&"w1:p1".to_string()))
    );
}

#[test]
fn errors_are_classified() {
    let rejected = |code: &str| {
        SliceError::Herdr(HerdrError::Rejected {
            code: code.into(),
            message: "no".into(),
        })
    };
    let cases: Vec<(SliceError, &str, Option<&str>)> = vec![
        (
            SliceError::PaneOccupied {
                message: "m".into(),
            },
            "conflict",
            Some("pane_occupied"),
        ),
        (SliceError::LiveConflict("m".into()), "conflict", None),
        (conflict("m"), "conflict", None),
        (invalid("m"), "invalid_request", None),
        (
            SliceError::Store(StoreError::Sql("m".into())),
            "internal",
            None,
        ),
        (
            SliceError::Store(StoreError::UnsafeLocation("m".into())),
            "internal",
            None,
        ),
        (wrong_answer("m"), "internal", None),
        (
            SliceError::Herdr(HerdrError::Malformed("m".into())),
            "internal",
            None,
        ),
        (
            SliceError::Herdr(HerdrError::Unavailable("m".into())),
            "unavailable",
            None,
        ),
        (
            SliceError::Herdr(HerdrError::Incompatible {
                actual: 19,
                supported: 20,
            }),
            "incompatible_runtime",
            None,
        ),
        (
            SliceError::UnsupportedBackend {
                message: "m".into(),
            },
            "incompatible_runtime",
            Some("renew_unsupported_backend"),
        ),
        (
            rejected("pane_not_found"),
            "target_unavailable",
            Some("pane_not_found"),
        ),
        (rejected("pane_busy"), "rejected", Some("pane_busy")),
        (
            SliceError::Herdr(HerdrError::ReadinessTimeout(5)),
            "timeout",
            None,
        ),
        (
            SliceError::ClearRotationTimeout {
                message: "m".into(),
            },
            "timeout",
            Some("clear_rotation_timeout"),
        ),
        (
            SliceError::ClearUnproven {
                message: "m".into(),
            },
            "conflict",
            Some("clear_unproven"),
        ),
        (
            SliceError::UnknownOutcome {
                message: "m".into(),
                source: HerdrError::Rejected {
                    code: "c".into(),
                    message: "m".into(),
                },
            },
            "unknown_outcome",
            Some("c"),
        ),
    ];
    for (error, class, code) in cases {
        let told = classify_error(&error);
        assert_eq!(told.class, class, "{error:?}");
        assert_eq!(told.code.as_deref(), code, "{error:?}");
        assert_eq!(told.message, error.message());
    }
}

#[test]
fn a_response_holds_a_result_or_an_error() {
    let good = respond("1", Ok(Json::Bool(true))).document();
    assert_eq!(good.text_at("id"), Some("1"));
    assert_eq!(good.get("result"), Some(&Json::Bool(true)));
    assert_eq!(good.get("error"), None);
    let bad = respond("2", Err(invalid("no"))).document();
    assert_eq!(bad.get("result"), None);
    let error = bad.get("error").expect("error");
    assert_eq!(error.text_at("class"), Some("invalid_request"));
    assert_eq!(error.text_at("message"), Some("no"));
    assert_eq!(error.get("code"), None);
    let stray = malformed("expected value").document();
    assert_eq!(stray.text_at("id"), Some(""));
}

#[test]
fn a_line_is_taken_off_what_came() {
    assert_eq!(
        pump_reading(b"{\"id\"".to_vec(), 0, ReadProgress::Got(b":1}\r\nrest".to_vec())),
        Pumped::Line {
            line: b"{\"id\":1}".to_vec(),
            leftover: b"rest".to_vec()
        }
    );
    assert_eq!(
        pump_reading(b"a".to_vec(), 0, ReadProgress::Got(b"b".to_vec())),
        Pumped::Reading(b"ab".to_vec())
    );
    assert_eq!(
        pump_reading(b"a".to_vec(), 9_999, ReadProgress::WouldBlock),
        Pumped::Reading(b"a".to_vec())
    );
    assert_eq!(
        pump_reading(b"a".to_vec(), 10_000, ReadProgress::WouldBlock),
        Pumped::Gone(Some(
            "client request timed out before a complete line".into()
        ))
    );
    assert_eq!(
        pump_reading(vec![], 0, ReadProgress::Eof),
        Pumped::Gone(None)
    );
    assert_eq!(
        pump_reading(b"a".to_vec(), 0, ReadProgress::Eof),
        Pumped::Gone(Some("client hung up mid-request".into()))
    );
    assert_eq!(
        pump_reading(vec![], 0, ReadProgress::Got(vec![b'x'; 65_537])),
        Pumped::Gone(Some("client request exceeded 65536 bytes".into()))
    );
    assert_eq!(
        pump_reading(vec![], 0, ReadProgress::Failed("reset".into())),
        Pumped::Gone(Some("client connection failed: reset".into()))
    );
}

#[test]
fn taking_a_line_keeps_the_rest() {
    let mut bytes = b"one\ntwo".to_vec();
    assert_eq!(take_line(&mut bytes), Some(b"one\n".to_vec()));
    assert_eq!(take_line(&mut bytes), None);
    assert_eq!(bytes, b"two".to_vec());
}

#[test]
fn a_socket_path_is_claimed_once() {
    assert_eq!(claim_socket_path("/s", Probe::NotFound), Claim::Free);
    assert_eq!(claim_socket_path("/s", Probe::Refused), Claim::RemoveStale);
    match claim_socket_path("/s", Probe::Answered) {
        Claim::Refused(error) => {
            assert_eq!(error.message(), "another kelpied is already serving /s")
        }
        other => panic!("{other:?}"),
    }
    assert_eq!(
        claim_socket_path("/s", Probe::Failed("denied".into())),
        Claim::Refused(DaemonError::Io("denied".into()))
    );
    assert_eq!(
        DaemonError::Io("denied".into()).message(),
        "local socket failed: denied"
    );
    assert_eq!(
        DaemonError::Json("eof".into()).message(),
        "client request is malformed: eof"
    );
}

#[test]
fn events_go_to_who_submitted_the_job() {
    let mut jobs = Jobs::new();
    let first = jobs.alloc_job();
    let second = jobs.alloc_job();
    assert_eq!((first, second), (1, 2));
    jobs.submit_owned(first, HerdrOwner::Prompt);
    jobs.submit_owned(second, HerdrOwner::ClientRead);
    assert_eq!(
        drain_herdr_event(&jobs, &HerdrEvent::Opened { job_id: first }),
        Handler::Opened(HerdrOwner::Prompt)
    );
    assert_eq!(
        drain_herdr_event(&jobs, &HerdrEvent::Opened { job_id: second }),
        Handler::GiveBack
    );
    assert_eq!(
        drain_herdr_event(
            &jobs,
            &HerdrEvent::Done {
                job_id: second,
                result: Ok(HerdrJobResult::Closed)
            }
        ),
        Handler::Done(HerdrOwner::ClientRead)
    );
    jobs.release(first);
    assert_eq!(jobs.owner(first), None);
    assert_eq!(
        drain_herdr_event(
            &jobs,
            &HerdrEvent::Failed {
                job_id: first,
                phase: FailPhase::Read,
                error: HerdrError::Unexpected("x".into())
            }
        ),
        Handler::Ignore
    );
    assert_eq!(
        drain_herdr_event(&jobs, &HerdrEvent::Dropped { job_id: first }),
        Handler::Forget
    );
    assert_eq!(index_for_job(&vec![None, Some(4), Some(5)], 5), Some(2));
    assert_eq!(index_for_job(&vec![None, Some(4)], 5), None);
}

fn prompt(operation: u128) -> PreparedPrompt {
    PreparedPrompt {
        operation_id: OperationId { value: operation },
        recipient_incarnation: IncarnationId { value: 1 },
        pane_id: "w1:p1".into(),
        envelope: "hello".into(),
        request_id: "kelpie:tell:1".into(),
        queued: true,
        pause_before_write: "",
        after_write_pause: "",
        pause_before_commit: "",
    }
}

#[test]
fn what_is_under_way_is_not_sent_again() {
    let mut inflight = Inflight::new();
    let taken_in = take_due(&mut inflight, vec![prompt(1), prompt(2), prompt(1)]);
    assert_eq!(taken_in, vec![prompt(1), prompt(2)]);
    assert_eq!(inflight.count(), 2);
    assert_eq!(take_due(&mut inflight, vec![prompt(2), prompt(3)]), vec![prompt(3)]);
    inflight.remove(2);
    assert!(!inflight.contains(2));
    assert_eq!(take_due(&mut inflight, vec![prompt(2)]), vec![prompt(2)]);
    assert!(!inflight.insert(2));
}

#[test]
fn reminders_wait_for_their_look() {
    let mut inflight = Inflight::new();
    assert!(inflight.is_empty());
    assert!(may_remind(None, &inflight));
    assert!(!may_remind(Some(1), &inflight));
    inflight.insert(9);
    assert!(!may_remind(None, &inflight));
    assert_eq!(
        schedule_reminders(Ok(false), Ok((0, 0))),
        ReminderPass::Nothing
    );
    assert_eq!(schedule_reminders(Ok(true), Ok((0, 0))), ReminderPass::Look);
    assert_eq!(
        schedule_reminders(Err(invalid("x")), Ok((0, 1))),
        ReminderPass::Look
    );
    assert_eq!(
        schedule_reminders(Err(invalid("x")), Ok((0, 0))),
        ReminderPass::Nothing
    );
    assert_eq!(
        schedule_reminders(Ok(true), Err(invalid("locked"))),
        ReminderPass::Note("reminder fire failed: locked".into())
    );
    assert_eq!(
        reminders_failed(&invalid("locked")),
        "reminder fire failed: locked"
    );
    assert_eq!(due_failed(&invalid("locked")), "due fire failed: locked");
    assert_eq!(
        reminder_snapshot(true, Ok(HerdrJobResult::Lifecycle(vec![]))),
        Some(vec![])
    );
    assert_eq!(
        reminder_snapshot(false, Ok(HerdrJobResult::Lifecycle(vec![]))),
        None
    );
    assert_eq!(
        reminder_snapshot(true, Ok(HerdrJobResult::Closed)),
        None
    );
}

#[test]
fn a_reminder_is_prompted_under_its_own_operation() {
    let reminder = PreparedReminder {
        ask_message_id: MessageId { value: 1 },
        recipient_incarnation: IncarnationId { value: 2 },
        pane_id: "w1:p1".into(),
        envelope: "remember".into(),
        request_id: "kelpie:reminder:1".into(),
    };
    let prompt = reminder_prompt(&reminder, OperationId { value: 3 });
    assert_eq!(prompt.operation_id, OperationId { value: 3 });
    assert_eq!(prompt.envelope, "remember");
    assert!(!prompt.queued);
}

#[test]
fn the_loop_rests_only_when_idle() {
    let still = PollMoves {
        starts: false,
        clears: false,
        inboxes: false,
        reading: false,
        reading_after_accept: false,
        renews_parked: false,
        renews_advanced: false,
        accepted: false,
    };
    let empty = PollParked {
        starts: 0,
        clears: 0,
        reading: 0,
        prompts: 0,
        cancels: 0,
        reminder_job: None,
        reads: 0,
        renews: 0,
        adopts: 0,
        renames: 0,
        retires: 0,
    };
    assert!(!poll_is_busy(still, empty));
    assert!(poll_is_busy(
        PollMoves {
            accepted: true,
            ..still
        },
        empty
    ));
    assert!(poll_is_busy(
        still,
        PollParked {
            reminder_job: Some(1),
            ..empty
        }
    ));
    assert!(poll_is_busy(still, PollParked { retires: 1, ..empty }));
    assert!(accepts_more(15));
    assert!(!accepts_more(16));
    assert!(is_slow(1_000));
    assert!(!is_slow(999));
}

#[test]
fn a_pass_goes_through_its_parts_in_order() {
    let mut labels = Vec::new();
    let mut phase = Some(first_phase());
    while let Some(part) = phase {
        labels.push(part.label());
        phase = part.next();
    }
    assert_eq!(labels.len(), PHASES);
    assert_eq!(
        labels,
        [
            "herdr_events",
            "due_deliveries",
            "due_opens",
            "due_reminders",
            "drive_renews",
            "awaiting_renews",
            "renew_herdr",
            "awaiting_starts",
            "awaiting_clears",
            "clear_herdr",
            "inboxes",
            "reading",
            "accept",
            "reading_after_accept",
        ]
    );
}

#[test]
fn what_moved_in_a_pass_is_noted() {
    let mut moves = PollMoves::new();
    moves.note(Phase::Accept, false);
    moves.note(Phase::HerdrEvents, true);
    assert_eq!(moves, PollMoves::new());
    moves.note(Phase::AwaitingClears, true);
    assert!(moves.clears);
    assert!(!moves.starts);
    moves.note(Phase::ReadingAfterAccept, true);
    assert!(moves.reading_after_accept);
    assert!(!moves.reading);
}
