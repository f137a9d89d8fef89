use kelpie::attribution::{
    observe, RequestedAttribution, SessionRead, SessionRoots,
};
use kelpie::daemon::dispatch::{answer_direct, dispatch, Direct, Reply};
use kelpie::daemon::errors::respond;
use kelpie::daemon::params::WhoParams;
use kelpie::daemon::report::{
    active_agents, cycle_due_at_ms, render_report, FleetReport, ReportAgent, ReportIncarnation,
    ReportObligation, ReportRenew,
};
use kelpie::daemon::results::{
    adopt_result, ask_info, cancel_result, launch_result, name_info,
    operator_notices, pending, waiter_retire_result, AskInfo, AttributionEvidence, CancelOutcome,
    CancelledAway, Claimant, DeclaredStart, DeliveryInfo, LaunchResult, NameInfo, OperatorNotice,
    PendingObligation, RecordedObservation, WaiterRetireOutcome, WaiterRetireOwingNotice,
};
use kelpie::domain::{
    DeliveryOutcome, DeliveryTransport, IncarnationId, IncarnationState, LogicalAgentId, MessageId,
    ObligationState, OperationId, OperationOutcome, OperatorNoticeId, RenewId, RenewPhase,
};
use kelpie::herdr::AgentStatus;
use kelpie::json::Json;

fn requested(model: Option<&str>) -> RequestedAttribution {
    RequestedAttribution {
        model: model.map(str::to_string),
        provider: None,
        effort: None,
    }
}

fn incarnation(id: u128, state: IncarnationState) -> ReportIncarnation {
    ReportIncarnation {
        id: IncarnationId { value: id },
        state,
        backend_kind: "codex".into(),
        working_directory: "/work".into(),
        herdr_session: "default".into(),
        intended_pane_id: "w1:p1".into(),
        expected_terminal_id: "term-1".into(),
        observed_pane_id: None,
        observed_terminal_id: None,
        requested: requested(None),
        requested_backend_args: vec![],
        created_at_ms: 1,
        native_session_rotated_at_ms: None,
        terminal_at_ms: None,
        terminal_reason: None,
        latest_operation: None,
        renew: None,
        live_status: Some(AgentStatus::Working),
    }
}

fn agent(id: u128, parent: Option<u128>, state: IncarnationState) -> ReportAgent {
    ReportAgent {
        id: LogicalAgentId { value: id },
        public_name: format!("agent-{id}"),
        parent_agent_id: parent.map(|value| LogicalAgentId { value }),
        explicitly_parentless: parent.is_none(),
        created_at_ms: 0,
        incarnations: vec![incarnation(id + 100, state)],
    }
}

#[test]
fn an_active_report_keeps_the_lineage_of_what_still_exists() {
    let agents = vec![
        agent(1, None, IncarnationState::Retired),
        agent(2, Some(1), IncarnationState::Ready),
        agent(3, None, IncarnationState::Retired),
    ];
    let kept: Vec<u128> = active_agents(&agents, true)
        .iter()
        .map(|agent| agent.id.value)
        .collect();
    assert_eq!(kept, vec![1, 2]);
    assert_eq!(active_agents(&agents, false).len(), 3);
}

#[test]
fn a_report_names_live_status_only_when_it_looked() {
    let report = FleetReport {
        generated_at_ms: 5,
        agents: vec![agent(1, None, IncarnationState::Ready)],
        obligations: vec![ReportObligation {
            ask_message_id: MessageId { value: 9 },
            owing_agent_id: LogicalAgentId { value: 1 },
            waiting_agent_id: LogicalAgentId { value: 2 },
            state: ObligationState::Open,
            created_at_ms: 1,
            last_activity_at_ms: 2,
            resolving_message_id: None,
        }],
    };
    let first = |document: &Json| match document.get("agents") {
        Some(Json::List(agents)) => match agents[0].get("incarnations") {
            Some(Json::List(incarnations)) => {
                incarnations[0].text_at("live").map(str::to_string)
            }
            other => panic!("{other:?}"),
        },
        other => panic!("{other:?}"),
    };
    let live = render_report(&report, false, true, Some(6));
    assert_eq!(first(&live).as_deref(), Some("working"));
    let plain = render_report(&report, false, false, None);
    assert_eq!(first(&plain), None);
    assert_eq!(plain.i64_at("generated_at_ms"), Some(5));
}

#[test]
fn a_cycle_counts_active_time() {
    let renew = ReportRenew {
        id: RenewId { value: 1 },
        phase: RenewPhase::Scheduled,
        cycle: 3,
        every_ms: Some(2_700_000),
        scheduled_at_ms: 100,
        active_remaining_ms: Some(50),
    };
    assert_eq!(cycle_due_at_ms(&renew, Some(1_000)), 1_050);
    assert_eq!(cycle_due_at_ms(&renew, None), 150);
    assert_eq!(cycle_due_at_ms(&renew, Some(i64::MAX)), i64::MAX);
    let waiting = ReportRenew {
        phase: RenewPhase::Preparing,
        ..renew
    };
    assert_eq!(cycle_due_at_ms(&waiting, Some(1_000)), 100);
}

#[test]
fn attribution_reports_requested_and_observed_without_merging_them() {
    let session = Json::object()
        .with("agent", Json::text("grok"))
        .with("kind", Json::text("id"))
        .with("value", Json::text("sess-1"));
    let observed = || RecordedObservation {
        recorded_at_ms: 42,
        observed: observe(
            "grok",
            Some(&session),
            &SessionRoots::default(),
            &SessionRead::Missing,
        ),
    };
    let agent = LogicalAgentId { value: 1 };
    let incarnation = IncarnationId { value: 2 };
    let evidence = || AttributionEvidence {
        logical_agent_id: agent,
        incarnation_id: incarnation,
        public_name: "critic".into(),
        backend_kind: "codex".into(),
        incarnation_state: IncarnationState::Declared,
        requested: requested(Some("requested-only")),
        requested_backend_args: vec![],
        latest: Some(observed()),
        observations: vec![observed()],
    };
    let ask = |id: &str, agent_id, incarnation_id| {
        let params = WhoParams {
            incarnation_id,
            agent_id,
            alias: None,
            pane_id: None,
            history: false,
            refresh: false,
            lazy_adopt_key: None,
        };
        match dispatch(Direct::Attribution(&params), id, Ok(0)) {
            Ok(order) => answer_direct(
                id,
                &order,
                Ok(Reply::Evidence {
                    evidence: evidence(),
                    reason: None,
                }),
            ),
            Err(error) => respond(id, Err(error)),
        }
        .document()
    };
    let response = ask("attr-1", None, Some(incarnation));
    let result = response.get("result").expect("result");
    assert_eq!(result.text_at("public_name"), Some("critic"));
    assert_eq!(result.text_at("backend_kind"), Some("codex"));
    // Requested stays in its own object and never becomes observed evidence.
    assert_eq!(
        result.get("requested").expect("requested").text_at("model"),
        Some("requested-only")
    );
    let seen = result.get("observed").expect("observed");
    assert_eq!(seen.text_at("adapter"), Some("grok"));
    let model = seen.get("model").expect("model");
    assert_eq!(model.text_at("status"), Some("undetermined"));
    assert!(model.get("value").is_none());
    match result.get("observations") {
        Some(Json::List(history)) => assert_eq!(history.len(), 1),
        other => panic!("{other:?}"),
    }
    // The same agent id resolves to its newest incarnation.
    let by_agent = ask("attr-2", Some(agent), None);
    assert_eq!(
        by_agent
            .get("result")
            .expect("result")
            .text_at("incarnation_id"),
        result.text_at("incarnation_id")
    );
    // Two selectors are ambiguous and fail closed before any lookup.
    let ambiguous = ask("attr-3", Some(agent), Some(incarnation));
    assert_eq!(ambiguous.text_at("id"), Some("attr-3"));
    let error = ambiguous.get("error").expect("an error");
    assert_eq!(error.text_at("class"), Some("invalid_request"));
}

#[test]
fn outcomes_are_told_in_their_documents() {
    let declared = DeclaredStart {
        logical_agent_id: LogicalAgentId { value: 1 },
        incarnation_id: IncarnationId { value: 2 },
        operation_id: OperationId { value: 3 },
    };
    assert_eq!(adopt_result(declared).text_at("outcome"), Some("succeeded"));
    let launched = launch_result(LaunchResult {
        logical_agent_id: LogicalAgentId { value: 1 },
        incarnation_id: IncarnationId { value: 2 },
        start_operation_id: OperationId { value: 3 },
        start_outcome: OperationOutcome::Succeeded,
        initial_message_id: MessageId { value: 4 },
        initial_message_operation_id: OperationId { value: 5 },
        initial_message_outcome: DeliveryOutcome::Unknown,
    });
    assert_eq!(
        launched
            .get("initial_message")
            .expect("initial")
            .text_at("outcome"),
        Some("unknown")
    );
    let cancelled = cancel_result(CancelOutcome {
        delivered: true,
        message_id: Some(MessageId { value: 1 }),
        owing_delivered: false,
        owing_message_id: None,
    });
    assert_eq!(cancelled.text_at("response"), Some("delivered"));
    let retired = waiter_retire_result(
        LogicalAgentId { value: 1 },
        &WaiterRetireOutcome {
            cancelled_ask_ids: vec![MessageId { value: 1 }],
            owing_notices: vec![WaiterRetireOwingNotice {
                ask_message_id: MessageId { value: 1 },
                message_id: MessageId { value: 2 },
                delivered: false,
            }],
        },
    );
    assert_eq!(retired.bool_at("targeting_ended"), Some(true));
    let notices = operator_notices(&vec![OperatorNotice {
        id: OperatorNoticeId { value: 1 },
        body: "look".into(),
        created_at_ms: 3,
        acknowledged: false,
    }]);
    assert!(matches!(notices, Json::List(ref list) if list.len() == 1));
}

fn delivered() -> DeliveryInfo {
    DeliveryInfo {
        transport: DeliveryTransport::HerdrPrompt,
        outcome: DeliveryOutcome::Accepted,
        attempt_number: 1,
        scheduled_at_ms: None,
        attempted_at_ms: Some(1),
        resolved_at_ms: None,
    }
}

#[test]
fn asks_names_and_pending_answers_are_told() {
    let info = ask_info(&AskInfo {
        ask_message_id: MessageId { value: 1 },
        body: "why".into(),
        asker_agent_id: LogicalAgentId { value: 2 },
        asker_name: "alice".into(),
        responder_agent_id: LogicalAgentId { value: 3 },
        responder_name: "bob".into(),
        state: ObligationState::Open,
        created_at_ms: 1,
        last_activity_at_ms: 2,
        cancellation_reason: None,
        delivery: delivered(),
        replies: vec![],
    });
    assert_eq!(info.text_at("body"), Some("why"));
    let name = name_info(&NameInfo {
        public_name: "bob".into(),
        claimants: vec![Claimant {
            logical_agent_id: LogicalAgentId { value: 3 },
            created_at_ms: 1,
            delivery_transport: DeliveryTransport::SocketInbox,
            has_ready_incarnation: false,
            is_addressable: true,
            unresolved_count: 0,
        }],
        unresolved: vec![],
    });
    match name.get("claimants") {
        Some(Json::List(claimants)) => {
            assert_eq!(claimants[0].bool_at("addressable"), Some(true));
            assert_eq!(claimants[0].bool_at("live"), Some(false));
        }
        other => panic!("{other:?}"),
    }
    let away = |id: u128| CancelledAway {
        ask_message_id: MessageId { value: id },
        reason: "gone".into(),
        cancelled_by: LogicalAgentId { value: 1 },
        cancelled_at_ms: 9,
    };
    match pending(
        &vec![PendingObligation {
            ask_message_id: MessageId { value: 1 },
            waiting_agent_id: LogicalAgentId { value: 2 },
            state: ObligationState::Open,
        }],
        &vec![away(5)],
        &vec![away(6)],
    ) {
        Json::List(entries) => {
            assert_eq!(entries.len(), 3);
            assert_eq!(entries[0].text_at("state"), Some("open"));
            assert_eq!(entries[1].text_at("audience"), Some("waiting"));
            assert_eq!(entries[2].text_at("audience"), Some("owing"));
        }
        other => panic!("{other:?}"),
    }
}
