use kelpie::cli::{AttributionTarget, BodySource, Caller, Command, Due, ExactRecipient, Recipient};
use kelpie::client::{
    build_typed, caller_found, caller_lookup, check_response_line, client_state_dir, end_line,
    fail_if_error, field, handoff_found, handoff_params, method_of, normalize_durable_ids, plan,
    request_id_of, resolve_due, task, validate_command_ids, validate_id, Address, ClientTrace,
    Identity, Lookup, Situation, Supplied, Task,
};
use kelpie::json::Json;

fn situation() -> Situation {
    Situation {
        request_id: "request-1".into(),
        fresh_id: "fresh-1".into(),
        now_ms: Ok(1_000),
        own_pane: Some("w1:p1".into()),
    }
}

fn alice() -> Identity {
    Identity {
        agent: "7".into(),
        incarnation: "8".into(),
        name: "alice".into(),
    }
}

fn tell(recipient: Address, due: Option<Due>) -> Task {
    Task::Tell {
        recipient,
        body: BodySource::Literal("hi".into()),
        sender: None,
        idempotency_key: None,
        due,
        every_ms: None,
    }
}

#[test]
fn durable_ids_are_positive_decimal_integers() {
    assert_eq!(validate_id("agent_id", "12"), Ok(()));
    for bad in ["", "0", "01", "-1", "1a", "18446744073709551616"] {
        assert_eq!(
            validate_id("agent_id", bad),
            Err("agent_id must be a positive decimal integer".to_string()),
            "{bad}"
        );
    }
    assert_eq!(validate_id("agent_id", "18446744073709551615"), Ok(()));
}

#[test]
fn ids_of_a_task_are_checked_in_order() {
    let exact = |agent: &str, incarnation: &str| {
        tell(
            Address::Exact(ExactRecipient {
                recipient: agent.into(),
                incarnation: incarnation.into(),
            }),
            None,
        )
    };
    assert_eq!(validate_command_ids(&exact("1", "2")), Ok(()));
    assert_eq!(
        validate_command_ids(&exact("x", "y")),
        Err("recipient must be a positive decimal integer".to_string())
    );
    assert_eq!(
        validate_command_ids(&exact("1", "y")),
        Err("recipient_incarnation must be a positive decimal integer".to_string())
    );
    assert_eq!(
        validate_command_ids(&Task::AskInfo {
            ask_id: "nope".into()
        }),
        Err("ask_message_id must be a positive decimal integer".to_string())
    );
    assert_eq!(validate_command_ids(&Task::Recover), Ok(()));
}

#[test]
fn a_due_time_is_absolute_or_after_now() {
    assert_eq!(resolve_due(&None, &Ok(5)), Ok(None));
    assert_eq!(resolve_due(&Some(Due::AtMs(9)), &Ok(5)), Ok(Some(9)));
    assert_eq!(resolve_due(&Some(Due::InMs(9)), &Ok(5)), Ok(Some(14)));
    assert_eq!(
        resolve_due(&Some(Due::InMs(i64::MAX)), &Ok(5)),
        Err("--due-in overflowed".to_string())
    );
    assert_eq!(
        resolve_due(&Some(Due::InMs(1)), &Err("no clock".into())),
        Err("no clock".to_string())
    );
}

#[test]
fn the_caller_is_named_or_looked_up() {
    match caller_lookup(Some(&Caller::Id("7".into())), &None, "r").expect("known") {
        Lookup::Known(identity) => {
            assert_eq!(identity.agent, "7");
            assert_eq!(identity.name, "");
        }
        other => panic!("{other:?}"),
    }
    match caller_lookup(None, &Some("w1:p1".into()), "r").expect("by pane") {
        Lookup::Whoami(params) => {
            assert_eq!(params.text_at("pane_id"), Some("w1:p1"));
            assert_eq!(params.text_at("lazy_adopt_key"), Some("r:lazy-adopt:self"));
        }
        other => panic!("{other:?}"),
    }
    let error = caller_lookup(None, &None, "r").expect_err("nobody");
    assert!(error.contains("HERDR_PANE_ID"), "{error}");
    let found = caller_found(
        &Json::object().with(
            "result",
            Json::object()
                .with("logical_agent_id", Json::unsigned(7))
                .with("incarnation_id", Json::text("8"))
                .with("public_name", Json::text("alice")),
        ),
    );
    assert_eq!(found, Ok(alice()));
    let refused = caller_found(
        &Json::object().with("error", Json::object().with("class", Json::text("conflict"))),
    );
    assert_eq!(refused, Err("conflict: whoami failed".to_string()));
    assert_eq!(field(&Json::object().with("n", Json::integer(-3)), "n"), "-3");
    assert_eq!(field(&Json::object(), "n"), "");
}

#[test]
fn a_tell_is_built_from_what_it_needs() {
    let message = tell(Address::Alias("worker".into()), Some(Due::InMs(500)));
    let needs = plan(&message, &situation()).expect("plan");
    assert!(needs.handoff.is_none());
    assert!(needs.caller.is_some());
    assert_eq!(needs.bodies.len(), 1);
    let request = build_typed(
        &message,
        &situation(),
        &Supplied {
            handoff: None,
            caller: Some(alice()),
            bodies: vec!["hi".into()],
        },
    )
    .expect("request");
    assert_eq!(request.method, "tell");
    assert_eq!(request.params.text_at("recipient_alias"), Some("worker"));
    assert_eq!(request.params.text_at("body"), Some("hi"));
    assert_eq!(request.params.i64_at("due_at_ms"), Some(1_500));
    assert_eq!(request.params.text_at("idempotency_key"), Some("fresh-1"));
}

#[test]
fn a_command_is_a_task() {
    let command = Command::Clear {
        recipient: Recipient::Alias("worker".into()),
        idempotency_key: Some("k".into()),
    };
    assert_eq!(
        task(command),
        Task::Clear {
            recipient: Address::Alias("worker".into()),
            idempotency_key: Some("k".into())
        }
    );
    let attribution = Task::Attribution {
        target: AttributionTarget::Alias("worker".into()),
        refresh: false,
    };
    let request = build_typed(
        &attribution,
        &situation(),
        &Supplied {
            handoff: None,
            caller: None,
            bodies: vec![],
        },
    )
    .expect("request");
    assert_eq!(request.method, "attribution");
    assert_eq!(request.params.text_at("alias"), Some("worker"));
}

#[test]
fn ids_are_sent_as_numbers_and_stay_numbers() {
    let given = Json::object()
        .with("sender", Json::text("7"))
        .with("body", Json::text("7"))
        .with("nested", Json::List(vec![Json::object().with("reply_to", Json::text("9"))]));
    let normal = normalize_durable_ids(&given).expect("normal");
    assert_eq!(normal.get("sender"), Some(&Json::unsigned(7)));
    assert_eq!(normal.text_at("body"), Some("7"));
    assert_eq!(normalize_durable_ids(&normal), Ok(normal));
    assert_eq!(
        normalize_durable_ids(&Json::object().with("sender", Json::text("x"))),
        Err("sender must be a positive decimal integer".to_string())
    );
}

#[test]
fn a_handoff_names_one_addressable_incarnation() {
    let params = handoff_params("worker");
    assert_eq!(params.text_at("alias"), Some("worker"));
    let refused = handoff_found("worker", &None, &Json::object()).expect_err("nobody");
    assert!(refused.contains("kelpie who worker --resolve"), "{refused}");
}

#[test]
fn anything_but_success_fails() {
    let result = |name: &str, value: Json| {
        Json::object().with("result", Json::object().with(name, value))
    };
    assert_eq!(
        fail_if_error(&result("delivery_outcome", Json::text("accepted"))),
        Ok(())
    );
    assert_eq!(
        fail_if_error(&result("delivery_outcome", Json::text("unknown"))),
        Err("delivery unknown".to_string())
    );
    let outcome = |text: &str| Json::object().with("outcome", Json::text(text));
    assert_eq!(
        fail_if_error(&result("runtime_start", outcome("failed"))),
        Err("runtime failed".to_string())
    );
    assert_eq!(
        fail_if_error(&result("initial_message", outcome("rejected"))),
        Err("initial message rejected".to_string())
    );
    assert_eq!(
        fail_if_error(&Json::object().with("error", Json::object())),
        Err("request failed".to_string())
    );
    assert_eq!(check_response_line("{}\n"), Ok(()));
    assert!(check_response_line(" \n").is_err());
}

#[test]
fn a_trace_tells_what_was_reached() {
    let request = Json::object()
        .with("id", Json::text("r"))
        .with("method", Json::text("tell"));
    assert_eq!(method_of(&request), "tell");
    assert_eq!(request_id_of(&request), "r");
    let mut trace = ClientTrace::new("r".into(), "tell".into());
    trace.mark("connected", Some(5));
    trace.mark("lost", None);
    let document = trace.document();
    match document.get("marks") {
        Some(Json::List(marks)) => {
            assert_eq!(marks.len(), 1);
            assert_eq!(marks[0].text_at("name"), Some("connected"));
            assert_eq!(marks[0].i64_at("at_ms"), Some(5));
        }
        other => panic!("{other:?}"),
    }
    assert_eq!(
        client_state_dir(&Some("/run/user/1".into()), "/tmp"),
        "/run/user/1/kelpie"
    );
    assert_eq!(client_state_dir(&None, "/tmp"), "/tmp/kelpie-client");
    assert_eq!(end_line(b"x".to_vec()), b"x\n".to_vec());
    assert_eq!(end_line(b"x\n".to_vec()), b"x\n".to_vec());
}
