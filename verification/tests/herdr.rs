use kelpie::herdr::{
    after_write_fault_point, agent_request, agent_result, close_request, lifecycle_result,
    negotiated, ping_request, prompt_request, rename_request, response_result, snapshot_result,
    validate_protocol, AgentObservation, HerdrClient, HerdrError, Snapshot, WaitStep,
    SUPPORTED_PROTOCOL,
};
use kelpie::json::Json;

const MS: u128 = 1_000_000;

fn agent(name: &str) -> AgentObservation {
    AgentObservation {
        terminal_id: "term-1".into(),
        pane_id: "w1:p1".into(),
        name: Some(name.into()),
        agent: None,
        interactive_ready: true,
        launch_pending: false,
        agent_session: None,
    }
}

#[test]
fn waits_for_a_herdr_socket_that_appears_late() {
    let client = HerdrClient::new("/run/herdr.sock", 1_000);
    assert_eq!(
        client.wait_until_present(false, 0, 5_000, 10),
        WaitStep::Sleep(10 * MS)
    );
    assert_eq!(
        client.wait_until_present(false, 140 * MS, 5_000, 10),
        WaitStep::Sleep(10 * MS)
    );
    assert_eq!(
        client.wait_until_present(true, 150 * MS, 5_000, 10),
        WaitStep::Present
    );
}

#[test]
fn waiting_reports_unavailable_when_the_limit_elapses() {
    let client = HerdrClient::new("/run/absent.sock", 1_000);
    let mut elapsed: u128 = 0;
    let error = loop {
        match client.wait_until_present(false, elapsed, 50, 10) {
            WaitStep::Sleep(ns) => elapsed += ns,
            WaitStep::Failed(error) => break error,
            WaitStep::Present => panic!("no socket ever appears"),
        }
    };
    assert_eq!(elapsed, 50 * MS);
    assert!(matches!(error, HerdrError::Unavailable(_)));
    assert_eq!(
        error,
        HerdrError::Unavailable("no Herdr socket at /run/absent.sock after 50ms".into())
    );
}

#[test]
fn a_zero_limit_makes_exactly_one_check() {
    let client = HerdrClient::new("/run/absent.sock", 1_000);
    match client.wait_until_present(false, 0, 0, 30_000) {
        WaitStep::Failed(error) => assert!(matches!(error, HerdrError::Unavailable(_))),
        other => panic!("{other:?}"),
    }
    assert_eq!(
        client.wait_until_present(true, 0, 0, 30_000),
        WaitStep::Present
    );
}

#[test]
fn a_sleep_never_goes_past_the_limit() {
    let client = HerdrClient::new("/run/absent.sock", 1_000);
    assert_eq!(
        client.wait_until_present(false, 45 * MS, 50, 10),
        WaitStep::Sleep(5 * MS)
    );
}

#[test]
fn negotiates_protocol_over_ndjson_socket() {
    let ping = ping_request().document();
    assert_eq!(ping.text_at("method"), Some("ping"));
    assert_eq!(ping.text_at("id"), Some("kelpie:ping"));
    let answer = Json::object().with("id", Json::text("kelpie:ping")).with(
        "result",
        Json::object()
            .with("type", Json::text("pong"))
            .with("version", Json::text("test"))
            .with("protocol", Json::unsigned(20))
            .with("additive", Json::Bool(true)),
    );
    let result = response_result(&answer).expect("a result");
    negotiated(&result).expect("compatible fixture");
}

#[test]
fn closes_a_pane_by_the_pane_id_field_herdr_requires() {
    let request = close_request("kelpie:retire-close:x", "w7:p2").document();
    assert_eq!(request.text_at("method"), Some("pane.close"));
    let params = request.get("params").expect("params");
    assert_eq!(params.text_at("pane_id"), Some("w7:p2"));
    assert!(
        params.get("target").is_none(),
        "pane.close must not carry the agent-target field"
    );
}

#[test]
fn agent_requests_are_keyed_on_their_target() {
    let rename = rename_request("r", "w1:p1", "bob").document();
    assert_eq!(rename.text_at("method"), Some("agent.rename"));
    let params = rename.get("params").expect("params");
    assert_eq!(params.text_at("target"), Some("w1:p1"));
    assert_eq!(params.text_at("name"), Some("bob"));
    let get = agent_request("g", "w1:p1").document();
    assert_eq!(get.text_at("method"), Some("agent.get"));
    let prompt = prompt_request("p", "w1:p1", "hello").document();
    assert_eq!(prompt.text_at("id"), Some("p"));
    assert_eq!(
        prompt.get("params").expect("params").text_at("text"),
        Some("hello")
    );
}

#[test]
fn rejects_protocol_mismatch_explicitly() {
    for actual in [19_u32, 21] {
        assert!(
            matches!(
                validate_protocol(actual),
                Err(HerdrError::Incompatible {
                    actual: got,
                    supported: 20
                }) if got == actual
            ),
            "expected incompatible for protocol {actual}"
        );
    }
}

#[test]
fn negotiate_refuses_protocol_19() {
    let result = Json::object().with("protocol", Json::unsigned(19));
    assert_eq!(
        negotiated(&result),
        Err(HerdrError::Incompatible {
            actual: 19,
            supported: 20
        })
    );
    assert_eq!(
        negotiated(&Json::object()),
        Err(HerdrError::Unexpected("pong without protocol".into()))
    );
    assert_eq!(
        negotiated(&Json::object().with("protocol", Json::unsigned(1 << 32))),
        Err(HerdrError::Unexpected("protocol exceeds u32".into()))
    );
}

#[test]
fn a_rejection_keeps_its_code_and_its_message() {
    let error = Json::object()
        .with("code", Json::text("pane_busy"))
        .with("message", Json::text("busy"));
    assert_eq!(
        response_result(&Json::object().with("error", error)),
        Err(HerdrError::Rejected {
            code: "pane_busy".into(),
            message: "busy".into()
        })
    );
    assert_eq!(
        response_result(&Json::object().with("error", Json::Null)),
        Err(HerdrError::Rejected {
            code: "unknown".into(),
            message: "Herdr rejected request".into()
        })
    );
    assert_eq!(
        response_result(&Json::object()),
        Err(HerdrError::Unexpected("response without result".into()))
    );
}

#[test]
fn results_are_read_or_told_why_not() {
    let with_agent = Json::object().with("agent", Json::object());
    assert_eq!(
        agent_result(&with_agent, Ok(agent("bob"))),
        Ok(agent("bob"))
    );
    assert_eq!(
        agent_result(&with_agent, Err("missing field".into())),
        Err(HerdrError::Malformed("missing field".into()))
    );
    assert_eq!(
        agent_result(&Json::object(), Ok(agent("bob"))),
        Err(HerdrError::Unexpected("agent result without agent".into()))
    );
    let with_snapshot = Json::object().with("snapshot", Json::object());
    let old = Snapshot {
        protocol: 19,
        panes: vec![],
        agents: vec![],
    };
    assert_eq!(
        snapshot_result(&with_snapshot, Ok(old)),
        Err(HerdrError::Incompatible {
            actual: 19,
            supported: SUPPORTED_PROTOCOL
        })
    );
    assert_eq!(
        lifecycle_result(&with_snapshot, Ok((20, vec![]))),
        Ok(vec![])
    );
}

#[test]
fn errors_explain_themselves() {
    assert_eq!(
        HerdrError::Unavailable("refused".into()).message(),
        "Herdr is unavailable: refused"
    );
    let timeout = HerdrError::ReadinessTimeout(1_500).message();
    assert!(timeout.contains("1.5s"), "{timeout}");
}

#[test]
fn only_named_requests_have_a_fault_point() {
    assert_eq!(
        after_write_fault_point("kelpie:ask:1", "agent.prompt"),
        Some("ask_after_write_before_response")
    );
    assert_eq!(
        after_write_fault_point("kelpie:retire-close:1", "pane.close"),
        Some("retire_after_write_before_response")
    );
    assert_eq!(after_write_fault_point("kelpie:ask:1", "agent.get"), None);
    assert_eq!(after_write_fault_point("other", "agent.prompt"), None);
}
