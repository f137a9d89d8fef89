use kelpie::attribution::{
    holds_session, is_named_after, is_session_file, native_session_id, observe, observe_claude,
    observe_codex, observe_detailed, session_lines, session_lookup, ObservedField, OpencodeLookup, RequestedAttribution, SessionLookup,
    SessionRead, SessionRoots, TurnRoot,
};
use kelpie::json::Json;

fn session(id: &str) -> Json {
    Json::object().with("value", Json::text(id))
}

fn reported(value: &str) -> ObservedField {
    ObservedField::Reported(value.into())
}

fn opencode_roots() -> SessionRoots {
    SessionRoots {
        opencode: Some("/home/u/opencode".into()),
        ..SessionRoots::default()
    }
}

fn turn(model: &str, provider: &str) -> OpencodeLookup {
    OpencodeLookup::of_queries(
        Some((Some(model.into()), Some(provider.into()), None)),
        None,
    )
}

#[test]
fn grok_and_empty_sessions_are_undetermined() {
    let roots = SessionRoots::default();
    let grok = observe("grok", None, &roots, &SessionRead::Missing);
    assert_eq!(grok.adapter, "grok");
    assert_eq!(grok.model, ObservedField::Undetermined);
    let empty = observe("codex", None, &roots, &SessionRead::Missing);
    assert_eq!(empty.model, ObservedField::Undetermined);
    let unreadable = observe(
        "turns",
        Some(&session("missing")),
        &roots,
        &SessionRead::Missing,
    );
    assert_eq!(unreadable.model, ObservedField::Undetermined);
}

#[test]
fn requested_json_omission_is_not_undetermined() {
    let requested = RequestedAttribution::default().document();
    assert_eq!(requested, Json::object());
    let observed = ObservedField::Undetermined.document();
    assert_eq!(
        observed,
        Json::object().with("status", Json::text("undetermined"))
    );
}

#[test]
fn opencode_reads_the_store_that_holds_the_session() {
    let (observed, reason) = observe_detailed(
        "opencode",
        Some(&session("ses_1")),
        &opencode_roots(),
        &SessionRead::Stores(vec![
            OpencodeLookup::of_queries(None, Some(0)),
            turn("gpt-5.6-sol", "openai"),
        ]),
    );
    assert_eq!(observed.model, reported("gpt-5.6-sol"));
    assert_eq!(observed.provider, reported("openai"));
    // variant is null, so effort is honestly undetermined rather than guessed.
    assert_eq!(observed.effort, ObservedField::Undetermined);
    assert_eq!(reason, None);
}

#[test]
fn opencode_separates_no_turn_yet_from_no_session() {
    let roots = opencode_roots();
    // Present, but no assistant turn: undetermined, and worth asking again.
    let (observed, reason) = observe_detailed(
        "opencode",
        Some(&session("ses_1")),
        &roots,
        &SessionRead::Stores(vec![OpencodeLookup::of_queries(None, Some(1))]),
    );
    assert_eq!(observed.model, ObservedField::Undetermined);
    assert!(
        reason
            .as_deref()
            .expect("reason")
            .contains("no assistant turn"),
        "{reason:?}"
    );

    // Absent everywhere: also undetermined, but asking again will not help.
    let (_, missing) = observe_detailed(
        "opencode",
        Some(&session("ses_absent")),
        &roots,
        &SessionRead::Stores(vec![OpencodeLookup::of_queries(None, Some(0))]),
    );
    assert!(
        missing.as_deref().expect("reason").contains("not found"),
        "{missing:?}"
    );

    // No session recorded at all is a third, distinct reason.
    let (_, unbound) = observe_detailed("opencode", None, &roots, &SessionRead::Missing);
    assert!(
        unbound
            .as_deref()
            .expect("reason")
            .contains("no native session"),
        "{unbound:?}"
    );
}

#[test]
fn named_adapters_report_only_session_fields() {
    let roots = SessionRoots {
        claude: Some(TurnRoot {
            backend_kind: "turns".into(),
            path: "/home/u/turns".into(),
        }),
        codex: Some("/home/u/codex".into()),
        opencode: Some("/home/u/opencode".into()),
    };
    let turn_lines = "{\"type\":\"assistant\",\"message\":{\"model\":\"opus\",\"provider\":\"maker\"}}\n";
    let turns = observe(
        "turns",
        Some(&session("sess-1")),
        &roots,
        &SessionRead::Text(turn_lines.into()),
    );
    assert_eq!(turns.model, reported("opus"));
    assert_eq!(turns.provider, reported("maker"));
    let codex_lines = "{\"type\":\"session_meta\",\"payload\":{\"session_id\":\"codex-1\",\"model\":\"o3\",\"model_provider\":\"openai\",\"effort\":\"high\"}}\n";
    let codex = observe(
        "codex",
        Some(&session("codex-1").with("kind", Json::text("id"))),
        &roots,
        &SessionRead::Text(codex_lines.into()),
    );
    assert_eq!(codex.model, reported("o3"));
    assert_eq!(codex.provider, reported("openai"));
    assert_eq!(codex.effort, reported("high"));
    let opencode = observe(
        "opencode",
        Some(&session("ses_1")),
        &roots,
        &SessionRead::Stores(vec![turn("opencode-model", "opencode")]),
    );
    assert_eq!(opencode.model, reported("opencode-model"));
    let requested = RequestedAttribution {
        model: Some("ignored".into()),
        provider: None,
        effort: None,
    };
    let grok = observe(
        "grok",
        Some(&session("sess-1")),
        &roots,
        &SessionRead::Missing,
    );
    assert_eq!(grok.model, ObservedField::Undetermined);
    assert_ne!(
        requested.document().get("model"),
        Some(&grok.model.document())
    );
}

#[test]
fn another_adapter_is_never_read_as_turns() {
    let roots = SessionRoots::from_home(&Some("/home/u".into()), "codex");
    match session_lookup("codex", Some(&session("codex-1")), &roots) {
        SessionLookup::Codex { session_id, root } => {
            assert_eq!(session_id, "codex-1");
            assert_eq!(root, "/home/u/.codex/sessions");
        }
        other => panic!("{other:?}"),
    }
}

#[test]
fn session_files_are_found_by_name_or_by_content() {
    assert!(is_named_after(Some("sess-1"), Some("jsonl"), "sess-1"));
    assert!(!is_named_after(Some("sess-1"), Some("json"), "sess-1"));
    assert!(!is_named_after(Some("sess-2"), Some("jsonl"), "sess-1"));
    assert!(!is_named_after(None, Some("jsonl"), "sess-1"));
    assert!(is_session_file(Some("jsonl")));
    assert!(!is_session_file(None));
    assert!(holds_session("{\"session_id\":\"codex-1\"}", "codex-1"));
    assert!(!holds_session("{}", "codex-1"));
}

#[test]
fn a_session_is_looked_up_where_its_backend_keeps_it() {
    let roots = SessionRoots::from_home(&Some("/home/u".into()), "turns");
    let id = session("  sess-1 ");
    match session_lookup("turns", Some(&id), &roots) {
        SessionLookup::Claude { session_id, root } => {
            assert_eq!(session_id, "sess-1");
            assert_eq!(root, "/home/u/.turns/projects");
        }
        other => panic!("{other:?}"),
    }
    match session_lookup("codex", Some(&id), &roots) {
        SessionLookup::Codex { root, .. } => assert_eq!(root, "/home/u/.codex/sessions"),
        other => panic!("{other:?}"),
    }
    match session_lookup("opencode", Some(&id), &roots) {
        SessionLookup::Opencode { root, .. } => assert_eq!(root, "/home/u/.local/share/opencode"),
        other => panic!("{other:?}"),
    }
    assert_eq!(
        session_lookup("grok", Some(&id), &roots),
        SessionLookup::Nothing
    );
    assert_eq!(session_lookup("turns", None, &roots), SessionLookup::Nothing);
    assert_eq!(SessionRoots::from_home(&None, "turns"), SessionRoots::default());
    assert_eq!(native_session_id(Some(&session("s"))), Some("s".to_string()));
    assert_eq!(native_session_id(Some(&session(" "))), None);
    assert_eq!(native_session_id(None), None);
}

#[test]
fn lines_that_are_no_documents_are_passed_over() {
    let text = "{\"type\":\"assistant\",\"message\":{\"model\":\"old\"}}\r\nnot json\n{\"type\":\"user\"}\n\n";
    let lines = session_lines(text);
    assert_eq!(lines.len(), 4);
    assert!(lines[0].is_some());
    assert_eq!(lines[1], None);
    assert!(lines[2].is_some());
    assert_eq!(lines[3], None);
    assert_eq!(observe_claude("turns", &lines).model, reported("old"));
    assert_eq!(observe_codex(&lines).model, ObservedField::Undetermined);
}
