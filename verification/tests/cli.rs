use kelpie::cli::receipt::format_receipt;
use kelpie::cli::time::{format_utc_ms, parse_utc_rfc3339_ms};
use kelpie::cli::{
    attribution_params, body_read, generated_id, message_params, parse_message_command, read_body,
    AttributionTarget, BodyRead, BodySource, Command, Due, ExactRecipient, Invocation, Recipient,
    StartCommand, StartParent, Surroundings,
};
use kelpie::json::Json;
use kelpie::json_text::parse_json;

fn args(items: &[&str]) -> Vec<String> {
    items.iter().map(|item| (*item).to_string()).collect()
}

fn parse_invocation(items: &[String]) -> Result<Invocation, String> {
    let surroundings = Surroundings {
        own_pane: None,
        default_socket: "/run/user/1000/kelpie/live.sock".into(),
        present: vec![],
    };
    kelpie::cli::parse_invocation(items, &surroundings)
}

/// The document of a text in which every mark is replaced.
fn document(text: &str, marks: &[(&str, String)]) -> Json {
    let mut text = text.to_string();
    for (mark, value) in marks {
        text = text.replace(mark, value);
    }
    parse_json(&text).expect("a document")
}

#[test]
fn typed_tell_defaults_to_runtime_socket() {
    let invocation = parse_invocation(&args(&["tell", "quorum", "--stdin"])).expect("parse");
    match invocation {
        Invocation::Typed {
            json: false,
            command: Command::Tell {
                recipient, body, ..
            },
            ..
        } => {
            assert_eq!(recipient, Recipient::Alias("quorum".into()));
            assert_eq!(body, BodySource::Stdin);
        }
        other => panic!("{other:?}"),
    }
}

/// The mistake this refusal exists for: one suffix short of the intended
/// name armed a live policy on a maintainer session.
///
/// Every other verb takes an alias because a wrong one costs a misdelivered
/// message. A renew aimed at the wrong agent clears its conversation once a
/// cycle, so the alias is not offered at all.
#[test]
fn renew_refuses_an_alias_and_says_what_to_use_instead() {
    let error = parse_invocation(&args(&[
        "renew",
        "divine-work",
        "--prepare-prompt",
        "checkpoint",
        "--prompt",
        "resume",
        "--on-timeout",
        "abort",
    ]))
    .expect_err("an alias may resolve to somebody else");
    assert!(error.contains("divine-work"), "{error}");
    assert!(
        error.contains("clears its conversation every cycle"),
        "the refusal says what it is protecting: {error}"
    );
    assert!(
        error.contains("--recipient-id"),
        "and how to target another agent deliberately: {error}"
    );
}

/// No recipient means the caller, which is what makes the re-arm probe safe.
///
/// The duplicate refusal is scoped per incarnation, so it only protects a
/// caller aiming at itself. Defaulting to self makes that true by
/// construction rather than by the caller aiming correctly.
#[test]
fn name_info_takes_one_positional_alias() {
    match parse_invocation(&args(&["name-info", "divine-work"])).expect("parse") {
        Invocation::Typed {
            command: Command::NameInfo { name },
            ..
        } => assert_eq!(name, "divine-work"),
        other => panic!("{other:?}"),
    }
}

#[test]
fn renew_with_no_recipient_targets_the_caller() {
    let invocation = parse_invocation(&args(&[
        "renew",
        "--prepare-prompt",
        "checkpoint",
        "--prompt",
        "resume",
        "--on-timeout",
        "abort",
        "--every",
        "45m",
    ]))
    .expect("parse");
    match invocation {
        Invocation::Typed {
            command: Command::Renew(renew),
            ..
        } => {
            assert_eq!(renew.recipient, None, "no target means the caller");
            assert_eq!(renew.every_ms, Some(45 * 60 * 1_000));
        }
        other => panic!("{other:?}"),
    }
}

#[test]
fn renew_still_takes_a_deliberate_exact_target() {
    let invocation = parse_invocation(&args(&[
        "renew",
        "--recipient-id",
        "agent-1",
        "--recipient-incarnation",
        "inc-1",
        "--prepare-prompt",
        "checkpoint",
        "--prompt",
        "resume",
        "--on-timeout",
        "abort",
    ]))
    .expect("parse");
    match invocation {
        Invocation::Typed {
            command: Command::Renew(renew),
            ..
        } => {
            let exact = renew.recipient.expect("exact target");
            assert_eq!(exact.recipient, "agent-1");
            assert_eq!(exact.incarnation, "inc-1");
        }
        other => panic!("{other:?}"),
    }
}

/// Half an exact target is the shape most likely to be a typo.
#[test]
fn renew_refuses_half_an_exact_target() {
    let error = parse_invocation(&args(&[
        "renew",
        "--recipient-id",
        "agent-1",
        "--prepare-prompt",
        "checkpoint",
        "--prompt",
        "resume",
        "--on-timeout",
        "abort",
    ]))
    .expect_err("an incarnation is required with an agent id");
    assert!(error.contains("--recipient-incarnation"), "{error}");
}

#[test]
fn renew_cancel_requires_a_stated_reason() {
    let error = parse_invocation(&args(&["renew-cancel", "renew-1"]))
        .expect_err("a policy that ends silently is the thing being fixed");
    assert!(error.contains("--reason"), "{error}");

    let invocation = parse_invocation(&args(&[
        "renew-cancel",
        "renew-1",
        "--reason",
        "wrong agent",
    ]))
    .expect("parse");
    match invocation {
        Invocation::Typed {
            command:
                Command::RenewCancel {
                    renew_id, reason, ..
                },
            ..
        } => {
            assert_eq!(renew_id, "renew-1");
            assert_eq!(reason, "wrong agent");
        }
        other => panic!("{other:?}"),
    }
}

#[test]
fn typed_clear_uses_the_message_recipient_shapes() {
    let alias = parse_invocation(&args(&["clear", "worker"])).expect("alias");
    assert!(matches!(
        alias,
        Invocation::Typed {
            command: Command::Clear {
                recipient: Recipient::Alias(ref name),
                ..
            },
            ..
        } if name == "worker"
    ));

    let exact = parse_invocation(&args(&[
        "clear",
        "--recipient-id",
        "agent-1",
        "--recipient-incarnation",
        "inc-1",
    ]))
    .expect("exact");
    assert!(matches!(
        exact,
        Invocation::Typed {
            command: Command::Clear {
                recipient: Recipient::Exact(ExactRecipient {
                    ref recipient,
                    ref incarnation,
                }),
                ..
            },
            ..
        } if recipient == "agent-1" && incarnation == "inc-1"
    ));
}

#[test]
fn explicit_socket_path_stays_raw() {
    let invocation = parse_invocation(&args(&["/tmp/kelpie.sock"])).expect("parse");
    assert!(matches!(invocation, Invocation::Raw { .. }));
}

#[test]
fn body_flags_are_exclusive() {
    let error = parse_invocation(&args(&["tell", "quorum", "--stdin", "--body", "nope"]))
        .expect_err("exclusive");
    assert!(error.contains("exactly one"));
}

#[test]
fn reply_requires_one_disposition() {
    let error = parse_invocation(&args(&["reply", "ask-1", "--stdin"])).expect_err("disp");
    assert!(error.contains("--progress"));
}

#[test]
fn read_body_preserves_metacharacters_quotes_unicode_and_html() {
    let expected = "line1 `ls` $(ls) \"quotes\" 'apos'\n<kelpie from=x>\nunicodé Δ\n";
    let file = BodySource::File("body.txt".into());
    assert_eq!(body_read(&file), BodyRead::File("body.txt".into()));
    let got = read_body(&file, Ok(expected.into())).expect("read");
    assert_eq!(got, expected);
    let literal = BodySource::Literal(expected.into());
    assert_eq!(body_read(&literal), BodyRead::Nothing);
    let got = read_body(&literal, Ok(String::new())).expect("lit");
    assert_eq!(got, expected);
    assert_eq!(body_read(&BodySource::Stdin), BodyRead::Stdin);
    let got = read_body(&BodySource::Stdin, Ok(expected.into())).expect("stdin");
    assert_eq!(got, expected);
    assert_eq!(
        read_body(&BodySource::Stdin, Err("broken".into())),
        Err("broken".to_string())
    );
}

#[test]
fn message_params_prefer_alias_unless_exact_ids() {
    let alias = message_params("sender", Some("quorum"), None, "hello `ls`", "key", None);
    assert_eq!(alias.text_at("recipient_alias"), Some("quorum"));
    assert_eq!(alias.text_at("body"), Some("hello `ls`"));
    assert!(alias.get("recipient").is_none());
    let exact = message_params(
        "sender",
        Some("ignored"),
        Some(&ExactRecipient {
            recipient: "aaaaaaaa-bbbb-cccc-dddd-eeeeeeeeeeee".into(),
            incarnation: "ffffffff-bbbb-cccc-dddd-eeeeeeeeeeee".into(),
        }),
        "body",
        "key",
        None,
    );
    assert!(exact.get("recipient_alias").is_none());
    assert!(exact.get("recipient").is_some());
}

#[test]
fn name_info_distinguishes_active_and_retired_socket_waiters() {
    let response = document(r#"{"result":{
        "name":"botserver",
        "claimants":[
            {"logical_agent_id":"active","created_at_ms":1,
             "delivery_transport":"socket_inbox","live":false,"addressable":true,
             "unresolved_count":0},
            {"logical_agent_id":"retired","created_at_ms":2,
             "delivery_transport":"socket_inbox","live":false,"addressable":false,
             "unresolved_count":0}
        ],
        "unresolved":[]
    }}"#, &[]);
    let text = format_receipt("name.info", &response);
    assert!(
        text.contains("active-waiter transport=socket_inbox"),
        "{text}"
    );
    assert!(
        text.contains("retired-waiter transport=socket_inbox"),
        "{text}"
    );
    assert!(!text.contains("active created=1970-01-01T00:00:00.001Z not-live"));
}

#[test]
fn generated_ids_are_unique() {
    assert_ne!(generated_id(), generated_id());
}

#[test]
fn the_report_explains_itself_to_a_reader_with_no_prior_context() {
    let now = parse_utc_rfc3339_ms("2026-08-16T00:00:00Z").expect("parse");
    let report = document(r#"{"result":{
        "generated_at_ms": @1,
        "live_snapshot_at_ms": @1,
        "alias_collisions": {"critic": ["a", "b"]},
        "agents": [
            {"agent_id":"parent-id","public_name":"coordinator",
             "parent_agent_id":null,"explicitly_parentless":true,"created_at_ms":0,
             "incarnations":[{"incarnation_id":"i1","state":"ready",
                "backend_kind":"opencode","live":"idle"}]},
            {"agent_id":"child-id","public_name":"critic",
             "parent_agent_id":"parent-id","explicitly_parentless":false,
             "created_at_ms":0,
             "incarnations":[{"incarnation_id":"i2","state":"ready",
                "backend_kind":"codex","live":"working"}]}
        ],
        "obligations": [
            {"ask_message_id":"ask-1","owing_agent_id":"child-id",
             "waiting_agent_id":"parent-id","state":"open",
             "created_at_ms": @0}
        ]
    }}"#, &[("@0", (now - 5_400_000).to_string()), ("@1", (now).to_string())]);
    let text = format_receipt("report", &report);

    // It says what it is and what the shape means.
    assert!(text.contains("nested under"), "{text}");
    assert!(text.contains("started by the line above"), "{text}");
    // Each fact is attributed to the authority that owns it.
    assert!(text.contains("kelpie=ready"), "{text}");
    assert!(text.contains("herdr=working"), "{text}");
    // Parentage is drawn, not inferred from whitespace.
    assert!(text.contains("└─ critic"), "{text}");
    // Durations are read, not converted.
    assert!(text.contains("unanswered-for=1h30m"), "{text}");
    assert!(!text.contains("open-ms="), "{text}");
    // Epoch milliseconds never reach the reader.
    assert!(text.contains("generated=2026-08-16T00:00:00Z"), "{text}");
    // Reusable names are a footnote, after the tree, and explained.
    let collisions = text.find("critic agents=2").expect("collision line");
    assert!(
        collisions > text.find("└─ critic").expect("tree"),
        "{text}"
    );
    assert!(text.contains("history, not a fault"), "{text}");
}

#[test]
fn agents_that_started_each_other_are_shown_once() {
    let report = document(r#"{"result":{
        "generated_at_ms": 0,
        "agents": [
            {"agent_id":"a","public_name":"first","parent_agent_id":"b","created_at_ms":1,
             "incarnations":[]},
            {"agent_id":"b","public_name":"second","parent_agent_id":"a","created_at_ms":2,
             "incarnations":[]},
            {"agent_id":"c","public_name":"root","parent_agent_id":null,"created_at_ms":3,
             "incarnations":[]},
            {"agent_id":"d","public_name":"own","parent_agent_id":"d","created_at_ms":4,
             "incarnations":[]}
        ],
        "obligations": []
    }}"#, &[]);
    let text = format_receipt("report", &report);
    for line in ["first agent=a", "second agent=b", "root agent=c", "own agent=d"] {
        assert_eq!(text.matches(line).count(), 1, "{text}");
    }
    assert!(
        text.find("root agent=c").expect("root") < text.find("first agent=a").expect("first"),
        "{text}"
    );
    assert!(text.contains("└─ second"), "{text}");
}

#[test]
fn conversation_age_is_reported_only_when_it_was_actually_observed() {
    let now = parse_utc_rfc3339_ms("2026-08-16T00:00:00Z").expect("parse");
    let report = document(r#"{"result":{
        "generated_at_ms": @2,
        "agents": [
            {"agent_id":"measured-id","public_name":"measured",
             "parent_agent_id":null,"explicitly_parentless":true,"created_at_ms":0,
             "incarnations":[{"incarnation_id":"i1","state":"ready",
                "backend_kind":"codex","created_at_ms": @1,
                "native_session_rotated_at_ms": @0}]},
            {"agent_id":"unseen-id","public_name":"unseen",
             "parent_agent_id":null,"explicitly_parentless":true,"created_at_ms":0,
             "incarnations":[{"incarnation_id":"i2","state":"ready",
                "backend_kind":"codex","created_at_ms": @1,
                "native_session_rotated_at_ms": null}]}
        ],
        "obligations": []
    }}"#, &[("@0", (now - 5_400_000).to_string()), ("@1", (now - 259_200_000).to_string()), ("@2", (now).to_string())]);
    let text = format_receipt("report", &report);

    assert!(text.contains("conversation=1h30m"), "{text}");
    // The agent has been bound for three days and its context is 90 minutes
    // old. Reporting 3d here is the exact wrong answer this measurement
    // exists to avoid, so an unobserved start says so instead.
    assert!(text.contains("conversation=unknown"), "{text}");
    assert!(!text.contains("conversation=3d0h"), "{text}");
    // The legend has to distinguish the two ages, or the number is a trap.
    assert!(text.contains("not the agent's age"), "{text}");
}

/// An armed root and an unarmed one must not read the same.
///
/// A policy ends when its incarnation stops being Ready, and an agent
/// adopted back afterwards looks identical in every other field.
#[test]
fn report_distinguishes_an_armed_root_from_an_unarmed_one() {
    let now = parse_utc_rfc3339_ms("2026-08-23T00:00:00Z").expect("parse");
    let report = document(r#"{"result":{
        "generated_at_ms": @3,
        "agents": [
            {"agent_id":"armed-id","public_name":"armed",
             "parent_agent_id":null,"explicitly_parentless":true,"created_at_ms":0,
             "incarnations":[{"incarnation_id":"i1","state":"ready",
                "backend_kind":"opencode","created_at_ms": @0,
                "native_session_rotated_at_ms": @1,
                "renew":{"renew_id":"r1","phase":"scheduled","cycle":97,
                         "every_ms":2700000,
                         "cycle_due_at_ms": @2}}]},
            {"agent_id":"bare-id","public_name":"unarmed",
             "parent_agent_id":null,"explicitly_parentless":true,"created_at_ms":0,
             "incarnations":[{"incarnation_id":"i2","state":"ready",
                "backend_kind":"opencode","created_at_ms": @0,
                "native_session_rotated_at_ms": @1,
                "renew": null}]}
        ],
        "obligations": []
    }}"#, &[("@0", (now - 3_600_000).to_string()), ("@1", (now - 600_000).to_string()), ("@2", (now + 900_000).to_string()), ("@3", (now).to_string())]);
    let text = format_receipt("report", &report);

    // Exact, not a prefix. `contains("every=45m")` also passes on the
    // `45m0s` this actually renders, which is how the documented example
    // drifted from the real output without a test noticing.
    assert!(
        text.contains("renew=scheduled cycle=97 every=45m0s next-in=15m0s"),
        "{text}"
    );
    // The unarmed root says nothing about renew, and that silence is the
    // signal: it is the only Ready row without one.
    let unarmed = text
        .lines()
        .find(|line| line.contains("unarmed"))
        .expect("unarmed row");
    assert!(!unarmed.contains("renew="), "{unarmed}");
}

#[test]
fn ask_refuses_a_due_time_and_says_what_to_use_instead() {
    // A worker wrote `ask ... --due-in 45m` meaning "check back later" and
    // got the opposite: the work was withheld for 45 minutes while the
    // obligation existed unseen. The flag is gone from ask.
    for flag in [
        vec!["ask", "critic", "--body", "x", "--due-in", "45m"],
        vec![
            "ask",
            "critic",
            "--body",
            "x",
            "--due-at",
            "2026-08-15T23:35:08Z",
        ],
        vec![
            "ask",
            "critic",
            "--body",
            "x",
            "--due-at-ms",
            "1786800908000",
        ],
    ] {
        let args: Vec<String> = flag.iter().map(|value| (*value).to_string()).collect();
        let error = parse_message_command(&args).expect_err("ask refuses a due time");
        assert!(error.contains("--remind-after-ms"), "{error}");
        assert!(error.contains("tell"), "{error}");
    }
    // tell keeps it: no obligation, so a delayed tell is just a later message.
    let args: Vec<String> = ["tell", "coordinator", "--body", "x", "--due-in", "45m"]
        .iter()
        .map(|value| (*value).to_string())
        .collect();
    parse_message_command(&args).expect("tell still schedules");
}

#[test]
fn a_queued_delivery_receipt_cannot_be_skimmed_as_a_dispatch() {
    // A worker read `delivery=queued due=<epoch>` as successful dispatch and
    // two children sat idle for 45 minutes. The receipt now says so in words.
    // Derive the epoch from the parser rather than inventing a constant.
    let due_at = parse_utc_rfc3339_ms("2026-08-15T23:35:08Z").expect("parse");
    let text = format_receipt(
        "ask",
        &document(r#"{"result":{
            "message_id":"m","operation_id":"o","recipient":"r",
            "delivery_outcome":"queued","due_at_ms":@0
        }}"#, &[("@0", (due_at).to_string())]),
    );
    assert!(text.contains("delivery=queued"), "{text}");
    assert!(
        text.contains("NOT-SENT-UNTIL=2026-08-15T23:35:08Z"),
        "{text}"
    );
    assert!(text.contains(&format!("due-at-ms={due_at}")), "{text}");
}

#[test]
fn utc_rendering_round_trips_the_due_at_parser() {
    for stamp in [
        "2026-08-15T23:35:08Z",
        "1970-01-01T00:00:00Z",
        "2000-02-29T12:00:00Z",
        "2100-12-31T23:59:59Z",
    ] {
        let ms = parse_utc_rfc3339_ms(stamp).expect("parse");
        assert_eq!(format_utc_ms(ms), stamp);
    }
}

#[test]
fn receipt_does_not_hide_errors() {
    let text = format_receipt(
        "tell",
        &document(r#"{"id":"1","error":{"class":"unknown_outcome","message":"ambiguous"}}"#, &[]),
    );
    assert!(text.contains("unknown_outcome"));
    assert!(text.contains("ambiguous"));
}

#[test]
fn cancel_receipt_names_both_audiences() {
    let text = format_receipt(
        "cancel",
        &document(r#"{"result":{
            "state":"cancelled",
            "response":"delivered",
            "message_id":"ask-notice",
            "owing_response":"recorded",
            "owing_message_id":"owing-notice"
        }}"#, &[]),
    );
    assert!(text.contains("response=delivered"), "{text}");
    assert!(text.contains("owing-response=recorded"), "{text}");
    assert!(text.contains("owing-message=owing-notice"), "{text}");
}

#[test]
fn waiter_retire_receipt_joins_ids_and_counts_owing_notices() {
    let text = format_receipt(
        "waiter.retire",
        &document(r#"{"result":{
            "logical_agent_id":"waiter-1",
            "targeting_ended":true,
            "cancelled_ask_ids":["ask-a","ask-b"],
            "owing_notices":[
                {"ask_message_id":"ask-a","message_id":"n1","owing_response":"delivered"},
                {"ask_message_id":"ask-b","message_id":"n2","owing_response":"recorded"}
            ]
        }}"#, &[]),
    );
    assert!(text.contains("cancelled-asks=ask-a,ask-b"), "{text}");
    assert!(text.contains("owing-delivered=1"), "{text}");
    assert!(text.contains("owing-recorded=1"), "{text}");
    let empty = format_receipt(
        "waiter.retire",
        &document(r#"{"result":{
            "logical_agent_id":"waiter-1",
            "targeting_ended":true,
            "cancelled_ask_ids":[],
            "owing_notices":[]
        }}"#, &[]),
    );
    assert!(empty.contains("cancelled-asks=none"), "{empty}");
    assert!(empty.contains("owing-delivered=0"), "{empty}");
}

#[test]
fn tell_accepts_exact_ids_without_alias() {
    let invocation = parse_invocation(&args(&[
        "tell",
        "--recipient-id",
        "aaaaaaaa-bbbb-7ccc-dddd-eeeeeeeeeeee",
        "--recipient-incarnation",
        "ffffffff-bbbb-7ccc-dddd-eeeeeeeeeeee",
        "--stdin",
    ]))
    .expect("parse");
    match invocation {
        Invocation::Typed {
            command: Command::Tell { recipient, .. },
            ..
        } => {
            assert_eq!(
                recipient,
                Recipient::Exact(ExactRecipient {
                    recipient: "aaaaaaaa-bbbb-7ccc-dddd-eeeeeeeeeeee".into(),
                    incarnation: "ffffffff-bbbb-7ccc-dddd-eeeeeeeeeeee".into(),
                })
            );
        }
        other => panic!("{other:?}"),
    }
}

#[test]
fn tell_rejects_mixed_alias_and_exact_ids() {
    let error = parse_invocation(&args(&[
        "tell",
        "quorum",
        "--recipient-id",
        "aaaaaaaa-bbbb-7ccc-dddd-eeeeeeeeeeee",
        "--recipient-incarnation",
        "ffffffff-bbbb-7ccc-dddd-eeeeeeeeeeee",
        "--stdin",
    ]))
    .expect_err("mixed");
    assert!(error.contains("exactly one"), "{error}");
}

#[test]
fn tell_accepts_due_at_ms() {
    let invocation = parse_invocation(&args(&[
        "tell",
        "quorum",
        "--due-at-ms",
        "1770000000000",
        "--stdin",
    ]))
    .expect("parse");
    match invocation {
        Invocation::Typed {
            command: Command::Tell { due, .. },
            ..
        } => assert_eq!(due, Some(Due::AtMs(1_770_000_000_000))),
        other => panic!("{other:?}"),
    }
    let error = parse_invocation(&args(&["tell", "quorum", "--due-at-ms", "-1", "--stdin"]))
        .expect_err("negative");
    assert!(error.contains("non-negative"), "{error}");
}

fn parsed_due(args_in: &[&str]) -> Due {
    match parse_invocation(&args(args_in)).expect("parse") {
        Invocation::Typed {
            command: Command::Tell { due, .. },
            ..
        } => due.expect("a due time"),
        other => panic!("{other:?}"),
    }
}

#[test]
fn due_in_is_a_relative_offset_and_due_at_is_absolute() {
    assert_eq!(
        parsed_due(&["tell", "quorum", "--due-in", "10m", "--stdin"]),
        Due::InMs(600_000)
    );
    assert_eq!(
        parsed_due(&["tell", "quorum", "--due-in", "2h", "--stdin"]),
        Due::InMs(7_200_000)
    );
    assert_eq!(
        parsed_due(&["tell", "quorum", "--due-in", "1d", "--stdin"]),
        Due::InMs(86_400_000)
    );
    // The epoch itself, and a date past a leap day, both land exactly.
    assert_eq!(
        parsed_due(&[
            "tell",
            "quorum",
            "--due-at",
            "1970-01-01T00:00:00Z",
            "--stdin"
        ]),
        Due::AtMs(0)
    );
    assert_eq!(
        parsed_due(&[
            "tell",
            "quorum",
            "--due-at",
            "2026-08-12T20:00:00Z",
            "--stdin"
        ]),
        Due::AtMs(1_786_564_800_000)
    );
    assert_eq!(
        parsed_due(&[
            "tell",
            "quorum",
            "--due-at",
            "2024-03-01T00:00:00+00:00",
            "--stdin"
        ]),
        Due::AtMs(1_709_251_200_000)
    );
}

#[test]
fn due_flags_fail_loudly_rather_than_at_the_wrong_time() {
    let cases = [
        (vec!["--due-in", "10x"], "unit must be"),
        (vec!["--due-in", "soon"], "must look like"),
        (vec!["--due-in", "0m"], "positive"),
        (vec!["--due-at", "2026-08-12 20:00:00Z"], "RFC3339"),
        (vec!["--due-at", "2026-08-12T20:00:00"], "ending in Z"),
        (vec!["--due-at", "2026-08-12T20:00:00-03:00"], "ending in Z"),
        (vec!["--due-at", "2026-13-12T20:00:00Z"], "date is invalid"),
        (vec!["--due-at", "2026-08-12T25:00:00Z"], "time is invalid"),
    ];
    for (flags, expected) in cases {
        let mut argv = vec!["tell", "quorum"];
        argv.extend(flags.iter().copied());
        argv.push("--stdin");
        let error = parse_invocation(&args(&argv)).expect_err("rejected");
        assert!(error.contains(expected), "{argv:?} gave {error}");
    }
    // Only one form at a time; two would be an ambiguous instruction.
    let conflict = parse_invocation(&args(&[
        "tell",
        "quorum",
        "--due-in",
        "10m",
        "--due-at-ms",
        "1770000000000",
        "--stdin",
    ]))
    .expect_err("two forms");
    assert!(conflict.contains("only one of"), "{conflict}");
}

#[test]
fn tell_rejects_unknown_duplicate_and_extra_tokens() {
    let unknown = parse_invocation(&args(&["tell", "quorum", "--stdin", "--quiet"]))
        .expect_err("unknown");
    assert!(unknown.contains("unknown argument"), "{unknown}");
    let duplicate =
        parse_invocation(&args(&["tell", "quorum", "--stdin", "--stdin"])).expect_err("dup");
    assert!(duplicate.contains("more than once"), "{duplicate}");
    let extra =
        parse_invocation(&args(&["tell", "quorum", "spare", "--stdin"])).expect_err("extra");
    assert!(extra.contains("unexpected argument"), "{extra}");
    let incomplete = parse_invocation(&args(&[
        "tell",
        "--recipient-id",
        "aaaaaaaa-bbbb-7ccc-dddd-eeeeeeeeeeee",
        "--stdin",
    ]))
    .expect_err("incomplete");
    assert!(incomplete.contains("exactly one"), "{incomplete}");
}

#[test]
fn pending_and_whoami_reject_multiple_target_forms() {
    let pending =
        parse_invocation(&args(&["pending", "alice", "--pane", "w1:p1"])).expect_err("pending");
    assert!(pending.contains("only one target form"), "{pending}");
    let whoami =
        parse_invocation(&args(&["whoami", "alice", "--sender", "bob"])).expect_err("whoami");
    assert!(whoami.contains("only one target form"), "{whoami}");
    let whoami_id =
        parse_invocation(&args(&["whoami", "--sender-id", "agent-1"])).expect_err("whoami id");
    assert!(whoami_id.contains("--sender-id"), "{whoami_id}");
}

#[test]
fn attribution_accepts_exactly_one_target_form() {
    let by_incarnation =
        parse_invocation(&args(&["attribution", "--incarnation-id", "inc-1"])).expect("parse");
    match by_incarnation {
        Invocation::Typed {
            command: Command::Attribution { target, .. },
            ..
        } => assert_eq!(target, AttributionTarget::Incarnation("inc-1".into())),
        other => panic!("{other:?}"),
    }
    let by_alias = parse_invocation(&args(&["attribution", "critic"])).expect("parse");
    match by_alias {
        Invocation::Typed {
            command: Command::Attribution { target, .. },
            ..
        } => assert_eq!(target, AttributionTarget::Alias("critic".into())),
        other => panic!("{other:?}"),
    }
    assert_eq!(
        attribution_params(&AttributionTarget::Agent("agent-1".into())),
        document(r#"{"agent_id": "agent-1"}"#, &[])
    );
    let conflicting =
        parse_invocation(&args(&["attribution", "critic", "--agent-id", "agent-1"]))
            .expect_err("two targets");
    assert!(conflicting.contains("exactly one target"), "{conflicting}");
    assert!(parse_invocation(&args(&["attribution", "--agent-id"])).is_err());
    assert!(parse_invocation(&args(&["attribution", "--nope", "x"])).is_err());
}

#[test]
fn attribution_receipt_keeps_requested_and_observed_apart() {
    let reported = format_receipt(
        "attribution",
        &document(r#"{"result": {
            "public_name": "critic",
            "logical_agent_id": "agent-1",
            "incarnation_id": "inc-1",
            "backend_kind": "codex",
            "incarnation_state": "ready",
            "requested": {"model": "requested-only"},
            "observed": {
                "recorded_at_ms": 42,
                "adapter": "codex",
                "model": {"status": "reported", "value": "o3"},
                "provider": {"status": "reported", "value": "openai"},
                "effort": {"status": "undetermined"}
            }
        }}"#, &[]),
    );
    assert!(
        reported.contains("requested model=requested-only"),
        "{reported}"
    );
    assert!(
        reported
            .contains("observed adapter=codex model=o3 provider=openai effort=undetermined"),
        "{reported}"
    );
    // The requested value must never appear on the observed line.
    let observed_line = reported
        .lines()
        .find(|line| line.starts_with("observed"))
        .expect("observed line");
    assert!(!observed_line.contains("requested-only"));

    let none = format_receipt(
        "attribution",
        &document(r#"{"result": {
            "public_name": "fresh",
            "logical_agent_id": "agent-1",
            "incarnation_id": "inc-1",
            "backend_kind": "grok",
            "incarnation_state": "declared",
            "requested": {},
            "observed": null,
            "observations": []
        }}"#, &[]),
    );
    assert!(none.contains("observed none"), "{none}");
    assert!(
        none.contains("requested model=- provider=- effort=-"),
        "{none}"
    );
}

#[test]
fn positional_after_flags_does_not_steal_flag_values() {
    let invocation = parse_invocation(&args(&["tell", "--stdin", "quorum"])).expect("parse");
    match invocation {
        Invocation::Typed {
            command: Command::Tell {
                recipient, body, ..
            },
            ..
        } => {
            assert_eq!(recipient, Recipient::Alias("quorum".into()));
            assert_eq!(body, BodySource::Stdin);
        }
        other => panic!("{other:?}"),
    }
}

#[test]
fn receipt_shows_delivery_outcomes() {
    for (method, outcome) in [
        ("tell", "accepted"),
        ("ask", "rejected"),
        ("tell", "target_unavailable"),
        ("ask", "unknown"),
    ] {
        let text = format_receipt(
            method,
            &document(r#"{"result":{"message_id":"m","operation_id":"o","recipient":"r","delivery_outcome":"@0"}}"#, &[("@0", outcome.to_string())]),
        );
        assert!(text.contains(&format!("delivery={outcome}")), "{text}");
    }
}

fn start_args() -> Vec<String> {
    args(&[
        "start",
        "--name",
        "worker",
        "--pane",
        "w1:p1",
        "--terminal",
        "term-1",
        "--backend",
        "codex",
        "--cwd",
        "/tmp/work",
        "--timeout-ms",
        "5000",
        "--keep-open",
        "--parentless",
        "--tell",
        "--body",
        "hello `ls`",
    ])
}

#[test]
fn typed_start_wraps_required_start_intent_fields() {
    let invocation = parse_invocation(&start_args()).expect("parse");
    match invocation {
        Invocation::Typed {
            command: Command::Start(start),
            ..
        } => {
            assert_eq!(start.parent, StartParent::Parentless);
            let StartCommand {
                public_name,
                pane_id,
                terminal_id,
                backend_kind,
                backend_args,
                initial_kind,
                initial_sender,
                body,
                working_directory,
                readiness_timeout_ms,
                keep_open,
                herdr_session,
                logical_agent_id,
                ..
            } = *start;
            assert_eq!(public_name, "worker");
            assert_eq!(pane_id, "w1:p1");
            assert_eq!(terminal_id, "term-1");
            assert_eq!(backend_kind, "codex");
            assert!(backend_args.is_empty());
            assert_eq!(initial_kind, "tell");
            assert_eq!(initial_sender, None);
            assert_eq!(body, BodySource::Literal("hello `ls`".into()));
            assert_eq!(working_directory, "/tmp/work");
            assert_eq!(readiness_timeout_ms, 5000);
            assert!(keep_open);
            assert_eq!(herdr_session, "default");
            assert_eq!(logical_agent_id, None);
        }
        other => panic!("{other:?}"),
    }
}

#[test]
fn typed_start_accepts_continue_parent_ask_and_repeated_args() {
    let invocation = parse_invocation(&args(&[
        "start",
        "--name",
        "worker",
        "--pane",
        "w1:p1",
        "--terminal",
        "term-1",
        "--backend",
        "codex",
        "--cwd",
        "/tmp/work",
        "--timeout-ms",
        "15000",
        "--no-keep-open",
        "--parent-id",
        "aaaaaaaa-bbbb-7ccc-dddd-eeeeeeeeeeee",
        "--ask",
        "--sender-id",
        "ffffffff-bbbb-7ccc-dddd-eeeeeeeeeeee",
        "--stdin",
        "--arg",
        "--model",
        "--arg",
        "grok",
        "--logical-id",
        "11111111-bbbb-7ccc-dddd-eeeeeeeeeeee",
        "--session",
        "alpha",
    ]))
    .expect("parse");
    match invocation {
        Invocation::Typed {
            command: Command::Start(start),
            ..
        } => {
            let StartCommand {
                parent,
                initial_kind,
                initial_sender,
                backend_args,
                keep_open,
                logical_agent_id,
                herdr_session,
                ..
            } = *start;
            assert_eq!(
                parent,
                StartParent::Agent("aaaaaaaa-bbbb-7ccc-dddd-eeeeeeeeeeee".into())
            );
            assert_eq!(initial_kind, "ask");
            assert_eq!(
                initial_sender.as_deref(),
                Some("ffffffff-bbbb-7ccc-dddd-eeeeeeeeeeee")
            );
            assert_eq!(backend_args, vec!["--model", "grok"]);
            assert!(!keep_open);
            assert_eq!(
                logical_agent_id.as_deref(),
                Some("11111111-bbbb-7ccc-dddd-eeeeeeeeeeee")
            );
            assert_eq!(herdr_session, "alpha");
        }
        other => panic!("{other:?}"),
    }
}

#[test]
fn typed_start_rejects_unknown_conflicts_and_missing_ask_sender() {
    let unknown = parse_invocation(&{
        let mut items = start_args();
        items.push("--quiet".into());
        items
    })
    .expect_err("unknown");
    assert!(unknown.contains("unknown argument"), "{unknown}");
    let both_parent = parse_invocation(&{
        let mut items = start_args();
        items.extend(args(&[
            "--parent-id",
            "aaaaaaaa-bbbb-7ccc-dddd-eeeeeeeeeeee",
        ]));
        items
    })
    .expect_err("parent");
    assert!(both_parent.contains("--parentless"), "{both_parent}");
    let both_kind = parse_invocation(&{
        let mut items = start_args();
        items.push("--ask".into());
        items
    })
    .expect_err("kind");
    assert!(both_kind.contains("--tell"), "{both_kind}");
    // An ask without --sender-id now parses; the client resolves the caller
    // and the store still refuses an operator-attributed ask.
    let ask_no_sender = parse_invocation(&args(&[
        "start",
        "--name",
        "worker",
        "--pane",
        "w1:p1",
        "--terminal",
        "term-1",
        "--backend",
        "codex",
        "--cwd",
        "/tmp/work",
        "--timeout-ms",
        "5000",
        "--keep-open",
        "--parentless",
        "--ask",
        "--body",
        "q",
    ]))
    .expect("ask defaults its sender to the caller");
    match ask_no_sender {
        Invocation::Typed {
            command: Command::Start(start),
            ..
        } => {
            assert_eq!(start.initial_kind, "ask");
            assert_eq!(start.initial_sender, None);
        }
        other => panic!("{other:?}"),
    }
}

#[test]
fn typed_start_reports_every_missing_requirement_in_one_error() {
    // The failure this guards against is not the bare error text. A caller
    // that learns one requirement per invocation rewrites its command line
    // six times, and a rewrite drops arguments the parser never asked for —
    // which is how an agent reached a pane without its permission flag.
    let bare = parse_invocation(&args(&["start"])).expect_err("nothing supplied");
    for flag in [
        "--name",
        "--pane",
        "--terminal",
        "--backend",
        "--cwd",
        "--timeout-ms",
    ] {
        assert!(bare.contains(&format!("missing {flag}")), "{bare}");
    }
    assert!(bare.contains("--keep-open"), "{bare}");
    assert!(bare.contains("--parentless"), "{bare}");
    assert!(bare.contains("--tell"), "{bare}");
    assert!(bare.contains("--stdin"), "{bare}");
    assert!(bare.starts_with("start: 10 problems"), "{bare}");
}

#[test]
fn typed_start_names_a_wrong_flag_and_the_requirement_it_missed_together() {
    // Guessed flag names were the other half of the same thrash: the
    // caller has to see that --alias is not a flag AND that --name is
    // required, or it fixes one and gets rejected again for the other.
    let guessed = parse_invocation(&{
        let mut items = start_args();
        let name = items
            .iter()
            .position(|item| item == "--name")
            .expect("--name present");
        items[name] = "--alias".into();
        items
    })
    .expect_err("guessed flag name");
    assert!(guessed.contains("unknown argument --alias"), "{guessed}");
    assert!(guessed.contains("missing --name"), "{guessed}");
    // The value behind an unrecognised flag is part of that flag's mistake,
    // not a second stray positional to report on its own.
    assert!(!guessed.contains("unexpected argument"), "{guessed}");
}

#[test]
fn typed_start_keeps_a_lone_problem_on_one_line() {
    let single = parse_invocation(&{
        let mut items = start_args();
        let cwd = items
            .iter()
            .position(|item| item == "--cwd")
            .expect("--cwd present");
        items.drain(cwd..=cwd + 1);
        items
    })
    .expect_err("one requirement missing");
    assert_eq!(single, "start: missing --cwd");
}

#[test]
fn a_global_flag_after_the_command_is_told_where_it_belongs() {
    // The rewrite that dropped --dangerously-skip-permissions ended on this
    // rejection, so "unknown argument --json" was the last thing standing
    // between the caller and a correct command line.
    let misplaced = parse_invocation(&{
        let mut items = start_args();
        items.push("--json".into());
        items
    })
    .expect_err("global flag after the command");
    assert_eq!(
        misplaced,
        "start: --json is a global flag and goes before the command, as \
         `kelpie --json <command> ...`"
    );
    parse_invocation(&{
        let mut items = args(&["--json"]);
        items.extend(start_args());
        items
    })
    .expect("the placement the error points at parses");
}

#[test]
fn typed_adopt_reports_both_of_its_requirements_together() {
    let bare = parse_invocation(&args(&["adopt"])).expect_err("nothing supplied");
    assert_eq!(
        bare,
        "adopt: 2 problems\n  missing --pane\n  missing --terminal"
    );
}

#[test]
fn start_receipt_shows_separate_runtime_and_message_outcomes() {
    let text = format_receipt(
        "start",
        &document(r#"{
            "result": {
                "logical_agent_id": "a",
                "incarnation_id": "i",
                "runtime_start": {"outcome": "succeeded", "operation_id": "o"},
                "initial_message": {"outcome": "unknown", "message_id": "m"}
            }
        }"#, &[]),
    );
    assert!(text.contains("runtime=succeeded"), "{text}");
    assert!(text.contains("delivery=unknown"), "{text}");
    assert!(text.contains("message=m"), "{text}");
}

#[test]
fn waiter_register_and_from_operator_parse() {
    let invocation = parse_invocation(&args(&[
        "waiter-register",
        "--name",
        "inbox",
        "--parentless",
    ]))
    .expect("register");
    match invocation {
        Invocation::Typed {
            command:
                Command::WaiterRegister {
                    public_name,
                    parent: StartParent::Parentless,
                    ..
                },
            ..
        } => assert_eq!(public_name, "inbox"),
        other => panic!("{other:?}"),
    }
    let ask = parse_invocation(&args(&[
        "ask",
        "owing",
        "--sender-id",
        "aaaaaaaa-bbbb-7ccc-dddd-eeeeeeeeeeee",
        "--from",
        "operator",
        "--body",
        "q",
    ]))
    .expect("ask");
    match ask {
        Invocation::Typed {
            command: Command::Ask { from_operator, .. },
            ..
        } => assert!(from_operator),
        other => panic!("{other:?}"),
    }
    let bad = parse_invocation(&args(&["ask", "owing", "--from", "relay", "--body", "q"]))
        .expect_err("from");
    assert!(bad.contains("operator"), "{bad}");
}

#[test]
fn a_read_stamp_is_rendered_again() {
    for stamp in [
        "2026-08-12T20:00:00Z",
        "2024-02-29T23:59:59Z",
        "1970-01-01T00:00:00Z",
        "0000-01-01T00:00:00Z",
        "12026-12-31T01:02:03Z",
    ] {
        let ms = parse_utc_rfc3339_ms(stamp).expect("a moment");
        assert_eq!(format_utc_ms(ms), stamp);
    }
    for (read, shown) in [
        ("2026-8-12T20:0:0.75+00:00", "2026-08-12T20:00:00Z"),
        ("2026-12-31T23:59:60Z", "2027-01-01T00:00:00Z"),
    ] {
        let ms = parse_utc_rfc3339_ms(read).expect("a moment");
        assert_eq!(format_utc_ms(ms), shown);
        assert_eq!(parse_utc_rfc3339_ms(shown), Ok(ms));
    }
}
