use kelpie::daemon::errors::{invalid, respond};
use kelpie::herdr::{ping_request, read_response, HerdrError};
use kelpie::client::{method_in, request_id_in, request_text, Request};
use kelpie::json::{Json, Number};
use kelpie::json_text::{parse_json, show_json};
use kelpie::text::lines;

#[test]
fn a_document_is_read_from_its_text() {
    let text = r#" { "b" : [ 1, -2, 1.5, true, null ], "a" : "x\né\"", "b2" : {} } "#;
    let read = parse_json(text).expect("a document");
    assert_eq!(
        read,
        Json::Object(vec![
            ("a".into(), Json::Text("x\n\u{e9}\"".into())),
            (
                "b".into(),
                Json::List(vec![
                    Json::Number(Number::Unsigned(1)),
                    Json::Number(Number::Negative(-2)),
                    Json::Number(Number::Other("1.5".into())),
                    Json::Bool(true),
                    Json::Null,
                ])
            ),
            ("b2".into(), Json::Object(vec![])),
        ])
    );
    assert_eq!(
        show_json(&read),
        "{\"a\":\"x\\n\u{e9}\\\"\",\"b\":[1,-2,1.5,true,null],\"b2\":{}}"
    );
}

#[test]
fn the_last_of_two_fields_of_one_name_counts() {
    let read = parse_json(r#"{"a":1,"a":2}"#).expect("a document");
    assert_eq!(read, Json::Object(vec![("a".into(), Json::Number(Number::Unsigned(2)))]));
}

#[test]
fn every_name_is_a_name() {
    let name = "$serde_json::private::RawValue";
    let text = format!("{{\"{name}\":\"1\"}}");
    let read = parse_json(&text).expect("a document");
    assert_eq!(read, Json::object().with(name, Json::text("1")));
    assert_eq!(show_json(&read), text);
    let two = format!("[{{\"{name}\":1,\"z\":2}}]");
    assert_eq!(show_json(&parse_json(&two).expect("a document")), two);
}

#[test]
fn numbers_keep_their_kind() {
    assert_eq!(
        parse_json("18446744073709551615"),
        Ok(Json::Number(Number::Unsigned(u64::MAX)))
    );
    assert_eq!(
        parse_json("-9223372036854775808"),
        Ok(Json::Number(Number::Negative(i64::MIN)))
    );
    match parse_json("1e2") {
        Ok(Json::Number(Number::Other(text))) => assert_eq!(text, "100.0"),
        other => panic!("{other:?}"),
    }
    assert!(parse_json("1e999").is_err());
}

#[test]
fn what_is_no_document_is_refused() {
    assert_eq!(
        parse_json("").expect_err("empty"),
        "EOF while parsing a value at line 1 column 0"
    );
    assert!(parse_json("{\"a\":}").is_err());
    assert!(parse_json("[1,]").is_err());
    assert!(parse_json("{} {}").is_err());
    assert!(parse_json("nul").is_err());
    let deep = "[".repeat(200) + &"]".repeat(200);
    assert!(parse_json(&deep).is_err());
    let shallow = "[".repeat(100) + &"]".repeat(100);
    assert_eq!(show_json(&parse_json(&shallow).expect("a document")), shallow);
}

#[test]
fn what_is_written_reads_back() {
    let document = Json::object()
        .with("text", Json::text("a \"quoted\" \\ line\n\ttab \u{1f600}\u{7f}\u{0}"))
        .with("flags", Json::List(vec![Json::Bool(false), Json::Bool(true), Json::Null]))
        .with("least", Json::integer(i64::MIN))
        .with("most", Json::unsigned(u64::MAX))
        .with("inner", Json::object().with("empty", Json::List(vec![])));
    let read = parse_json(&show_json(&document)).expect("a document");
    for name in ["text", "flags", "least", "most", "inner"] {
        assert_eq!(read.get(name), document.get(name));
    }
    assert_eq!(show_json(&Json::text("\u{0}\u{1f}/")), "\"\\u0000\\u001f/\"");
}

#[test]
fn a_request_is_written_and_taken_apart() {
    let request = Request {
        method: "who",
        params: Json::object().with("alias", Json::text("worker")),
    };
    let text = request_text("r1", &request).expect("a request");
    assert_eq!(text, r#"{"id":"r1","method":"who","params":{"alias":"worker"}}"#);
    assert_eq!(method_in(&text), Ok("who".to_string()));
    assert_eq!(request_id_in(&text), "r1");
    assert_eq!(method_in("{}"), Ok(String::new()));
    assert!(method_in("{").is_err());
    assert_eq!(request_id_in("{"), "");
    assert_eq!(request_id_in("{\"id\":7}"), "");
}

#[test]
fn a_response_is_one_line() {
    assert_eq!(
        respond("r1", Ok(Json::Bool(true))).line(),
        "{\"id\":\"r1\",\"result\":true}\n"
    );
    let refused = respond("r1", Err(invalid("no"))).line();
    let read = parse_json(&refused).expect("a document");
    assert_eq!(read.get("result"), None);
    assert_eq!(read.get("error").expect("an error").text_at("message"), Some("no"));
}

#[test]
fn herdr_is_asked_and_answers_in_lines() {
    assert_eq!(
        ping_request().line(),
        "{\"id\":\"kelpie:ping\",\"method\":\"ping\",\"params\":{}}\n"
    );
    assert_eq!(
        read_response("{\"id\":\"1\",\"result\":{\"protocol\":20}}\n"),
        Ok(Json::object().with("protocol", Json::unsigned(20)))
    );
    assert_eq!(
        read_response("{\"error\":{\"code\":\"busy\",\"message\":\"later\"}}"),
        Err(HerdrError::Rejected {
            code: "busy".into(),
            message: "later".into()
        })
    );
    assert!(matches!(read_response(""), Err(HerdrError::Malformed(_))));
    assert!(matches!(read_response("{}"), Err(HerdrError::Unexpected(_))));
}

#[test]
fn lines_end_at_newlines() {
    for text in ["", "a", "a\n", "a\r\nb", "a\rb\n\n", "\r\n", "a\r"] {
        let meant: Vec<String> = text.lines().map(ToOwned::to_owned).collect();
        assert_eq!(lines(text), meant, "{text:?}");
    }
}

#[test]
fn fields_are_kept_in_the_order_of_their_names() {
    let built = Json::object()
        .with("b", Json::integer(1))
        .with("a", Json::integer(2))
        .with("b", Json::integer(3));
    assert_eq!(show_json(&built), r#"{"a":2,"b":3}"#);
    assert_eq!(parse_json(r#"{"b":1,"a":2,"b":3}"#), Ok(built));
    assert_eq!(
        show_json(&respond("1", Err(invalid("no"))).document()),
        r#"{"id":"1","error":{"class":"invalid_request","message":"no"}}"#
    );
}
