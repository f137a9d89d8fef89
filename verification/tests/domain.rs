use kelpie::cli::time::{
    days_from_civil, format_utc_ms, parse_duration_for, parse_duration_ms, parse_utc_rfc3339_ms,
};
use kelpie::cli::tokens::Tokens;
use kelpie::domain::{
    format_duration_ms, fresh_id_text, DeliveryOutcome, IncarnationState, LogicalAgentId,
    MessageId, ObligationState, OperationId, RenewPhase,
};
use kelpie::text::{decimal, holds, join, parse_i64, parse_u64, signed_decimal, trim};

#[test]
fn identifiers_read_back_what_they_show() {
    let id = LogicalAgentId {
        value: 0x0193_abcd_ef01_7234_89ab_cdef_0123_4567,
    };
    assert_eq!(id.to_text(), "0193abcd-ef01-7234-89ab-cdef01234567");
    assert_eq!(LogicalAgentId::parse(&id.to_text()), Some(id));
    assert_eq!(
        LogicalAgentId::parse("{0193ABCD-EF01-7234-89AB-CDEF01234567}"),
        Some(id)
    );
    assert_eq!(
        LogicalAgentId::parse("0193abcdef01723489abcdef01234567"),
        Some(id)
    );
    assert_eq!(MessageId::parse("not an id"), None);
    assert_eq!(MessageId::parse(""), None);
    assert_ne!(OperationId::new(), OperationId::new());
    assert_eq!(fresh_id_text().len(), 36);
}

#[test]
fn labels_are_what_is_stored() {
    assert_eq!(IncarnationState::Ready.label(), "ready");
    assert_eq!(DeliveryOutcome::TargetUnavailable.label(), "target_unavailable");
    assert_eq!(ObligationState::Open.label(), "open");
    assert_eq!(RenewPhase::TimedOut.label(), "timed_out");
}

#[test]
fn durations_are_read_and_shown() {
    assert_eq!(parse_duration_ms("10m"), Ok(600_000));
    assert_eq!(parse_duration_ms("2s"), Ok(2_000));
    assert!(parse_duration_ms("m").is_err());
    assert!(parse_duration_ms("9223372036854775807d").is_err());
    assert!(parse_duration_for("--every", "x").expect_err("bad").contains("--every"));
    assert_eq!(format_duration_ms(5_400_000), "1h30m");
    assert_eq!(format_duration_ms(900_000), "15m0s");
}

#[test]
fn dates_are_counted_from_the_epoch() {
    assert_eq!(days_from_civil(1970, 1, 1), 0);
    assert_eq!(days_from_civil(2000, 3, 1), 11_017);
    assert_eq!(days_from_civil(1969, 12, 31), -1);
    assert_eq!(format_utc_ms(0), "1970-01-01T00:00:00Z");
    assert_eq!(format_utc_ms(1_999), "1970-01-01T00:00:01Z");
    assert_eq!(parse_utc_rfc3339_ms("2000-03-01T00:00:00Z"), Ok(951_868_800_000));
    assert_eq!(
        parse_utc_rfc3339_ms("2000-02-29T00:00:00Z"),
        Ok(951_782_400_000)
    );
    for day in [
        "2001-02-29",
        "1900-02-29",
        "2026-02-30",
        "2026-04-31",
        "2026-06-31",
        "2026-00-10",
        "2026-13-01",
        "2026-01-00",
        "2026-01-32",
    ] {
        assert_eq!(
            parse_utc_rfc3339_ms(&format!("{day}T00:00:00Z")),
            Err("--due-at date is invalid".to_string()),
            "{day}"
        );
    }
    assert!(parse_utc_rfc3339_ms("2001-02-32T00:00:00Z").is_err());
}

#[test]
fn texts_are_taken_apart_and_put_together() {
    assert_eq!(decimal(0), "0");
    assert_eq!(decimal(u64::MAX), "18446744073709551615");
    assert_eq!(signed_decimal(i64::MIN), "-9223372036854775808");
    assert_eq!(parse_u64("+7"), "+7".parse::<u64>().ok());
    assert_eq!(parse_u64(""), None);
    assert_eq!(parse_i64("-9223372036854775808"), Some(i64::MIN));
    assert_eq!(parse_i64("9223372036854775808"), None);
    assert_eq!(trim("\u{a0} x y \u{3000}"), "x y");
    assert!(holds("abcde", "cd"));
    assert!(!holds("abcde", "ce"));
    assert!(holds("x", ""));
    assert_eq!(join(&vec!["a".into(), "b".into()], ", "), "a, b");
}

#[test]
fn tokens_are_taken_once_each() {
    let items: Vec<String> = ["--stdin", "quorum", "--body", "x", "--arg", "1", "--arg", "2"]
        .iter()
        .map(|item| (*item).to_string())
        .collect();
    let mut tokens = Tokens::new(&items);
    assert_eq!(tokens.take_bool("--stdin"), Ok(true));
    assert_eq!(tokens.take_value("--body"), Ok(Some("x".to_string())));
    assert_eq!(
        tokens.take_all_values("--arg"),
        Ok(vec!["1".to_string(), "2".to_string()])
    );
    assert_eq!(tokens.take_positional(), Some("quorum".to_string()));
    assert_eq!(tokens.finish("tell"), Ok(()));
}
