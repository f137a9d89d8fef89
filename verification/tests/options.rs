use kelpie::options::{parse_args, Argument, Invocation, Options};

fn args(values: &[&str]) -> Vec<Argument> {
    values
        .iter()
        .map(|value| Argument::Text((*value).to_string()))
        .collect()
}

fn path(value: &str) -> Option<Argument> {
    Some(Argument::Text(value.to_string()))
}

#[test]
fn no_arguments_selects_conventional_defaults() {
    assert_eq!(
        parse_args(&vec![]).expect("parse"),
        Invocation::Run(Options::default())
    );
}

#[test]
fn explicit_paths_override_each_default() {
    assert_eq!(
        parse_args(&args(&[
            "--database",
            "/state/db",
            "--socket",
            "/run/kelpie.sock",
            "--herdr-socket",
            "/run/herdr.sock",
            "--herdr-wait-ms",
            "30000",
        ]))
        .expect("parse"),
        Invocation::Run(Options {
            database: path("/state/db"),
            socket: path("/run/kelpie.sock"),
            herdr_socket: path("/run/herdr.sock"),
            herdr_wait_ms: Some(30_000),
        })
    );
}

#[test]
fn unknown_duplicate_and_missing_values_fail_closed() {
    assert!(parse_args(&args(&["db", "socket", "herdr"])).is_err());
    assert!(parse_args(&args(&["--socket"])).is_err());
    assert!(parse_args(&args(&["--socket", "a", "--socket", "b"])).is_err());
    assert!(parse_args(&args(&["--herdr-wait-ms"])).is_err());
    assert!(parse_args(&args(&["--herdr-wait-ms", "soon"])).is_err());
    assert!(parse_args(&args(&["--herdr-wait-ms", "-1"])).is_err());
    assert!(parse_args(&args(&["--herdr-wait-ms", "1", "--herdr-wait-ms", "2"])).is_err());
}

#[test]
fn a_zero_herdr_wait_is_explicit_and_not_the_default() {
    assert_eq!(
        parse_args(&args(&["--herdr-wait-ms", "0"])).expect("parse"),
        Invocation::Run(Options {
            herdr_wait_ms: Some(0),
            ..Options::default()
        })
    );
    assert_eq!(
        parse_args(&vec![]).expect("parse"),
        Invocation::Run(Options::default())
    );
    assert_eq!(
        Options {
            herdr_wait_ms: Some(0),
            ..Options::default()
        }
        .herdr_wait(),
        0
    );
    assert_eq!(Options::default().herdr_wait(), 120_000);
}

#[test]
fn help_and_version_are_asked_for_by_name() {
    assert_eq!(parse_args(&args(&["--help"])), Ok(Invocation::Help));
    assert_eq!(parse_args(&args(&["--version"])), Ok(Invocation::Version));
}

#[test]
fn an_argument_that_is_no_text_is_a_path_but_no_flag() {
    let odd = vec![Argument::Text("--socket".into()), Argument::Raw(1)];
    assert_eq!(
        parse_args(&odd).expect("parse"),
        Invocation::Run(Options {
            socket: Some(Argument::Raw(1)),
            ..Options::default()
        })
    );
    assert!(parse_args(&vec![Argument::Raw(0)]).is_err());
}
