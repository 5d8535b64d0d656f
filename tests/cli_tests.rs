use mk_oracle::cli::{parse_agent_labels, Args, LoggingOpts, SharedArgsOnly};

#[test]
fn test_logging_level() {
    assert_eq!((LoggingOpts { verbose: 0 }).logging_level(), "warn");
    assert_eq!((LoggingOpts { verbose: 1 }).logging_level(), "info");
    assert_eq!((LoggingOpts { verbose: 2 }).logging_level(), "debug");
}

#[test]
fn test_parse_agent_labels_ok() {
    assert_eq!(
        parse_agent_labels("a=b").unwrap(),
        (String::from("a"), String::from("b"))
    );
    assert_eq!(
        parse_agent_labels("abc-123=456-def").unwrap(),
        (String::from("abc-123"), String::from("456-def"))
    );
}

#[test]
fn test_parse_agent_labels_error() {
    assert!(parse_agent_labels("missing-equal-sign").is_err(),);
}

#[test]
fn labels_split_at_first_equal_sign() {
    assert_eq!(
        parse_agent_labels("k=v=w").unwrap(),
        (String::from("k"), String::from("v=w"))
    );
    assert_eq!(parse_agent_labels("=").unwrap(), (String::new(), String::new()));
    let e = parse_agent_labels("x").unwrap_err();
    assert_eq!(e.message(), "invalid KEY=VALUE: no `=` found in `x`");
}

#[test]
fn command_logging_level() {
    let args = Args::Dump(SharedArgsOnly { logging_opts: LoggingOpts { verbose: 5 } });
    assert_eq!(args.logging_level(), "debug");
}
