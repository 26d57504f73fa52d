use keyper::cli::{create_help, parse_args, select_params, CliError};
use keyper::port::parse_port;

fn args(items: &[&str]) -> Vec<String> {
    items.iter().map(|item| item.to_string()).collect()
}

#[test]
fn test_parse_args() {
    let args = vec!["keyper".to_string(), "-p".to_string(), "1337".to_string()];
    let params = parse_args(&args).unwrap();
    assert_eq!(params.port, 1337u16);
}

#[test]
fn port_defaults_to_3000() {
    let params = parse_args(&args(&["keyper"])).unwrap();
    assert_eq!(params.port, 3000);
    assert_eq!(params.help, None);
}

#[test]
fn port_in_every_notation() {
    for line in [
        &["keyper", "-p", "8080"][..],
        &["keyper", "-p8080"][..],
        &["keyper", "--port", "8080"][..],
        &["keyper", "--port=8080"][..],
        &["keyper", "free", "-p", "8080", "argument"][..],
    ] {
        let params = parse_args(&args(line)).unwrap();
        assert_eq!(params.port, 8080);
        assert_eq!(params.help, None);
    }
}

#[test]
fn help_is_the_usage_text() {
    let expected = "Usage: keyper [options]\n\nOptions:\n    -h, --help          Show help & exit\n    -p, --port PORT     Port to listen on\n";
    assert_eq!(create_help("keyper"), expected);

    for line in [&["keyper", "-h"][..], &["keyper", "--help"][..], &["keyper", "-p", "1", "-h"][..]] {
        let params = parse_args(&args(line)).unwrap();
        assert_eq!(params.help.as_deref(), Some(expected));
    }
}

#[test]
fn help_names_the_program() {
    let params = parse_args(&args(&["/usr/local/bin/server", "-h"])).unwrap();
    let help = params.help.unwrap();
    assert!(help.starts_with("Usage: /usr/local/bin/server [options]\n"));
    assert_eq!(params.port, 3000);
}

#[test]
fn arguments_that_do_not_fit_the_options() {
    for line in [
        &["keyper", "-x"][..],
        &["keyper", "--verbose"][..],
        &["keyper", "-p"][..],
        &["keyper", "--port"][..],
        &["keyper", "-h", "-h"][..],
        &["keyper", "-p", "1", "--port", "2"][..],
        &["keyper", "--help=yes"][..],
    ] {
        match parse_args(&args(line)) {
            Err(CliError::InvalidArguments) => {}
            other => panic!("{:?} gave {:?}", line, other),
        }
    }
}

#[test]
fn port_that_is_no_port_number() {
    for text in ["http", "65536", "-1", "80a", " 80", "8 0", "", "+", "1e3", "0x50", "٨٠"] {
        match parse_args(&args(&["keyper", "--port", text])) {
            Err(CliError::InvalidPort(given)) => assert_eq!(given, text),
            other => panic!("{:?} gave {:?}", text, other),
        }
    }
}

#[test]
fn invalid_port_wins_over_help() {
    match parse_args(&args(&["keyper", "-h", "-p", "x"])) {
        Err(CliError::InvalidPort(given)) => assert_eq!(given, "x"),
        other => panic!("gave {:?}", other),
    }
}

#[test]
fn error_messages() {
    assert_eq!(CliError::InvalidArguments.message(), "Could not parse arguments");
    assert_eq!(
        CliError::InvalidPort("http".to_string()).message(),
        "Could not parse argument http as valid port number"
    );
}

#[test]
fn parameters_from_what_was_found() {
    let params = select_params(None, None).unwrap();
    assert_eq!(params.port, 3000);
    assert_eq!(params.help, None);

    let params = select_params(Some("usage".to_string()), Some("443".to_string())).unwrap();
    assert_eq!(params.port, 443);
    assert_eq!(params.help, Some("usage".to_string()));

    match select_params(Some("usage".to_string()), Some("70000".to_string())) {
        Err(CliError::InvalidPort(given)) => assert_eq!(given, "70000"),
        other => panic!("gave {:?}", other),
    }
}

#[test]
fn port_numbers() {
    assert_eq!(parse_port("0"), Some(0));
    assert_eq!(parse_port("80"), Some(80));
    assert_eq!(parse_port("+80"), Some(80));
    assert_eq!(parse_port("0080"), Some(80));
    assert_eq!(parse_port("65535"), Some(65535));
    assert_eq!(parse_port("+65535"), Some(65535));
    assert_eq!(parse_port("000000000000000000000000065535"), Some(65535));
    assert_eq!(parse_port("65536"), None);
    assert_eq!(parse_port("99999999999999999999"), None);
    assert_eq!(parse_port("4294967376"), None);
    assert_eq!(parse_port(""), None);
    assert_eq!(parse_port("+"), None);
    assert_eq!(parse_port("-"), None);
    assert_eq!(parse_port("-0"), None);
    assert_eq!(parse_port("++1"), None);
    assert_eq!(parse_port("1+"), None);
    assert_eq!(parse_port("12 "), None);
    assert_eq!(parse_port("1_000"), None);
    assert_eq!(parse_port("１２"), None);
    assert_eq!(parse_port("+é"), None);
}

#[test]
fn port_numbers_as_the_standard_library_reads_them() {
    for text in [
        "0", "7", "+7", "-7", "007", "65535", "65536", "655350", "+", "", " 1", "1 ", "+-1", "a",
        "12a", "٣", "+0", "00000", "4294967295", "4294967296", "18446744073709551616",
    ] {
        assert_eq!(parse_port(text), text.parse::<u16>().ok(), "{:?}", text);
    }
}
