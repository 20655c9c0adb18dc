use net_scanner::conf::{
    parse_port, payloads_from_members, read_clap_conf, read_payloads_json, Args, ConfigError,
    Payloads, ScanConfig,
};

fn member(key: &str, value: Option<&str>) -> (String, Option<String>) {
    (key.to_string(), value.map(|v| v.to_string()))
}

#[test]
fn ports_are_read_as_decimal_numbers() {
    assert_eq!(parse_port("80"), Some(80));
    assert_eq!(parse_port("0"), Some(0));
    assert_eq!(parse_port("65535"), Some(65535));
    assert_eq!(parse_port("+443"), Some(443));
    assert_eq!(parse_port("00080"), Some(80));
    assert_eq!(parse_port("000000000000000000000000080"), Some(80));
}

#[test]
fn what_is_no_port_is_turned_down() {
    assert_eq!(parse_port(""), None);
    assert_eq!(parse_port("+"), None);
    assert_eq!(parse_port("-1"), None);
    assert_eq!(parse_port("++1"), None);
    assert_eq!(parse_port("65536"), None);
    assert_eq!(parse_port("99999999999999999999999"), None);
    assert_eq!(parse_port("8o"), None);
    assert_eq!(parse_port(" 80"), None);
    assert_eq!(parse_port("80 "), None);
    assert_eq!(parse_port("\u{661}"), None);
    assert_eq!(parse_port("655360x"), None);
}

#[test]
fn port_parsing_agrees_with_the_standard_parser() {
    let keys = ["", "+", "-", "0", "+0", "-0", "1", "65535", "65536", "065535", "+65535", "6553a",
        "a", "12 ", "1_000", "0x10", "４２", "4294967296", "18446744073709551616"];
    for key in keys {
        assert_eq!(parse_port(key), key.parse::<u16>().ok());
    }
    let mut n: u32 = 0;
    while n < 70000 {
        let key = n.to_string();
        assert_eq!(parse_port(&key), key.parse::<u16>().ok());
        n += 7;
    }
}

#[test]
fn members_become_the_payload_map() {
    let members = vec![member("80", Some("GET / HTTP/1.0\r\n\r\n")), member("22", Some(""))];
    let payloads = payloads_from_members(&members).ok().expect("a payload map");
    assert_eq!(payloads.len(), 2);
    assert_eq!(payloads.get(80).map(|s| s.as_str()), Some("GET / HTTP/1.0\r\n\r\n"));
    assert_eq!(payloads.get(22).map(|s| s.as_str()), Some(""));
    assert_eq!(payloads.get(23), None);
}

#[test]
fn comments_are_passed_over() {
    let members = vec![member("_comment", None), member("_", Some("x")), member("21", Some("USER"))];
    let payloads = payloads_from_members(&members).ok().expect("a payload map");
    assert_eq!(payloads.len(), 1);
    assert_eq!(payloads.get(21).map(|s| s.as_str()), Some("USER"));
}

#[test]
fn a_later_member_replaces_an_earlier_one() {
    let members = vec![member("080", Some("first")), member("80", Some("second"))];
    let payloads = payloads_from_members(&members).ok().expect("a payload map");
    assert_eq!(payloads.len(), 1);
    assert_eq!(payloads.get(80).map(|s| s.as_str()), Some("second"));
}

#[test]
fn a_key_that_is_no_port_is_an_error() {
    let members = vec![member("80", Some("a")), member("http", Some("b")), member("81", None)];
    match payloads_from_members(&members) {
        Err(ConfigError::InvalidPortKey(key)) => assert_eq!(key, "http"),
        _ => panic!("expected an invalid port key"),
    }
}

#[test]
fn a_payload_that_is_no_string_is_an_error() {
    let members = vec![member("80", Some("a")), member("81", None), member("x", Some("b"))];
    match payloads_from_members(&members) {
        Err(ConfigError::PayloadNotString(port)) => assert_eq!(port, 81),
        _ => panic!("expected a payload that is not a string"),
    }
}

#[test]
fn no_members_no_payloads() {
    let payloads = payloads_from_members(&Vec::new()).ok().expect("a payload map");
    assert_eq!(payloads.len(), 0);
    assert!(payloads.ports().is_empty());
}

#[test]
fn a_document_is_read() {
    let text = br#"{
        "_about": ["anything", 1, null],
        "80": "GET / HTTP/1.0\r\n\r\n",
        "6379": "PING\r\n",
        "25": "EHLO %ip%\r\n"
    }"#;
    let payloads = read_payloads_json(text).ok().expect("a payload map");
    assert_eq!(payloads.len(), 3);
    assert_eq!(payloads.get(80).map(|s| s.as_str()), Some("GET / HTTP/1.0\r\n\r\n"));
    assert_eq!(payloads.get(6379).map(|s| s.as_str()), Some("PING\r\n"));
    assert_eq!(payloads.get(25).map(|s| s.as_str()), Some("EHLO %ip%\r\n"));
    let mut ports = payloads.ports();
    ports.sort();
    assert_eq!(ports, vec![25, 80, 6379]);
}

#[test]
fn a_document_with_escapes_is_decoded() {
    let payloads = read_payloads_json(r#"{"7": "A\t\"\u00e9é"}"#.as_bytes()).ok().expect("a payload map");
    assert_eq!(payloads.get(7).map(|s| s.as_str()), Some("A\t\"\u{e9}\u{e9}"));
}

#[test]
fn an_empty_object_gives_no_payloads() {
    let payloads = read_payloads_json(b"{}").ok().expect("a payload map");
    assert_eq!(payloads.len(), 0);
}

#[test]
fn text_that_is_not_json_is_an_error() {
    assert!(matches!(read_payloads_json(b"{\"80\": "), Err(ConfigError::InvalidJson(_))));
    assert!(matches!(read_payloads_json(b""), Err(ConfigError::InvalidJson(_))));
    assert!(matches!(read_payloads_json(&[0xff, 0xfe]), Err(ConfigError::InvalidJson(_))));
}

#[test]
fn a_document_that_is_no_object_is_an_error() {
    assert!(matches!(read_payloads_json(b"[1, 2]"), Err(ConfigError::NotAnObject)));
    assert!(matches!(read_payloads_json(b"\"80\""), Err(ConfigError::NotAnObject)));
    assert!(matches!(read_payloads_json(b"null"), Err(ConfigError::NotAnObject)));
}

#[test]
fn a_document_with_a_bad_key_is_an_error() {
    match read_payloads_json(br#"{"80": "a", "http": "b"}"#) {
        Err(ConfigError::InvalidPortKey(key)) => assert_eq!(key, "http"),
        _ => panic!("expected an invalid port key"),
    }
    match read_payloads_json(br#"{"70000": "a"}"#) {
        Err(ConfigError::InvalidPortKey(key)) => assert_eq!(key, "70000"),
        _ => panic!("expected an invalid port key"),
    }
}

#[test]
fn a_document_with_a_bad_value_is_an_error() {
    match read_payloads_json(br#"{"80": 5}"#) {
        Err(ConfigError::PayloadNotString(port)) => assert_eq!(port, 80),
        _ => panic!("expected a payload that is not a string"),
    }
    match read_payloads_json(br#"{"_note": 5, "443": {"nested": "x"}}"#) {
        Err(ConfigError::PayloadNotString(port)) => assert_eq!(port, 443),
        _ => panic!("expected a payload that is not a string"),
    }
}

#[test]
fn payload_map_by_hand() {
    let mut payloads = Payloads::new();
    assert_eq!(payloads.len(), 0);
    payloads.insert(80, "a".to_string());
    payloads.insert(80, "b".to_string());
    payloads.insert(81, "c".to_string());
    assert_eq!(payloads.len(), 2);
    assert_eq!(payloads.get(80).map(|s| s.as_str()), Some("b"));
    let mut ports = payloads.ports();
    ports.sort();
    assert_eq!(ports, vec![80, 81]);
}

#[test]
fn default_settings() {
    let args = Args::default();
    assert_eq!(args.tasks, 3000);
    assert_eq!(args.log_file, "logs.csv");
    assert!(!args.file_logging);
    assert!(args.console);
    assert_eq!(args.timeout, 700);
    assert_eq!(args.payloads_filename, "payloads.json");
    assert!(!args.placeholders);
}

#[test]
fn settings_are_split() {
    let args = Args {
        tasks: 12,
        log_file: "out.csv".to_string(),
        file_logging: true,
        console: false,
        timeout: 400,
        payloads_filename: "p.json".to_string(),
        placeholders: true,
    };
    let (files, scan) = read_clap_conf(args);
    assert_eq!(files.log_file, "out.csv");
    assert_eq!(files.payloads_filename, "p.json");
    assert_eq!(
        scan,
        ScanConfig {
            tasks_max: 12,
            timeout: 400,
            file_logging: true,
            console_logging: false,
            placeholders: true,
        }
    );
}

#[test]
fn errors_read_as_lines() {
    assert_eq!(ConfigError::NotAnObject.message(), "Payload config must be a JSON object");
    assert_eq!(ConfigError::InvalidPortKey("http".to_string()).message(), "Invalid port key: 'http'");
    assert_eq!(ConfigError::InvalidPortKey("".to_string()).message(), "Invalid port key: ''");
    assert_eq!(ConfigError::PayloadNotString(80).message(), "Expected string payload for port 80");
    assert_eq!(ConfigError::PayloadNotString(0).message(), "Expected string payload for port 0");
}

#[test]
fn a_document_that_is_no_object_says_so() {
    match read_payloads_json(b"[1,2]") {
        Err(error) => assert_eq!(error.message(), "Payload config must be a JSON object"),
        Ok(_) => panic!("expected an error"),
    }
}

#[test]
fn a_key_above_the_last_port_is_named() {
    match read_payloads_json(br#"{"70000":"x"}"#) {
        Err(error) => assert_eq!(error.message(), "Invalid port key: '70000'"),
        Ok(_) => panic!("expected an error"),
    }
}

#[test]
fn a_value_that_is_no_string_names_its_port() {
    match read_payloads_json(br#"{"80":5}"#) {
        Err(error) => assert_eq!(error.message(), "Expected string payload for port 80"),
        Ok(_) => panic!("expected an error"),
    }
}

#[test]
fn text_that_is_not_json_has_the_parser_speak() {
    let text = b"{\"80\": ";
    let expected = match serde_json::from_slice::<serde_json::Value>(text) {
        Err(error) => error.to_string(),
        Ok(_) => panic!("expected an error"),
    };
    match read_payloads_json(text) {
        Err(error) => assert_eq!(error.message(), expected),
        Ok(_) => panic!("expected an error"),
    }
}
