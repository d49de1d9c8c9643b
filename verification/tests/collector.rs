use rlog::entry::ConvertError;
use rlog::grpc_server::{
    after_enqueue, counter_update, gauge_value, on_log, ConnectedShippers, CounterUpdate, Reply,
    SHIPPER_IDLE_SECS, SHIPPER_SWEEP_SECS,
};
use rlog::helper::{ca_cert_filename, ca_key_filename, cert_filename, key_filename};
use rlog::json::{get, JsonNumber, JsonValue};
use rlog::text::join_lines;
use rlog::wire::{GelfLogLine, Line, LogLine, Timestamp};

fn line(extra: &str, timestamp: Option<Timestamp>) -> LogLine {
    LogLine {
        host: "h".to_string(),
        timestamp,
        line: Some(Line::Gelf(GelfLogLine {
            short_message: "s".to_string(),
            full_message: None,
            severity: 6,
            extra: extra.to_string(),
        })),
    }
}

#[test]
fn log_call_converts_or_rejects() {
    let entry = on_log(line("{}", Some(Timestamp { seconds: 1, nanos: 0 }))).unwrap();
    assert_eq!(entry.message, "s");
    assert_eq!(
        on_log(line("{", Some(Timestamp { seconds: 1, nanos: 0 }))).err(),
        Some(Reply::InvalidArgument(ConvertError::InvalidExtra))
    );
    assert_eq!(
        on_log(line("{}", None)).err(),
        Some(Reply::InvalidArgument(ConvertError::MissingTimestamp))
    );
    assert_eq!(after_enqueue(true), Reply::Done);
    assert_eq!(after_enqueue(false), Reply::Unavailable);
}

#[test]
fn replies_have_status_codes_and_messages() {
    assert_eq!(Reply::Done.code(), 0);
    assert_eq!(Reply::InvalidArgument(ConvertError::MissingLine).code(), 3);
    assert_eq!(Reply::Unavailable.code(), 14);
    assert_eq!(ConvertError::MissingTimestamp.message(), "`timestamp` field is mandatory");
    assert_eq!(ConvertError::MissingLine.message(), "`line` field is mandatory");
    assert_eq!(ConvertError::InvalidExtra.message(), "`extra` field is not a valid json object");
}

#[test]
fn counters_follow_reported_counts() {
    assert_eq!(counter_update(10, 15), CounterUpdate::Advance(5));
    assert_eq!(counter_update(0, 1), CounterUpdate::Advance(1));
    assert_eq!(counter_update(10, 10), CounterUpdate::Restart(10));
    assert_eq!(counter_update(10, 3), CounterUpdate::Restart(3));
    assert_eq!(counter_update(0, 0), CounterUpdate::Restart(0));
    assert_eq!(counter_update(0, u64::MAX), CounterUpdate::Advance(u64::MAX));
    assert_eq!(gauge_value(0), 0);
    assert_eq!(gauge_value(42), 42);
    assert_eq!(gauge_value(u64::MAX), -1);
}

#[test]
fn shippers_are_forgotten_after_ninety_seconds() {
    assert_eq!(SHIPPER_IDLE_SECS, 90);
    assert_eq!(SHIPPER_SWEEP_SECS, 30);
    let mut shippers = ConnectedShippers::new();
    assert!(shippers.hostnames().is_empty());
    shippers.report_connected_host("b", 1_000);
    shippers.report_connected_host("a", 2_000);
    shippers.report_connected_host("b", 50_000);
    assert_eq!(shippers.hostnames(), vec!["a".to_string(), "b".to_string()]);
    shippers.clear_disconnected_hosts(92_000);
    assert_eq!(shippers.hostnames(), vec!["a".to_string(), "b".to_string()]);
    shippers.clear_disconnected_hosts(92_001);
    assert_eq!(shippers.hostnames(), vec!["b".to_string()]);
    shippers.clear_disconnected_hosts(140_000);
    assert_eq!(shippers.hostnames(), vec!["b".to_string()]);
    shippers.clear_disconnected_hosts(140_001);
    assert!(shippers.hostnames().is_empty());
    // a clock reading before the last report never makes a shipper gone
    shippers.report_connected_host("c", 500_000);
    shippers.clear_disconnected_hosts(0);
    assert_eq!(shippers.hostnames(), vec!["c".to_string()]);
}

#[test]
fn shippers_are_listed_in_the_order_of_strings() {
    let mut shippers = ConnectedShippers::new();
    let hosts = ["web-2", "db", "web-10", "Web", "", "db-1", "web", "\u{e9}t\u{e9}", "db", "zeta"];
    for (i, host) in hosts.iter().enumerate() {
        shippers.report_connected_host(host, i as u64);
    }
    let mut expected: Vec<String> = hosts.iter().map(|h| h.to_string()).collect();
    expected.sort();
    expected.dedup();
    assert_eq!(shippers.hostnames(), expected);
    assert_eq!(expected[0], "");
    assert_eq!(expected[1], "Web");
    // only "zeta" reported within the last ninety seconds
    shippers.clear_disconnected_hosts(90_009);
    assert_eq!(shippers.hostnames(), vec!["zeta".to_string()]);
}

#[test]
fn helper_file_names() {
    assert_eq!(ca_key_filename("./ca"), "./ca/ca.priv-key.pem");
    assert_eq!(ca_cert_filename("./ca"), "./ca/ca.pem");
    assert_eq!(ca_key_filename(""), "/ca.priv-key.pem");
    assert_eq!(key_filename("./ca", "my_host"), "./ca/my_host.priv-key.pem");
    assert_eq!(cert_filename("./ca", "my_host"), "./ca/my_host.pem");
}

#[test]
fn lines_are_joined_with_line_feeds() {
    assert_eq!(join_lines(&vec![]), "");
    assert_eq!(join_lines(&vec!["a".to_string()]), "a");
    assert_eq!(join_lines(&vec!["a".to_string(), "b".to_string()]), "a\nb");
    assert_eq!(join_lines(&vec!["".to_string(), "".to_string(), "c".to_string()]), "\n\nc");
}

#[test]
fn json_values_are_read_from_text() {
    let value = JsonValue::parse(
        r#"{"b":[1,-2,3.5,18446744073709551615],"a":{"x":null,"y":true},"t":"text","b2":9223372036854775808}"#,
    )
    .unwrap();
    let members = value.as_object().unwrap();
    let keys: Vec<&str> = members.iter().map(|(k, _)| k.as_str()).collect();
    assert_eq!(keys, vec!["a", "b", "b2", "t"]);
    match get(members, "b") {
        Some(JsonValue::Array(items)) => {
            assert!(matches!(items[0], JsonValue::Number(JsonNumber::PosInt(1))));
            assert!(matches!(items[1], JsonValue::Number(JsonNumber::NegInt(-2))));
            assert!(matches!(&items[2], JsonValue::Number(JsonNumber::Float(t)) if t.as_str() == "3.5"));
            assert!(matches!(items[3], JsonValue::Number(JsonNumber::PosInt(u64::MAX))));
            assert_eq!(items[0].as_i64(), Some(1));
            assert_eq!(items[1].as_i64(), Some(-2));
            assert_eq!(items[2].as_i64(), None);
            assert_eq!(items[3].as_i64(), None);
        }
        other => panic!("unexpected: {:?}", other),
    }
    assert_eq!(get(members, "b2").and_then(|v| v.as_i64()), None);
    assert_eq!(get(members, "t").and_then(|v| v.as_str()), Some("text"));
    assert_eq!(get(members, "a").and_then(|v| v.as_str()), None);
    assert!(get(members, "a").unwrap().as_object().is_some());
    assert!(get(members, "missing").is_none());
    assert!(JsonValue::parse("").is_none());
    assert!(JsonValue::parse("{\"a\":}").is_none());
    assert!(JsonValue::Text("x".to_string()).as_object().is_none());
}

#[test]
fn the_last_member_of_a_key_counts() {
    let members = vec![
        ("k".to_string(), JsonValue::Bool(true)),
        ("other".to_string(), JsonValue::Null),
        ("k".to_string(), JsonValue::Bool(false)),
    ];
    assert!(matches!(get(&members, "k"), Some(JsonValue::Bool(false))));
    assert!(matches!(get(&members, "other"), Some(JsonValue::Null)));
    assert!(get(&vec![], "k").is_none());
}

#[test]
fn json_values_are_copied_whole() {
    let value = JsonValue::parse(r#"{"a":[1,{"b":"c"}],"n":-1.5e3}"#).unwrap();
    let copy = value.clone();
    assert_eq!(format!("{:?}", value), format!("{:?}", copy));
    let number = JsonNumber::parse("1.5").unwrap();
    assert!(matches!(number.clone(), JsonNumber::Float(t) if t.as_str() == "1.5"));
    assert!(matches!(JsonNumber::parse("12"), Some(JsonNumber::PosInt(12))));
    assert!(matches!(JsonNumber::parse("-12"), Some(JsonNumber::NegInt(-12))));
    assert!(JsonNumber::parse("1.5.2").is_none());
    assert!(JsonNumber::parse("").is_none());
    // a number that is no integer is written as it was read
    let members = vec![("n".to_string(), JsonValue::Number(JsonNumber::parse("-1.5e3").unwrap()))];
    let line = rlog::wire::LogLine::try_from_generic(rlog::generic_log::GenericLog {
        host: "h".to_string(),
        timestamp: Timestamp { seconds: 0, nanos: 0 },
        severity: rlog::severity::SyslogSeverity::Info,
        extra: JsonValue::Object(members),
        log_system: "file_in".to_string(),
        message: "m".to_string(),
        service_name: "s".to_string(),
    })
    .unwrap();
    match line.line {
        Some(Line::GenericLog(l)) => assert_eq!(l.extra, r#"{"n":-1500.0}"#),
        other => panic!("not a generic line: {:?}", other),
    }
}
