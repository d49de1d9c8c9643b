use rlog::config::{FieldMapping, FieldType, FileMappingConfig, FileParseConfig};
use rlog::entry::{IndexLogEntry, LogSystem};
use rlog::eqregex::EqRegex;
use rlog::json::{get, JsonNumber, JsonValue};
use rlog::log_file::{on_new_line, read_field, Fields, LineError, WatchStep};
use rlog::severity::SyslogSeverity;
use rlog::timestamp::{iso_to_utc, parse_timestamp, to_rfc3339, IsoDate, IsoDateTime, IsoTime};
use rlog::wire::{Line, LogLine, Timestamp};

const PATTERN: &str = r"^\[([^\]]+)\]\[([^\]]+) *\]\[([^\]]+)\] \[([^\]]+)\] (.*)$";
const LINE: &str =
    "[2023-02-13T08:42:54,879][INFO ][o.e.n.Node               ] [sug6-dev-1] stopped";
const NOW: Timestamp = Timestamp { seconds: 1_700_000_000, nanos: 1 };

fn field(name: &str, field_type: FieldType) -> FieldMapping {
    FieldMapping { name: name.to_string(), field_type }
}

fn config(pattern: &str, mapping: Vec<FieldMapping>) -> FileParseConfig {
    FileParseConfig {
        mapping: FileMappingConfig::Regex { pattern: EqRegex::new(pattern).unwrap(), mapping },
        static_fields: vec![],
    }
}

fn elastic(last: &str) -> FileParseConfig {
    config(
        PATTERN,
        vec![
            field("timestamp", FieldType::Timestamp),
            field("level", FieldType::SyslogLevelText),
            field("_logger", FieldType::String),
            field("host", FieldType::String),
            field(last, FieldType::String),
        ],
    )
}

fn members(value: &JsonValue) -> &Vec<(String, JsonValue)> {
    value.as_object().unwrap()
}

#[test]
fn elasticsearch_line_becomes_a_record() {
    let log = elastic("message").to_log(LINE, "/var/log/es.log", "shipper-host", NOW).unwrap();
    assert_eq!(log.message, "stopped");
    assert_eq!(log.host, "sug6-dev-1");
    assert_eq!(log.timestamp, Timestamp { seconds: 1_676_277_774, nanos: 879_000_000 });
    assert_eq!(log.severity, SyslogSeverity::Info);
    assert_eq!(log.log_system, "file_in");
    assert_eq!(log.service_name, "/var/log/es.log");
    let extra = members(&log.extra);
    assert_eq!(extra.len(), 2);
    assert!(matches!(get(extra, "level"), Some(JsonValue::Number(JsonNumber::PosInt(6)))));
    assert!(matches!(get(extra, "_logger"), Some(JsonValue::Text(t)) if t == "o.e.n.Node"));
}

#[test]
fn elasticsearch_line_reaches_the_index() {
    let log = elastic("message").to_log(LINE, "/var/log/es.log", "shipper-host", NOW).unwrap();
    let line = LogLine::try_from_generic(log).unwrap();
    match &line.line {
        Some(Line::GenericLog(l)) => {
            assert_eq!(l.extra, r#"{"level":6,"logger":"o.e.n.Node"}"#);
            assert_eq!(l.severity, 6);
        }
        other => panic!("not a generic line: {:?}", other),
    }
    let entry = IndexLogEntry::try_from(line).unwrap();
    assert_eq!(entry.message, "stopped");
    assert_eq!(entry.hostname, "sug6-dev-1");
    assert_eq!(entry.severity_text, "INFO");
    assert_eq!(entry.service_name, "/var/log/es.log");
    assert_eq!(entry.log_system, LogSystem::Generic("file_in".to_string()));
    assert_eq!(entry.timestamp, 1_676_277_774_879);
}

#[test]
fn a_record_needs_a_field_named_message() {
    let result = elastic("short_message").to_log(LINE, "/var/log/es.log", "shipper-host", NOW);
    assert_eq!(result.err(), Some(LineError::NoMessage));
}

#[test]
fn the_same_line_gives_the_same_record() {
    let config = elastic("message");
    let first = config.to_log(LINE, "f", "h", NOW).unwrap();
    let again = config.to_log(&LINE.to_string(), "f", "h", NOW).unwrap();
    assert_eq!(first.message, again.message);
    assert_eq!(first.host, again.host);
    assert_eq!(first.timestamp, again.timestamp);
    assert_eq!(first.severity, again.severity);
    assert_eq!(format!("{:?}", first.extra), format!("{:?}", again.extra));
}

#[test]
fn a_line_that_does_not_match_gives_no_record() {
    assert_eq!(
        elastic("message").to_log("no brackets here", "f", "h", NOW).err(),
        Some(LineError::NotMatching)
    );
}

#[test]
fn defaults_fill_what_the_line_lacks() {
    let config = config(r"^(.*)$", vec![field("message", FieldType::String)]);
    let log = config.to_log("  just text  ", "/var/log/app.log", "local", NOW).unwrap();
    assert_eq!(log.message, "just text");
    assert_eq!(log.host, "local");
    assert_eq!(log.timestamp, NOW);
    assert_eq!(log.severity, SyslogSeverity::Info);
    assert_eq!(log.service_name, "/var/log/app.log");
    assert_eq!(members(&log.extra).len(), 0);
}

#[test]
fn lifted_fields_and_typed_fields() {
    let config = FileParseConfig {
        mapping: FileMappingConfig::Regex {
            pattern: EqRegex::new(r"^(\S+) (\S+) (\S+) (\S+) (\S+) (.*)$").unwrap(),
            mapping: vec![
                field("severity", FieldType::String),
                field("service_name", FieldType::String),
                field("duration", FieldType::Number),
                field("seen", FieldType::Timestamp),
                field("lvl", FieldType::SyslogLevelText),
                field("message", FieldType::String),
            ],
        },
        static_fields: vec![
            ("env".to_string(), JsonValue::Text("prod".to_string())),
            ("duration".to_string(), JsonValue::Null),
        ],
    };
    let log = config
        .to_log("ERROR api -12.5 2023-02-13T08:42:54+02:00 bogus it broke", "f", "h", NOW)
        .unwrap();
    assert_eq!(log.severity, SyslogSeverity::Error);
    assert_eq!(log.service_name, "api");
    assert_eq!(log.message, "it broke");
    let extra = members(&log.extra);
    assert_eq!(extra.len(), 5);
    assert_eq!(extra[0].0, "duration");
    assert!(matches!(&extra[0].1, JsonValue::Number(JsonNumber::Float(t)) if t.as_str() == "-12.5"));
    assert_eq!(extra[1].0, "seen");
    assert!(matches!(&extra[1].1, JsonValue::Text(t) if t == "2023-02-13T06:42:54+00:00"));
    assert_eq!(extra[2].0, "lvl");
    assert!(matches!(&extra[2].1, JsonValue::Number(JsonNumber::PosInt(6))));
    assert_eq!(extra[3].0, "env");
    assert_eq!(extra[4].0, "duration");
    // the static field comes later and is the one that counts
    assert!(matches!(get(extra, "duration"), Some(JsonValue::Null)));
}

#[test]
fn unknown_severity_name_falls_back_to_info() {
    let config = config(
        r"^(\S+) (.*)$",
        vec![field("severity", FieldType::String), field("message", FieldType::String)],
    );
    assert_eq!(config.to_log("WARN x", "f", "h", NOW).unwrap().severity, SyslogSeverity::Info);
    assert_eq!(config.to_log("WARNING x", "f", "h", NOW).unwrap().severity, SyslogSeverity::Warning);
    assert_eq!(config.to_log("DEBUG x", "f", "h", NOW).unwrap().severity, SyslogSeverity::Debug);
}

#[test]
fn field_errors() {
    let number = config(
        r"^(\S+) (.*)$",
        vec![field("n", FieldType::Number), field("message", FieldType::String)],
    );
    assert_eq!(number.to_log("abc x", "f", "h", NOW).err(), Some(LineError::InvalidNumber));
    assert!(number.to_log("12 x", "f", "h", NOW).is_ok());
    let stamp = config(
        r"^(\S+) (.*)$",
        vec![field("timestamp", FieldType::String), field("message", FieldType::String)],
    );
    assert_eq!(stamp.to_log("yesterday x", "f", "h", NOW).err(), Some(LineError::InvalidTimestamp));
    let typed = config(
        r"^(\S+) (.*)$",
        vec![field("seen", FieldType::Timestamp), field("message", FieldType::String)],
    );
    assert_eq!(typed.to_log("yesterday x", "f", "h", NOW).err(), Some(LineError::InvalidTimestamp));
    let too_many = config(
        r"^(\S+) (.*)$",
        vec![
            field("a", FieldType::String),
            field("message", FieldType::String),
            field("c", FieldType::String),
        ],
    );
    assert_eq!(too_many.to_log("a b", "f", "h", NOW).err(), Some(LineError::MissingGroup));
    let optional = config(
        r"^(\d+)?(.*)$",
        vec![field("n", FieldType::String), field("message", FieldType::String)],
    );
    assert_eq!(optional.to_log("text", "f", "h", NOW).err(), Some(LineError::MissingGroup));
    // the first field that fails decides
    let both = config(
        r"^(\S+) (\S+) (.*)$",
        vec![
            field("n", FieldType::Number),
            field("timestamp", FieldType::Timestamp),
            field("message", FieldType::String),
        ],
    );
    assert_eq!(both.to_log("abc yesterday x", "f", "h", NOW).err(), Some(LineError::InvalidNumber));
    assert_eq!(both.to_log("1 yesterday x", "f", "h", NOW).err(), Some(LineError::InvalidTimestamp));
}

#[test]
fn captures_can_be_handed_in() {
    let config = elastic("message");
    let captures = Some(vec![
        Some("the whole match".to_string()),
        Some("2023-02-13T08:42:54Z".to_string()),
        Some("ERROR".to_string()),
        Some("logger".to_string()),
        Some(" node-1 ".to_string()),
        Some("text".to_string()),
    ]);
    let log = config.to_log_from_captures(captures, "f", "h", NOW).unwrap();
    assert_eq!(log.host, "node-1");
    assert_eq!(log.timestamp, Timestamp { seconds: 1_676_277_774, nanos: 0 });
    assert!(matches!(get(members(&log.extra), "level"), Some(JsonValue::Number(JsonNumber::PosInt(3)))));
    assert_eq!(config.to_log_from_captures(None, "f", "h", NOW).err(), Some(LineError::NotMatching));
    assert_eq!(
        config.to_log_from_captures(Some(vec![]), "f", "h", NOW).err(),
        Some(LineError::MissingGroup)
    );
    // group 0 alone is the whole match and fills no field
    assert_eq!(
        config.to_log_from_captures(Some(vec![Some("x".to_string())]), "f", "h", NOW).err(),
        Some(LineError::MissingGroup)
    );
}

#[test]
fn one_field_at_a_time() {
    let empty = || Fields {
        host: None,
        timestamp: None,
        service_name: None,
        severity: None,
        message: None,
        extra: vec![],
    };
    let fields = read_field(empty(), &field("host", FieldType::Number), Some(" h ")).unwrap();
    assert_eq!(fields.host.as_deref(), Some("h"));
    assert!(fields.extra.is_empty());
    let fields = read_field(fields, &field("x", FieldType::String), Some("v")).unwrap();
    assert_eq!(fields.host.as_deref(), Some("h"));
    assert_eq!(fields.extra.len(), 1);
    assert!(read_field(empty(), &field("x", FieldType::String), None).is_err());
}

#[test]
fn generic_record_needs_an_object() {
    let log = rlog::generic_log::GenericLog {
        host: "h".to_string(),
        timestamp: NOW,
        severity: SyslogSeverity::Notice,
        extra: JsonValue::Array(vec![]),
        log_system: "file_in".to_string(),
        message: "m".to_string(),
        service_name: "s".to_string(),
    };
    assert_eq!(
        LogLine::try_from_generic(log).err(),
        Some(rlog::generic_log::GenericError::ExtraNotAnObject)
    );
}

#[test]
fn timestamps_are_read_as_iso8601_then_rfc3339_then_rfc2822() {
    assert_eq!(
        parse_timestamp("2023-02-13T08:42:54,879"),
        Some(Timestamp { seconds: 1_676_277_774, nanos: 879_000_000 })
    );
    assert_eq!(
        parse_timestamp("2023-02-13T08:42:54+02:00"),
        Some(Timestamp { seconds: 1_676_270_574, nanos: 0 })
    );
    assert_eq!(
        parse_timestamp("2023-02-13T08:42:54-05:30"),
        Some(Timestamp { seconds: 1_676_297_574, nanos: 0 })
    );
    assert_eq!(
        parse_timestamp("1996-12-19T16:39:57-08:00"),
        Some(Timestamp { seconds: 851_042_397, nanos: 0 })
    );
    assert_eq!(
        parse_timestamp("Tue, 1 Jul 2003 10:52:37 +0200"),
        Some(Timestamp { seconds: 1_057_049_557, nanos: 0 })
    );
    assert_eq!(
        parse_timestamp("2023-039T00:00:00Z"),
        Some(Timestamp { seconds: 1_675_814_400, nanos: 0 })
    );
    assert_eq!(parse_timestamp("yesterday"), None);
    assert_eq!(parse_timestamp(""), None);
}

#[test]
fn iso_parts_become_a_point_in_time() {
    let time = IsoTime {
        hour: 8,
        minute: 42,
        second: 54,
        millisecond: 879,
        tz_offset_hours: 0,
        tz_offset_minutes: 0,
    };
    let ymd = IsoDate::Ymd { year: 2023, month: 2, day: 13 };
    assert_eq!(
        iso_to_utc(IsoDateTime { date: ymd, time }),
        Some(Timestamp { seconds: 1_676_277_774, nanos: 879_000_000 })
    );
    let east = IsoTime { tz_offset_hours: 2, ..time };
    assert_eq!(
        iso_to_utc(IsoDateTime { date: ymd, time: east }),
        Some(Timestamp { seconds: 1_676_270_574, nanos: 879_000_000 })
    );
    let west = IsoTime { tz_offset_hours: -5, tz_offset_minutes: -30, ..time };
    assert_eq!(
        iso_to_utc(IsoDateTime { date: ymd, time: west }),
        Some(Timestamp { seconds: 1_676_297_574, nanos: 879_000_000 })
    );
    let midnight = IsoTime {
        hour: 0,
        minute: 0,
        second: 0,
        millisecond: 0,
        tz_offset_hours: 0,
        tz_offset_minutes: 0,
    };
    assert_eq!(
        iso_to_utc(IsoDateTime { date: IsoDate::Ordinal { year: 2023, day: 39 }, time: midnight }),
        Some(Timestamp { seconds: 1_675_814_400, nanos: 0 })
    );
    assert_eq!(
        iso_to_utc(IsoDateTime {
            date: IsoDate::Week { year: 2023, week: 6, day: 2 },
            time: midnight
        }),
        Some(Timestamp { seconds: 1_675_814_400, nanos: 0 })
    );
    assert_eq!(
        iso_to_utc(IsoDateTime {
            date: IsoDate::Week { year: 2023, week: 6, day: 7 },
            time: midnight
        }),
        None
    );
    assert_eq!(
        iso_to_utc(IsoDateTime { date: IsoDate::Ymd { year: 2023, month: 2, day: 30 }, time }),
        None
    );
    assert_eq!(
        iso_to_utc(IsoDateTime { date: ymd, time: IsoTime { hour: 24, ..time } }),
        None
    );
    assert_eq!(
        iso_to_utc(IsoDateTime { date: ymd, time: IsoTime { tz_offset_hours: 24, ..time } }),
        None
    );
    assert_eq!(
        iso_to_utc(IsoDateTime { date: ymd, time: IsoTime { tz_offset_hours: i32::MAX, ..time } }),
        None
    );
}

#[test]
fn points_in_time_are_written_in_rfc3339() {
    assert_eq!(
        to_rfc3339(Timestamp { seconds: 1_676_277_774, nanos: 879_000_000 }).as_deref(),
        Some("2023-02-13T08:42:54.879+00:00")
    );
    assert_eq!(
        to_rfc3339(Timestamp { seconds: 0, nanos: 0 }).as_deref(),
        Some("1970-01-01T00:00:00+00:00")
    );
    assert_eq!(to_rfc3339(Timestamp { seconds: 0, nanos: -1 }), None);
    assert_eq!(to_rfc3339(Timestamp { seconds: i64::MAX, nanos: 0 }), None);
}

#[test]
fn tailer_stops_when_its_file_is_no_longer_configured() {
    assert_eq!(on_new_line(true), WatchStep::Parse);
    assert_eq!(on_new_line(false), WatchStep::Stop);
}

#[test]
fn rfc3339_is_tried_when_iso8601_fails() {
    // a space between date and time is no ISO 8601 date and time
    assert_eq!(
        parse_timestamp("2023-02-13 08:42:54+02:00"),
        Some(Timestamp { seconds: 1_676_270_574, nanos: 0 })
    );
}
