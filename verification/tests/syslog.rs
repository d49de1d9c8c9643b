use rlog::config::SyslogExclusionFilter;
use rlog::entry::{IndexLogEntry, LogSystem};
use rlog::eqregex::EqRegex;
use rlog::json::{get, JsonValue};
use rlog::severity::{SyslogFacility, SyslogSeverity};
use rlog::syslog::{is_excluded, parse_datagram, verdict, ProcId, SyslogError, SyslogLog};
use rlog::wire::{Line, LogLine, Timestamp};

fn message(appname: Option<&str>, facility: Option<SyslogFacility>, msg: &str) -> SyslogLog {
    SyslogLog {
        facility,
        severity: None,
        timestamp: None,
        hostname: None,
        appname: appname.map(|s| s.to_string()),
        procid: None,
        msgid: None,
        msg: msg.to_string(),
    }
}

fn filter(appname: Option<&str>, facility: Option<&str>, msg: Option<&str>) -> SyslogExclusionFilter {
    SyslogExclusionFilter {
        appname: appname.map(|p| EqRegex::new(p).unwrap()),
        facility: facility.map(|p| EqRegex::new(p).unwrap()),
        message: msg.map(|p| EqRegex::new(p).unwrap()),
    }
}

#[test]
fn test_excluded() {
    let message1 = message(
        Some("my-ultimate-app.sh"),
        Some(SyslogFacility::Audit),
        "natty line some stuff in there",
    );
    let message2 =
        message(Some("postfix"), Some(SyslogFacility::Audit), "natty line some stuff in there");

    assert!(!is_excluded(&message1, &vec![]));

    let filters = vec![SyslogExclusionFilter {
        appname: Some(EqRegex::new("my-ultimate-app.*").unwrap()),
        facility: None,
        message: Some(EqRegex::new("natty").unwrap()),
    }];

    assert!(is_excluded(&message1, &filters));
    assert!(!is_excluded(&message2, &filters));
}

#[test]
fn only_the_first_filter_is_asked() {
    let msg = message(Some("postfix"), Some(SyslogFacility::Mail), "queue active");
    let matching = filter(Some("^postfix$"), None, None);
    let other = filter(Some("^cron$"), None, None);
    assert!(is_excluded(&msg, &vec![filter(Some("^postfix$"), None, None)]));
    assert!(is_excluded(&msg, &vec![matching, other]));
    let matching = filter(Some("^postfix$"), None, None);
    let other = filter(Some("^cron$"), None, None);
    assert!(!is_excluded(&msg, &vec![other, matching]));
}

#[test]
fn every_pattern_that_applies_must_match() {
    let msg = message(Some("postfix"), Some(SyslogFacility::Mail), "queue active");
    assert_eq!(verdict(&filter(Some("postfix"), Some("mail"), Some("queue")), &msg), Some(true));
    assert_eq!(verdict(&filter(Some("postfix"), Some("auth"), Some("queue")), &msg), Some(false));
    assert_eq!(verdict(&filter(Some("postfix"), Some("mail"), Some("nothing")), &msg), Some(false));
    assert_eq!(verdict(&filter(Some("cron"), Some("mail"), Some("queue")), &msg), Some(false));
    assert_eq!(verdict(&filter(None, Some("^mail$"), None), &msg), Some(true));
    assert_eq!(verdict(&filter(None, None, Some("^queue")), &msg), Some(true));
    assert_eq!(verdict(&filter(None, None, None), &msg), None);
    assert!(!is_excluded(&msg, &vec![filter(None, None, None)]));
}

#[test]
fn a_field_that_the_message_lacks_is_not_tried() {
    let msg = message(None, None, "queue active");
    assert_eq!(verdict(&filter(Some("postfix"), None, None), &msg), None);
    assert_eq!(verdict(&filter(Some("postfix"), Some("mail"), None), &msg), None);
    assert_eq!(verdict(&filter(Some("postfix"), Some("mail"), Some("queue")), &msg), Some(true));
    assert!(!is_excluded(&msg, &vec![filter(Some("postfix"), None, None)]));
}

#[test]
fn the_kernel_facility_is_matched_by_its_syslog_keyword() {
    let msg = message(None, Some(SyslogFacility::Kernel), "oom");
    assert_eq!(verdict(&filter(None, Some("^kern$"), None), &msg), Some(true));
    assert_eq!(verdict(&filter(None, Some("^kernel$"), None), &msg), Some(false));
    let msg = message(None, Some(SyslogFacility::Local0), "x");
    assert_eq!(verdict(&filter(None, Some("^local0$"), None), &msg), Some(true));
}

#[test]
fn rfc5424_datagram_is_parsed() {
    let log = parse_datagram(
        b"<134>1 2023-02-13T08:42:54.879Z my_host my_app 1234 - - hello world",
    );
    assert_eq!(log.facility, Some(SyslogFacility::Local0));
    assert_eq!(log.severity, Some(SyslogSeverity::Info));
    assert_eq!(log.timestamp, Some(Timestamp { seconds: 1_676_277_774, nanos: 879_000_000 }));
    assert_eq!(log.hostname.as_deref(), Some("my_host"));
    assert_eq!(log.appname.as_deref(), Some("my_app"));
    assert!(matches!(log.procid, Some(ProcId::Pid(1234))));
    assert_eq!(log.msgid, None);
    assert_eq!(log.msg, "hello world");
}

#[test]
fn syslog_info_from_local0_reaches_the_index() {
    let log = parse_datagram(
        b"<134>1 2023-02-13T08:42:54.879Z my_host my_app 1234 - - hello world",
    );
    let line = LogLine::try_from_syslog(log).unwrap();
    let entry = IndexLogEntry::try_from(line).unwrap();
    assert_eq!(entry.message, "hello world");
    assert_eq!(entry.service_name, "my_app");
    assert_eq!(entry.hostname, "my_host");
    assert_eq!(entry.severity_text, "INFO");
    assert_eq!(entry.log_system, LogSystem::Syslog);
    assert_eq!(entry.timestamp, 1_676_277_774_879);
    assert!(matches!(get(&entry.free_fields, "facility"), Some(JsonValue::Text(t)) if t == "local0"));
    assert_eq!(get(&entry.free_fields, "proc_pid").and_then(|v| v.as_i64()), Some(1234));
}

#[test]
fn syslog_error_from_mail_reaches_the_index() {
    // facility mail (2) and severity err (3): priority 19
    let log = parse_datagram(
        b"<19>1 2023-02-13T08:42:54Z my_host my_app2 12345 - - hello world2",
    );
    let entry = IndexLogEntry::try_from(LogLine::try_from_syslog(log).unwrap()).unwrap();
    assert_eq!(entry.message, "hello world2");
    assert_eq!(entry.service_name, "my_app2");
    assert_eq!(entry.severity_text, "ERROR");
    assert!(matches!(get(&entry.free_fields, "facility"), Some(JsonValue::Text(t)) if t == "mail"));
    assert_eq!(get(&entry.free_fields, "proc_pid").and_then(|v| v.as_i64()), Some(12345));
}

#[test]
fn textual_procid_is_a_name() {
    let log = parse_datagram(b"<134>1 2023-02-13T08:42:54Z my_host my_app worker-1 ID47 - hello");
    assert!(matches!(&log.procid, Some(ProcId::Name(n)) if n == "worker-1"));
    assert_eq!(log.msgid.as_deref(), Some("ID47"));
    let line = LogLine::try_from_syslog(log).unwrap();
    match line.line {
        Some(Line::Syslog(l)) => {
            assert_eq!(l.proc_pid, None);
            assert_eq!(l.proc_name.as_deref(), Some("worker-1"));
            assert_eq!(l.msgid.as_deref(), Some("ID47"));
            assert_eq!(l.facility, 16);
            assert_eq!(l.severity, 6);
        }
        other => panic!("not a syslog line: {:?}", other),
    }
}

fn full_log() -> SyslogLog {
    SyslogLog {
        facility: Some(SyslogFacility::Daemon),
        severity: Some(SyslogSeverity::Warning),
        timestamp: Some(Timestamp { seconds: 5, nanos: 7 }),
        hostname: Some("h".to_string()),
        appname: Some("app".to_string()),
        procid: Some(ProcId::Pid(42)),
        msgid: None,
        msg: "m".to_string(),
    }
}

#[test]
fn syslog_message_becomes_a_log_line() {
    let line = LogLine::try_from_syslog(full_log()).unwrap();
    assert_eq!(line.host, "h");
    assert_eq!(line.timestamp, Some(Timestamp { seconds: 5, nanos: 7 }));
    match line.line {
        Some(Line::Syslog(l)) => {
            assert_eq!(l.facility, 3);
            assert_eq!(l.severity, 4);
            assert_eq!(l.appname.as_deref(), Some("app"));
            assert_eq!(l.proc_pid, Some(42));
            assert_eq!(l.proc_name, None);
            assert_eq!(l.msg, "m");
        }
        other => panic!("not a syslog line: {:?}", other),
    }
}

#[test]
fn missing_facility_counts_as_local0() {
    let mut log = full_log();
    log.facility = None;
    log.procid = Some(ProcId::Pid(-1));
    match LogLine::try_from_syslog(log).unwrap().line {
        Some(Line::Syslog(l)) => {
            assert_eq!(l.facility, 16);
            assert_eq!(l.proc_pid, Some(u32::MAX));
        }
        other => panic!("not a syslog line: {:?}", other),
    }
}

#[test]
fn syslog_message_needs_hostname_timestamp_and_severity() {
    let mut log = full_log();
    log.hostname = None;
    log.timestamp = None;
    log.severity = None;
    assert_eq!(LogLine::try_from_syslog(log).err(), Some(SyslogError::NoHostname));
    let mut log = full_log();
    log.timestamp = None;
    log.severity = None;
    assert_eq!(LogLine::try_from_syslog(log).err(), Some(SyslogError::NoTimestamp));
    let mut log = full_log();
    log.severity = None;
    assert_eq!(LogLine::try_from_syslog(log).err(), Some(SyslogError::NoSeverity));
}

#[test]
fn regex_is_compared_by_its_pattern() {
    let a = EqRegex::new("^a+$").unwrap();
    let b = EqRegex::new("^a+$").unwrap();
    let c = EqRegex::new("^a*$").unwrap();
    assert!(a == b);
    assert!(a != c);
    assert!(a.clone() == a);
    assert_eq!(a.as_str(), "^a+$");
    assert!(a.is_match("aaa"));
    assert!(!a.is_match(""));
    assert!(c.is_match(""));
    assert!(EqRegex::new("(unclosed").is_err());
    assert!(a.clone().is_match("a"));
}

#[test]
fn capture_groups_start_with_the_whole_match() {
    let re = EqRegex::new(r"^(\w+)-(\d+)?(x)?$").unwrap();
    assert_eq!(
        re.captures("abc-12"),
        Some(vec![Some("abc-12".to_string()), Some("abc".to_string()), Some("12".to_string()), None])
    );
    assert_eq!(
        re.captures("abc-"),
        Some(vec![Some("abc-".to_string()), Some("abc".to_string()), None, None])
    );
    assert_eq!(re.captures("nothing"), None);
    let plain = EqRegex::new("abc").unwrap();
    assert_eq!(plain.captures("xabcx"), Some(vec![Some("abc".to_string())]));
}

#[test]
fn bytes_that_are_not_utf8_are_replaced() {
    let mut datagram = b"<134>1 2023-02-13T08:42:54Z my_host my_app 1 - - caf".to_vec();
    datagram.push(0xff);
    let log = parse_datagram(&datagram);
    assert_eq!(log.msg, "caf\u{fffd}");
    assert_eq!(log.hostname.as_deref(), Some("my_host"));
    let log = parse_datagram("<134>1 2023-02-13T08:42:54Z my_host my_app 1 - - café".as_bytes());
    assert_eq!(log.msg, "café");
}

#[test]
fn text_that_is_no_syslog_message_has_no_header() {
    let log = parse_datagram(b"");
    assert_eq!(log.hostname, None);
    assert_eq!(log.severity, None);
    assert_eq!(log.msg, "");
    assert_eq!(LogLine::try_from_syslog(log).err(), Some(SyslogError::NoHostname));
}

#[test]
fn every_text_of_a_message_is_a_part_of_the_datagram() {
    let datagrams: [&str; 6] = [
        "<134>1 2023-02-13T08:42:54.879Z my_host my_app worker ID47 - hello world",
        "<34>Oct 11 22:14:15 mymachine su[230]: 'su root' failed for lonvick on /dev/pts/8",
        "  <13>Feb  5 17:32:18 10.0.0.99 Use the BFG!  ",
        "no header at all",
        "<999>1 - - - - - -",
        "",
    ];
    for text in datagrams {
        let log = parse_datagram(text.as_bytes());
        assert!(text.contains(log.msg.as_str()), "{}", text);
        for part in [&log.hostname, &log.appname, &log.msgid] {
            if let Some(part) = part {
                assert!(text.contains(part.as_str()), "{}", text);
            }
        }
        if let Some(ProcId::Name(name)) = &log.procid {
            assert!(text.contains(name.as_str()), "{}", text);
        }
    }
}

#[test]
fn a_datagram_without_priority_has_neither_facility_nor_severity() {
    let datagrams: [&str; 4] = [
        "1 2023-02-13T08:42:54Z my_host my_app 1234 - - hello world",
        "Oct 11 22:14:15 mymachine su[230]: failed",
        "plain text",
        " 134>1 2023-02-13T08:42:54Z my_host my_app 1234 - - hello",
    ];
    for text in datagrams {
        let log = parse_datagram(text.as_bytes());
        assert_eq!(log.facility, None, "{}", text);
        assert_eq!(log.severity, None, "{}", text);
        assert!(LogLine::try_from_syslog(log).is_err(), "{}", text);
    }
    // white space in front of the priority does not count
    let log = parse_datagram(b"  <134>1 2023-02-13T08:42:54Z my_host my_app 1234 - - hello");
    assert_eq!(log.facility, Some(SyslogFacility::Local0));
    assert_eq!(log.severity, Some(SyslogSeverity::Info));
}
