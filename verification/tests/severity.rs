use rlog::severity::{OTELSeverity, SyslogFacility, SyslogSeverity};

#[test]
fn syslog_severity_maps_to_otel_by_the_fixed_table() {
    let table = [
        (SyslogSeverity::Emergency, OTELSeverity::FATAL4, "FATAL4", 24u8),
        (SyslogSeverity::Alert, OTELSeverity::FATAL3, "FATAL3", 23),
        (SyslogSeverity::Critical, OTELSeverity::FATAL, "FATAL", 21),
        (SyslogSeverity::Error, OTELSeverity::ERROR, "ERROR", 17),
        (SyslogSeverity::Warning, OTELSeverity::WARN, "WARN", 13),
        (SyslogSeverity::Notice, OTELSeverity::INFO3, "INFO3", 11),
        (SyslogSeverity::Info, OTELSeverity::INFO, "INFO", 9),
        (SyslogSeverity::Debug, OTELSeverity::DEBUG, "DEBUG", 5),
    ];
    for (syslog, otel, name, number) in table {
        let mapped = OTELSeverity::from(syslog);
        assert_eq!(mapped, otel);
        assert_eq!(mapped.to_string(), name);
        assert_eq!(mapped.number(), number);
    }
}

#[test]
fn otel_numbers_follow_declaration_order() {
    assert_eq!(OTELSeverity::UNSPECIFIED.number(), 0);
    assert_eq!(OTELSeverity::TRACE.number(), 1);
    assert_eq!(OTELSeverity::DEBUG4.number(), 8);
    assert_eq!(OTELSeverity::INFO2.number(), 10);
    assert_eq!(OTELSeverity::WARN4.number(), 16);
    assert_eq!(OTELSeverity::ERROR4.number(), 20);
    assert_eq!(OTELSeverity::FATAL2.number(), 22);
    assert_eq!(OTELSeverity::FATAL2.to_string(), "FATAL2");
}

#[test]
fn severity_numbers_above_seven_read_as_debug() {
    assert_eq!(SyslogSeverity::from(0u64), SyslogSeverity::Emergency);
    assert_eq!(SyslogSeverity::from(3u64), SyslogSeverity::Error);
    assert_eq!(SyslogSeverity::from(7u64), SyslogSeverity::Debug);
    assert_eq!(SyslogSeverity::from(8u64), SyslogSeverity::Debug);
    assert_eq!(SyslogSeverity::from(u64::MAX), SyslogSeverity::Debug);
    assert_eq!(SyslogSeverity::from_i32(-1), SyslogSeverity::Debug);
    assert_eq!(SyslogSeverity::from_i32(6), SyslogSeverity::Info);
}

#[test]
fn severity_number_round_trips() {
    for n in 0..8 {
        assert_eq!(SyslogSeverity::from_i32(n).number() as i32, n);
    }
}

#[test]
fn severity_names_are_the_upper_case_keywords() {
    assert_eq!(SyslogSeverity::from_str_name("INFO"), Some(SyslogSeverity::Info));
    assert_eq!(SyslogSeverity::from_str_name("ERROR"), Some(SyslogSeverity::Error));
    assert_eq!(SyslogSeverity::from_str_name("EMERGENCY"), Some(SyslogSeverity::Emergency));
    assert_eq!(SyslogSeverity::from_str_name("info"), None);
    assert_eq!(SyslogSeverity::from_str_name("INFO "), None);
    assert_eq!(SyslogSeverity::from_str_name("WARN"), None);
    assert_eq!(SyslogSeverity::from_str_name(""), None);
}

#[test]
fn facility_names_are_lowercase() {
    assert_eq!(SyslogFacility::Local0.as_str_name(), "local0");
    assert_eq!(SyslogFacility::Mail.as_str_name(), "mail");
    assert_eq!(SyslogFacility::Kernel.as_str_name(), "kernel");
    assert_eq!(SyslogFacility::Kernel.as_str(), "kern");
    assert_eq!(SyslogFacility::Audit.as_str(), "audit");
    assert_eq!(SyslogFacility::Local7.number(), 23);
    assert_eq!(SyslogFacility::from_i32(16), Some(SyslogFacility::Local0));
    assert_eq!(SyslogFacility::from_i32(2), Some(SyslogFacility::Mail));
    assert_eq!(SyslogFacility::from_i32(24), None);
    assert_eq!(SyslogFacility::from_i32(-1), None);
}
