//! Syslog severities and facilities, OpenTelemetry severities, and the fixed table
//! between them.

use vstd::prelude::*;

use crate::text::str_eq;

verus! {

/// Syslog severity, numbered 0 (most severe) to 7 as on the wire.
#[derive(Clone, Copy, Debug, PartialEq, Eq, Structural)]
pub enum SyslogSeverity {
    Emergency,
    Alert,
    Critical,
    Error,
    Warning,
    Notice,
    Info,
    Debug,
}

/// Syslog facility, numbered 0 to 23 as on the wire.
#[derive(Clone, Copy, Debug, PartialEq, Eq, Structural)]
pub enum SyslogFacility {
    Kernel,
    User,
    Mail,
    Daemon,
    Auth,
    Syslog,
    Lpr,
    News,
    Uucp,
    Cron,
    Authpriv,
    Ftp,
    Ntp,
    Audit,
    Alert,
    Clockd,
    Local0,
    Local1,
    Local2,
    Local3,
    Local4,
    Local5,
    Local6,
    Local7,
}

/// OpenTelemetry severity, numbered 0 to 24 in declaration order.
#[allow(non_camel_case_types)]
#[derive(Clone, Copy, Debug, PartialEq, Eq, Structural)]
pub enum OTELSeverity {
    /// The default severity number; it must not be used for a record.
    UNSPECIFIED,
    TRACE,
    TRACE2,
    TRACE3,
    TRACE4,
    DEBUG,
    DEBUG2,
    DEBUG3,
    DEBUG4,
    INFO,
    INFO2,
    INFO3,
    INFO4,
    WARN,
    WARN2,
    WARN3,
    WARN4,
    ERROR,
    ERROR2,
    ERROR3,
    ERROR4,
    FATAL,
    FATAL2,
    FATAL3,
    FATAL4,
}

/// The severity that a wire number stands for: 0 to 7 in order, anything else `Debug`.
pub open spec fn severity_of_number(n: int) -> SyslogSeverity {
    if n == 0 {
        SyslogSeverity::Emergency
    } else if n == 1 {
        SyslogSeverity::Alert
    } else if n == 2 {
        SyslogSeverity::Critical
    } else if n == 3 {
        SyslogSeverity::Error
    } else if n == 4 {
        SyslogSeverity::Warning
    } else if n == 5 {
        SyslogSeverity::Notice
    } else if n == 6 {
        SyslogSeverity::Info
    } else {
        SyslogSeverity::Debug
    }
}

/// The wire number of a severity.
pub open spec fn severity_number(s: SyslogSeverity) -> int {
    match s {
        SyslogSeverity::Emergency => 0,
        SyslogSeverity::Alert => 1,
        SyslogSeverity::Critical => 2,
        SyslogSeverity::Error => 3,
        SyslogSeverity::Warning => 4,
        SyslogSeverity::Notice => 5,
        SyslogSeverity::Info => 6,
        SyslogSeverity::Debug => 7,
    }
}

/// The fixed table from syslog to OpenTelemetry severity.
pub open spec fn syslog_to_otel(s: SyslogSeverity) -> OTELSeverity {
    match s {
        SyslogSeverity::Emergency => OTELSeverity::FATAL4,
        SyslogSeverity::Alert => OTELSeverity::FATAL3,
        SyslogSeverity::Critical => OTELSeverity::FATAL,
        SyslogSeverity::Error => OTELSeverity::ERROR,
        SyslogSeverity::Warning => OTELSeverity::WARN,
        SyslogSeverity::Notice => OTELSeverity::INFO3,
        SyslogSeverity::Info => OTELSeverity::INFO,
        SyslogSeverity::Debug => OTELSeverity::DEBUG,
    }
}

/// The OpenTelemetry severity number, 0 to 24.
pub open spec fn otel_number(s: OTELSeverity) -> int {
    match s {
        OTELSeverity::UNSPECIFIED => 0,
        OTELSeverity::TRACE => 1,
        OTELSeverity::TRACE2 => 2,
        OTELSeverity::TRACE3 => 3,
        OTELSeverity::TRACE4 => 4,
        OTELSeverity::DEBUG => 5,
        OTELSeverity::DEBUG2 => 6,
        OTELSeverity::DEBUG3 => 7,
        OTELSeverity::DEBUG4 => 8,
        OTELSeverity::INFO => 9,
        OTELSeverity::INFO2 => 10,
        OTELSeverity::INFO3 => 11,
        OTELSeverity::INFO4 => 12,
        OTELSeverity::WARN => 13,
        OTELSeverity::WARN2 => 14,
        OTELSeverity::WARN3 => 15,
        OTELSeverity::WARN4 => 16,
        OTELSeverity::ERROR => 17,
        OTELSeverity::ERROR2 => 18,
        OTELSeverity::ERROR3 => 19,
        OTELSeverity::ERROR4 => 20,
        OTELSeverity::FATAL => 21,
        OTELSeverity::FATAL2 => 22,
        OTELSeverity::FATAL3 => 23,
        OTELSeverity::FATAL4 => 24,
    }
}

/// The OpenTelemetry severity name: the variant's name as written.
pub open spec fn otel_name(s: OTELSeverity) -> Seq<char> {
    match s {
        OTELSeverity::UNSPECIFIED => "UNSPECIFIED"@,
        OTELSeverity::TRACE => "TRACE"@,
        OTELSeverity::TRACE2 => "TRACE2"@,
        OTELSeverity::TRACE3 => "TRACE3"@,
        OTELSeverity::TRACE4 => "TRACE4"@,
        OTELSeverity::DEBUG => "DEBUG"@,
        OTELSeverity::DEBUG2 => "DEBUG2"@,
        OTELSeverity::DEBUG3 => "DEBUG3"@,
        OTELSeverity::DEBUG4 => "DEBUG4"@,
        OTELSeverity::INFO => "INFO"@,
        OTELSeverity::INFO2 => "INFO2"@,
        OTELSeverity::INFO3 => "INFO3"@,
        OTELSeverity::INFO4 => "INFO4"@,
        OTELSeverity::WARN => "WARN"@,
        OTELSeverity::WARN2 => "WARN2"@,
        OTELSeverity::WARN3 => "WARN3"@,
        OTELSeverity::WARN4 => "WARN4"@,
        OTELSeverity::ERROR => "ERROR"@,
        OTELSeverity::ERROR2 => "ERROR2"@,
        OTELSeverity::ERROR3 => "ERROR3"@,
        OTELSeverity::ERROR4 => "ERROR4"@,
        OTELSeverity::FATAL => "FATAL"@,
        OTELSeverity::FATAL2 => "FATAL2"@,
        OTELSeverity::FATAL3 => "FATAL3"@,
        OTELSeverity::FATAL4 => "FATAL4"@,
    }
}

/// The facility that a wire number stands for, if it is one of 0 to 23.
pub open spec fn facility_of_number(n: int) -> Option<SyslogFacility> {
    if n == 0 {
        Some(SyslogFacility::Kernel)
    } else if n == 1 {
        Some(SyslogFacility::User)
    } else if n == 2 {
        Some(SyslogFacility::Mail)
    } else if n == 3 {
        Some(SyslogFacility::Daemon)
    } else if n == 4 {
        Some(SyslogFacility::Auth)
    } else if n == 5 {
        Some(SyslogFacility::Syslog)
    } else if n == 6 {
        Some(SyslogFacility::Lpr)
    } else if n == 7 {
        Some(SyslogFacility::News)
    } else if n == 8 {
        Some(SyslogFacility::Uucp)
    } else if n == 9 {
        Some(SyslogFacility::Cron)
    } else if n == 10 {
        Some(SyslogFacility::Authpriv)
    } else if n == 11 {
        Some(SyslogFacility::Ftp)
    } else if n == 12 {
        Some(SyslogFacility::Ntp)
    } else if n == 13 {
        Some(SyslogFacility::Audit)
    } else if n == 14 {
        Some(SyslogFacility::Alert)
    } else if n == 15 {
        Some(SyslogFacility::Clockd)
    } else if n == 16 {
        Some(SyslogFacility::Local0)
    } else if n == 17 {
        Some(SyslogFacility::Local1)
    } else if n == 18 {
        Some(SyslogFacility::Local2)
    } else if n == 19 {
        Some(SyslogFacility::Local3)
    } else if n == 20 {
        Some(SyslogFacility::Local4)
    } else if n == 21 {
        Some(SyslogFacility::Local5)
    } else if n == 22 {
        Some(SyslogFacility::Local6)
    } else if n == 23 {
        Some(SyslogFacility::Local7)
    } else {
        None
    }
}

/// The wire number of a facility.
pub open spec fn facility_number(f: SyslogFacility) -> int {
    match f {
        SyslogFacility::Kernel => 0,
        SyslogFacility::User => 1,
        SyslogFacility::Mail => 2,
        SyslogFacility::Daemon => 3,
        SyslogFacility::Auth => 4,
        SyslogFacility::Syslog => 5,
        SyslogFacility::Lpr => 6,
        SyslogFacility::News => 7,
        SyslogFacility::Uucp => 8,
        SyslogFacility::Cron => 9,
        SyslogFacility::Authpriv => 10,
        SyslogFacility::Ftp => 11,
        SyslogFacility::Ntp => 12,
        SyslogFacility::Audit => 13,
        SyslogFacility::Alert => 14,
        SyslogFacility::Clockd => 15,
        SyslogFacility::Local0 => 16,
        SyslogFacility::Local1 => 17,
        SyslogFacility::Local2 => 18,
        SyslogFacility::Local3 => 19,
        SyslogFacility::Local4 => 20,
        SyslogFacility::Local5 => 21,
        SyslogFacility::Local6 => 22,
        SyslogFacility::Local7 => 23,
    }
}

/// The keyword by which syslog itself names a facility.
pub open spec fn facility_keyword(f: SyslogFacility) -> Seq<char> {
    match f {
        SyslogFacility::Kernel => "kern"@,
        SyslogFacility::User => "user"@,
        SyslogFacility::Mail => "mail"@,
        SyslogFacility::Daemon => "daemon"@,
        SyslogFacility::Auth => "auth"@,
        SyslogFacility::Syslog => "syslog"@,
        SyslogFacility::Lpr => "lpr"@,
        SyslogFacility::News => "news"@,
        SyslogFacility::Uucp => "uucp"@,
        SyslogFacility::Cron => "cron"@,
        SyslogFacility::Authpriv => "authpriv"@,
        SyslogFacility::Ftp => "ftp"@,
        SyslogFacility::Ntp => "ntp"@,
        SyslogFacility::Audit => "audit"@,
        SyslogFacility::Alert => "alert"@,
        SyslogFacility::Clockd => "clockd"@,
        SyslogFacility::Local0 => "local0"@,
        SyslogFacility::Local1 => "local1"@,
        SyslogFacility::Local2 => "local2"@,
        SyslogFacility::Local3 => "local3"@,
        SyslogFacility::Local4 => "local4"@,
        SyslogFacility::Local5 => "local5"@,
        SyslogFacility::Local6 => "local6"@,
        SyslogFacility::Local7 => "local7"@,
    }
}

/// The lowercase name under which a facility is handed to the indexing backend.
pub open spec fn facility_name(f: SyslogFacility) -> Seq<char> {
    match f {
        SyslogFacility::Kernel => "kernel"@,
        SyslogFacility::User => "user"@,
        SyslogFacility::Mail => "mail"@,
        SyslogFacility::Daemon => "daemon"@,
        SyslogFacility::Auth => "auth"@,
        SyslogFacility::Syslog => "syslog"@,
        SyslogFacility::Lpr => "lpr"@,
        SyslogFacility::News => "news"@,
        SyslogFacility::Uucp => "uucp"@,
        SyslogFacility::Cron => "cron"@,
        SyslogFacility::Authpriv => "authpriv"@,
        SyslogFacility::Ftp => "ftp"@,
        SyslogFacility::Ntp => "ntp"@,
        SyslogFacility::Audit => "audit"@,
        SyslogFacility::Alert => "alert"@,
        SyslogFacility::Clockd => "clockd"@,
        SyslogFacility::Local0 => "local0"@,
        SyslogFacility::Local1 => "local1"@,
        SyslogFacility::Local2 => "local2"@,
        SyslogFacility::Local3 => "local3"@,
        SyslogFacility::Local4 => "local4"@,
        SyslogFacility::Local5 => "local5"@,
        SyslogFacility::Local6 => "local6"@,
        SyslogFacility::Local7 => "local7"@,
    }
}

/// The severity that a level name stands for: the upper-case syslog keyword, exactly.
pub open spec fn severity_of_name(name: Seq<char>) -> Option<SyslogSeverity> {
    if name == "EMERGENCY"@ {
        Some(SyslogSeverity::Emergency)
    } else if name == "ALERT"@ {
        Some(SyslogSeverity::Alert)
    } else if name == "CRITICAL"@ {
        Some(SyslogSeverity::Critical)
    } else if name == "ERROR"@ {
        Some(SyslogSeverity::Error)
    } else if name == "WARNING"@ {
        Some(SyslogSeverity::Warning)
    } else if name == "NOTICE"@ {
        Some(SyslogSeverity::Notice)
    } else if name == "INFO"@ {
        Some(SyslogSeverity::Info)
    } else if name == "DEBUG"@ {
        Some(SyslogSeverity::Debug)
    } else {
        None
    }
}

impl SyslogSeverity {
    /// The severity of a wire number; numbers outside 0 to 7 are read as `Debug`.
    pub fn from_i32(value: i32) -> (r: Self)
        ensures
            r == severity_of_number(value as int),
    {
        if value == 0 {
            SyslogSeverity::Emergency
        } else if value == 1 {
            SyslogSeverity::Alert
        } else if value == 2 {
            SyslogSeverity::Critical
        } else if value == 3 {
            SyslogSeverity::Error
        } else if value == 4 {
            SyslogSeverity::Warning
        } else if value == 5 {
            SyslogSeverity::Notice
        } else if value == 6 {
            SyslogSeverity::Info
        } else {
            SyslogSeverity::Debug
        }
    }

    /// The wire number of this severity.
    pub fn number(self) -> (r: u8)
        ensures
            r as int == severity_number(self),
            severity_of_number(r as int) == self,
    {
        match self {
            SyslogSeverity::Emergency => 0,
            SyslogSeverity::Alert => 1,
            SyslogSeverity::Critical => 2,
            SyslogSeverity::Error => 3,
            SyslogSeverity::Warning => 4,
            SyslogSeverity::Notice => 5,
            SyslogSeverity::Info => 6,
            SyslogSeverity::Debug => 7,
        }
    }

    /// Reads a level name. Only the eight upper-case keywords are names.
    pub fn from_str_name(name: &str) -> (r: Option<Self>)
        ensures
            r == severity_of_name(name@),
    {
        if str_eq(name, "EMERGENCY") {
            Some(SyslogSeverity::Emergency)
        } else if str_eq(name, "ALERT") {
            Some(SyslogSeverity::Alert)
        } else if str_eq(name, "CRITICAL") {
            Some(SyslogSeverity::Critical)
        } else if str_eq(name, "ERROR") {
            Some(SyslogSeverity::Error)
        } else if str_eq(name, "WARNING") {
            Some(SyslogSeverity::Warning)
        } else if str_eq(name, "NOTICE") {
            Some(SyslogSeverity::Notice)
        } else if str_eq(name, "INFO") {
            Some(SyslogSeverity::Info)
        } else if str_eq(name, "DEBUG") {
            Some(SyslogSeverity::Debug)
        } else {
            None
        }
    }
}

impl From<u64> for SyslogSeverity {
    fn from(value: u64) -> (r: Self) {
        if value == 0 {
            SyslogSeverity::Emergency
        } else if value == 1 {
            SyslogSeverity::Alert
        } else if value == 2 {
            SyslogSeverity::Critical
        } else if value == 3 {
            SyslogSeverity::Error
        } else if value == 4 {
            SyslogSeverity::Warning
        } else if value == 5 {
            SyslogSeverity::Notice
        } else if value == 6 {
            SyslogSeverity::Info
        } else {
            SyslogSeverity::Debug
        }
    }
}

impl vstd::std_specs::convert::FromSpecImpl<u64> for SyslogSeverity {
    open spec fn obeys_from_spec() -> bool {
        true
    }

    open spec fn from_spec(value: u64) -> Self {
        severity_of_number(value as int)
    }
}

impl From<SyslogSeverity> for OTELSeverity {
    fn from(value: SyslogSeverity) -> (r: Self) {
        match value {
            SyslogSeverity::Emergency => OTELSeverity::FATAL4,
            SyslogSeverity::Alert => OTELSeverity::FATAL3,
            SyslogSeverity::Critical => OTELSeverity::FATAL,
            SyslogSeverity::Error => OTELSeverity::ERROR,
            SyslogSeverity::Warning => OTELSeverity::WARN,
            SyslogSeverity::Notice => OTELSeverity::INFO3,
            SyslogSeverity::Info => OTELSeverity::INFO,
            SyslogSeverity::Debug => OTELSeverity::DEBUG,
        }
    }
}

impl vstd::std_specs::convert::FromSpecImpl<SyslogSeverity> for OTELSeverity {
    open spec fn obeys_from_spec() -> bool {
        true
    }

    open spec fn from_spec(value: SyslogSeverity) -> Self {
        syslog_to_otel(value)
    }
}

impl OTELSeverity {
    /// The severity number, 0 to 24.
    pub fn number(self) -> (r: u8)
        ensures
            r as int == otel_number(self),
    {
        match self {
            OTELSeverity::UNSPECIFIED => 0,
            OTELSeverity::TRACE => 1,
            OTELSeverity::TRACE2 => 2,
            OTELSeverity::TRACE3 => 3,
            OTELSeverity::TRACE4 => 4,
            OTELSeverity::DEBUG => 5,
            OTELSeverity::DEBUG2 => 6,
            OTELSeverity::DEBUG3 => 7,
            OTELSeverity::DEBUG4 => 8,
            OTELSeverity::INFO => 9,
            OTELSeverity::INFO2 => 10,
            OTELSeverity::INFO3 => 11,
            OTELSeverity::INFO4 => 12,
            OTELSeverity::WARN => 13,
            OTELSeverity::WARN2 => 14,
            OTELSeverity::WARN3 => 15,
            OTELSeverity::WARN4 => 16,
            OTELSeverity::ERROR => 17,
            OTELSeverity::ERROR2 => 18,
            OTELSeverity::ERROR3 => 19,
            OTELSeverity::ERROR4 => 20,
            OTELSeverity::FATAL => 21,
            OTELSeverity::FATAL2 => 22,
            OTELSeverity::FATAL3 => 23,
            OTELSeverity::FATAL4 => 24,
        }
    }

    /// The severity name as text.
    pub fn to_string(&self) -> (r: String)
        ensures
            r@ == otel_name(*self),
    {
        let name: &str = match self {
            OTELSeverity::UNSPECIFIED => "UNSPECIFIED",
            OTELSeverity::TRACE => "TRACE",
            OTELSeverity::TRACE2 => "TRACE2",
            OTELSeverity::TRACE3 => "TRACE3",
            OTELSeverity::TRACE4 => "TRACE4",
            OTELSeverity::DEBUG => "DEBUG",
            OTELSeverity::DEBUG2 => "DEBUG2",
            OTELSeverity::DEBUG3 => "DEBUG3",
            OTELSeverity::DEBUG4 => "DEBUG4",
            OTELSeverity::INFO => "INFO",
            OTELSeverity::INFO2 => "INFO2",
            OTELSeverity::INFO3 => "INFO3",
            OTELSeverity::INFO4 => "INFO4",
            OTELSeverity::WARN => "WARN",
            OTELSeverity::WARN2 => "WARN2",
            OTELSeverity::WARN3 => "WARN3",
            OTELSeverity::WARN4 => "WARN4",
            OTELSeverity::ERROR => "ERROR",
            OTELSeverity::ERROR2 => "ERROR2",
            OTELSeverity::ERROR3 => "ERROR3",
            OTELSeverity::ERROR4 => "ERROR4",
            OTELSeverity::FATAL => "FATAL",
            OTELSeverity::FATAL2 => "FATAL2",
            OTELSeverity::FATAL3 => "FATAL3",
            OTELSeverity::FATAL4 => "FATAL4",
        };
        String::from_str(name)
    }
}

impl SyslogFacility {
    /// The facility of a wire number, if the number is one of 0 to 23.
    pub fn from_i32(value: i32) -> (r: Option<Self>)
        ensures
            r == facility_of_number(value as int),
    {
        if value == 0 {
            Some(SyslogFacility::Kernel)
        } else if value == 1 {
            Some(SyslogFacility::User)
        } else if value == 2 {
            Some(SyslogFacility::Mail)
        } else if value == 3 {
            Some(SyslogFacility::Daemon)
        } else if value == 4 {
            Some(SyslogFacility::Auth)
        } else if value == 5 {
            Some(SyslogFacility::Syslog)
        } else if value == 6 {
            Some(SyslogFacility::Lpr)
        } else if value == 7 {
            Some(SyslogFacility::News)
        } else if value == 8 {
            Some(SyslogFacility::Uucp)
        } else if value == 9 {
            Some(SyslogFacility::Cron)
        } else if value == 10 {
            Some(SyslogFacility::Authpriv)
        } else if value == 11 {
            Some(SyslogFacility::Ftp)
        } else if value == 12 {
            Some(SyslogFacility::Ntp)
        } else if value == 13 {
            Some(SyslogFacility::Audit)
        } else if value == 14 {
            Some(SyslogFacility::Alert)
        } else if value == 15 {
            Some(SyslogFacility::Clockd)
        } else if value == 16 {
            Some(SyslogFacility::Local0)
        } else if value == 17 {
            Some(SyslogFacility::Local1)
        } else if value == 18 {
            Some(SyslogFacility::Local2)
        } else if value == 19 {
            Some(SyslogFacility::Local3)
        } else if value == 20 {
            Some(SyslogFacility::Local4)
        } else if value == 21 {
            Some(SyslogFacility::Local5)
        } else if value == 22 {
            Some(SyslogFacility::Local6)
        } else if value == 23 {
            Some(SyslogFacility::Local7)
        } else {
            None
        }
    }

    /// The wire number of this facility.
    pub fn number(self) -> (r: u8)
        ensures
            r as int == facility_number(self),
            facility_of_number(r as int) == Some(self),
    {
        match self {
            SyslogFacility::Kernel => 0,
            SyslogFacility::User => 1,
            SyslogFacility::Mail => 2,
            SyslogFacility::Daemon => 3,
            SyslogFacility::Auth => 4,
            SyslogFacility::Syslog => 5,
            SyslogFacility::Lpr => 6,
            SyslogFacility::News => 7,
            SyslogFacility::Uucp => 8,
            SyslogFacility::Cron => 9,
            SyslogFacility::Authpriv => 10,
            SyslogFacility::Ftp => 11,
            SyslogFacility::Ntp => 12,
            SyslogFacility::Audit => 13,
            SyslogFacility::Alert => 14,
            SyslogFacility::Clockd => 15,
            SyslogFacility::Local0 => 16,
            SyslogFacility::Local1 => 17,
            SyslogFacility::Local2 => 18,
            SyslogFacility::Local3 => 19,
            SyslogFacility::Local4 => 20,
            SyslogFacility::Local5 => 21,
            SyslogFacility::Local6 => 22,
            SyslogFacility::Local7 => 23,
        }
    }

    /// The lowercase facility name.
    pub fn as_str_name(&self) -> (r: &'static str)
        ensures
            r@ == facility_name(*self),
    {
        match self {
            SyslogFacility::Kernel => "kernel",
            SyslogFacility::User => "user",
            SyslogFacility::Mail => "mail",
            SyslogFacility::Daemon => "daemon",
            SyslogFacility::Auth => "auth",
            SyslogFacility::Syslog => "syslog",
            SyslogFacility::Lpr => "lpr",
            SyslogFacility::News => "news",
            SyslogFacility::Uucp => "uucp",
            SyslogFacility::Cron => "cron",
            SyslogFacility::Authpriv => "authpriv",
            SyslogFacility::Ftp => "ftp",
            SyslogFacility::Ntp => "ntp",
            SyslogFacility::Audit => "audit",
            SyslogFacility::Alert => "alert",
            SyslogFacility::Clockd => "clockd",
            SyslogFacility::Local0 => "local0",
            SyslogFacility::Local1 => "local1",
            SyslogFacility::Local2 => "local2",
            SyslogFacility::Local3 => "local3",
            SyslogFacility::Local4 => "local4",
            SyslogFacility::Local5 => "local5",
            SyslogFacility::Local6 => "local6",
            SyslogFacility::Local7 => "local7",
        }
    }
}

} // verus!
