//! The records that travel from a shipper to the collector: one log line per call,
//! and a periodic metrics snapshot.

use vstd::prelude::*;

use crate::severity::{
    facility_of_number, severity_of_number, SyslogFacility, SyslogSeverity,
};
use crate::text::opt_text;

verus! {

/// A point in time: seconds since the epoch and the nanoseconds within that second.
#[derive(Clone, Copy, Debug, PartialEq, Eq, Structural)]
pub struct Timestamp {
    pub seconds: i64,
    pub nanos: i32,
}

/// The syslog variant of a log line. Facility and severity travel as numbers.
#[derive(Clone, Debug)]
pub struct SyslogLogLine {
    pub facility: i32,
    pub severity: i32,
    pub appname: Option<String>,
    pub proc_pid: Option<u32>,
    pub proc_name: Option<String>,
    pub msgid: Option<String>,
    pub msg: String,
}

/// The GELF variant of a log line. `extra` is a JSON object written out as text.
#[derive(Clone, Debug)]
pub struct GelfLogLine {
    pub short_message: String,
    pub full_message: Option<String>,
    pub severity: i32,
    pub extra: String,
}

/// The generic variant of a log line. `extra` is a JSON object written out as text.
#[derive(Clone, Debug)]
pub struct GenericLogLine {
    pub message: String,
    pub severity: i32,
    pub service_name: String,
    pub log_system: String,
    pub extra: String,
}

/// The three variants of a log line.
#[derive(Clone, Debug)]
pub enum Line {
    Syslog(SyslogLogLine),
    Gelf(GelfLogLine),
    GenericLog(GenericLogLine),
}

/// The wire record. A complete record has a timestamp and a variant; the wire format
/// can carry a record without either, which the collector rejects.
#[derive(Clone, Debug)]
pub struct LogLine {
    pub host: String,
    pub timestamp: Option<Timestamp>,
    pub line: Option<Line>,
}

/// The metrics snapshot of one shipper: three counters per queue name.
#[derive(Clone, Debug)]
pub struct Metrics {
    pub hostname: String,
    pub queue_count: Vec<(String, u64)>,
    pub processed_count: Vec<(String, u64)>,
    pub error_count: Vec<(String, u64)>,
}

pub struct SyslogLogLineView {
    pub facility: i32,
    pub severity: i32,
    pub appname: Option<Seq<char>>,
    pub proc_pid: Option<u32>,
    pub proc_name: Option<Seq<char>>,
    pub msgid: Option<Seq<char>>,
    pub msg: Seq<char>,
}

pub struct GelfLogLineView {
    pub short_message: Seq<char>,
    pub full_message: Option<Seq<char>>,
    pub severity: i32,
    pub extra: Seq<char>,
}

pub struct GenericLogLineView {
    pub message: Seq<char>,
    pub severity: i32,
    pub service_name: Seq<char>,
    pub log_system: Seq<char>,
    pub extra: Seq<char>,
}

pub enum LineView {
    Syslog(SyslogLogLineView),
    Gelf(GelfLogLineView),
    GenericLog(GenericLogLineView),
}

pub struct LogLineView {
    pub host: Seq<char>,
    pub timestamp: Option<Timestamp>,
    pub line: Option<LineView>,
}

pub struct MetricsView {
    pub hostname: Seq<char>,
    pub queue_count: Seq<(Seq<char>, u64)>,
    pub processed_count: Seq<(Seq<char>, u64)>,
    pub error_count: Seq<(Seq<char>, u64)>,
}

impl View for SyslogLogLine {
    type V = SyslogLogLineView;

    open spec fn view(&self) -> SyslogLogLineView {
        SyslogLogLineView {
            facility: self.facility,
            severity: self.severity,
            appname: opt_text(self.appname),
            proc_pid: self.proc_pid,
            proc_name: opt_text(self.proc_name),
            msgid: opt_text(self.msgid),
            msg: self.msg@,
        }
    }
}

impl View for GelfLogLine {
    type V = GelfLogLineView;

    open spec fn view(&self) -> GelfLogLineView {
        GelfLogLineView {
            short_message: self.short_message@,
            full_message: opt_text(self.full_message),
            severity: self.severity,
            extra: self.extra@,
        }
    }
}

impl View for GenericLogLine {
    type V = GenericLogLineView;

    open spec fn view(&self) -> GenericLogLineView {
        GenericLogLineView {
            message: self.message@,
            severity: self.severity,
            service_name: self.service_name@,
            log_system: self.log_system@,
            extra: self.extra@,
        }
    }
}

impl View for Line {
    type V = LineView;

    open spec fn view(&self) -> LineView {
        match self {
            Line::Syslog(l) => LineView::Syslog(l@),
            Line::Gelf(l) => LineView::Gelf(l@),
            Line::GenericLog(l) => LineView::GenericLog(l@),
        }
    }
}

impl View for LogLine {
    type V = LogLineView;

    open spec fn view(&self) -> LogLineView {
        LogLineView {
            host: self.host@,
            timestamp: self.timestamp,
            line: match self.line {
                Some(l) => Some(l@),
                None => None,
            },
        }
    }
}

impl Timestamp {
    /// The point in time that is `nanos` nanoseconds after the full second `seconds`.
    pub fn new(seconds: i64, nanos: u32) -> (r: Self)
        ensures
            r.seconds == seconds,
            r.nanos == nanos as i32,
    {
        Timestamp {
            seconds,
            nanos: #[verifier::truncate]
            (nanos as i32),
        }
    }
}

/// The names and counts of one counter family.
pub open spec fn counts_view(counts: Seq<(String, u64)>) -> Seq<(Seq<char>, u64)> {
    Seq::new(counts.len(), |i: int| (counts[i].0@, counts[i].1))
}

impl View for Metrics {
    type V = MetricsView;

    open spec fn view(&self) -> MetricsView {
        MetricsView {
            hostname: self.hostname@,
            queue_count: counts_view(self.queue_count@),
            processed_count: counts_view(self.processed_count@),
            error_count: counts_view(self.error_count@),
        }
    }
}

/// The facility that a line's number stands for; an unknown number reads as the
/// first facility.
pub open spec fn facility_or_default(n: int) -> SyslogFacility {
    match facility_of_number(n) {
        Some(f) => f,
        None => SyslogFacility::Kernel,
    }
}

impl SyslogLogLine {
    /// The severity of this line; a number outside 0 to 7 reads as `Debug`.
    pub fn severity(&self) -> (r: SyslogSeverity)
        ensures
            r == severity_of_number(self.severity as int),
    {
        SyslogSeverity::from_i32(self.severity)
    }

    /// The facility of this line; an unknown number reads as the first facility.
    pub fn facility(&self) -> (r: SyslogFacility)
        ensures
            r == facility_or_default(self.facility as int),
    {
        match SyslogFacility::from_i32(self.facility) {
            Some(f) => f,
            None => SyslogFacility::Kernel,
        }
    }
}

impl GelfLogLine {
    /// The severity of this line; a number outside 0 to 7 reads as `Debug`.
    pub fn severity(&self) -> (r: SyslogSeverity)
        ensures
            r == severity_of_number(self.severity as int),
    {
        SyslogSeverity::from_i32(self.severity)
    }
}

impl GenericLogLine {
    /// The severity of this line; a number outside 0 to 7 reads as `Debug`.
    pub fn severity(&self) -> (r: SyslogSeverity)
        ensures
            r == severity_of_number(self.severity as int),
    {
        SyslogSeverity::from_i32(self.severity)
    }
}

} // verus!
