//! Syslog over UDP: reading a datagram, deciding whether the exclusion filters drop
//! it, and normalizing it into a wire log line.

use syslog_loose::ProcId::{Name, PID};
use syslog_loose::{Message, Variant};
use vstd::prelude::*;
use vstd::utf8::{decode_utf8, valid_utf8};

use crate::config::{filters_view, SyslogExclusionFilter, SyslogExclusionFilterView};
use crate::eqregex::regex_is_match;
use crate::severity::{
    facility_keyword, facility_number, facility_of_number, severity_number, severity_of_number,
    SyslogFacility, SyslogSeverity,
};
use crate::text::{is_substring, opt_text, trimmed};
use crate::wire::{Line, LineView, LogLine, LogLineView, SyslogLogLine, SyslogLogLineView, Timestamp};

verus! {

/// The largest datagram that UDP can carry.
pub const MAX_DATAGRAM_SIZE: usize = 65_507;

/// The process part of a syslog message: a number or a name.
#[derive(Clone, Debug)]
pub enum ProcId {
    Pid(i32),
    Name(String),
}

/// A syslog message as parsed from a datagram. Every header field may be missing.
#[derive(Clone, Debug)]
pub struct SyslogLog {
    pub facility: Option<SyslogFacility>,
    pub severity: Option<SyslogSeverity>,
    pub timestamp: Option<Timestamp>,
    pub hostname: Option<String>,
    pub appname: Option<String>,
    pub procid: Option<ProcId>,
    pub msgid: Option<String>,
    pub msg: String,
}

/// Why a syslog message cannot become a log line.
#[derive(Clone, Copy, Debug, PartialEq, Eq, Structural)]
pub enum SyslogError {
    NoHostname,
    NoTimestamp,
    NoSeverity,
}

pub enum ProcIdView {
    Pid(i32),
    Name(Seq<char>),
}

pub struct SyslogLogView {
    pub facility: Option<SyslogFacility>,
    pub severity: Option<SyslogSeverity>,
    pub timestamp: Option<Timestamp>,
    pub hostname: Option<Seq<char>>,
    pub appname: Option<Seq<char>>,
    pub procid: Option<ProcIdView>,
    pub msgid: Option<Seq<char>>,
    pub msg: Seq<char>,
}

impl View for ProcId {
    type V = ProcIdView;

    open spec fn view(&self) -> ProcIdView {
        match self {
            ProcId::Pid(pid) => ProcIdView::Pid(*pid),
            ProcId::Name(name) => ProcIdView::Name(name@),
        }
    }
}

impl View for SyslogLog {
    type V = SyslogLogView;

    open spec fn view(&self) -> SyslogLogView {
        SyslogLogView {
            facility: self.facility,
            severity: self.severity,
            timestamp: self.timestamp,
            hostname: opt_text(self.hostname),
            appname: opt_text(self.appname),
            procid: match self.procid {
                Some(p) => Some(p@),
                None => None,
            },
            msgid: opt_text(self.msgid),
            msg: self.msg@,
        }
    }
}

/// What `String::from_utf8_lossy` of std makes of bytes: their text, with each run
/// of bytes that is not UTF-8 replaced by the replacement character.
pub uninterp spec fn lossy_text(bytes: Seq<u8>) -> Seq<char>;

/// Whether every text of a message is a part of `text`: the message itself, the host
/// name, the application name, the message id, and the process id where it is a
/// name.
pub open spec fn is_cut_from(log: SyslogLogView, text: Seq<char>) -> bool {
    &&& is_substring(log.msg, text)
    &&& log.hostname is Some ==> is_substring(log.hostname->0, text)
    &&& log.appname is Some ==> is_substring(log.appname->0, text)
    &&& log.msgid is Some ==> is_substring(log.msgid->0, text)
    &&& log.procid matches Some(ProcIdView::Name(name)) ==> is_substring(name, text)
}

/// Whether a text, once the white space around it is taken off, begins with the mark
/// that opens a priority.
pub open spec fn has_priority_mark(text: Seq<char>) -> bool {
    trimmed(text).len() > 0 && trimmed(text)[0] == '<'
}

/// `String::from_utf8_lossy` of std: the text of the bytes, with each run of bytes
/// that is not UTF-8 replaced by the replacement character. Bytes that are UTF-8
/// give their text unchanged.
#[verifier::external_body]
fn utf8_lossy(bytes: &[u8]) -> (r: String)
    ensures
        r@ == lossy_text(bytes@),
        valid_utf8(bytes@) ==> r@ == decode_utf8(bytes@),
{
    String::from_utf8_lossy(bytes).into_owned()
}

/// A syslog message as the parser hands it out: facility and severity by their
/// numbers, everything else as in [`SyslogLog`].
#[derive(Debug)]
pub struct ParsedMessage {
    pub facility: Option<i32>,
    pub severity: Option<i32>,
    pub timestamp: Option<Timestamp>,
    pub hostname: Option<String>,
    pub appname: Option<String>,
    pub procid: Option<ProcId>,
    pub msgid: Option<String>,
    pub msg: String,
}

/// The message that parsed parts stand for: the facility and severity that their
/// numbers name, and every other part as it is.
pub open spec fn log_of_parsed(parsed: ParsedMessage) -> SyslogLogView {
    SyslogLogView {
        facility: match parsed.facility {
            Some(number) => facility_of_number(number as int),
            None => None,
        },
        severity: match parsed.severity {
            Some(number) => Some(severity_of_number(number as int)),
            None => None,
        },
        timestamp: parsed.timestamp,
        hostname: opt_text(parsed.hostname),
        appname: opt_text(parsed.appname),
        procid: match parsed.procid {
            Some(p) => Some(p@),
            None => None,
        },
        msgid: opt_text(parsed.msgid),
        msg: parsed.msg@,
    }
}

/// `syslog_loose::parse_message` for either RFC: the parts of the message that the
/// text spells, facility and severity by the numbers of their variants. A timestamp
/// without a year or a time zone is read in the current year and the local time
/// zone, so the same text may give other parts elsewhere. Whatever the parts are,
/// each text among them is a slice of the text that was parsed, and a text that is
/// no syslog message is all message. Facility and severity come from the priority
/// alone, which the text, trimmed, must begin with.
#[verifier::external_body]
fn parse_message(text: &str) -> (r: ParsedMessage)
    ensures
        is_cut_from(log_of_parsed(r), text@),
        !has_priority_mark(text@) ==> r.facility is None && r.severity is None,
{
    let m: Message<String> = syslog_loose::parse_message(text, Variant::Either).into();
    ParsedMessage {
        facility: m.facility.map(|f| f as i32),
        severity: m.severity.map(|s| s as i32),
        timestamp: m.timestamp.map(|t| Timestamp::new(t.timestamp(), t.timestamp_subsec_nanos())),
        hostname: m.hostname,
        appname: m.appname,
        procid: m.procid.map(|p| match p {
            PID(pid) => ProcId::Pid(pid),
            Name(name) => ProcId::Name(name),
        }),
        msgid: m.msgid,
        msg: m.msg,
    }
}

/// `syslog_loose::decompose_pri`, then `syslog_loose::SyslogFacility::as_str` on the
/// facility: the keyword of the facility that the upper five bits of a priority
/// name, as the table of `as_str` has it; none for the numbers 24 to 31, which name
/// no facility.
#[verifier::external_body]
fn keyword_of_priority(priority: u8) -> (r: Option<&'static str>)
    ensures
        match facility_of_number(priority as int / 8) {
            Some(f) => r is Some && r->0@ == facility_keyword(f),
            None => r is None,
        },
{
    syslog_loose::decompose_pri(priority).0.map(|f| f.as_str())
}

/// The facility that the parser's number names.
pub fn to_grpc_facility(number: i32) -> (r: Option<SyslogFacility>)
    ensures
        r == facility_of_number(number as int),
{
    SyslogFacility::from_i32(number)
}

/// The severity that the parser's number names.
pub fn to_grpc_severity(number: i32) -> (r: SyslogSeverity)
    ensures
        r == severity_of_number(number as int),
{
    SyslogSeverity::from_i32(number)
}

impl SyslogFacility {
    /// The keyword by which syslog itself names this facility.
    pub fn as_str(&self) -> (r: &'static str)
        ensures
            r@ == facility_keyword(*self),
    {
        match keyword_of_priority(self.number() * 8) {
            Some(keyword) => keyword,
            None => self.as_str_name(),
        }
    }
}

impl ParsedMessage {
    /// The message that these parts stand for.
    pub fn into_log(self) -> (r: SyslogLog)
        ensures
            r@ == log_of_parsed(self),
    {
        SyslogLog {
            facility: match self.facility {
                Some(number) => to_grpc_facility(number),
                None => None,
            },
            severity: match self.severity {
                Some(number) => Some(to_grpc_severity(number)),
                None => None,
            },
            timestamp: self.timestamp,
            hostname: self.hostname,
            appname: self.appname,
            procid: self.procid,
            msgid: self.msgid,
            msg: self.msg,
        }
    }
}

/// Reads a datagram as a syslog message: the bytes as text, lossily, and the text
/// parsed loosely by either RFC. Which parts the text has is for the parser to say,
/// and for a timestamp without a year or a time zone it depends on the day and the
/// place of reading. In every case each text of the message is a part of the
/// datagram's text, and a datagram whose text does not begin with a priority has
/// neither facility nor severity, so it cannot become a log line.
pub fn parse_datagram(bytes: &[u8]) -> (r: SyslogLog)
    ensures
        is_cut_from(r@, lossy_text(bytes@)),
        valid_utf8(bytes@) ==> is_cut_from(r@, decode_utf8(bytes@)),
        !has_priority_mark(lossy_text(bytes@)) ==> r.facility is None && r.severity is None,
        !has_priority_mark(lossy_text(bytes@)) ==> syslog_line_of(r@) is Err,
{
    let text = utf8_lossy(bytes);
    parse_message(text.as_str()).into_log()
}

/// What trying one pattern gives: whether it matches, where the filter has the
/// pattern and the message has the field.
pub open spec fn tried(pattern: Option<Seq<char>>, field: Option<Seq<char>>) -> Option<bool> {
    if pattern is Some && field is Some {
        Some(regex_is_match(pattern->0, field->0))
    } else {
        None
    }
}

/// What a filter says, given what trying each of its three patterns gave: "exclude"
/// when every pattern that was tried matched, "keep" when one did not, and nothing
/// when none was tried.
pub open spec fn combined(
    by_appname: Option<bool>,
    by_facility: Option<bool>,
    by_message: Option<bool>,
) -> Option<bool> {
    let first = match by_facility {
        Some(matches) => match by_appname {
            Some(exclude) => Some(exclude && matches),
            None => Some(matches),
        },
        None => by_appname,
    };
    match by_message {
        Some(matches) => match first {
            Some(exclude) => Some(exclude && matches),
            None => Some(matches),
        },
        None => first,
    }
}

/// What one filter says about a message. Each field of the filter that has a pattern
/// is tried where the message has that field; the facility is tried by its syslog
/// keyword, and the message text always counts as present.
pub open spec fn filter_verdict(filter: SyslogExclusionFilterView, message: SyslogLogView) -> Option<
    bool,
> {
    combined(
        tried(filter.appname, message.appname),
        tried(
            filter.facility,
            match message.facility {
                Some(f) => Some(facility_keyword(f)),
                None => None,
            },
        ),
        tried(filter.message, Some(message.msg)),
    )
}

/// Whether the filters drop a message. Only the first filter is asked: the message
/// is dropped when that filter says "exclude", and kept in every other case.
pub open spec fn excluded(filters: Seq<SyslogExclusionFilterView>, message: SyslogLogView) -> bool {
    filters.len() > 0 && filter_verdict(filters[0], message) == Some(true)
}

/// What a filter says, given what trying each of its three patterns gave: see
/// [`combined`].
pub fn combine(by_appname: Option<bool>, by_facility: Option<bool>, by_message: Option<bool>) -> (r:
    Option<bool>)
    ensures
        r == combined(by_appname, by_facility, by_message),
{
    let mut shall_exclude = by_appname;
    match by_facility {
        Some(matches) => {
            shall_exclude = match shall_exclude {
                Some(exclude) => Some(exclude && matches),
                None => Some(matches),
            };
        },
        None => {},
    }
    match by_message {
        Some(matches) => {
            shall_exclude = match shall_exclude {
                Some(exclude) => Some(exclude && matches),
                None => Some(matches),
            };
        },
        None => {},
    }
    shall_exclude
}

/// What one filter says about a message: see [`filter_verdict`].
pub fn verdict(filter: &SyslogExclusionFilter, message: &SyslogLog) -> (r: Option<bool>)
    ensures
        r == filter_verdict(filter@, message@),
{
    let by_appname = match (&filter.appname, &message.appname) {
        (Some(pattern), Some(appname)) => Some(pattern.is_match(appname.as_str())),
        _ => None,
    };
    let by_facility = match (&filter.facility, &message.facility) {
        (Some(pattern), Some(facility)) => Some(pattern.is_match(facility.as_str())),
        _ => None,
    };
    let by_message = match &filter.message {
        Some(pattern) => Some(pattern.is_match(message.msg.as_str())),
        None => None,
    };
    combine(by_appname, by_facility, by_message)
}

/// Whether the filters drop a message: see [`excluded`].
pub fn is_excluded(message: &SyslogLog, filters: &Vec<SyslogExclusionFilter>) -> (r: bool)
    ensures
        r == excluded(filters_view(filters@), message@),
{
    if filters.len() == 0 {
        return false;
    }
    match verdict(&filters[0], message) {
        Some(exclude) => exclude,
        None => false,
    }
}

/// The log line of a syslog message, or the reason why it has none. A message
/// without a facility counts as `local0`. A numeric process id goes to `proc_pid`,
/// cut to 32 bits without its sign, and a textual one to `proc_name`.
pub open spec fn syslog_line_of(log: SyslogLogView) -> Result<LogLineView, SyslogError> {
    if log.hostname is None {
        Err(SyslogError::NoHostname)
    } else if log.timestamp is None {
        Err(SyslogError::NoTimestamp)
    } else if log.severity is None {
        Err(SyslogError::NoSeverity)
    } else {
        Ok(
            LogLineView {
                host: log.hostname->0,
                timestamp: log.timestamp,
                line: Some(
                    LineView::Syslog(
                        SyslogLogLineView {
                            facility: facility_number(
                                match log.facility {
                                    Some(f) => f,
                                    None => SyslogFacility::Local0,
                                },
                            ) as i32,
                            severity: severity_number(log.severity->0) as i32,
                            appname: log.appname,
                            proc_pid: match log.procid {
                                Some(ProcIdView::Pid(pid)) => Some(pid as u32),
                                _ => None,
                            },
                            proc_name: match log.procid {
                                Some(ProcIdView::Name(name)) => Some(name),
                                _ => None,
                            },
                            msgid: log.msgid,
                            msg: log.msg,
                        },
                    ),
                ),
            },
        )
    }
}

/// The view of a normalization's outcome.
pub open spec fn syslog_result_view(r: Result<LogLine, SyslogError>) -> Result<
    LogLineView,
    SyslogError,
> {
    match r {
        Ok(l) => Ok(l@),
        Err(e) => Err(e),
    }
}

impl LogLine {
    /// Normalizes a syslog message into a log line. The message must have a host
    /// name, a timestamp and a severity; each failure has its own error, tested in
    /// this order.
    pub fn try_from_syslog(value: SyslogLog) -> (r: Result<LogLine, SyslogError>)
        ensures
            syslog_result_view(r) == syslog_line_of(value@),
    {
        let hostname = match value.hostname {
            Some(hostname) => hostname,
            None => {
                return Err(SyslogError::NoHostname);
            },
        };
        let timestamp = match value.timestamp {
            Some(timestamp) => timestamp,
            None => {
                return Err(SyslogError::NoTimestamp);
            },
        };
        let severity = match value.severity {
            Some(severity) => severity,
            None => {
                return Err(SyslogError::NoSeverity);
            },
        };
        let (proc_pid, proc_name) = match value.procid {
            Some(ProcId::Pid(pid)) => (
                Some(
                    #[verifier::truncate]
                    (pid as u32),
                ),
                None,
            ),
            Some(ProcId::Name(name)) => (None, Some(name)),
            None => (None, None),
        };
        let facility = match value.facility {
            Some(facility) => facility,
            None => SyslogFacility::Local0,
        };
        Ok(
            LogLine {
                host: hostname,
                timestamp: Some(timestamp),
                line: Some(
                    Line::Syslog(
                        SyslogLogLine {
                            facility: facility.number() as i32,
                            severity: severity.number() as i32,
                            appname: value.appname,
                            proc_pid,
                            proc_name,
                            msgid: value.msgid,
                            msg: value.msg,
                        },
                    ),
                ),
            },
        )
    }
}

/// A numeric process id ends up as `proc_pid` and a textual one as `proc_name`,
/// never both; and the facility of the line is the message's, or `local0`.
pub proof fn lemma_procid_is_split(log: SyslogLogView)
    requires
        syslog_line_of(log) is Ok,
    ensures
        ({
            let line = syslog_line_of(log)->Ok_0.line->0->Syslog_0;
            &&& log.procid matches Some(ProcIdView::Pid(pid)) ==> line.proc_pid == Some(pid as u32)
                && line.proc_name is None
            &&& log.procid matches Some(ProcIdView::Name(name)) ==> line.proc_name == Some(name)
                && line.proc_pid is None
            &&& log.procid is None ==> line.proc_pid is None && line.proc_name is None
            &&& 0 <= line.facility <= 23
            &&& 0 <= line.severity <= 7
        }),
{
}

} // verus!
