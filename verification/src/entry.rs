//! The collector's ingest document and how a wire log line becomes one.

use vstd::prelude::*;

use crate::json::{
    get, json_as_str, json_from_text, json_object_text, json_of_text,
    lemma_members_map_lookup, lemma_members_map_push, member_refs_view, members_map,
    members_view, opt_json, text_of_json, Json, JsonNumber, JsonValue, NumberView,
};
use crate::severity::{
    facility_name, otel_name, otel_number, severity_of_number, syslog_to_otel, OTELSeverity,
    SyslogSeverity,
};
use crate::text::{clone_opt_text, join_lines, joined_lines, str_eq};
use crate::wire::{
    facility_or_default, Line, LineView, LogLine, LogLineView, SyslogLogLine, SyslogLogLineView,
    Timestamp,
};

verus! {

/// Where a document came from.
#[derive(Clone, Debug, PartialEq, Eq)]
pub enum LogSystem {
    Syslog,
    Gelf,
    Generic(String),
}

/// What is handed to the indexing backend for one record.
#[derive(Debug)]
pub struct IndexLogEntry {
    pub message: String,
    /// Milliseconds since the epoch.
    pub timestamp: u64,
    pub hostname: String,
    pub service_name: String,
    /// The OpenTelemetry severity name.
    pub severity_text: String,
    /// The OpenTelemetry severity number.
    pub severity_number: u64,
    pub log_system: LogSystem,
    /// Further fields, by name; where a name occurs twice the later one counts.
    pub free_fields: Vec<(String, JsonValue)>,
}

/// Why a log line cannot become a document.
#[derive(Clone, Copy, Debug, PartialEq, Eq, Structural)]
pub enum ConvertError {
    /// The line has no timestamp.
    MissingTimestamp,
    /// The line has none of the three variants.
    MissingLine,
    /// The `extra` text of a GELF or generic line is not a JSON object.
    InvalidExtra,
}

pub enum LogSystemView {
    Syslog,
    Gelf,
    Generic(Seq<char>),
}

pub struct IndexLogEntryView {
    pub message: Seq<char>,
    pub timestamp: u64,
    pub hostname: Seq<char>,
    pub service_name: Seq<char>,
    pub severity_text: Seq<char>,
    pub severity_number: u64,
    pub log_system: LogSystemView,
    pub free_fields: Map<Seq<char>, Json>,
}

impl View for LogSystem {
    type V = LogSystemView;

    open spec fn view(&self) -> LogSystemView {
        match self {
            LogSystem::Syslog => LogSystemView::Syslog,
            LogSystem::Gelf => LogSystemView::Gelf,
            LogSystem::Generic(tag) => LogSystemView::Generic(tag@),
        }
    }
}

impl View for IndexLogEntry {
    type V = IndexLogEntryView;

    open spec fn view(&self) -> IndexLogEntryView {
        IndexLogEntryView {
            message: self.message@,
            timestamp: self.timestamp,
            hostname: self.hostname@,
            service_name: self.service_name@,
            severity_text: self.severity_text@,
            severity_number: self.severity_number,
            log_system: self.log_system@,
            free_fields: members_map(members_view(self.free_fields@)),
        }
    }
}

/// Whole milliseconds in a count of nanoseconds, rounded toward zero.
pub open spec fn nanos_to_millis(nanos: int) -> int {
    if nanos >= 0 {
        nanos / 1_000_000
    } else {
        -((-nanos) / 1_000_000)
    }
}

/// A timestamp in milliseconds since the epoch, as the document's unsigned field of
/// 64 bits holds it: the seconds times 1000 plus the whole milliseconds of the
/// nanoseconds, computed in 64 bits with wrap-around, and read as unsigned.
pub open spec fn timestamp_millis(t: Timestamp) -> u64 {
    t.seconds.wrapping_mul(1000).wrapping_add(nanos_to_millis(t.nanos as int) as i64) as u64
}

/// For every timestamp whose milliseconds are not negative and fit 64 bits with a
/// sign, the document's field holds just these milliseconds.
pub proof fn lemma_timestamp_millis_is_exact(t: Timestamp)
    requires
        0 <= t.seconds * 1000 + nanos_to_millis(t.nanos as int) <= i64::MAX,
    ensures
        timestamp_millis(t) == t.seconds * 1000 + nanos_to_millis(t.nanos as int),
{
    let whole = t.seconds * 1000;
    let part = nanos_to_millis(t.nanos as int);
    assert(-2148 <= part <= 2148);
    let cropped = t.seconds.wrapping_mul(1000);
    let range = 0x1_0000_0000_0000_0000int;
    if whole > i64::MAX {
        assert(whole % range == whole);
        assert(cropped == whole - range);
    } else if whole < 0 {
        assert(whole >= -2148);
        assert(whole % range == whole + range);
        assert(cropped == whole);
    } else {
        assert(whole % range == whole);
        assert(cropped == whole);
    }
}

/// The severity that the variant of a line carries.
pub open spec fn source_severity(line: LineView) -> SyslogSeverity {
    match line {
        LineView::Syslog(l) => severity_of_number(l.severity as int),
        LineView::Gelf(l) => severity_of_number(l.severity as int),
        LineView::GenericLog(l) => severity_of_number(l.severity as int),
    }
}

/// The `extra` text of a line, where its variant has one.
pub open spec fn extra_text(line: LogLineView) -> Option<Seq<char>> {
    match line.line {
        Some(LineView::Gelf(l)) => Some(l.extra),
        Some(LineView::GenericLog(l)) => Some(l.extra),
        _ => None,
    }
}

/// The members of the `extra` object, where the parsed `extra` is an object.
pub open spec fn extra_members(extra: Option<Json>) -> Option<Map<Seq<char>, Json>> {
    match extra {
        Some(Json::Object(members)) => Some(members_map(members)),
        _ => None,
    }
}

/// The free fields of a syslog line: the facility name, and the process id, process
/// name and message id where the line has them.
pub open spec fn syslog_free_fields(l: SyslogLogLineView) -> Map<Seq<char>, Json> {
    let m0 = Map::<Seq<char>, Json>::empty().insert(
        "facility"@,
        Json::Text(facility_name(facility_or_default(l.facility as int))),
    );
    let m1 = match l.proc_pid {
        Some(pid) => m0.insert("proc_pid"@, Json::Number(NumberView::PosInt(pid as u64))),
        None => m0,
    };
    let m2 = match l.proc_name {
        Some(name) => m1.insert("proc_name"@, Json::Text(name)),
        None => m1,
    };
    match l.msgid {
        Some(id) => m2.insert("msgid"@, Json::Text(id)),
        None => m2,
    }
}

/// The service name of a GELF line: the `service` member of `extra` where it is a
/// string, else `unknown`.
pub open spec fn gelf_service_name(extra: Map<Seq<char>, Json>) -> Seq<char> {
    if extra.dom().contains("service"@) && json_as_str(extra["service"@]).is_some() {
        json_as_str(extra["service"@])->0
    } else {
        "unknown"@
    }
}

/// The document that a line becomes, given what its `extra` text parses to, or the
/// reason why it becomes none.
pub open spec fn entry_of_line(line: LogLineView, extra: Option<Json>) -> Result<
    IndexLogEntryView,
    ConvertError,
> {
    if line.timestamp.is_none() {
        Err(ConvertError::MissingTimestamp)
    } else if line.line.is_none() {
        Err(ConvertError::MissingLine)
    } else if !(line.line->0 is Syslog) && extra_members(extra).is_none() {
        Err(ConvertError::InvalidExtra)
    } else {
        let severity = syslog_to_otel(source_severity(line.line->0));
        let timestamp = timestamp_millis(line.timestamp->0);
        match line.line->0 {
            LineView::Syslog(l) => Ok(
                IndexLogEntryView {
                    message: l.msg,
                    timestamp,
                    hostname: line.host,
                    service_name: match l.appname {
                        Some(name) => name,
                        None => "_syslog"@,
                    },
                    severity_text: otel_name(severity),
                    severity_number: otel_number(severity) as u64,
                    log_system: LogSystemView::Syslog,
                    free_fields: syslog_free_fields(l),
                },
            ),
            LineView::Gelf(l) => Ok(
                IndexLogEntryView {
                    message: match l.full_message {
                        Some(full) => full,
                        None => l.short_message,
                    },
                    timestamp,
                    hostname: line.host,
                    service_name: gelf_service_name(extra_members(extra)->0),
                    severity_text: otel_name(severity),
                    severity_number: otel_number(severity) as u64,
                    log_system: LogSystemView::Gelf,
                    free_fields: extra_members(extra)->0.remove("service"@),
                },
            ),
            LineView::GenericLog(l) => Ok(
                IndexLogEntryView {
                    message: l.message,
                    timestamp,
                    hostname: line.host,
                    service_name: l.service_name,
                    severity_text: otel_name(severity),
                    severity_number: otel_number(severity) as u64,
                    log_system: LogSystemView::Generic(l.log_system),
                    free_fields: extra_members(extra)->0,
                },
            ),
        }
    }
}

/// The view of a conversion's outcome.
pub open spec fn entry_result_view(r: Result<IndexLogEntry, ConvertError>) -> Result<
    IndexLogEntryView,
    ConvertError,
> {
    match r {
        Ok(e) => Ok(e@),
        Err(e) => Err(e),
    }
}

/// The milliseconds of a timestamp as the document's field holds them.
fn millis_of(t: Timestamp) -> (r: u64)
    ensures
        r == timestamp_millis(t),
{
    let part: i64 = if t.nanos >= 0 {
        (t.nanos / 1_000_000) as i64
    } else {
        let magnitude: i64 = -(t.nanos as i64);
        -(magnitude / 1_000_000)
    };
    #[verifier::truncate]
    (t.seconds.wrapping_mul(1000).wrapping_add(part) as u64)
}

/// The members without those under `key`.
fn without_key(members: &Vec<(String, JsonValue)>, key: &str) -> (r: Vec<(String, JsonValue)>)
    ensures
        members_map(members_view(r@)) == members_map(members_view(members@)).remove(key@),
{
    let ghost all = members_view(members@);
    let mut out: Vec<(String, JsonValue)> = Vec::new();
    let mut i: usize = 0;
    assert(members_map(members_view(out@)) =~= members_map(all.take(0)).remove(key@));
    while i < members.len()
        invariant
            i <= members.len(),
            all == members_view(members@),
            members_map(members_view(out@)) == members_map(all.take(i as int)).remove(key@),
        decreases members.len() - i,
    {
        proof {
            assert(all.take(i as int + 1) =~= all.take(i as int).push(all[i as int]));
            lemma_members_map_push(all.take(i as int), all[i as int].0, all[i as int].1);
        }
        if !str_eq(members[i].0.as_str(), key) {
            let ghost before = members_view(out@);
            out.push((members[i].0.clone(), members[i].1.clone()));
            proof {
                assert(members_view(out@) =~= before.push(all[i as int]));
                lemma_members_map_push(before, all[i as int].0, all[i as int].1);
                assert(members_map(members_view(out@)) =~= members_map(
                    all.take(i as int + 1),
                ).remove(key@));
            }
        } else {
            assert(members_map(members_view(out@)) =~= members_map(
                all.take(i as int + 1),
            ).remove(key@));
        }
        i += 1;
    }
    assert(all.take(members.len() as int) =~= all);
    out
}

/// The free fields of a syslog line.
fn syslog_fields(l: SyslogLogLine) -> (r: Vec<(String, JsonValue)>)
    ensures
        members_map(members_view(r@)) == syslog_free_fields(l@),
{
    let mut out: Vec<(String, JsonValue)> = Vec::new();
    let ghost m = members_view(out@);
    assert(members_map(m) =~= Map::<Seq<char>, Json>::empty());
    let facility = String::from_str(l.facility().as_str_name());
    out.push((String::from_str("facility"), JsonValue::Text(facility)));
    proof {
        let k = "facility"@;
        let v = Json::Text(facility_name(facility_or_default(l.facility as int)));
        assert(members_view(out@) =~= m.push((k, v)));
        lemma_members_map_push(m, k, v);
    }
    if let Some(pid) = l.proc_pid {
        let ghost m = members_view(out@);
        out.push((String::from_str("proc_pid"), JsonValue::Number(JsonNumber::PosInt(pid as u64))));
        proof {
            let k = "proc_pid"@;
            let v = Json::Number(NumberView::PosInt(pid as u64));
            assert(members_view(out@) =~= m.push((k, v)));
            lemma_members_map_push(m, k, v);
        }
    }
    if let Some(name) = l.proc_name {
        let ghost m = members_view(out@);
        let ghost v = Json::Text(name@);
        out.push((String::from_str("proc_name"), JsonValue::Text(name)));
        proof {
            let k = "proc_name"@;
            assert(members_view(out@) =~= m.push((k, v)));
            lemma_members_map_push(m, k, v);
        }
    }
    if let Some(id) = l.msgid {
        let ghost m = members_view(out@);
        let ghost v = Json::Text(id@);
        out.push((String::from_str("msgid"), JsonValue::Text(id)));
        proof {
            let k = "msgid"@;
            assert(members_view(out@) =~= m.push((k, v)));
            lemma_members_map_push(m, k, v);
        }
    }
    out
}

impl IndexLogEntry {
    /// Builds the document of a log line whose `extra` text has been parsed already:
    /// `extra` is what the text parses to, `None` where it is not JSON. A syslog line
    /// has no `extra` and ignores the argument.
    ///
    /// The line must have a timestamp and a variant, and the `extra` of a GELF or
    /// generic line must be a JSON object; each failure has its own error, tested in
    /// this order. Every other line gives its document.
    pub fn from_parts(value: LogLine, extra: Option<JsonValue>) -> (r: Result<Self, ConvertError>)
        ensures
            entry_result_view(r) == entry_of_line(value@, opt_json(extra)),
    {
        let ghost line = value@;
        let hostname = value.host;
        let timestamp = match value.timestamp {
            Some(t) => t,
            None => {
                return Err(ConvertError::MissingTimestamp);
            },
        };
        let variant = match value.line {
            Some(l) => l,
            None => {
                return Err(ConvertError::MissingLine);
            },
        };
        match variant {
            Line::Syslog(syslog) => {
                let severity = OTELSeverity::from(syslog.severity());
                let millis = millis_of(timestamp);
                let service_name = match clone_opt_text(&syslog.appname) {
                    Some(name) => name,
                    None => String::from_str("_syslog"),
                };
                let message = syslog.msg.clone();
                let entry = IndexLogEntry {
                    message,
                    timestamp: millis,
                    hostname,
                    service_name,
                    severity_text: severity.to_string(),
                    severity_number: severity.number() as u64,
                    log_system: LogSystem::Syslog,
                    free_fields: syslog_fields(syslog),
                };
                Ok(entry)
            },
            Line::Gelf(gelf) => {
                let severity = OTELSeverity::from(gelf.severity());
                let members = match &extra {
                    Some(JsonValue::Object(members)) => members,
                    _ => {
                        return Err(ConvertError::InvalidExtra);
                    },
                };
                assert(extra->0@->Object_0 =~= members_view(members@));
                let millis = millis_of(timestamp);
                proof {
                    lemma_members_map_lookup(members_view(members@), "service"@);
                }
                let service_name = match get(members, "service") {
                    Some(JsonValue::Text(name)) => name.clone(),
                    _ => String::from_str("unknown"),
                };
                let message = match gelf.full_message {
                    Some(full) => full,
                    None => gelf.short_message,
                };
                let entry = IndexLogEntry {
                    message,
                    timestamp: millis,
                    hostname,
                    service_name,
                    severity_text: severity.to_string(),
                    severity_number: severity.number() as u64,
                    log_system: LogSystem::Gelf,
                    free_fields: without_key(members, "service"),
                };
                Ok(entry)
            },
            Line::GenericLog(generic) => {
                let severity = OTELSeverity::from(generic.severity());
                let members = match extra {
                    Some(JsonValue::Object(members)) => members,
                    _ => {
                        return Err(ConvertError::InvalidExtra);
                    },
                };
                assert(extra->0@->Object_0 =~= members_view(members@));
                let millis = millis_of(timestamp);
                let entry = IndexLogEntry {
                    message: generic.message,
                    timestamp: millis,
                    hostname,
                    service_name: generic.service_name,
                    severity_text: severity.to_string(),
                    severity_number: severity.number() as u64,
                    log_system: LogSystem::Generic(generic.log_system),
                    free_fields: members,
                };
                Ok(entry)
            },
        }
    }

    /// Builds the document of a log line. The `extra` text of a GELF or generic line
    /// is parsed as JSON first; see [`IndexLogEntry::from_parts`] for the rest.
    pub fn try_from(value: LogLine) -> (r: Result<Self, ConvertError>)
        ensures
            entry_result_view(r) == entry_of_line(
                value@,
                match extra_text(value@) {
                    Some(text) => json_of_text(text),
                    None => None,
                },
            ),
    {
        let extra = match &value.line {
            Some(Line::Gelf(l)) => json_from_text(l.extra.as_str()),
            Some(Line::GenericLog(l)) => json_from_text(l.extra.as_str()),
            _ => None,
        };
        IndexLogEntry::from_parts(value, extra)
    }
}

/// The name under which a log system is written into a document.
pub open spec fn log_system_name(s: LogSystemView) -> Seq<char> {
    match s {
        LogSystemView::Syslog => "syslog"@,
        LogSystemView::Gelf => "gelf"@,
        LogSystemView::Generic(tag) => tag,
    }
}

/// The members of the flat JSON object that stands for a document: the seven fixed
/// fields, then the free fields in their order.
pub open spec fn document_members(e: IndexLogEntry) -> Seq<(Seq<char>, Json)> {
    seq![
        ("message"@, Json::Text(e.message@)),
        ("timestamp"@, Json::Number(NumberView::PosInt(e.timestamp))),
        ("hostname"@, Json::Text(e.hostname@)),
        ("service_name"@, Json::Text(e.service_name@)),
        ("severity_text"@, Json::Text(e.severity_text@)),
        ("severity_number"@, Json::Number(NumberView::PosInt(e.severity_number))),
        ("log_system"@, Json::Text(log_system_name(e.log_system@))),
    ] + members_view(e.free_fields@)
}

/// The JSON text of a document.
pub open spec fn document_text(e: IndexLogEntry) -> Seq<char> {
    text_of_json(Json::Object(document_members(e)))
}

/// The JSON text of each document of a batch.
pub open spec fn document_texts(batch: Seq<IndexLogEntry>) -> Seq<Seq<char>> {
    Seq::new(batch.len(), |i: int| document_text(batch[i]))
}

impl LogSystem {
    /// The name under which this log system is written into a document.
    pub fn name(&self) -> (r: String)
        ensures
            r@ == log_system_name(self@),
    {
        match self {
            LogSystem::Syslog => String::from_str("syslog"),
            LogSystem::Gelf => String::from_str("gelf"),
            LogSystem::Generic(tag) => tag.clone(),
        }
    }
}

impl IndexLogEntry {
    /// Writes the document as one line of JSON: a flat object of the seven fixed
    /// fields and the free fields.
    pub fn to_json(&self) -> (r: String)
        ensures
            r@ == document_text(*self),
    {
        let message = JsonValue::Text(self.message.clone());
        let timestamp = JsonValue::Number(JsonNumber::PosInt(self.timestamp));
        let hostname = JsonValue::Text(self.hostname.clone());
        let service_name = JsonValue::Text(self.service_name.clone());
        let severity_text = JsonValue::Text(self.severity_text.clone());
        let severity_number = JsonValue::Number(JsonNumber::PosInt(self.severity_number));
        let log_system = JsonValue::Text(self.log_system.name());
        let mut members: Vec<(String, &JsonValue)> = Vec::new();
        members.push((String::from_str("message"), &message));
        members.push((String::from_str("timestamp"), &timestamp));
        members.push((String::from_str("hostname"), &hostname));
        members.push((String::from_str("service_name"), &service_name));
        members.push((String::from_str("severity_text"), &severity_text));
        members.push((String::from_str("severity_number"), &severity_number));
        members.push((String::from_str("log_system"), &log_system));
        let ghost fixed = member_refs_view(members@);
        let ghost free = members_view(self.free_fields@);
        assert(fixed + free.take(0) =~= fixed);
        let mut i: usize = 0;
        while i < self.free_fields.len()
            invariant
                i <= self.free_fields.len(),
                free == members_view(self.free_fields@),
                member_refs_view(members@) == fixed + free.take(i as int),
            decreases self.free_fields.len() - i,
        {
            let ghost before = member_refs_view(members@);
            members.push((self.free_fields[i].0.clone(), &self.free_fields[i].1));
            proof {
                assert(member_refs_view(members@) =~= before.push(free[i as int]));
                assert(fixed + free.take(i as int + 1) =~= (fixed + free.take(i as int)).push(
                    free[i as int],
                ));
            }
            i += 1;
        }
        proof {
            assert(free.take(self.free_fields.len() as int) =~= free);
            assert(fixed =~= document_members(*self).take(7));
            assert(fixed + free =~= document_members(*self));
        }
        json_object_text(&members)
    }
}

/// The body of one post to the backend: the documents of the batch as lines of JSON
/// with a line feed between each two.
pub fn ingest_body(batch: &Vec<IndexLogEntry>) -> (r: String)
    ensures
        r@ == joined_lines(document_texts(batch@)),
{
    let mut lines: Vec<String> = Vec::new();
    let mut i: usize = 0;
    while i < batch.len()
        invariant
            i <= batch.len(),
            lines.len() == i,
            forall|j: int| 0 <= j < i ==> lines@[j]@ == document_text(#[trigger] batch@[j]),
        decreases batch.len() - i,
    {
        lines.push(batch[i].to_json());
        i += 1;
    }
    assert(crate::text::texts_view(lines@) =~= document_texts(batch@));
    join_lines(&lines)
}

/// Whether a line has all that a document needs: a timestamp, a variant, and for a
/// GELF or generic line an `extra` that is a JSON object.
pub open spec fn is_complete(line: LogLineView, extra: Option<Json>) -> bool {
    &&& line.timestamp is Some
    &&& line.line is Some
    &&& line.line->0 is Syslog || extra_members(extra) is Some
}

/// Every complete line gives a document, whatever its timestamp, severity number or
/// texts are, and no other line does.
pub proof fn lemma_complete_line_gives_a_document(line: LogLineView, extra: Option<Json>)
    ensures
        entry_of_line(line, extra) is Ok <==> is_complete(line, extra),
        is_complete(line, extra) ==> entry_of_line(line, extra)->Ok_0.hostname == line.host,
        is_complete(line, extra) ==> entry_of_line(line, extra)->Ok_0.timestamp
            == timestamp_millis(line.timestamp->0),
{
}

/// The severity text and number of the document of every complete line are the name
/// and the number of the OpenTelemetry severity that the fixed table gives for the
/// severity of the line.
pub proof fn lemma_entry_severity(line: LogLineView, extra: Option<Json>)
    requires
        is_complete(line, extra),
    ensures
        entry_of_line(line, extra) is Ok,
        entry_of_line(line, extra)->Ok_0.severity_text == otel_name(
            syslog_to_otel(source_severity(line.line->0)),
        ),
        entry_of_line(line, extra)->Ok_0.severity_number == otel_number(
            syslog_to_otel(source_severity(line.line->0)),
        ),
        1 <= entry_of_line(line, extra)->Ok_0.severity_number <= 24,
{
}

/// The message of a GELF document is the full message where the line has one, else
/// the short message.
pub proof fn lemma_gelf_message(line: LogLineView, extra: Option<Json>)
    requires
        is_complete(line, extra),
        line.line->0 is Gelf,
    ensures
        entry_of_line(line, extra) is Ok,
        entry_of_line(line, extra)->Ok_0.log_system == LogSystemView::Gelf,
        line.line->0->Gelf_0.full_message is Some ==> entry_of_line(line, extra)->Ok_0.message
            == line.line->0->Gelf_0.full_message->0,
        line.line->0->Gelf_0.full_message is None ==> entry_of_line(line, extra)->Ok_0.message
            == line.line->0->Gelf_0.short_message,
{
}

/// Every syslog line with a timestamp gives a syslog document with the line's message
/// and application name. Its free fields have no other names than the four, and hold
/// the lowercase facility name under
/// `facility`, the process id under `proc_pid` where the line has a numeric one, and
/// the process name under `proc_name` where it has a textual one; and nothing under
/// a name whose value the line lacks.
pub proof fn lemma_syslog_free_fields(line: LogLineView, extra: Option<Json>)
    requires
        line.timestamp is Some,
        line.line is Some,
        line.line->0 is Syslog,
    ensures
        entry_of_line(line, extra) is Ok,
        ({
            let l = line.line->0->Syslog_0;
            let entry = entry_of_line(line, extra)->Ok_0;
            let fields = entry.free_fields;
            &&& entry.log_system == LogSystemView::Syslog
            &&& entry.message == l.msg
            &&& entry.service_name == (match l.appname {
                Some(name) => name,
                None => "_syslog"@,
            })
            &&& forall|key: Seq<char>|
                fields.dom().contains(key) ==> key == "facility"@ || key == "proc_pid"@ || key
                    == "proc_name"@ || key == "msgid"@
            &&& fields.dom().contains("facility"@)
            &&& fields["facility"@] == Json::Text(
                facility_name(facility_or_default(l.facility as int)),
            )
            &&& fields.dom().contains("proc_pid"@) <==> l.proc_pid is Some
            &&& l.proc_pid is Some ==> fields["proc_pid"@] == Json::Number(
                NumberView::PosInt(l.proc_pid->0 as u64),
            )
            &&& fields.dom().contains("proc_name"@) <==> l.proc_name is Some
            &&& l.proc_name is Some ==> fields["proc_name"@] == Json::Text(l.proc_name->0)
            &&& fields.dom().contains("msgid"@) <==> l.msgid is Some
            &&& l.msgid is Some ==> fields["msgid"@] == Json::Text(l.msgid->0)
        }),
{
    reveal_strlit("facility");
    reveal_strlit("proc_pid");
    reveal_strlit("proc_name");
    reveal_strlit("msgid");
    assert("facility"@.len() == 8 && "proc_pid"@.len() == 8 && "proc_name"@.len() == 9
        && "msgid"@.len() == 5);
    assert("facility"@[0] == 'f' && "proc_pid"@[0] == 'p');
}

/// The service name of a GELF document never stays among its free fields.
pub proof fn lemma_gelf_service_is_lifted(line: LogLineView, extra: Option<Json>)
    requires
        is_complete(line, extra),
        line.line->0 is Gelf,
    ensures
        !entry_of_line(line, extra)->Ok_0.free_fields.dom().contains("service"@),
{
}

} // verus!
