//! The file tailer: how one line of a tailed file becomes a record.

use vstd::prelude::*;

use crate::config::{FieldMapping, FieldMappingView, FieldType, FileMappingConfig, FileParseConfig, FileParseConfigView};
use crate::eqregex::{captures_view, groups_view, regex_captures};
use crate::generic_log::{GenericLog, GenericLogView};
use crate::json::{
    members_view, number_from_text, number_of_text, Json, JsonNumber, JsonValue, NumberView,
};
use crate::severity::{severity_number, severity_of_name, SyslogSeverity};
use crate::text::{opt_text, str_eq, trim, trimmed};
use crate::timestamp::{parse_timestamp, rfc3339_of, timestamp_of_text, to_rfc3339};
use crate::wire::Timestamp;

verus! {

/// Why a line of a tailed file gives no record.
#[derive(Clone, Copy, Debug, PartialEq, Eq, Structural)]
pub enum LineError {
    /// The line does not match the pattern.
    NotMatching,
    /// A field has no capture group, or its group took no part in the match.
    MissingGroup,
    /// The text of a timestamp field is no point in time.
    InvalidTimestamp,
    /// The text of a number field is no JSON number.
    InvalidNumber,
    /// No field is named `message`.
    NoMessage,
}

/// What the fields of a line have given so far: those that are lifted into the
/// record, and the others in the order of the field mapping.
pub struct Fields {
    pub host: Option<String>,
    pub timestamp: Option<Timestamp>,
    pub service_name: Option<String>,
    pub severity: Option<SyslogSeverity>,
    pub message: Option<String>,
    pub extra: Vec<(String, JsonValue)>,
}

pub struct FieldsView {
    pub host: Option<Seq<char>>,
    pub timestamp: Option<Timestamp>,
    pub service_name: Option<Seq<char>>,
    pub severity: Option<SyslogSeverity>,
    pub message: Option<Seq<char>>,
    pub extra: Seq<(Seq<char>, Json)>,
}

impl View for Fields {
    type V = FieldsView;

    open spec fn view(&self) -> FieldsView {
        FieldsView {
            host: opt_text(self.host),
            timestamp: self.timestamp,
            service_name: opt_text(self.service_name),
            severity: self.severity,
            message: opt_text(self.message),
            extra: members_view(self.extra@),
        }
    }
}

/// No field yet.
pub open spec fn no_fields() -> FieldsView {
    FieldsView {
        host: None,
        timestamp: None,
        service_name: None,
        severity: None,
        message: None,
        extra: Seq::empty(),
    }
}

/// The value that the text of a capture group gives to a field of a type.
pub open spec fn field_value(field_type: FieldType, text: Seq<char>) -> Result<Json, LineError> {
    match field_type {
        FieldType::String => Ok(Json::Text(text)),
        FieldType::Timestamp => match timestamp_of_text(text) {
            Some(t) => match rfc3339_of(t) {
                Some(written) => Ok(Json::Text(written)),
                None => Err(LineError::InvalidTimestamp),
            },
            None => Err(LineError::InvalidTimestamp),
        },
        FieldType::Number => match number_of_text(text) {
            Some(n) => Ok(Json::Number(n)),
            None => Err(LineError::InvalidNumber),
        },
        FieldType::SyslogLevelText => Ok(
            Json::Number(
                NumberView::PosInt(
                    severity_number(
                        match severity_of_name(trimmed(text)) {
                            Some(s) => s,
                            None => SyslogSeverity::Info,
                        },
                    ) as u64,
                ),
            ),
        ),
    }
}

/// What the fields are after one more field was read from its capture group. The
/// text of the group counts without the white space around it. The fields named
/// `timestamp`, `host`, `message`, `service_name` and `severity` are lifted into the
/// record whatever their type says; every other field joins the extra fields with
/// the value that its type gives.
pub open spec fn field_step(
    fields: FieldsView,
    mapping: FieldMappingView,
    group: Option<Seq<char>>,
) -> Result<FieldsView, LineError> {
    if group is None {
        Err(LineError::MissingGroup)
    } else {
        let text = trimmed(group->0);
        if mapping.name == "timestamp"@ {
            match timestamp_of_text(text) {
                Some(t) => Ok(FieldsView { timestamp: Some(t), ..fields }),
                None => Err(LineError::InvalidTimestamp),
            }
        } else if mapping.name == "host"@ {
            Ok(FieldsView { host: Some(text), ..fields })
        } else if mapping.name == "message"@ {
            Ok(FieldsView { message: Some(text), ..fields })
        } else if mapping.name == "service_name"@ {
            Ok(FieldsView { service_name: Some(text), ..fields })
        } else if mapping.name == "severity"@ {
            Ok(FieldsView { severity: severity_of_name(trimmed(text)), ..fields })
        } else {
            match field_value(mapping.field_type, text) {
                Ok(value) => Ok(
                    FieldsView { extra: fields.extra.push((mapping.name, value)), ..fields },
                ),
                Err(e) => Err(e),
            }
        }
    }
}

/// The capture group of the field at `index` of the mapping, where there is one and
/// it took part in the match: group `index + 1`, since group 0 is the whole match.
pub open spec fn group_at(groups: Seq<Option<Seq<char>>>, index: int) -> Option<Seq<char>> {
    if 0 <= index && index + 1 < groups.len() {
        groups[index + 1]
    } else {
        None
    }
}

/// What the first `count` fields of the mapping give, read in order from their
/// capture groups; the first field that fails decides the error.
pub open spec fn fields_of(
    mapping: Seq<FieldMappingView>,
    groups: Seq<Option<Seq<char>>>,
    count: nat,
) -> Result<FieldsView, LineError>
    decreases count,
{
    if count == 0 {
        Ok(no_fields())
    } else {
        match fields_of(mapping, groups, (count - 1) as nat) {
            Ok(fields) => field_step(fields, mapping[count - 1], group_at(groups, count - 1)),
            Err(e) => Err(e),
        }
    }
}

/// The record that the fields of a line make. A message is required. The host
/// falls back to the local host, the timestamp to the time of reading, the
/// severity to `Info` and the service name to the path of the file. The extra
/// object holds the fields that were not lifted, then the static fields of the
/// file.
pub open spec fn log_of_fields(
    fields: FieldsView,
    static_fields: Seq<(Seq<char>, Json)>,
    file: Seq<char>,
    local_host: Seq<char>,
    now: Timestamp,
) -> Result<GenericLogView, LineError> {
    if fields.message is None {
        Err(LineError::NoMessage)
    } else {
        Ok(
            GenericLogView {
                host: match fields.host {
                    Some(host) => host,
                    None => local_host,
                },
                timestamp: match fields.timestamp {
                    Some(t) => t,
                    None => now,
                },
                severity: match fields.severity {
                    Some(s) => s,
                    None => SyslogSeverity::Info,
                },
                extra: Json::Object(fields.extra + static_fields),
                log_system: "file_in"@,
                message: fields.message->0,
                service_name: match fields.service_name {
                    Some(name) => name,
                    None => file,
                },
            },
        )
    }
}

/// The record of a line, given what the pattern captured in it.
pub open spec fn log_of_captures(
    config: FileParseConfigView,
    captures: Option<Seq<Option<Seq<char>>>>,
    file: Seq<char>,
    local_host: Seq<char>,
    now: Timestamp,
) -> Result<GenericLogView, LineError> {
    match captures {
        None => Err(LineError::NotMatching),
        Some(groups) => match fields_of(config.mapping, groups, config.mapping.len()) {
            Ok(fields) => log_of_fields(fields, config.static_fields, file, local_host, now),
            Err(e) => Err(e),
        },
    }
}

/// The view of a parse's outcome.
pub open spec fn log_result_view(r: Result<GenericLog, LineError>) -> Result<
    GenericLogView,
    LineError,
> {
    match r {
        Ok(log) => Ok(log@),
        Err(e) => Err(e),
    }
}

/// The view of the outcome of reading fields.
pub open spec fn fields_result_view(r: Result<Fields, LineError>) -> Result<
    FieldsView,
    LineError,
> {
    match r {
        Ok(fields) => Ok(fields@),
        Err(e) => Err(e),
    }
}

/// The value that the text of a capture group gives to a field of a type.
fn value_of(field_type: FieldType, text: &str) -> (r: Result<JsonValue, LineError>)
    ensures
        match r {
            Ok(v) => field_value(field_type, text@) == Ok::<Json, LineError>(v@),
            Err(e) => field_value(field_type, text@) == Err::<Json, LineError>(e),
        },
{
    match field_type {
        FieldType::String => Ok(JsonValue::Text(String::from_str(text))),
        FieldType::Timestamp => match parse_timestamp(text) {
            Some(t) => match to_rfc3339(t) {
                Some(written) => Ok(JsonValue::Text(written)),
                None => Err(LineError::InvalidTimestamp),
            },
            None => Err(LineError::InvalidTimestamp),
        },
        FieldType::Number => match number_from_text(text) {
            Some(n) => Ok(JsonValue::Number(n)),
            None => Err(LineError::InvalidNumber),
        },
        FieldType::SyslogLevelText => {
            let severity = match SyslogSeverity::from_str_name(trim(text)) {
                Some(s) => s,
                None => SyslogSeverity::Info,
            };
            Ok(JsonValue::Number(JsonNumber::PosInt(severity.number() as u64)))
        },
    }
}

/// Reads one more field from its capture group: see [`field_step`].
pub fn read_field(fields: Fields, mapping: &FieldMapping, group: Option<&str>) -> (r: Result<
    Fields,
    LineError,
>)
    ensures
        fields_result_view(r) == field_step(
            fields@,
            mapping@,
            match group {
                Some(text) => Some(text@),
                None => None,
            },
        ),
{
    let mut fields = fields;
    let text = match group {
        Some(text) => trim(text),
        None => {
            return Err(LineError::MissingGroup);
        },
    };
    let name = mapping.name.as_str();
    if str_eq(name, "timestamp") {
        match parse_timestamp(text) {
            Some(t) => {
                fields.timestamp = Some(t);
            },
            None => {
                return Err(LineError::InvalidTimestamp);
            },
        }
    } else if str_eq(name, "host") {
        fields.host = Some(String::from_str(text));
    } else if str_eq(name, "message") {
        fields.message = Some(String::from_str(text));
    } else if str_eq(name, "service_name") {
        fields.service_name = Some(String::from_str(text));
    } else if str_eq(name, "severity") {
        fields.severity = SyslogSeverity::from_str_name(trim(text));
    } else {
        match value_of(mapping.field_type, text) {
            Ok(value) => {
                let ghost before = members_view(fields.extra@);
                fields.extra.push((mapping.name.clone(), value));
                assert(members_view(fields.extra@) =~= before.push((mapping.name@, value@)));
            },
            Err(e) => {
                return Err(e);
            },
        }
    }
    Ok(fields)
}

impl FileParseConfig {
    /// Makes the record of a line out of what the pattern captured in it: `None`
    /// where the line does not match, else the text of every capture group, group 0
    /// (the whole match) first. The field at index `i` of the mapping is read from
    /// group `i + 1`. `file` is the path of the tailed file, `local_host` the name of this
    /// host and `now` the time of reading.
    pub fn to_log_from_captures(
        &self,
        captures: Option<Vec<Option<String>>>,
        file: &str,
        local_host: &str,
        now: Timestamp,
    ) -> (r: Result<GenericLog, LineError>)
        ensures
            log_result_view(r) == log_of_captures(
                self@,
                captures_view(captures),
                file@,
                local_host@,
                now,
            ),
    {
        let groups = match captures {
            Some(groups) => groups,
            None => {
                return Err(LineError::NotMatching);
            },
        };
        let mapping = match &self.mapping {
            FileMappingConfig::Regex { pattern: _, mapping } => mapping,
        };
        let ghost shown = groups_view(groups@);
        let mut fields = Fields {
            host: None,
            timestamp: None,
            service_name: None,
            severity: None,
            message: None,
            extra: Vec::new(),
        };
        assert(fields@.extra =~= no_fields().extra);
        let mut i: usize = 0;
        while i < mapping.len()
            invariant
                i <= mapping.len(),
                shown == groups_view(groups@),
                captures_view(captures) == Some(shown),
                self.mapping matches FileMappingConfig::Regex { pattern: _, mapping: m } && m
                    == *mapping,
                fields_of(self@.mapping, shown, i as nat) == Ok::<FieldsView, LineError>(fields@),
            decreases mapping.len() - i,
        {
            let group: Option<&str> = if i + 1 < groups.len() {
                match &groups[i + 1] {
                    Some(text) => Some(text.as_str()),
                    None => None,
                }
            } else {
                None
            };
            let ghost step = field_step(fields@, self@.mapping[i as int], group_at(shown, i as int));
            proof {
                assert(self@.mapping[i as int] == mapping@[i as int]@);
                assert(self@.mapping.len() == mapping@.len());
                assert(group_at(shown, i as int) == match group {
                    Some(text) => Some(text@),
                    None => None,
                });
                assert(fields_of(self@.mapping, shown, (i + 1) as nat) == step);
            }
            match read_field(fields, &mapping[i], group) {
                Ok(next) => {
                    fields = next;
                },
                Err(e) => {
                    proof {
                        lemma_first_error_decides(
                            self@.mapping,
                            shown,
                            (i + 1) as nat,
                            mapping.len() as nat,
                        );
                    }
                    return Err(e);
                },
            }
            i += 1;
        }
        let message = match fields.message {
            Some(message) => message,
            None => {
                return Err(LineError::NoMessage);
            },
        };
        let mut extra = fields.extra;
        let ghost mapped = members_view(extra@);
        let ghost fixed = members_view(self.static_fields@);
        assert(mapped + fixed.take(0) =~= mapped);
        let mut j: usize = 0;
        while j < self.static_fields.len()
            invariant
                j <= self.static_fields.len(),
                fixed == members_view(self.static_fields@),
                members_view(extra@) == mapped + fixed.take(j as int),
            decreases self.static_fields.len() - j,
        {
            let ghost before = members_view(extra@);
            extra.push((self.static_fields[j].0.clone(), self.static_fields[j].1.clone()));
            proof {
                assert(members_view(extra@) =~= before.push(fixed[j as int]));
                assert(mapped + fixed.take(j as int + 1) =~= (mapped + fixed.take(j as int)).push(
                    fixed[j as int],
                ));
            }
            j += 1;
        }
        assert(fixed.take(self.static_fields.len() as int) =~= fixed);
        let extra = JsonValue::Object(extra);
        assert(extra@->Object_0 =~= mapped + fixed);
        Ok(
            GenericLog {
                host: match fields.host {
                    Some(host) => host,
                    None => String::from_str(local_host),
                },
                timestamp: match fields.timestamp {
                    Some(t) => t,
                    None => now,
                },
                severity: match fields.severity {
                    Some(s) => s,
                    None => SyslogSeverity::Info,
                },
                extra,
                log_system: String::from_str("file_in"),
                message,
                service_name: match fields.service_name {
                    Some(name) => name,
                    None => String::from_str(file),
                },
            },
        )
    }

    /// Makes the record of one line of a tailed file. The line is matched against
    /// the pattern of the file; see [`FileParseConfig::to_log_from_captures`] for
    /// the rest.
    pub fn to_log(&self, line: &str, file: &str, local_host: &str, now: Timestamp) -> (r: Result<
        GenericLog,
        LineError,
    >)
        ensures
            log_result_view(r) == log_of_captures(
                self@,
                regex_captures(self@.pattern, line@),
                file@,
                local_host@,
                now,
            ),
    {
        let captures = match &self.mapping {
            FileMappingConfig::Regex { pattern, mapping: _ } => pattern.captures(line),
        };
        self.to_log_from_captures(captures, file, local_host, now)
    }
}

/// Once a field has failed, the fields after it are not read: the error stands.
pub proof fn lemma_first_error_decides(
    mapping: Seq<FieldMappingView>,
    groups: Seq<Option<Seq<char>>>,
    failed: nat,
    count: nat,
)
    requires
        fields_of(mapping, groups, failed) is Err,
        failed <= count,
    ensures
        fields_of(mapping, groups, count) == fields_of(mapping, groups, failed),
    decreases count,
{
    if failed < count {
        lemma_first_error_decides(mapping, groups, failed, (count - 1) as nat);
    }
}

/// A line gives the same record however it reached the tailer: two lines of the same
/// characters give the same record or the same error, whatever buffers held them.
pub proof fn lemma_record_depends_on_text_only(
    config: FileParseConfigView,
    first: &str,
    second: &str,
    file: Seq<char>,
    local_host: Seq<char>,
    now: Timestamp,
)
    requires
        first@ == second@,
    ensures
        log_of_captures(config, regex_captures(config.pattern, first@), file, local_host, now)
            == log_of_captures(
            config,
            regex_captures(config.pattern, second@),
            file,
            local_host,
            now,
        ),
{
}

/// The records that the tailer of a file gives for the lines that are appended to
/// it, each line with the time at which it is read: the record of every line that
/// has one, in the order of the lines. A line without a record is passed over and the
/// tailer goes on.
pub open spec fn records_of(
    config: FileParseConfigView,
    lines: Seq<(Seq<char>, Timestamp)>,
    file: Seq<char>,
    local_host: Seq<char>,
) -> Seq<GenericLogView>
    decreases lines.len(),
{
    if lines.len() == 0 {
        Seq::empty()
    } else {
        let earlier = records_of(config, lines.drop_last(), file, local_host);
        match log_of_captures(
            config,
            regex_captures(config.pattern, lines.last().0),
            file,
            local_host,
            lines.last().1,
        ) {
            Ok(log) => earlier.push(log),
            Err(_) => earlier,
        }
    }
}

/// Over all the lines of a file the tailer gives one record for each line that has
/// one, in the order of the file, and none for the others: the records of the lines
/// are those of the first lines followed by those of the rest, however the lines
/// were cut into writes and reads.
pub proof fn lemma_tailer_gives_one_record_per_line(
    config: FileParseConfigView,
    first: Seq<(Seq<char>, Timestamp)>,
    rest: Seq<(Seq<char>, Timestamp)>,
    file: Seq<char>,
    local_host: Seq<char>,
)
    ensures
        records_of(config, first + rest, file, local_host) == records_of(
            config,
            first,
            file,
            local_host,
        ) + records_of(config, rest, file, local_host),
        records_of(config, first, file, local_host).len() <= first.len(),
    decreases rest.len(), first.len(),
{
    if first.len() > 0 {
        lemma_tailer_gives_one_record_per_line(
            config,
            first.drop_last(),
            Seq::empty(),
            file,
            local_host,
        );
    }
    if rest.len() == 0 {
        assert(first + rest =~= first);
        assert(records_of(config, first, file, local_host) + records_of(
            config,
            rest,
            file,
            local_host,
        ) =~= records_of(config, first, file, local_host));
    } else {
        lemma_tailer_gives_one_record_per_line(config, first, rest.drop_last(), file, local_host);
        assert((first + rest).drop_last() =~= first + rest.drop_last());
        assert((first + rest).last() == rest.last());
        let earlier = records_of(config, first, file, local_host);
        let later = records_of(config, rest.drop_last(), file, local_host);
        let last = log_of_captures(
            config,
            regex_captures(config.pattern, rest.last().0),
            file,
            local_host,
            rest.last().1,
        );
        if last is Ok {
            assert((earlier + later).push(last->Ok_0) =~= earlier + later.push(last->Ok_0));
        }
    }
}

/// What the tailer of a file does with a new line.
#[derive(Clone, Copy, Debug, PartialEq, Eq, Structural)]
pub enum WatchStep {
    /// The file is still configured: parse the line and go on.
    Parse,
    /// The file is no longer configured: stop watching it.
    Stop,
}

/// Decides what the tailer of a file does with a new line, given whether the
/// configuration in force still has an entry for the file.
pub fn on_new_line(still_configured: bool) -> (r: WatchStep)
    ensures
        r == if still_configured {
            WatchStep::Parse
        } else {
            WatchStep::Stop
        },
{
    if still_configured {
        WatchStep::Parse
    } else {
        WatchStep::Stop
    }
}

} // verus!
