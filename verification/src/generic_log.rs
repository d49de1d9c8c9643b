//! The least that a record needs to travel the pipeline, for sources that have no
//! format of their own.

use vstd::prelude::*;

use crate::gelf::{stripped, stripped_members};
use crate::json::{
    json_object_text, member_refs_view, members_view, text_of_json, Json, JsonValue,
};
use crate::severity::{severity_number, SyslogSeverity};
use crate::wire::{
    GenericLogLine, GenericLogLineView, Line, LineView, LogLine, LogLineView, Timestamp,
};

verus! {

/// A record of a generic source. `extra` is meant to be a JSON object.
#[derive(Debug)]
pub struct GenericLog {
    pub host: String,
    pub timestamp: Timestamp,
    pub severity: SyslogSeverity,
    pub extra: JsonValue,
    pub log_system: String,
    pub message: String,
    pub service_name: String,
}

pub struct GenericLogView {
    pub host: Seq<char>,
    pub timestamp: Timestamp,
    pub severity: SyslogSeverity,
    pub extra: Json,
    pub log_system: Seq<char>,
    pub message: Seq<char>,
    pub service_name: Seq<char>,
}

impl View for GenericLog {
    type V = GenericLogView;

    open spec fn view(&self) -> GenericLogView {
        GenericLogView {
            host: self.host@,
            timestamp: self.timestamp,
            severity: self.severity,
            extra: self.extra@,
            log_system: self.log_system@,
            message: self.message@,
            service_name: self.service_name@,
        }
    }
}

/// Why a generic record cannot become a log line.
#[derive(Clone, Copy, Debug, PartialEq, Eq, Structural)]
pub enum GenericError {
    /// `extra` is not a JSON object.
    ExtraNotAnObject,
}

/// The log line of a generic record, or the reason why it has none. The `extra` of
/// the line is the JSON text of the record's `extra` members, each key without a
/// leading underscore.
pub open spec fn generic_line_of(log: GenericLogView) -> Result<LogLineView, GenericError> {
    if !(log.extra is Object) {
        Err(GenericError::ExtraNotAnObject)
    } else {
        Ok(
            LogLineView {
                host: log.host,
                timestamp: Some(log.timestamp),
                line: Some(
                    LineView::GenericLog(
                        GenericLogLineView {
                            message: log.message,
                            severity: severity_number(log.severity) as i32,
                            service_name: log.service_name,
                            log_system: log.log_system,
                            extra: text_of_json(
                                Json::Object(stripped_members(log.extra->Object_0)),
                            ),
                        },
                    ),
                ),
            },
        )
    }
}

/// The view of a normalization's outcome.
pub open spec fn generic_result_view(r: Result<LogLine, GenericError>) -> Result<
    LogLineView,
    GenericError,
> {
    match r {
        Ok(l) => Ok(l@),
        Err(e) => Err(e),
    }
}

/// Every member in order, its key without a leading underscore.
pub fn renamed_members(members: &Vec<(String, JsonValue)>) -> (r: Vec<(String, &JsonValue)>)
    ensures
        member_refs_view(r@) == stripped_members(members_view(members@)),
{
    let mut out: Vec<(String, &JsonValue)> = Vec::new();
    let mut i: usize = 0;
    while i < members.len()
        invariant
            i <= members.len(),
            member_refs_view(out@) == stripped_members(members_view(members@)).take(i as int),
        decreases members.len() - i,
    {
        let ghost before = member_refs_view(out@);
        let ghost all = stripped_members(members_view(members@));
        out.push((String::from_str(stripped(members[i].0.as_str())), &members[i].1));
        proof {
            assert(member_refs_view(out@) =~= before.push(all[i as int]));
            assert(all.take(i as int + 1) =~= all.take(i as int).push(all[i as int]));
        }
        i += 1;
    }
    assert(stripped_members(members_view(members@)).take(members.len() as int)
        =~= stripped_members(members_view(members@)));
    out
}

impl LogLine {
    /// Normalizes a generic record into a log line. `extra` must be a JSON object.
    pub fn try_from_generic(value: GenericLog) -> (r: Result<LogLine, GenericError>)
        ensures
            generic_result_view(r) == generic_line_of(value@),
    {
        let extra = match value.extra.as_object() {
            Some(members) => json_object_text(&renamed_members(members)),
            None => {
                return Err(GenericError::ExtraNotAnObject);
            },
        };
        Ok(
            LogLine {
                host: value.host,
                timestamp: Some(value.timestamp),
                line: Some(
                    Line::GenericLog(
                        GenericLogLine {
                            message: value.message,
                            severity: value.severity.number() as i32,
                            service_name: value.service_name,
                            log_system: value.log_system,
                            extra,
                        },
                    ),
                ),
            },
        )
    }
}

} // verus!
