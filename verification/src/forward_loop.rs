//! The forwarder: it takes the records of one input queue, turns each into a wire
//! log line and passes it on to the queue towards the collector.

use vstd::prelude::*;

use crate::gelf::{gelf_line_of, GelfLog};
use crate::generic_log::{generic_line_of, GenericLog};
use crate::metrics::{counters_of, with_counters, QueueName, ShipperCounters};
use crate::queue::{bump, decrement, drop_one, increment, QueueCounters};
use crate::syslog::{syslog_line_of, SyslogLog};
use crate::wire::{LogLine, LogLineView};

verus! {

/// A record of one of the three kinds of source.
#[derive(Debug)]
pub enum SourceRecord {
    Gelf(GelfLog),
    Syslog(SyslogLog),
    File(GenericLog),
}

/// The counters that a forwarder touches: three of its input queue and the depth of
/// the queue towards the collector.
#[derive(Clone, Copy, Debug, PartialEq, Eq, Structural)]
pub struct ForwardMetrics {
    pub in_queue_size: u64,
    pub in_processed_count: u64,
    pub in_error_count: u64,
    pub out_queue_size: u64,
}

/// The input queue that a record of a kind comes from.
pub open spec fn input_of(record: SourceRecord) -> QueueName {
    match record {
        SourceRecord::Gelf(_) => QueueName::GelfIn,
        SourceRecord::Syslog(_) => QueueName::SyslogIn,
        SourceRecord::File(_) => QueueName::FilesIn,
    }
}

/// The log line of a record, where it has one.
pub open spec fn line_of(record: SourceRecord) -> Option<LogLineView> {
    match record {
        SourceRecord::Gelf(log) => match gelf_line_of(log.json@, log.timestamp_millis) {
            Ok(line) => Some(line),
            Err(_) => None,
        },
        SourceRecord::Syslog(log) => match syslog_line_of(log@) {
            Ok(line) => Some(line),
            Err(_) => None,
        },
        SourceRecord::File(log) => match generic_line_of(log@) {
            Ok(line) => Some(line),
            Err(_) => None,
        },
    }
}

/// The counters of a forwarder after it took a record from its input queue: one
/// less in the queue, one more processed, and one more error where the record has no
/// log line.
pub open spec fn metrics_after_take(m: ForwardMetrics, converted: bool) -> ForwardMetrics {
    ForwardMetrics {
        in_queue_size: drop_one(m.in_queue_size),
        in_processed_count: bump(m.in_processed_count),
        in_error_count: if converted {
            m.in_error_count
        } else {
            bump(m.in_error_count)
        },
        out_queue_size: m.out_queue_size,
    }
}

/// The counters of a forwarder after it handed a log line to the queue towards the
/// collector: one more in that queue where the queue took it.
pub open spec fn metrics_after_send(m: ForwardMetrics, sent: bool) -> ForwardMetrics {
    if sent {
        ForwardMetrics { out_queue_size: bump(m.out_queue_size), ..m }
    } else {
        m
    }
}

/// The view of an optional log line.
pub open spec fn opt_line(o: Option<LogLine>) -> Option<LogLineView> {
    match o {
        Some(l) => Some(l@),
        None => None,
    }
}

/// The counters that the forwarder of an input touches.
pub open spec fn forward_metrics_of(all: ShipperCounters, input: QueueName) -> ForwardMetrics {
    ForwardMetrics {
        in_queue_size: counters_of(all, input).queue_count,
        in_processed_count: counters_of(all, input).processed_count,
        in_error_count: counters_of(all, input).error_count,
        out_queue_size: all.grpc_out.queue_count,
    }
}

/// All counters with those that a forwarder touches replaced.
pub open spec fn with_forward_metrics(
    all: ShipperCounters,
    input: QueueName,
    m: ForwardMetrics,
) -> ShipperCounters {
    let changed = with_counters(
        all,
        input,
        QueueCounters {
            queue_count: m.in_queue_size,
            processed_count: m.in_processed_count,
            error_count: m.in_error_count,
        },
    );
    if input == QueueName::GrpcOut {
        changed
    } else {
        ShipperCounters {
            grpc_out: QueueCounters { queue_count: m.out_queue_size, ..changed.grpc_out },
            ..changed
        }
    }
}

impl ForwardMetrics {
    /// The counters that the forwarder of an input touches, out of all counters.
    pub fn of(all: &ShipperCounters, input: QueueName) -> (r: Self)
        ensures
            r == forward_metrics_of(*all, input),
    {
        let own = all.get(input);
        ForwardMetrics {
            in_queue_size: own.queue_count,
            in_processed_count: own.processed_count,
            in_error_count: own.error_count,
            out_queue_size: all.grpc_out.queue_count,
        }
    }

    /// Writes the counters of a forwarder back into all counters.
    pub fn store(&self, all: &mut ShipperCounters, input: QueueName)
        ensures
            *final(all) == with_forward_metrics(*old(all), input, *self),
    {
        all.set(
            input,
            QueueCounters {
                queue_count: self.in_queue_size,
                processed_count: self.in_processed_count,
                error_count: self.in_error_count,
            },
        );
        match input {
            QueueName::GrpcOut => {},
            _ => {
                all.grpc_out.queue_count = self.out_queue_size;
            },
        }
    }
}

/// Turns a record into its log line, if it has one.
pub fn convert(record: SourceRecord) -> (r: Option<LogLine>)
    ensures
        opt_line(r) == line_of(record),
{
    match record {
        SourceRecord::Gelf(log) => match LogLine::try_from_gelf(log) {
            Ok(line) => Some(line),
            Err(_) => None,
        },
        SourceRecord::Syslog(log) => match LogLine::try_from_syslog(log) {
            Ok(line) => Some(line),
            Err(_) => None,
        },
        SourceRecord::File(log) => match LogLine::try_from_generic(log) {
            Ok(line) => Some(line),
            Err(_) => None,
        },
    }
}

/// Takes one record off the input queue: it is counted as processed, and turned
/// into the log line that is to be sent on. A record without a log line is counted
/// as an error and dropped.
pub fn forward(record: SourceRecord, fw_metrics: &mut ForwardMetrics) -> (r: Option<LogLine>)
    ensures
        opt_line(r) == line_of(record),
        *final(fw_metrics) == metrics_after_take(*old(fw_metrics), line_of(record) is Some),
{
    fw_metrics.in_queue_size = decrement(fw_metrics.in_queue_size);
    fw_metrics.in_processed_count = increment(fw_metrics.in_processed_count);
    let line = convert(record);
    if line.is_none() {
        fw_metrics.in_error_count = increment(fw_metrics.in_error_count);
    }
    line
}

/// Accounts for a log line that was handed to the queue towards the collector, and
/// says whether the forwarder goes on: it stops when that queue is closed.
pub fn forwarded(sent: bool, fw_metrics: &mut ForwardMetrics) -> (r: bool)
    ensures
        r == sent,
        *final(fw_metrics) == metrics_after_send(*old(fw_metrics), sent),
{
    if sent {
        fw_metrics.out_queue_size = increment(fw_metrics.out_queue_size);
    }
    sent
}

/// The log lines that a forwarder hands on for the records of its input queue, taken
/// one after the other while the queue towards the collector stays open: the line of
/// each record that has one, in the order of the records.
pub open spec fn lines_of(records: Seq<SourceRecord>) -> Seq<LogLineView>
    decreases records.len(),
{
    if records.len() == 0 {
        Seq::empty()
    } else {
        match line_of(records.last()) {
            Some(line) => lines_of(records.drop_last()).push(line),
            None => lines_of(records.drop_last()),
        }
    }
}

/// How many of the records have a log line.
pub open spec fn count_of_lines(records: Seq<SourceRecord>) -> nat
    decreases records.len(),
{
    if records.len() == 0 {
        0
    } else if line_of(records.last()) is Some {
        count_of_lines(records.drop_last()) + 1
    } else {
        count_of_lines(records.drop_last())
    }
}

/// Over a whole run of its input queue a forwarder hands on the log line of every
/// record that has one, each exactly once and in the order of the records, and
/// nothing else: the lines of a run are those of its first part followed by those of
/// the rest, a record with a log line gives that one line, and a record without gives
/// none.
pub proof fn lemma_forwarder_hands_on_every_line_once(
    first: Seq<SourceRecord>,
    rest: Seq<SourceRecord>,
)
    ensures
        lines_of(first + rest) == lines_of(first) + lines_of(rest),
        lines_of(first + rest).len() == count_of_lines(first) + count_of_lines(rest),
        forall|record: SourceRecord|
            lines_of(seq![record]) == (match #[trigger] line_of(record) {
                Some(line) => seq![line],
                None => Seq::empty(),
            }),
    decreases rest.len(),
{
    assert forall|record: SourceRecord|
        lines_of(seq![record]) == (match #[trigger] line_of(record) {
            Some(line) => seq![line],
            None => Seq::empty(),
        }) by {
        let one = seq![record];
        assert(one.drop_last() =~= Seq::<SourceRecord>::empty());
        assert(one.last() == record);
        assert(lines_of(one.drop_last()) =~= Seq::<LogLineView>::empty());
        if line_of(record) is Some {
            assert(Seq::<LogLineView>::empty().push(line_of(record)->0) =~= seq![
                line_of(record)->0,
            ]);
        }
    }
    if rest.len() == 0 {
        assert(first + rest =~= first);
        assert(lines_of(first) + lines_of(rest) =~= lines_of(first));
        lemma_lines_are_counted(first);
    } else {
        lemma_forwarder_hands_on_every_line_once(first, rest.drop_last());
        assert((first + rest).drop_last() =~= first + rest.drop_last());
        assert((first + rest).last() == rest.last());
        if line_of(rest.last()) is Some {
            assert(lines_of(first + rest) =~= lines_of(first) + lines_of(rest));
        }
    }
}

/// There are as many log lines as records that have one.
pub proof fn lemma_lines_are_counted(records: Seq<SourceRecord>)
    ensures
        lines_of(records).len() == count_of_lines(records),
        count_of_lines(records) <= records.len(),
    decreases records.len(),
{
    if records.len() > 0 {
        lemma_lines_are_counted(records.drop_last());
    }
}

/// Every record that a forwarder takes is counted once as processed, and it either
/// gives exactly one log line or is counted once as an error.
pub proof fn lemma_forward_accounts_for_every_record(record: SourceRecord, m: ForwardMetrics)
    ensures
        metrics_after_take(m, line_of(record) is Some).in_processed_count == bump(
            m.in_processed_count,
        ),
        line_of(record) is Some ==> metrics_after_take(m, true).in_error_count
            == m.in_error_count,
        line_of(record) is None ==> metrics_after_take(m, false).in_error_count == bump(
            m.in_error_count,
        ),
{
}

} // verus!
