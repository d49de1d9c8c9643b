//! The counters of a shipper and the snapshot of them that it reports to the
//! collector.

use vstd::prelude::*;

use crate::queue::QueueCounters;
use crate::wire::{counts_view, Metrics};

verus! {

/// The queues of a shipper.
#[derive(Clone, Copy, Debug, PartialEq, Eq, Structural)]
pub enum QueueName {
    GelfIn,
    SyslogIn,
    FilesIn,
    GrpcOut,
}

/// The name under which a queue is reported.
pub open spec fn queue_label(name: QueueName) -> Seq<char> {
    match name {
        QueueName::GelfIn => "gelf_in"@,
        QueueName::SyslogIn => "syslog_in"@,
        QueueName::FilesIn => "files_in"@,
        QueueName::GrpcOut => "grpc_out"@,
    }
}

impl QueueName {
    /// The name under which this queue is reported.
    pub fn as_str(&self) -> (r: &'static str)
        ensures
            r@ == queue_label(*self),
    {
        match self {
            QueueName::GelfIn => "gelf_in",
            QueueName::SyslogIn => "syslog_in",
            QueueName::FilesIn => "files_in",
            QueueName::GrpcOut => "grpc_out",
        }
    }
}

/// The counters of all queues of a shipper.
#[derive(Clone, Copy, Debug, PartialEq, Eq, Structural)]
pub struct ShipperCounters {
    pub gelf_in: QueueCounters,
    pub syslog_in: QueueCounters,
    pub files_in: QueueCounters,
    pub grpc_out: QueueCounters,
}

/// The counters of one queue.
pub open spec fn counters_of(all: ShipperCounters, name: QueueName) -> QueueCounters {
    match name {
        QueueName::GelfIn => all.gelf_in,
        QueueName::SyslogIn => all.syslog_in,
        QueueName::FilesIn => all.files_in,
        QueueName::GrpcOut => all.grpc_out,
    }
}

/// All counters with those of one queue replaced.
pub open spec fn with_counters(all: ShipperCounters, name: QueueName, c: QueueCounters) -> ShipperCounters {
    match name {
        QueueName::GelfIn => ShipperCounters { gelf_in: c, ..all },
        QueueName::SyslogIn => ShipperCounters { syslog_in: c, ..all },
        QueueName::FilesIn => ShipperCounters { files_in: c, ..all },
        QueueName::GrpcOut => ShipperCounters { grpc_out: c, ..all },
    }
}

/// One counter of each queue, by queue name: the GELF, syslog and file inputs, then
/// the queue towards the collector.
pub open spec fn family(gelf: u64, syslog: u64, files: u64, grpc: u64) -> Seq<(Seq<char>, u64)> {
    seq![("gelf_in"@, gelf), ("syslog_in"@, syslog), ("files_in"@, files), ("grpc_out"@, grpc)]
}

impl ShipperCounters {
    /// All counters at zero.
    pub fn new() -> (r: Self)
        ensures
            forall|name: QueueName|
                counters_of(r, name) == (QueueCounters {
                    queue_count: 0,
                    processed_count: 0,
                    error_count: 0,
                }),
    {
        ShipperCounters {
            gelf_in: QueueCounters::new(),
            syslog_in: QueueCounters::new(),
            files_in: QueueCounters::new(),
            grpc_out: QueueCounters::new(),
        }
    }

    /// The counters of one queue.
    pub fn get(&self, name: QueueName) -> (r: QueueCounters)
        ensures
            r == counters_of(*self, name),
    {
        match name {
            QueueName::GelfIn => self.gelf_in,
            QueueName::SyslogIn => self.syslog_in,
            QueueName::FilesIn => self.files_in,
            QueueName::GrpcOut => self.grpc_out,
        }
    }

    /// Replaces the counters of one queue.
    pub fn set(&mut self, name: QueueName, counters: QueueCounters)
        ensures
            *final(self) == with_counters(*old(self), name, counters),
    {
        match name {
            QueueName::GelfIn => {
                self.gelf_in = counters;
            },
            QueueName::SyslogIn => {
                self.syslog_in = counters;
            },
            QueueName::FilesIn => {
                self.files_in = counters;
            },
            QueueName::GrpcOut => {
                self.grpc_out = counters;
            },
        }
    }
}

/// One counter of each queue, by queue name.
fn family_of(gelf: u64, syslog: u64, files: u64, grpc: u64) -> (r: Vec<(String, u64)>)
    ensures
        counts_view(r@) == family(gelf, syslog, files, grpc),
{
    let mut out: Vec<(String, u64)> = Vec::new();
    out.push((String::from_str("gelf_in"), gelf));
    out.push((String::from_str("syslog_in"), syslog));
    out.push((String::from_str("files_in"), files));
    out.push((String::from_str("grpc_out"), grpc));
    assert(counts_view(out@) =~= family(gelf, syslog, files, grpc));
    out
}

/// The snapshot that a shipper on `hostname` reports: for each of the three counter
/// families the count of every queue.
pub fn to_grpc_metrics(hostname: &str, counters: &ShipperCounters) -> (r: Metrics)
    ensures
        r@.hostname == hostname@,
        r@.queue_count == family(
            counters.gelf_in.queue_count,
            counters.syslog_in.queue_count,
            counters.files_in.queue_count,
            counters.grpc_out.queue_count,
        ),
        r@.processed_count == family(
            counters.gelf_in.processed_count,
            counters.syslog_in.processed_count,
            counters.files_in.processed_count,
            counters.grpc_out.processed_count,
        ),
        r@.error_count == family(
            counters.gelf_in.error_count,
            counters.syslog_in.error_count,
            counters.files_in.error_count,
            counters.grpc_out.error_count,
        ),
{
    Metrics {
        hostname: String::from_str(hostname),
        queue_count: family_of(
            counters.gelf_in.queue_count,
            counters.syslog_in.queue_count,
            counters.files_in.queue_count,
            counters.grpc_out.queue_count,
        ),
        processed_count: family_of(
            counters.gelf_in.processed_count,
            counters.syslog_in.processed_count,
            counters.files_in.processed_count,
            counters.grpc_out.processed_count,
        ),
        error_count: family_of(
            counters.gelf_in.error_count,
            counters.syslog_in.error_count,
            counters.files_in.error_count,
            counters.grpc_out.error_count,
        ),
    }
}

} // verus!
