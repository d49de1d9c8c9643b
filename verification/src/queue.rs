//! The bounded queues between the tasks of the pipeline, and the counters that are
//! kept beside each of them.

use async_channel::{Sender, TrySendError};
use vstd::prelude::*;

verus! {

#[verifier::external_type_specification]
#[verifier::external_body]
#[verifier::reject_recursive_types(T)]
pub struct ExSender<T>(Sender<T>);

/// How an offer to a bounded queue ended. A record that was not taken comes back.
#[derive(Debug)]
pub enum Offer<T> {
    /// The queue took the record.
    Accepted,
    /// The queue is full.
    Full(T),
    /// The queue is closed.
    Closed(T),
}

/// The counters of one queue. They are gauges for display: each wraps around
/// instead of failing, and none is relied on by the pipeline itself.
#[derive(Clone, Copy, Debug, PartialEq, Eq, Structural)]
pub struct QueueCounters {
    /// How many records are in the queue.
    pub queue_count: u64,
    /// How many records have left the queue.
    pub processed_count: u64,
    /// How many records were lost or refused.
    pub error_count: u64,
}

/// A counter one higher, wrapping around at the end of its range.
pub open spec fn bump(n: u64) -> u64 {
    if n == u64::MAX {
        0
    } else {
        (n + 1) as u64
    }
}

/// A counter one lower, wrapping around at zero.
pub open spec fn drop_one(n: u64) -> u64 {
    if n == 0 {
        u64::MAX
    } else {
        (n - 1) as u64
    }
}

/// Adds one to a counter, wrapping around at the end of its range.
pub fn increment(n: u64) -> (r: u64)
    ensures
        r == bump(n),
{
    if n == u64::MAX {
        0
    } else {
        n + 1
    }
}

/// Takes one off a counter, wrapping around at zero.
pub fn decrement(n: u64) -> (r: u64)
    ensures
        r == drop_one(n),
{
    if n == 0 {
        u64::MAX
    } else {
        n - 1
    }
}

/// What an ingress does after an offer to its queue.
#[derive(Clone, Copy, Debug, PartialEq, Eq, Structural)]
pub enum IngressStep {
    /// Go on with the next record.
    Continue,
    /// The queue is closed: nothing can be delivered any more, stop.
    Stop,
}

/// The counters of an ingress queue after an offer: one more in the queue where the
/// record was taken, else one more error.
pub open spec fn counters_after_offer<T>(counters: QueueCounters, offer: Offer<T>) -> QueueCounters {
    match offer {
        Offer::Accepted => QueueCounters { queue_count: bump(counters.queue_count), ..counters },
        _ => QueueCounters { error_count: bump(counters.error_count), ..counters },
    }
}

/// What an ingress does after an offer: it goes on unless the queue is closed. A
/// record that a full queue refused is dropped.
pub open spec fn step_after_offer<T>(offer: Offer<T>) -> IngressStep {
    match offer {
        Offer::Closed(_) => IngressStep::Stop,
        _ => IngressStep::Continue,
    }
}

impl QueueCounters {
    /// Counters at zero.
    pub fn new() -> (r: Self)
        ensures
            r == (QueueCounters { queue_count: 0, processed_count: 0, error_count: 0 }),
    {
        QueueCounters { queue_count: 0, processed_count: 0, error_count: 0 }
    }
}

/// `async_channel::Sender::try_send`: offers a record to the queue without waiting.
/// A record that the queue does not take, because it is full or closed, comes back
/// unchanged. Whether the queue takes it depends on what the other holders of the
/// queue do at the same time.
#[verifier::external_body]
fn try_send<T>(sender: &Sender<T>, record: T) -> (r: Offer<T>)
    ensures
        r matches Offer::Full(back) ==> back == record,
        r matches Offer::Closed(back) ==> back == record,
{
    match sender.try_send(record) {
        Ok(()) => Offer::Accepted,
        Err(TrySendError::Full(back)) => Offer::Full(back),
        Err(TrySendError::Closed(back)) => Offer::Closed(back),
    }
}

/// Accounts for an offer that has been made: see [`counters_after_offer`] and
/// [`step_after_offer`].
pub fn on_offer<T>(offer: &Offer<T>, counters: &mut QueueCounters) -> (r: IngressStep)
    ensures
        *final(counters) == counters_after_offer(*old(counters), *offer),
        r == step_after_offer(*offer),
{
    match offer {
        Offer::Accepted => {
            counters.queue_count = increment(counters.queue_count);
            IngressStep::Continue
        },
        Offer::Full(_) => {
            counters.error_count = increment(counters.error_count);
            IngressStep::Continue
        },
        Offer::Closed(_) => {
            counters.error_count = increment(counters.error_count);
            IngressStep::Stop
        },
    }
}

/// Offers a record to the queue of an ingress without waiting, and accounts for it.
/// A record that the queue does not take is handed back in the outcome: when the
/// queue is full the newest record is the one that is dropped.
pub fn offer<T>(sender: &Sender<T>, record: T, counters: &mut QueueCounters) -> (r: (
    Offer<T>,
    IngressStep,
))
    ensures
        r.0 matches Offer::Full(back) ==> back == record,
        r.0 matches Offer::Closed(back) ==> back == record,
        *final(counters) == counters_after_offer(*old(counters), r.0),
        r.1 == step_after_offer(r.0),
{
    let outcome = try_send(sender, record);
    let step = on_offer(&outcome, counters);
    (outcome, step)
}

} // verus!
