//! The egress of a shipper: it keeps a connection to the collector and sends one
//! log line per call, at most one at a time.

use vstd::prelude::*;

use crate::queue::{bump, decrement, drop_one, increment, QueueCounters};

verus! {

/// Seconds between two attempts to connect to the collector.
pub const CONNECT_RETRY_SECS: u64 = 1;

/// Seconds to wait before a log line is sent again.
pub const SEND_RETRY_SECS: u64 = 1;

/// Seconds between two metrics reports.
pub const METRICS_REPORT_INTERVAL_SECS: u64 = 30;

/// How a call to the collector ended.
#[derive(Clone, Copy, Debug, PartialEq, Eq, Structural)]
pub enum SendResult {
    /// The collector took the log line.
    Delivered,
    /// The collector found the log line malformed.
    InvalidArgument,
    /// The collector found the log line too large.
    OutOfRange,
    /// Anything else, a connection that is down among it.
    Failed,
}

/// How the status code of a call is read: 0 is success, 3 an invalid argument, 11
/// out of range, and every other code a failure that may pass.
pub open spec fn result_of_code(code: i32) -> SendResult {
    if code == 0 {
        SendResult::Delivered
    } else if code == 3 {
        SendResult::InvalidArgument
    } else if code == 11 {
        SendResult::OutOfRange
    } else {
        SendResult::Failed
    }
}

/// Reads the status code of a call.
pub fn classify_code(code: i32) -> (r: SendResult)
    ensures
        r == result_of_code(code),
{
    if code == 0 {
        SendResult::Delivered
    } else if code == 3 {
        SendResult::InvalidArgument
    } else if code == 11 {
        SendResult::OutOfRange
    } else {
        SendResult::Failed
    }
}

/// What follows an attempt to connect.
#[derive(Clone, Copy, Debug, PartialEq, Eq, Structural)]
pub enum ConnectStep {
    /// The connection stands.
    Connected,
    /// Try again.
    Retry,
    /// Shutdown was requested: stop trying.
    GiveUp,
}

/// What follows an attempt to connect: a failed attempt is repeated until shutdown
/// is requested.
pub open spec fn connect_step(connected: bool, shutdown: bool) -> ConnectStep {
    if connected {
        ConnectStep::Connected
    } else if shutdown {
        ConnectStep::GiveUp
    } else {
        ConnectStep::Retry
    }
}

/// Decides what follows an attempt to connect. After a failed attempt the caller
/// waits [`CONNECT_RETRY_SECS`] and then says whether shutdown was requested.
pub fn after_connect_attempt(connected: bool, shutdown: bool) -> (r: ConnectStep)
    ensures
        r == connect_step(connected, shutdown),
{
    if connected {
        ConnectStep::Connected
    } else if shutdown {
        ConnectStep::GiveUp
    } else {
        ConnectStep::Retry
    }
}

/// What the egress does next.
#[derive(Clone, Copy, Debug, PartialEq, Eq, Structural)]
pub enum EgressAction {
    /// Shutdown was requested and the send in flight, if there was one, is finished:
    /// stop.
    Exit,
    /// Send the log line in flight and report how the call ended.
    Send,
    /// Nothing is in flight: wait for the next log line or the next metrics report.
    Wait,
}

/// The counters of the egress queue after a call: one less in the queue, and one
/// more processed or one more error.
pub open spec fn counters_after_call(c: QueueCounters, result: SendResult) -> QueueCounters {
    QueueCounters {
        queue_count: drop_one(c.queue_count),
        processed_count: if result == SendResult::Delivered {
            bump(c.processed_count)
        } else {
            c.processed_count
        },
        error_count: if result == SendResult::Delivered {
            c.error_count
        } else {
            bump(c.error_count)
        },
    }
}

/// Whether a log line stays in flight after a call: only after a failure that may
/// pass. A log line that the collector took or refused for good is done.
pub open spec fn stays_in_flight(result: SendResult) -> bool {
    result == SendResult::Failed
}

/// Seconds to wait after a call before the next action.
pub open spec fn pause_after(result: SendResult) -> u64 {
    if result == SendResult::Failed {
        SEND_RETRY_SECS
    } else {
        0
    }
}

/// What the egress does next, given whether shutdown was requested. A log line in
/// flight is sent; at shutdown it is still sent unless an attempt to send it has
/// failed already. Without a line in flight the egress reads the queue, and at
/// shutdown it ends instead.
pub open spec fn action_of<T>(current: Option<T>, tried: bool, shutdown: bool) -> EgressAction {
    if current is Some && !(shutdown && tried) {
        EgressAction::Send
    } else if shutdown {
        EgressAction::Exit
    } else {
        EgressAction::Wait
    }
}

/// The state of the sending loop: the log line in flight, if any, and whether an
/// attempt to send it has failed.
#[derive(Debug)]
pub struct Egress<T> {
    pub current: Option<T>,
    pub tried: bool,
}

impl<T> Egress<T> {
    /// An egress with nothing in flight.
    pub fn new() -> (r: Self)
        ensures
            r.current is None,
            !r.tried,
    {
        Egress { current: None, tried: false }
    }

    /// Decides what to do next: see [`action_of`]. Shutdown never drops a log line
    /// in flight that has not been tried: its send is finished first, and the loop
    /// ends after it, whether it went through or failed. Only with nothing in flight
    /// is the queue read, and never after shutdown was requested.
    pub fn next_action(&self, shutdown: bool) -> (r: EgressAction)
        ensures
            r == action_of(self.current, self.tried, shutdown),
            r == EgressAction::Exit ==> shutdown && (self.current is None || self.tried),
            r == EgressAction::Wait ==> !shutdown && self.current is None,
            r == EgressAction::Send ==> self.current is Some,
    {
        if self.current.is_some() && !(shutdown && self.tried) {
            EgressAction::Send
        } else if shutdown {
            EgressAction::Exit
        } else {
            EgressAction::Wait
        }
    }

    /// Takes what the queue gave while the egress waited. A log line gets in flight,
    /// untried, and the loop goes on; a closed queue ends the loop.
    pub fn on_received(&mut self, line: Option<T>) -> (r: bool)
        requires
            old(self).current is None,
        ensures
            final(self).current == line,
            !final(self).tried,
            r == line is Some,
    {
        let goes_on = line.is_some();
        self.current = line;
        self.tried = false;
        goes_on
    }

    /// Accounts for a call that sent the log line in flight, and says how many
    /// seconds to wait. The log line stays in flight only after a failure that may
    /// pass, marked as tried; then it is sent again after the wait, unless shutdown
    /// is requested meanwhile.
    pub fn on_send_result(&mut self, result: SendResult, counters: &mut QueueCounters) -> (r: u64)
        ensures
            final(self).current == if stays_in_flight(result) {
                old(self).current
            } else {
                None
            },
            final(self).tried == (stays_in_flight(result) && old(self).current is Some),
            *final(counters) == counters_after_call(*old(counters), result),
            r == pause_after(result),
    {
        counters.queue_count = decrement(counters.queue_count);
        match result {
            SendResult::Delivered => {
                counters.processed_count = increment(counters.processed_count);
                self.current = None;
                self.tried = false;
                0
            },
            SendResult::InvalidArgument => {
                counters.error_count = increment(counters.error_count);
                self.current = None;
                self.tried = false;
                0
            },
            SendResult::OutOfRange => {
                counters.error_count = increment(counters.error_count);
                self.current = None;
                self.tried = false;
                0
            },
            SendResult::Failed => {
                counters.error_count = increment(counters.error_count);
                self.tried = self.current.is_some();
                SEND_RETRY_SECS
            },
        }
    }
}

/// At shutdown the send of the log line in flight is finished before the egress
/// ends: a line that was taken from the queue and not tried yet is sent, and after
/// that one call the egress ends, whatever the call gave. No further line is taken
/// from the queue.
pub proof fn lemma_shutdown_finishes_the_send<T>(line: T, result: SendResult)
    ensures
        action_of(Some(line), false, true) == EgressAction::Send,
        action_of(
            if stays_in_flight(result) {
                Some(line)
            } else {
                None
            },
            stays_in_flight(result),
            true,
        ) == EgressAction::Exit,
        action_of(None::<T>, false, true) == EgressAction::Exit,
{
}

} // verus!
