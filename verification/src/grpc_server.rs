//! The collector's side of the two calls that a shipper makes: taking a log line,
//! and taking a metrics report.

use vstd::prelude::*;

use crate::entry::{entry_of_line, extra_text, ConvertError, IndexLogEntry, IndexLogEntryView};
use crate::json::json_of_text;
use crate::text::{lemma_text_order_is_total, lemma_text_order_is_transitive, str_eq, str_lt, text_lt};
use crate::wire::LogLine;

verus! {

/// The answer to a call.
#[derive(Clone, Copy, Debug, PartialEq, Eq, Structural)]
pub enum Reply {
    /// The call succeeded.
    Done,
    /// The log line cannot become a document; the shipper must not send it again.
    InvalidArgument(ConvertError),
    /// The collector is shutting down; the shipper may send the log line again.
    Unavailable,
}

/// The status code of an answer: 0 for success, 3 for an invalid argument and 14
/// for a collector that is not available.
pub open spec fn code_of_reply(reply: Reply) -> i32 {
    match reply {
        Reply::Done => 0,
        Reply::InvalidArgument(_) => 3,
        Reply::Unavailable => 14,
    }
}

impl Reply {
    /// The status code of this answer.
    pub fn code(&self) -> (r: i32)
        ensures
            r == code_of_reply(*self),
    {
        match self {
            Reply::Done => 0,
            Reply::InvalidArgument(_) => 3,
            Reply::Unavailable => 14,
        }
    }
}

/// What a conversion error says.
pub open spec fn error_text(e: ConvertError) -> Seq<char> {
    match e {
        ConvertError::MissingTimestamp => "`timestamp` field is mandatory"@,
        ConvertError::MissingLine => "`line` field is mandatory"@,
        ConvertError::InvalidExtra => "`extra` field is not a valid json object"@,
    }
}

impl ConvertError {
    /// What this error says.
    pub fn message(&self) -> (r: &'static str)
        ensures
            r@ == error_text(*self),
    {
        match self {
            ConvertError::MissingTimestamp => "`timestamp` field is mandatory",
            ConvertError::MissingLine => "`line` field is mandatory",
            ConvertError::InvalidExtra => "`extra` field is not a valid json object",
        }
    }
}

/// The first step of the `log` call: the document of the log line, which is then
/// put on the queue to the batcher, or the answer that rejects the log line.
pub fn on_log(line: LogLine) -> (r: Result<IndexLogEntry, Reply>)
    ensures
        match r {
            Ok(entry) => entry_of_line(
                line@,
                match extra_text(line@) {
                    Some(text) => json_of_text(text),
                    None => None,
                },
            ) == Ok::<IndexLogEntryView, ConvertError>(entry@),
            Err(reply) => entry_of_line(
                line@,
                match extra_text(line@) {
                    Some(text) => json_of_text(text),
                    None => None,
                },
            ) is Err && reply == Reply::InvalidArgument(
                entry_of_line(
                    line@,
                    match extra_text(line@) {
                        Some(text) => json_of_text(text),
                        None => None,
                    },
                )->Err_0,
            ),
        },
{
    match IndexLogEntry::try_from(line) {
        Ok(entry) => Ok(entry),
        Err(e) => Err(Reply::InvalidArgument(e)),
    }
}

/// The second step of the `log` call: the answer once the document was handed to
/// the queue. A closed queue means that shutdown is in progress.
pub fn after_enqueue(sent: bool) -> (r: Reply)
    ensures
        r == if sent {
            Reply::Done
        } else {
            Reply::Unavailable
        },
{
    if sent {
        Reply::Done
    } else {
        Reply::Unavailable
    }
}

/// How a counter of the collector follows a count that a shipper reports.
#[derive(Clone, Copy, Debug, PartialEq, Eq, Structural)]
pub enum CounterUpdate {
    /// The count grew: add the difference.
    Advance(u64),
    /// The count did not grow, so the shipper started anew: reset the counter, then
    /// add the count.
    Restart(u64),
}

/// How a counter at `current` follows a reported `count`.
pub open spec fn update_for(current: u64, count: u64) -> CounterUpdate {
    if count > current {
        CounterUpdate::Advance((count - current) as u64)
    } else {
        CounterUpdate::Restart(count)
    }
}

/// The value of a counter after an update.
pub open spec fn value_after(current: u64, update: CounterUpdate) -> int {
    match update {
        CounterUpdate::Advance(delta) => current + delta,
        CounterUpdate::Restart(count) => count as int,
    }
}

/// Decides how a counter at `current` follows a reported `count`. Either way the
/// counter then stands at the reported count.
pub fn counter_update(current: u64, count: u64) -> (r: CounterUpdate)
    ensures
        r == update_for(current, count),
        value_after(current, r) == count,
{
    if count > current {
        CounterUpdate::Advance(count - current)
    } else {
        CounterUpdate::Restart(count)
    }
}

/// The value that a gauge is set to for a reported count: the count, read as a
/// signed number of the same width.
pub fn gauge_value(count: u64) -> (r: i64)
    ensures
        r == count as i64,
{
    #[verifier::truncate]
    (count as i64)
}

/// Seconds without a report after which a shipper counts as gone.
pub const SHIPPER_IDLE_SECS: u64 = 90;

/// Seconds between two sweeps of the connected shippers.
pub const SHIPPER_SWEEP_SECS: u64 = 30;

/// The shippers that have reported lately, each with the time of its last report in
/// milliseconds of a clock that never runs backwards. The hosts are kept in the order
/// of strings, each once.
pub struct ConnectedShippers {
    seen: Vec<(String, u64)>,
}

/// The hosts and times of a list.
pub open spec fn seen_view(seen: Seq<(String, u64)>) -> Seq<(Seq<char>, u64)> {
    Seq::new(seen.len(), |i: int| (seen[i].0@, seen[i].1))
}

/// Whether the hosts stand in the order of strings, each before all that follow. No
/// host is listed twice then.
pub open spec fn hosts_are_sorted(seen: Seq<(Seq<char>, u64)>) -> bool {
    forall|i: int, j: int| 0 <= i < j < seen.len() ==> text_lt(seen[i].0, seen[j].0)
}

/// How many hosts at the front of a list come before `host`.
pub open spec fn rank_of(seen: Seq<(Seq<char>, u64)>, host: Seq<char>) -> int
    decreases seen.len(),
{
    if seen.len() == 0 {
        0
    } else if text_lt(seen[0].0, host) {
        1 + rank_of(seen.drop_first(), host)
    } else {
        0
    }
}

/// The list after a report of `host` at `now`: the time of the host is set, and a
/// host that was not listed is put in at its place in the order.
pub open spec fn after_report(seen: Seq<(Seq<char>, u64)>, host: Seq<char>, now: u64) -> Seq<
    (Seq<char>, u64),
> {
    let at = rank_of(seen, host);
    if 0 <= at < seen.len() && seen[at].0 == host {
        seen.update(at, (host, now))
    } else {
        seen.insert(at, (host, now))
    }
}

/// Whether a shipper that reported at `last_seen` counts as gone at `now`.
pub open spec fn is_gone(last_seen: u64, now: u64) -> bool {
    now > last_seen && now - last_seen > SHIPPER_IDLE_SECS * 1000
}

/// The list after a sweep at `now`: every shipper that is not gone, in order.
pub open spec fn after_sweep(seen: Seq<(Seq<char>, u64)>, now: u64) -> Seq<(Seq<char>, u64)>
    decreases seen.len(),
{
    if seen.len() == 0 {
        Seq::empty()
    } else if is_gone(seen.last().1, now) {
        after_sweep(seen.drop_last(), now)
    } else {
        after_sweep(seen.drop_last(), now).push(seen.last())
    }
}

/// The hosts of a list.
pub open spec fn hosts_of(seen: Seq<(Seq<char>, u64)>) -> Seq<Seq<char>> {
    Seq::new(seen.len(), |i: int| seen[i].0)
}

impl ConnectedShippers {
    #[verifier::type_invariant]
    spec fn wf(self) -> bool {
        hosts_are_sorted(seen_view(self.seen@))
    }

    /// The hosts and the times of their last reports.
    pub closed spec fn view(self) -> Seq<(Seq<char>, u64)> {
        seen_view(self.seen@)
    }

    /// No shipper has reported.
    pub fn new() -> (r: Self)
        ensures
            r.view().len() == 0,
    {
        ConnectedShippers { seen: Vec::new() }
    }

    /// Notes that `hostname` reported at `now`.
    pub fn report_connected_host(&mut self, hostname: &str, now: u64)
        ensures
            final(self).view() == after_report(old(self).view(), hostname@, now),
            hosts_are_sorted(final(self).view()),
    {
        proof {
            use_type_invariant(&*self);
        }
        let mut seen: Vec<(String, u64)> = Vec::new();
        core::mem::swap(&mut self.seen, &mut seen);
        let ghost start = seen_view(seen@);
        let mut i: usize = 0;
        let mut before = true;
        assert(start.skip(0) =~= start);
        while i < seen.len() && before
            invariant
                i <= seen.len(),
                start == seen_view(seen@),
                forall|j: int| 0 <= j < i ==> text_lt(start[j].0, hostname@),
                rank_of(start, hostname@) == i + rank_of(start.skip(i as int), hostname@),
                !before ==> i < seen.len() && !text_lt(start[i as int].0, hostname@),
            decreases seen.len() - i, (if before { 1int } else { 0int }),
        {
            proof {
                assert(start.skip(i as int)[0] == start[i as int]);
            }
            if str_lt(seen[i].0.as_str(), hostname) {
                proof {
                    assert(start.skip(i as int).drop_first() =~= start.skip(i as int + 1));
                }
                i += 1;
            } else {
                before = false;
            }
        }
        proof {
            if i < seen.len() {
                assert(start.skip(i as int)[0] == start[i as int]);
            } else {
                assert(start.skip(i as int).len() == 0);
            }
            assert(rank_of(start, hostname@) == i);
        }
        let listed = i < seen.len() && str_eq(seen[i].0.as_str(), hostname);
        if listed {
            seen.set(i, (String::from_str(hostname), now));
            proof {
                let after = start.update(i as int, (hostname@, now));
                assert(seen_view(seen@) =~= after);
                assert forall|a: int, b: int| 0 <= a < b < after.len() implies text_lt(
                    after[a].0,
                    after[b].0,
                ) by {
                    assert(after[a].0 == start[a].0);
                    assert(after[b].0 == start[b].0);
                }
            }
        } else {
            seen.insert(i, (String::from_str(hostname), now));
            proof {
                let after = start.insert(i as int, (hostname@, now));
                assert(seen_view(seen@) =~= after);
                if i < start.len() {
                    lemma_text_order_is_total(start[i as int].0, hostname@);
                }
                assert forall|a: int, b: int| 0 <= a < b < after.len() implies text_lt(
                    after[a].0,
                    after[b].0,
                ) by {
                    if b < i {
                        assert(after[a] == start[a] && after[b] == start[b]);
                    } else if b == i {
                        assert(after[a] == start[a]);
                    } else if a < i {
                        assert(after[a] == start[a] && after[b] == start[b - 1]);
                    } else if a == i {
                        assert(after[b] == start[b - 1]);
                        if b - 1 > i {
                            lemma_text_order_is_transitive(
                                hostname@,
                                start[i as int].0,
                                start[b - 1].0,
                            );
                        }
                    } else {
                        assert(after[a] == start[a - 1] && after[b] == start[b - 1]);
                    }
                }
            }
        }
        self.seen = seen;
    }

    /// Forgets every shipper that has not reported for longer than
    /// [`SHIPPER_IDLE_SECS`].
    pub fn clear_disconnected_hosts(&mut self, now: u64)
        ensures
            final(self).view() == after_sweep(old(self).view(), now),
            hosts_are_sorted(final(self).view()),
    {
        proof {
            use_type_invariant(&*self);
        }
        let mut seen: Vec<(String, u64)> = Vec::new();
        core::mem::swap(&mut self.seen, &mut seen);
        let ghost start = seen_view(seen@);
        let mut kept: Vec<(String, u64)> = Vec::new();
        let mut i: usize = 0;
        assert(seen_view(kept@) =~= after_sweep(start.take(0), now));
        while i < seen.len()
            invariant
                i <= seen.len(),
                start == seen_view(seen@),
                seen_view(kept@) == after_sweep(start.take(i as int), now),
            decreases seen.len() - i,
        {
            let last_seen = seen[i].1;
            let gone = now > last_seen && now - last_seen > SHIPPER_IDLE_SECS * 1000;
            proof {
                assert(start.take(i as int + 1).drop_last() =~= start.take(i as int));
                assert(start.take(i as int + 1).last() == start[i as int]);
            }
            if !gone {
                let ghost before = seen_view(kept@);
                kept.push((seen[i].0.clone(), last_seen));
                proof {
                    assert(seen_view(kept@) =~= before.push(start[i as int]));
                }
            }
            i += 1;
        }
        proof {
            assert(start.take(seen.len() as int) =~= start);
            lemma_sweep_keeps_order(start, now);
        }
        self.seen = kept;
    }

    /// The hosts of the shippers that have reported lately, in the order of
    /// strings.
    pub fn hostnames(&self) -> (r: Vec<String>)
        ensures
            crate::text::texts_view(r@) == hosts_of(self.view()),
            hosts_are_sorted(self.view()),
            forall|i: int, j: int| 0 <= i < j < r@.len() ==> text_lt(r@[i]@, r@[j]@),
    {
        proof {
            use_type_invariant(self);
        }
        let mut out: Vec<String> = Vec::new();
        let mut i: usize = 0;
        while i < self.seen.len()
            invariant
                i <= self.seen.len(),
                out@.len() == i,
                forall|j: int| 0 <= j < i ==> out@[j]@ == self.seen@[j].0@,
            decreases self.seen.len() - i,
        {
            out.push(self.seen[i].0.clone());
            i += 1;
        }
        proof {
            assert(crate::text::texts_view(out@) =~= hosts_of(self.view()));
            assert forall|a: int, b: int| 0 <= a < b < out@.len() implies text_lt(
                out@[a]@,
                out@[b]@,
            ) by {
                assert(self.view()[a].0 == out@[a]@);
                assert(self.view()[b].0 == out@[b]@);
            }
        }
        out
    }
}

/// A sweep lists only shippers that were listed, and keeps the order of the hosts.
pub proof fn lemma_sweep_keeps_order(seen: Seq<(Seq<char>, u64)>, now: u64)
    ensures
        forall|j: int|
            0 <= j < after_sweep(seen, now).len() ==> seen.contains(
                #[trigger] after_sweep(seen, now)[j],
            ),
        hosts_are_sorted(seen) ==> hosts_are_sorted(after_sweep(seen, now)),
    decreases seen.len(),
{
    if seen.len() > 0 {
        let init = seen.drop_last();
        lemma_sweep_keeps_order(init, now);
        let swept = after_sweep(init, now);
        assert forall|j: int| 0 <= j < swept.len() implies seen.contains(#[trigger] swept[j]) by {
            assert(init.contains(swept[j]));
            let k = choose|k: int| 0 <= k < init.len() && init[k] == swept[j];
            assert(seen[k] == swept[j]);
        }
        assert(seen.contains(seen.last())) by {
            assert(seen[seen.len() - 1] == seen.last());
        }
        if hosts_are_sorted(seen) {
            assert(hosts_are_sorted(init)) by {
                assert forall|a: int, b: int| 0 <= a < b < init.len() implies text_lt(
                    init[a].0,
                    init[b].0,
                ) by {
                    assert(init[a] == seen[a] && init[b] == seen[b]);
                }
            }
            assert forall|j: int| 0 <= j < swept.len() implies text_lt(
                swept[j].0,
                seen.last().0,
            ) by {
                assert(init.contains(swept[j]));
                let k = choose|k: int| 0 <= k < init.len() && init[k] == swept[j];
                assert(seen[k] == swept[j]);
                assert(seen[seen.len() - 1] == seen.last());
            }
        }
    }
}

} // verus!
