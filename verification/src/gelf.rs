//! GELF over TCP: cutting the byte stream of a connection into frames, reading a
//! frame as JSON, and normalizing a GELF record into a wire log line.

use bytes::BytesMut;
use vstd::prelude::*;

use crate::json::{
    get, json_as_i64, json_from_bytes, json_object_text, json_of_bytes, lookup, lookup_str,
    member_refs_view, members_view, opt_json, text_of_json, Json, JsonValue,
};
use crate::text::str_eq;
use crate::wire::{GelfLogLine, GelfLogLineView, Line, LineView, LogLine, LogLineView, Timestamp};

verus! {

/// The frames that a byte stream holds so far: every run of bytes that a zero byte
/// ends, without that byte, in the order of arrival.
pub open spec fn frames_of(data: Seq<u8>) -> Seq<Seq<u8>>
    decreases data.len(),
{
    if data.len() == 0 {
        Seq::empty()
    } else if data.last() == 0 {
        frames_of(data.drop_last()).push(tail_of(data.drop_last()))
    } else {
        frames_of(data.drop_last())
    }
}

/// The bytes behind the last zero byte of a stream: the start of an unfinished frame.
pub open spec fn tail_of(data: Seq<u8>) -> Seq<u8>
    decreases data.len(),
{
    if data.len() == 0 {
        Seq::empty()
    } else if data.last() == 0 {
        Seq::empty()
    } else {
        tail_of(data.drop_last()).push(data.last())
    }
}

/// Whether no byte is zero.
pub open spec fn has_no_nul(data: Seq<u8>) -> bool {
    forall|i: int| 0 <= i < data.len() ==> data[i] != 0
}

/// The bytes of each frame.
pub open spec fn frames_view(frames: Seq<Vec<u8>>) -> Seq<Seq<u8>> {
    Seq::new(frames.len(), |i: int| frames[i]@)
}

/// An unfinished frame holds no zero byte, and a stream without one is all tail.
pub proof fn lemma_tail_has_no_nul(data: Seq<u8>)
    ensures
        has_no_nul(tail_of(data)),
        has_no_nul(data) ==> tail_of(data) == data && frames_of(data).len() == 0,
    decreases data.len(),
{
    if data.len() > 0 {
        lemma_tail_has_no_nul(data.drop_last());
        if has_no_nul(data) {
            assert(has_no_nul(data.drop_last()));
            assert(data.drop_last().push(data.last()) =~= data);
        }
    }
}

/// Frames do not depend on how the stream was cut into reads: the frames of two
/// parts read one after the other are those of the first part, then those of what
/// the first part left unfinished followed by the second part.
pub proof fn lemma_frames_of_two_reads(first: Seq<u8>, second: Seq<u8>)
    ensures
        frames_of(first + second) == frames_of(first) + frames_of(tail_of(first) + second),
        tail_of(first + second) == tail_of(tail_of(first) + second),
    decreases second.len(),
{
    if second.len() == 0 {
        assert(first + second =~= first);
        assert(tail_of(first) + second =~= tail_of(first));
        lemma_tail_has_no_nul(first);
        lemma_tail_has_no_nul(tail_of(first));
        assert(frames_of(first) + frames_of(tail_of(first)) =~= frames_of(first));
    } else {
        let init = second.drop_last();
        lemma_frames_of_two_reads(first, init);
        assert((first + second).drop_last() =~= first + init);
        assert((tail_of(first) + second).drop_last() =~= tail_of(first) + init);
        assert((first + second).last() == second.last());
        assert((tail_of(first) + second).last() == second.last());
        if second.last() == 0 {
            assert(frames_of(first + second) =~= frames_of(first) + frames_of(
                tail_of(first) + second,
            ));
        }
    }
}

/// A stream that begins with a frame and its zero byte has that frame first; its
/// other frames and its unfinished rest are those of what follows the zero byte.
pub proof fn lemma_first_frame(head: Seq<u8>, rest: Seq<u8>)
    requires
        has_no_nul(head),
    ensures
        frames_of(head.push(0u8) + rest) == seq![head] + frames_of(rest),
        tail_of(head.push(0u8) + rest) == tail_of(rest),
{
    let first = head.push(0u8);
    lemma_frames_of_two_reads(first, rest);
    lemma_tail_has_no_nul(head);
    assert(first.drop_last() =~= head);
    assert(frames_of(first) =~= seq![head]);
    assert(tail_of(first) + rest =~= rest);
}

#[verifier::external_type_specification]
#[verifier::external_body]
pub struct ExBytesMut(BytesMut);

/// The bytes that a `bytes::BytesMut` holds, in order.
pub uninterp spec fn held_bytes(buffer: BytesMut) -> Seq<u8>;

/// `bytes::BytesMut::new`: a buffer that holds no byte.
#[verifier::external_body]
fn buffer_new() -> (r: BytesMut)
    ensures
        held_bytes(r).len() == 0,
{
    BytesMut::new()
}

/// `bytes::BytesMut::extend_from_slice`: the bytes are put behind those that the
/// buffer holds.
#[verifier::external_body]
fn buffer_extend(buffer: &mut BytesMut, bytes: &[u8])
    ensures
        held_bytes(*final(buffer)) == held_bytes(*old(buffer)) + bytes@,
{
    buffer.extend_from_slice(bytes)
}

/// `AsRef::as_ref` of `bytes::BytesMut`: the bytes that the buffer holds, as a
/// slice.
#[verifier::external_body]
fn buffer_slice(buffer: &BytesMut) -> (r: &[u8])
    ensures
        r@ == held_bytes(*buffer),
{
    buffer.as_ref()
}

/// `bytes::BytesMut::split_to`: the first `at` bytes leave the buffer and are handed
/// out as a buffer of their own; the others stay. It panics where the buffer holds
/// fewer than `at` bytes.
#[verifier::external_body]
fn buffer_split_to(buffer: &mut BytesMut, at: usize) -> (r: BytesMut)
    requires
        at <= held_bytes(*old(buffer)).len(),
    ensures
        held_bytes(r) == held_bytes(*old(buffer)).subrange(0, at as int),
        held_bytes(*final(buffer)) == held_bytes(*old(buffer)).subrange(
            at as int,
            held_bytes(*old(buffer)).len() as int,
        ),
{
    buffer.split_to(at)
}

/// Where the first zero byte stands among bytes, or their number where none is
/// zero.
fn position_of_nul(bytes: &[u8]) -> (r: usize)
    ensures
        r <= bytes@.len(),
        has_no_nul(bytes@.subrange(0, r as int)),
        r < bytes@.len() ==> bytes@[r as int] == 0,
{
    let mut i: usize = 0;
    while i < bytes.len() && bytes[i] != 0
        invariant
            i <= bytes.len(),
            forall|j: int| 0 <= j < i ==> bytes@[j] != 0,
        decreases bytes.len() - i,
    {
        i += 1;
    }
    i
}

/// A copy of the first `len` bytes.
fn front(bytes: &[u8], len: usize) -> (r: Vec<u8>)
    requires
        len <= bytes@.len(),
    ensures
        r@ == bytes@.subrange(0, len as int),
{
    let mut out: Vec<u8> = Vec::new();
    let mut i: usize = 0;
    while i < len
        invariant
            i <= len <= bytes@.len(),
            out@ == bytes@.subrange(0, i as int),
        decreases len - i,
    {
        out.push(bytes[i]);
        assert(out@ =~= bytes@.subrange(0, i as int + 1));
        i += 1;
    }
    out
}

/// The bytes of a connection that do not make a whole frame yet.
pub struct FrameBuffer {
    pending: BytesMut,
}

impl FrameBuffer {
    #[verifier::type_invariant]
    spec fn wf(self) -> bool {
        has_no_nul(held_bytes(self.pending))
    }

    /// The bytes of the unfinished frame.
    pub closed spec fn pending(self) -> Seq<u8> {
        held_bytes(self.pending)
    }

    /// A buffer without bytes.
    pub fn new() -> (r: Self)
        ensures
            r.pending().len() == 0,
    {
        FrameBuffer { pending: buffer_new() }
    }

    /// How many bytes wait for the end of their frame.
    pub fn len(&self) -> (r: usize)
        ensures
            r == self.pending().len(),
    {
        buffer_slice(&self.pending).len()
    }

    /// Whether no byte waits for the end of its frame.
    pub fn is_empty(&self) -> (r: bool)
        ensures
            r == (self.pending().len() == 0),
    {
        buffer_slice(&self.pending).len() == 0
    }

    /// Takes the bytes of one read and hands out the frames that are now complete,
    /// in order and without their zero byte. What follows the last zero byte stays
    /// for the next read.
    pub fn feed(&mut self, bytes: &[u8]) -> (r: Vec<Vec<u8>>)
        ensures
            frames_view(r@) == frames_of(old(self).pending() + bytes@),
            final(self).pending() == tail_of(old(self).pending() + bytes@),
    {
        let ghost data = held_bytes(self.pending) + bytes@;
        let mut current = buffer_new();
        core::mem::swap(&mut self.pending, &mut current);
        buffer_extend(&mut current, bytes);
        let mut frames: Vec<Vec<u8>> = Vec::new();
        assert(frames_view(frames@) + frames_of(data) =~= frames_of(data));
        loop
            invariant
                frames_view(frames@) + frames_of(held_bytes(current)) == frames_of(data),
                tail_of(held_bytes(current)) == tail_of(data),
                has_no_nul(held_bytes(self.pending)),
            ensures
                frames_view(frames@) == frames_of(data),
                held_bytes(current) == tail_of(data),
                has_no_nul(held_bytes(current)),
            decreases held_bytes(current).len(),
        {
            let ghost whole = held_bytes(current);
            let at = position_of_nul(buffer_slice(&current));
            if at >= buffer_slice(&current).len() {
                proof {
                    assert(whole.subrange(0, at as int) =~= whole);
                    lemma_tail_has_no_nul(whole);
                    assert(frames_view(frames@) + frames_of(whole) =~= frames_view(frames@));
                }
                break ;
            }
            let taken = buffer_split_to(&mut current, at + 1);
            let frame = front(buffer_slice(&taken), at);
            proof {
                let head = whole.subrange(0, at as int);
                let rest = whole.subrange(at as int + 1, whole.len() as int);
                assert(frame@ =~= head);
                assert(whole =~= head.push(0u8) + rest);
                lemma_first_frame(head, rest);
                let shown = frames_view(frames@);
                assert(frames_view(frames@.push(frame)) =~= shown.push(head));
                assert(shown.push(head) + frames_of(rest) =~= shown + (seq![head] + frames_of(
                    rest,
                )));
            }
            frames.push(frame);
        }
        self.pending = current;
        frames
    }
}

/// What to do with a connection after a read.
#[derive(Clone, Copy, Debug, PartialEq, Eq, Structural)]
pub enum ReadStep {
    /// Bytes came: cut them into frames and go on reading.
    Data,
    /// The peer closed between two frames: close in good order.
    Closed,
    /// The peer closed inside a frame: the unfinished frame is lost.
    Reset,
}

/// What a read of `n` bytes means for a connection with `pending` unfinished bytes.
pub open spec fn read_step(n: nat, pending: nat) -> ReadStep {
    if n > 0 {
        ReadStep::Data
    } else if pending == 0 {
        ReadStep::Closed
    } else {
        ReadStep::Reset
    }
}

impl FrameBuffer {
    /// Decides what a read of `n` bytes means: a read of no byte is the end of the
    /// connection, in good order only between two frames.
    pub fn on_read(&self, n: usize) -> (r: ReadStep)
        ensures
            r == read_step(n as nat, self.pending().len()),
    {
        if n > 0 {
            ReadStep::Data
        } else if self.is_empty() {
            ReadStep::Closed
        } else {
            ReadStep::Reset
        }
    }

    /// Whether the handler may stop when shutdown is requested: only between two
    /// frames. Inside a frame it waits for more bytes.
    pub fn may_stop(&self) -> (r: bool)
        ensures
            r == (self.pending().len() == 0),
    {
        self.is_empty()
    }
}

/// A GELF record as received: the JSON value of one frame, and the frame's
/// `timestamp` number in milliseconds where it has such a number.
#[derive(Debug)]
pub struct GelfLog {
    pub json: JsonValue,
    pub timestamp_millis: Option<i64>,
}

/// Why a GELF record cannot become a log line.
#[derive(Clone, Copy, Debug, PartialEq, Eq, Structural)]
pub enum GelfError {
    /// The frame is JSON but not an object.
    NotAnObject,
    /// There is no `host` member that is a string.
    MissingHost,
    /// There is no `timestamp` member that is a number.
    MissingTimestamp,
    /// There is no `short_message` member that is a string.
    MissingShortMessage,
}

/// Reads the bytes of one frame as JSON. `None` where they are not one JSON value in
/// UTF-8; such a frame is skipped and the connection goes on.
pub fn decode_frame(frame: &[u8]) -> (r: Option<JsonValue>)
    ensures
        opt_json(r) == json_of_bytes(frame@),
{
    json_from_bytes(frame)
}

/// A key without its leading underscore, where it has one.
pub open spec fn strip_underscore(key: Seq<char>) -> Seq<char> {
    if key.len() > 0 && key[0] == '_' {
        key.subrange(1, key.len() as int)
    } else {
        key
    }
}

/// The names that a GELF record has fields of its own for.
pub open spec fn is_reserved_key(key: Seq<char>) -> bool {
    ||| key == "host"@
    ||| key == "timestamp"@
    ||| key == "facility"@
    ||| key == "version"@
    ||| key == "level"@
    ||| key == "short_message"@
    ||| key == "full_message"@
}

/// The extra members of a GELF record: every member in order, its key without a
/// leading underscore, but for those whose key is then a reserved name.
pub open spec fn gelf_extra(members: Seq<(Seq<char>, Json)>) -> Seq<(Seq<char>, Json)>
    decreases members.len(),
{
    if members.len() == 0 {
        Seq::empty()
    } else {
        let rest = gelf_extra(members.drop_last());
        let key = strip_underscore(members.last().0);
        if is_reserved_key(key) {
            rest
        } else {
            rest.push((key, members.last().1))
        }
    }
}

/// Every member in order, its key without a leading underscore.
pub open spec fn stripped_members(members: Seq<(Seq<char>, Json)>) -> Seq<(Seq<char>, Json)> {
    Seq::new(members.len(), |i: int| (strip_underscore(members[i].0), members[i].1))
}

/// Seconds and nanoseconds of a count of milliseconds. Both round toward zero, so
/// the nanoseconds of a time before the epoch are negative.
pub open spec fn timestamp_of_millis(millis: i64) -> Timestamp {
    if millis >= 0 {
        Timestamp {
            seconds: (millis / 1000) as i64,
            nanos: ((millis % 1000) * 1_000_000) as i32,
        }
    } else {
        Timestamp {
            seconds: (-((-millis) / 1000)) as i64,
            nanos: (-(((-millis) % 1000) * 1_000_000)) as i32,
        }
    }
}

/// The severity of a GELF record: its `level` where that is an integer, cut to 32
/// bits, else 1 (alert).
pub open spec fn gelf_severity(members: Seq<(Seq<char>, Json)>) -> i32 {
    match lookup(members, "level"@) {
        Some(level) => match json_as_i64(level) {
            Some(n) => n as i32,
            None => 1,
        },
        None => 1,
    }
}

/// The log line of a GELF record, or the reason why it has none. The `extra` of the
/// line is the JSON text of the record's extra members.
pub open spec fn gelf_line_of(json: Json, timestamp_millis: Option<i64>) -> Result<
    LogLineView,
    GelfError,
> {
    if !(json is Object) {
        Err(GelfError::NotAnObject)
    } else {
        let members = json->Object_0;
        if lookup_str(members, "host"@) is None {
            Err(GelfError::MissingHost)
        } else if !(lookup(members, "timestamp"@) matches Some(Json::Number(_)))
            || timestamp_millis is None {
            Err(GelfError::MissingTimestamp)
        } else if lookup_str(members, "short_message"@) is None {
            Err(GelfError::MissingShortMessage)
        } else {
            Ok(
                LogLineView {
                    host: lookup_str(members, "host"@)->0,
                    timestamp: Some(timestamp_of_millis(timestamp_millis->0)),
                    line: Some(
                        LineView::Gelf(
                            GelfLogLineView {
                                short_message: lookup_str(members, "short_message"@)->0,
                                full_message: lookup_str(members, "full_message"@),
                                severity: gelf_severity(members),
                                extra: text_of_json(Json::Object(gelf_extra(members))),
                            },
                        ),
                    ),
                },
            )
        }
    }
}

/// The view of a normalization's outcome.
pub open spec fn gelf_result_view(r: Result<LogLine, GelfError>) -> Result<
    LogLineView,
    GelfError,
> {
    match r {
        Ok(l) => Ok(l@),
        Err(e) => Err(e),
    }
}

/// Whether a key is one of the names that a GELF record has fields of its own for.
pub fn is_reserved(key: &str) -> (r: bool)
    ensures
        r == is_reserved_key(key@),
{
    str_eq(key, "host") || str_eq(key, "timestamp") || str_eq(key, "facility") || str_eq(
        key,
        "version",
    ) || str_eq(key, "level") || str_eq(key, "short_message") || str_eq(key, "full_message")
}

/// A key without its leading underscore, where it has one.
pub fn stripped(key: &str) -> (r: &str)
    ensures
        r@ == strip_underscore(key@),
{
    let n = key.unicode_len();
    if n > 0 && key.get_char(0) == '_' {
        key.substring_char(1, n)
    } else {
        key
    }
}

/// The extra members of a GELF record: see [`gelf_extra`].
pub fn extra_members(members: &Vec<(String, JsonValue)>) -> (r: Vec<(String, &JsonValue)>)
    ensures
        member_refs_view(r@) == gelf_extra(members_view(members@)),
{
    let ghost all = members_view(members@);
    let mut out: Vec<(String, &JsonValue)> = Vec::new();
    let mut i: usize = 0;
    assert(member_refs_view(out@) =~= gelf_extra(all.take(0)));
    while i < members.len()
        invariant
            i <= members.len(),
            all == members_view(members@),
            member_refs_view(out@) == gelf_extra(all.take(i as int)),
        decreases members.len() - i,
    {
        proof {
            let next = all.take(i as int + 1);
            assert(next.drop_last() =~= all.take(i as int));
            assert(next.last() == all[i as int]);
        }
        let key = stripped(members[i].0.as_str());
        if !is_reserved(key) {
            let ghost before = member_refs_view(out@);
            out.push((String::from_str(key), &members[i].1));
            assert(member_refs_view(out@) =~= before.push((key@, all[i as int].1)));
        }
        i += 1;
    }
    assert(all.take(members.len() as int) =~= all);
    out
}

/// Seconds and nanoseconds of a count of milliseconds: see [`timestamp_of_millis`].
pub fn split_millis(millis: i64) -> (r: Timestamp)
    ensures
        r == timestamp_of_millis(millis),
{
    if millis >= 0 {
        Timestamp { seconds: millis / 1000, nanos: ((millis % 1000) * 1_000_000) as i32 }
    } else if millis == -0x8000_0000_0000_0000 {
        Timestamp { seconds: -9223372036854775, nanos: -808_000_000 }
    } else {
        let magnitude: i64 = -millis;
        Timestamp {
            seconds: -(magnitude / 1000),
            nanos: (-((magnitude % 1000) * 1_000_000)) as i32,
        }
    }
}

impl LogLine {
    /// Normalizes a GELF record into a log line. The record must be a JSON object
    /// with a `host` string, a `timestamp` number and a `short_message` string; each
    /// failure has its own error, tested in this order.
    pub fn try_from_gelf(value: GelfLog) -> (r: Result<LogLine, GelfError>)
        ensures
            gelf_result_view(r) == gelf_line_of(value.json@, value.timestamp_millis),
    {
        let members = match value.json.as_object() {
            Some(members) => members,
            None => {
                return Err(GelfError::NotAnObject);
            },
        };
        let host = match get(members, "host") {
            Some(JsonValue::Text(host)) => host.clone(),
            _ => {
                return Err(GelfError::MissingHost);
            },
        };
        let has_number = match get(members, "timestamp") {
            Some(JsonValue::Number(_)) => true,
            _ => false,
        };
        let millis = match value.timestamp_millis {
            Some(millis) => millis,
            None => {
                return Err(GelfError::MissingTimestamp);
            },
        };
        if !has_number {
            return Err(GelfError::MissingTimestamp);
        }
        let severity: i32 = match get(members, "level") {
            Some(level) => match level.as_i64() {
                Some(n) => #[verifier::truncate]
                (n as i32),
                None => 1,
            },
            None => 1,
        };
        let short_message = match get(members, "short_message") {
            Some(JsonValue::Text(text)) => text.clone(),
            _ => {
                return Err(GelfError::MissingShortMessage);
            },
        };
        let full_message = match get(members, "full_message") {
            Some(JsonValue::Text(text)) => Some(text.clone()),
            _ => None,
        };
        let extra = json_object_text(&extra_members(members));
        Ok(
            LogLine {
                host,
                timestamp: Some(split_millis(millis)),
                line: Some(Line::Gelf(GelfLogLine { short_message, full_message, severity, extra })),
            },
        )
    }
}

} // verus!
