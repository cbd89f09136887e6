use vstd::prelude::*;
use crate::channel::{Channel, channel_of};
use crate::error::IngestError;
use crate::timestamp::{
    CalendarTimestamp, floor_seconds, normalize, seconds_in_range, sub_second_nanos,
};

verus! {

/// The fields of one telemetry document as read off the wire: its epoch
/// timestamp in milliseconds and its joint matrices re-serialized in canonical
/// form.
pub struct WirePayload {
    pub timestamp: i64,
    pub matrices: String,
}

impl View for WirePayload {
    type V = (i64, Seq<char>);

    open spec fn view(&self) -> (i64, Seq<char>) {
        (self.timestamp, self.matrices@)
    }
}

/// A decoded message: its channel comes from the topic, never from the content.
pub struct TelemetryMessage {
    pub channel: Channel,
    pub timestamp: i64,
    pub matrices: String,
}

impl View for TelemetryMessage {
    type V = (Channel, i64, Seq<char>);

    open spec fn view(&self) -> (Channel, i64, Seq<char>) {
        (self.channel, self.timestamp, self.matrices@)
    }
}

/// The unit committed to the store for one message.
pub struct PersistedRecord {
    pub channel: Channel,
    pub timestamp: CalendarTimestamp,
    pub payload: String,
}

impl View for PersistedRecord {
    type V = (Channel, CalendarTimestamp, Seq<char>);

    open spec fn view(&self) -> (Channel, CalendarTimestamp, Seq<char>) {
        (self.channel, self.timestamp, self.payload@)
    }
}

/// Decoding of a message: the topic must name a channel, then the payload must
/// have been read as a telemetry document.
pub open spec fn decode_spec(topic: Seq<char>, wire: Option<(i64, Seq<char>)>) -> Result<
    (Channel, i64, Seq<char>),
    IngestError,
> {
    match channel_of(topic) {
        None => Err(IngestError::InvalidChannel),
        Some(c) => match wire {
            None => Err(IngestError::Decode),
            Some(w) => Ok((c, w.0, w.1)),
        },
    }
}

/// The calendar timestamp of epoch milliseconds, when it is representable.
pub open spec fn normalize_spec(millis: i64) -> Result<CalendarTimestamp, IngestError> {
    if seconds_in_range(floor_seconds(millis as int)) {
        Ok(
            CalendarTimestamp {
                seconds: floor_seconds(millis as int) as i64,
                nanoseconds: sub_second_nanos(millis as int) as u32,
            },
        )
    } else {
        Err(IngestError::TimestampOutOfRange)
    }
}

/// The record that a received message becomes, or the first stage that refused it.
pub open spec fn ingest_spec(topic: Seq<char>, wire: Option<(i64, Seq<char>)>) -> Result<
    (Channel, CalendarTimestamp, Seq<char>),
    IngestError,
> {
    match decode_spec(topic, wire) {
        Err(e) => Err(e),
        Ok(m) => match normalize_spec(m.1) {
            Err(e) => Err(e),
            Ok(t) => Ok((m.0, t, m.2)),
        },
    }
}

/// The view of an optional wire payload.
pub open spec fn wire_view(wire: Option<WirePayload>) -> Option<(i64, Seq<char>)> {
    match wire {
        None => None,
        Some(w) => Some(w@),
    }
}

/// Checks the topic and the decoded document; `None` stands for a payload that
/// could not be read as a telemetry document.
pub fn decode(topic: &str, wire: Option<WirePayload>) -> (r: Result<TelemetryMessage, IngestError>)
    ensures
        match decode_spec(topic@, wire_view(wire)) {
            Ok(m) => r is Ok && r->Ok_0@ == m,
            Err(e) => r is Err && r->Err_0 == e,
        },
{
    let channel = match Channel::from_topic(topic) {
        Ok(c) => c,
        Err(e) => return Err(e),
    };
    match wire {
        None => Err(IngestError::Decode),
        Some(w) => Ok(TelemetryMessage { channel, timestamp: w.timestamp, matrices: w.matrices }),
    }
}

/// Normalizes the message's timestamp into the record to be stored.
pub fn to_record(msg: TelemetryMessage) -> (r: Result<PersistedRecord, IngestError>)
    ensures
        match normalize_spec(msg.timestamp) {
            Ok(t) => r is Ok && r->Ok_0@ == (msg.channel, t, msg.matrices@),
            Err(e) => r is Err && r->Err_0 == e,
        },
{
    match normalize(msg.timestamp) {
        Ok(timestamp) => Ok(PersistedRecord { channel: msg.channel, timestamp, payload: msg.matrices }),
        Err(e) => Err(e),
    }
}

/// Runs one received message through decoding and timestamp normalization.
pub fn ingest(topic: &str, wire: Option<WirePayload>) -> (r: Result<PersistedRecord, IngestError>)
    ensures
        match ingest_spec(topic@, wire_view(wire)) {
            Ok(rec) => r is Ok && r->Ok_0@ == rec,
            Err(e) => r is Err && r->Err_0 == e,
        },
{
    match decode(topic, wire) {
        Ok(msg) => to_record(msg),
        Err(e) => Err(e),
    }
}

/// Maps the store's answer for one record: a failed write is a storage error.
pub fn write_outcome(written: bool) -> (r: Result<(), IngestError>)
    ensures
        written ==> r is Ok,
        !written ==> r == Err::<(), IngestError>(IngestError::Storage),
{
    if written {
        Ok(())
    } else {
        Err(IngestError::Storage)
    }
}

/// For every well-formed document on a channel topic whose time is
/// representable, the stored record keeps the channel and the payload, and its
/// timestamp gives back the original milliseconds to the nanosecond.
pub proof fn lemma_round_trip(topic: Seq<char>, millis: i64, matrices: Seq<char>)
    requires
        channel_of(topic) is Some,
        seconds_in_range(floor_seconds(millis as int)),
    ensures
        ingest_spec(topic, Some((millis, matrices))) is Ok,
        ({
            let rec = ingest_spec(topic, Some((millis, matrices)))->Ok_0;
            &&& rec.0 == channel_of(topic)->Some_0
            &&& rec.2 == matrices
            &&& rec.1.wf()
            &&& rec.1.total_nanos() == millis as int * 1_000_000
            &&& rec.1.seconds as int * 1000 + rec.1.nanoseconds as int / 1_000_000 == millis as int
            &&& rec.1.nanoseconds as int % 1_000_000 == 0
        }),
{
    let m = millis as int;
    assert(0 <= m % 1000 < 1000);
    assert(m == (m / 1000) * 1000 + m % 1000);
    assert(((m % 1000) * 1_000_000) / 1_000_000 == m % 1000) by (nonlinear_arith)
        requires 0 <= m % 1000 < 1000;
    assert(((m % 1000) * 1_000_000) % 1_000_000 == 0) by (nonlinear_arith)
        requires 0 <= m % 1000 < 1000;
    assert((m / 1000) * 1_000_000_000 + (m % 1000) * 1_000_000 == m * 1_000_000) by (nonlinear_arith)
        requires m == (m / 1000) * 1000 + m % 1000;
}

/// A payload that could not be read is dropped with a decode error on any
/// channel topic: it never becomes a record.
pub proof fn lemma_malformed_dropped(topic: Seq<char>)
    requires
        channel_of(topic) is Some,
    ensures
        ingest_spec(topic, None) == Err::<(Channel, CalendarTimestamp, Seq<char>), IngestError>(
            IngestError::Decode,
        ),
{
}

/// A topic outside the two channel topics is rejected as an invalid channel,
/// whatever the payload, so no record exists to be written.
pub proof fn lemma_unknown_topic_rejected(topic: Seq<char>, wire: Option<(i64, Seq<char>)>)
    requires
        channel_of(topic) is None,
    ensures
        ingest_spec(topic, wire) == Err::<(Channel, CalendarTimestamp, Seq<char>), IngestError>(
            IngestError::InvalidChannel,
        ),
{
}

} // verus!
