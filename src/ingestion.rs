use vstd::prelude::*;
use crate::error::IngestError;
use crate::record::{ingest, ingest_spec, wire_view, PersistedRecord, WirePayload};
use crate::session::{BusEvent, BusSession, ConnectionState};

verus! {

/// One item of the bus stream: a message, or the news that the connection was
/// lost. The two are never folded into one empty value.
pub enum StreamItem {
    Message { topic: String, payload: Option<WirePayload> },
    Disconnected,
}

/// What the loop does with one stream item.
pub enum LoopStep {
    /// Store this record.
    Write(PersistedRecord),
    /// Drop the message for this reason and go on with the next item.
    Dropped(IngestError),
    /// Stop consuming and reconnect before resuming.
    Reconnect,
}

/// Handles one stream item: a message runs through the pipeline and leaves the
/// connection state unchanged whatever its outcome; a lost connection leads to
/// reconnecting.
pub fn next_step(session: &mut BusSession, item: StreamItem) -> (r: LoopStep)
    ensures
        match item {
            StreamItem::Message { topic, payload } => {
                &&& final(session).state == old(session).state
                &&& match ingest_spec(topic@, wire_view(payload)) {
                    Ok(rec) => r is Write && r->Write_0@ == rec,
                    Err(e) => r is Dropped && r->Dropped_0 == e,
                }
            },
            StreamItem::Disconnected => {
                &&& final(session).state == ConnectionState::Reconnecting
                &&& r is Reconnect
            },
        },
{
    match item {
        StreamItem::Message { topic, payload } => {
            session.on_event(BusEvent::Message);
            match ingest(topic.as_str(), payload) {
                Ok(rec) => LoopStep::Write(rec),
                Err(e) => LoopStep::Dropped(e),
            }
        },
        StreamItem::Disconnected => {
            session.on_event(BusEvent::ConnectionLost);
            LoopStep::Reconnect
        },
    }
}

} // verus!
