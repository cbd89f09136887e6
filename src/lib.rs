//! Ingestion core of a bridge that stores robotic-arm telemetry received on a
//! message bus: topic validation, timestamp normalization, record building, and
//! the connection and subscription decisions of the consuming loop.
use vstd::prelude::*;

pub mod error;
pub mod channel;
pub mod timestamp;
pub mod record;
pub mod session;
pub mod ingestion;

verus! {

} // verus!
