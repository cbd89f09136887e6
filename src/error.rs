use vstd::prelude::*;

verus! {

/// Why one received message was not turned into a stored record.
#[derive(Debug, Clone, Copy, PartialEq, Eq, Structural)]
pub enum IngestError {
    /// The payload is not a well-formed telemetry document.
    Decode,
    /// The topic names no known channel.
    InvalidChannel,
    /// The normalized timestamp lies outside the representable calendar range.
    TimestampOutOfRange,
    /// The store refused or failed the write.
    Storage,
}

impl IngestError {
    /// A short human-readable description of the error.
    pub fn describe(&self) -> (r: &'static str) {
        match self {
            IngestError::Decode => "malformed telemetry payload",
            IngestError::InvalidChannel => "unknown channel",
            IngestError::TimestampOutOfRange => "timestamp out of range",
            IngestError::Storage => "storage write failed",
        }
    }
}

} // verus!
