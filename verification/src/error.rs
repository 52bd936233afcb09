use vstd::prelude::*;

verus! {

/// Every way a received byte sequence can fail validation, at the wire
/// framing layer (`TooShort`, `BadDelimiter`, `BadChecksum`) or at the
/// payload layer (`UnknownFrameId`, `TruncatedPayload`, `TrailingBytes`).
/// All are recoverable: the caller decides whether to drop, resync or
/// request retransmission.
#[derive(Clone, Copy, PartialEq, Eq, Structural, Debug)]
pub enum DecodeError {
    /// Fewer than two bytes: no room for a delimiter and a checksum.
    TooShort,
    /// The first byte is not the frame delimiter; the stream is desynchronized.
    BadDelimiter,
    /// The recomputed checksum disagrees with the trailing byte.
    BadChecksum,
    /// The payload's first byte matches no defined frame ID.
    UnknownFrameId,
    /// Fewer payload bytes than the frame kind's fields require.
    TruncatedPayload,
    /// Unconsumed bytes remain after the frame kind's fixed-width fields.
    TrailingBytes,
}

impl DecodeError {
    /// A fixed human-readable description of the error.
    pub fn message(&self) -> (r: &'static str)
        ensures
            *self is TooShort ==> r@ == "Input is too short to be valid"@,
            *self is BadDelimiter ==> r@ == "Invalid frame delimiter"@,
            *self is BadChecksum ==> r@ == "Invalid checksum"@,
            *self is UnknownFrameId ==> r@ == "Unknown frame ID"@,
            *self is TruncatedPayload ==> r@ == "Payload is truncated"@,
            *self is TrailingBytes ==> r@ == "Payload has trailing bytes"@,
    {
        match self {
            DecodeError::TooShort => "Input is too short to be valid",
            DecodeError::BadDelimiter => "Invalid frame delimiter",
            DecodeError::BadChecksum => "Invalid checksum",
            DecodeError::UnknownFrameId => "Unknown frame ID",
            DecodeError::TruncatedPayload => "Payload is truncated",
            DecodeError::TrailingBytes => "Payload has trailing bytes",
        }
    }
}

} // verus!
