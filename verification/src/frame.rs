//! The frame model: the closed set of frame kinds, their payload layouts,
//! and the conversions between a typed `Frame` and its flat payload bytes.
//!
//! A payload is the one-byte frame ID followed by the variant's fields,
//! fixed-width, in declaration order, no padding. Multi-byte fields are
//! big-endian. The byte value between `RequestData` and `SetStandby` is
//! reserved and deliberately unassigned; `deserialize` rejects it as an
//! unknown frame ID. Trailing bytes after a variant's fixed-width fields are
//! rejected rather than ignored; that policy is applied uniformly since the
//! wire format carries no length field.

use vstd::prelude::*;

use crate::error::DecodeError;

verus! {

/// The one-byte discriminant identifying each frame kind. The values are
/// fixed by the field-device firmware; see `id_byte`.
#[derive(Clone, Copy, PartialEq, Eq, Structural, Debug)]
pub enum FrameId {
    Ping,
    AssignID,
    RequestData,
    SetStandby,
    SetDischarge,
    SetCharge,
    AnnounceCompletion,
}

impl FrameId {
    /// The wire value of each frame ID. The gap at 0x03 is reserved and must
    /// not be reassigned.
    pub open spec fn id_byte(self) -> u8 {
        match self {
            FrameId::Ping => 0x00,
            FrameId::AssignID => 0x01,
            FrameId::RequestData => 0x02,
            FrameId::SetStandby => 0x04,
            FrameId::SetDischarge => 0x05,
            FrameId::SetCharge => 0x06,
            FrameId::AnnounceCompletion => 0x07,
        }
    }

    /// The frame ID assigned to a byte, if any.
    pub open spec fn spec_from_byte(b: u8) -> Option<FrameId> {
        if b == 0x00 {
            Some(FrameId::Ping)
        } else if b == 0x01 {
            Some(FrameId::AssignID)
        } else if b == 0x02 {
            Some(FrameId::RequestData)
        } else if b == 0x04 {
            Some(FrameId::SetStandby)
        } else if b == 0x05 {
            Some(FrameId::SetDischarge)
        } else if b == 0x06 {
            Some(FrameId::SetCharge)
        } else if b == 0x07 {
            Some(FrameId::AnnounceCompletion)
        } else {
            None
        }
    }

    /// The wire byte of this frame ID.
    pub fn to_byte(self) -> (r: u8)
        ensures
            r == self.id_byte(),
    {
        match self {
            FrameId::Ping => 0x00,
            FrameId::AssignID => 0x01,
            FrameId::RequestData => 0x02,
            FrameId::SetStandby => 0x04,
            FrameId::SetDischarge => 0x05,
            FrameId::SetCharge => 0x06,
            FrameId::AnnounceCompletion => 0x07,
        }
    }

    /// Looks a byte up in the assigned frame IDs; `None` for the reserved
    /// gap and for every byte past the defined set.
    pub fn from_byte(b: u8) -> (r: Option<FrameId>)
        ensures
            r == FrameId::spec_from_byte(b),
    {
        match b {
            0x00 => Some(FrameId::Ping),
            0x01 => Some(FrameId::AssignID),
            0x02 => Some(FrameId::RequestData),
            0x04 => Some(FrameId::SetStandby),
            0x05 => Some(FrameId::SetDischarge),
            0x06 => Some(FrameId::SetCharge),
            0x07 => Some(FrameId::AnnounceCompletion),
            _ => None,
        }
    }
}

/// One complete application-level message: a tagged union over the frame
/// IDs, each variant owning exactly the fields its payload requires, typed
/// at raw wire width. Current and limit targets are raw fixed-point
/// integers in hundredths of a unit; see `centi_parts` for the
/// presentation-layer conversion, which is never applied on the wire.
#[derive(Clone, Copy, PartialEq, Eq, Structural, Debug)]
pub enum Frame {
    /// Liveness probe, host to device. No payload.
    Ping,
    /// Assigns a device its address on the shared link.
    AssignID { address: u8 },
    /// Asks the device to report its data. No payload.
    RequestData,
    /// Puts the device into standby. No payload.
    SetStandby,
    /// Sets the discharge target, a raw fixed-point value in hundredths.
    SetDischarge { target: u16 },
    /// Sets the charge target, a raw fixed-point value in hundredths.
    SetCharge { target: u16 },
    /// Device-to-host completion report with a status code.
    AnnounceCompletion { status: u8 },
}

/// The high byte of a big-endian 16-bit field.
pub open spec fn u16_hi(v: u16) -> u8 {
    (v >> 8) as u8
}

/// The low byte of a big-endian 16-bit field.
pub open spec fn u16_lo(v: u16) -> u8 {
    (v & 0xff) as u8
}

/// A 16-bit value reassembled from its big-endian bytes.
pub open spec fn u16_be(hi: u8, lo: u8) -> u16 {
    ((hi as u16) << 8) | (lo as u16)
}

/// Splitting a 16-bit value into big-endian bytes and reassembling them is
/// the identity.
pub proof fn lemma_u16_be_round_trip(v: u16)
    ensures
        u16_be(u16_hi(v), u16_lo(v)) == v,
{
    assert(((((v >> 8) as u8) as u16) << 8) | (((v & 0xff) as u8) as u16) == v) by (bit_vector);
}

impl Frame {
    /// The frame ID that tags this frame's variant.
    pub open spec fn id(self) -> FrameId {
        match self {
            Frame::Ping => FrameId::Ping,
            Frame::AssignID { .. } => FrameId::AssignID,
            Frame::RequestData => FrameId::RequestData,
            Frame::SetStandby => FrameId::SetStandby,
            Frame::SetDischarge { .. } => FrameId::SetDischarge,
            Frame::SetCharge { .. } => FrameId::SetCharge,
            Frame::AnnounceCompletion { .. } => FrameId::AnnounceCompletion,
        }
    }

    /// The flat payload bytes of a frame: its ID byte, then its fields in
    /// declaration order at their wire width, big-endian.
    pub open spec fn serialize_spec(self) -> Seq<u8> {
        match self {
            Frame::Ping => seq![0x00u8],
            Frame::AssignID { address } => seq![0x01u8, address],
            Frame::RequestData => seq![0x02u8],
            Frame::SetStandby => seq![0x04u8],
            Frame::SetDischarge { target } => seq![0x05u8, u16_hi(target), u16_lo(target)],
            Frame::SetCharge { target } => seq![0x06u8, u16_hi(target), u16_lo(target)],
            Frame::AnnounceCompletion { status } => seq![0x07u8, status],
        }
    }

    /// The typed frame a payload denotes, or the error that rejects it:
    /// `TruncatedPayload` when the bytes end before the variant's fields do
    /// (or before the ID byte itself), `TrailingBytes` when bytes remain
    /// after them, `UnknownFrameId` when the first byte is unassigned.
    pub open spec fn deserialize_spec(p: Seq<u8>) -> Result<Frame, DecodeError> {
        if p.len() == 0 {
            Err(DecodeError::TruncatedPayload)
        } else {
            match FrameId::spec_from_byte(p[0]) {
                None => Err(DecodeError::UnknownFrameId),
                Some(id) => {
                    let want = Frame::payload_len(id);
                    if p.len() < want {
                        Err(DecodeError::TruncatedPayload)
                    } else if p.len() > want {
                        Err(DecodeError::TrailingBytes)
                    } else {
                        Ok(Frame::from_fields(id, p))
                    }
                },
            }
        }
    }

    /// The exact payload length of each frame kind, ID byte included.
    pub open spec fn payload_len(id: FrameId) -> nat {
        match id {
            FrameId::Ping => 1,
            FrameId::AssignID => 2,
            FrameId::RequestData => 1,
            FrameId::SetStandby => 1,
            FrameId::SetDischarge => 3,
            FrameId::SetCharge => 3,
            FrameId::AnnounceCompletion => 2,
        }
    }

    /// The frame built from a payload of exactly the right length for `id`.
    pub open spec fn from_fields(id: FrameId, p: Seq<u8>) -> Frame {
        match id {
            FrameId::Ping => Frame::Ping,
            FrameId::AssignID => Frame::AssignID { address: p[1] },
            FrameId::RequestData => Frame::RequestData,
            FrameId::SetStandby => Frame::SetStandby,
            FrameId::SetDischarge => Frame::SetDischarge { target: u16_be(p[1], p[2]) },
            FrameId::SetCharge => Frame::SetCharge { target: u16_be(p[1], p[2]) },
            FrameId::AnnounceCompletion => Frame::AnnounceCompletion { status: p[1] },
        }
    }

    /// Serializes the frame to its flat payload bytes. Total: every frame
    /// value is well-formed by construction, so no failure case exists.
    pub fn serialize(self) -> (r: Vec<u8>)
        ensures
            r@ == self.serialize_spec(),
    {
        let mut out: Vec<u8> = Vec::new();
        match self {
            Frame::Ping => {
                out.push(0x00);
            },
            Frame::AssignID { address } => {
                out.push(0x01);
                out.push(address);
            },
            Frame::RequestData => {
                out.push(0x02);
            },
            Frame::SetStandby => {
                out.push(0x04);
            },
            Frame::SetDischarge { target } => {
                out.push(0x05);
                out.push(hi_byte(target));
                out.push(lo_byte(target));
            },
            Frame::SetCharge { target } => {
                out.push(0x06);
                out.push(hi_byte(target));
                out.push(lo_byte(target));
            },
            Frame::AnnounceCompletion { status } => {
                out.push(0x07);
                out.push(status);
            },
        }
        proof {
            assert(out@ =~= self.serialize_spec());
        }
        out
    }

    /// Reads the leading byte as the frame ID and the remaining bytes as
    /// that variant's fields; rejects unassigned IDs and any length other
    /// than the variant's exact fixed width.
    pub fn deserialize(payload: &[u8]) -> (r: Result<Frame, DecodeError>)
        ensures
            r == Frame::deserialize_spec(payload@),
    {
        if payload.len() == 0 {
            return Err(DecodeError::TruncatedPayload);
        }
        let id = match FrameId::from_byte(payload[0]) {
            None => {
                return Err(DecodeError::UnknownFrameId);
            },
            Some(id) => id,
        };
        let want: usize = match id {
            FrameId::Ping => 1,
            FrameId::AssignID => 2,
            FrameId::RequestData => 1,
            FrameId::SetStandby => 1,
            FrameId::SetDischarge => 3,
            FrameId::SetCharge => 3,
            FrameId::AnnounceCompletion => 2,
        };
        if payload.len() < want {
            return Err(DecodeError::TruncatedPayload);
        }
        if payload.len() > want {
            return Err(DecodeError::TrailingBytes);
        }
        match id {
            FrameId::Ping => Ok(Frame::Ping),
            FrameId::AssignID => Ok(Frame::AssignID { address: payload[1] }),
            FrameId::RequestData => Ok(Frame::RequestData),
            FrameId::SetStandby => Ok(Frame::SetStandby),
            FrameId::SetDischarge => Ok(
                Frame::SetDischarge { target: be_u16(payload[1], payload[2]) },
            ),
            FrameId::SetCharge => Ok(Frame::SetCharge { target: be_u16(payload[1], payload[2]) }),
            FrameId::AnnounceCompletion => Ok(Frame::AnnounceCompletion { status: payload[1] }),
        }
    }
}

/// The high byte of a big-endian 16-bit field.
fn hi_byte(v: u16) -> (r: u8)
    ensures
        r == u16_hi(v),
{
    proof {
        assert((v >> 8) < 256) by (bit_vector);
    }
    (v >> 8) as u8
}

/// The low byte of a big-endian 16-bit field.
fn lo_byte(v: u16) -> (r: u8)
    ensures
        r == u16_lo(v),
{
    proof {
        assert((v & 0xff) < 256) by (bit_vector);
    }
    (v & 0xff) as u8
}

/// A 16-bit value reassembled from its big-endian bytes.
fn be_u16(hi: u8, lo: u8) -> (r: u16)
    ensures
        r == u16_be(hi, lo),
{
    ((hi as u16) << 8) | (lo as u16)
}

/// Every frame serializes to a payload whose first byte is its frame ID,
/// and deserializing that payload reconstructs an equal frame.
pub proof fn lemma_serialize_deserialize_round_trip(f: Frame)
    ensures
        f.serialize_spec().len() >= 1,
        f.serialize_spec()[0] == f.id().id_byte(),
        Frame::deserialize_spec(f.serialize_spec()) == Ok::<Frame, DecodeError>(f),
{
    match f {
        Frame::SetDischarge { target } => {
            lemma_u16_be_round_trip(target);
        },
        Frame::SetCharge { target } => {
            lemma_u16_be_round_trip(target);
        },
        _ => {},
    }
}

/// Splits a raw fixed-point hundredths value into whole units and remaining
/// hundredths, for display. This conversion lives strictly at the
/// presentation boundary: wire payloads always carry the raw integer.
pub fn centi_parts(raw: u16) -> (r: (u16, u16))
    ensures
        r.0 == raw / 100,
        r.1 == raw % 100,
        r.0 * 100 + r.1 == raw,
{
    proof {
        assert(raw / 100 * 100 + raw % 100 == raw) by (nonlinear_arith);
    }
    (raw / 100, raw % 100)
}

} // verus!
