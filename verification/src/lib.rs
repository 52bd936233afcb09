//! Serial framing codec for point-to-point command/telemetry links.
//!
//! A frame on the wire is `[0xB3][payload bytes...][checksum]`, where the
//! checksum is the XOR fold of every byte from the delimiter through the last
//! payload byte. `codec` frames and unframes opaque payloads; `frame` gives
//! the payloads their typed shape (a one-byte frame ID plus fixed-width
//! fields).

pub mod codec;
pub mod error;
pub mod frame;

pub use codec::decode;
pub use codec::encode;
