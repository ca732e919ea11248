//! Errors surfaced by the codec and by the client layer.

use vstd::prelude::*;

verus! {

/// Everything that can go wrong while framing, decoding or validating.
#[derive(Clone, Copy, Debug, PartialEq, Eq, Structural)]
pub enum CodecError {
    /// The byte at offset 1 of a candidate frame is not a recognized
    /// function code; the driver resynchronizes past it.
    InvalidFunctionCode(u8),
    /// The CRC-16 trailer on the wire did not match the CRC computed over
    /// the frame; the driver resynchronizes past the first byte.
    CrcMismatch { expected: u16, actual: u16 },
    /// The client requested a disconnect; the encoder emits nothing and
    /// the transport is torn down by the caller.
    NotConnected,
    /// A response of a different kind than the request was received.
    UnexpectedResponse,
    /// A response of the right kind carried an implausible payload.
    InvalidResponse,
}

} // verus!
