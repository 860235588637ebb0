//! Error types of the request encoder and the response decoder.

use vstd::prelude::*;

verus! {

/// Errors that can occur while building a Modbus RTU request packet.
#[derive(Debug, Clone, Copy, PartialEq, Eq, Structural)]
pub enum RequestPacketError {
    /// The request itself would exceed the 256-byte frame limit, or the
    /// addressed range runs past `0xFFFF`.
    RequestTooBig,
    /// The expected response would exceed the 256-byte frame limit, or the
    /// addressed range runs past `0xFFFF`.
    ResponseWillTooBig,
    /// A read function cannot be sent to the broadcast id, which never replies.
    CannotBroadcast,
}

/// Errors that can occur while validating and decoding a response frame.
#[derive(Debug, Clone, Copy, PartialEq, Eq, Structural)]
pub enum ResponsePacketError {
    /// The frame is shorter than the minimum Modbus RTU length; holds its length.
    TooShort(usize),
    /// The CRC computed over the frame differs from the one it carries.
    CRCMismatch { expected: u16, received: u16 },
    /// The response came from another device than the one addressed.
    UnexpectedResponder(u8),
    /// The payload does not fit the request (function code, counts, echo).
    InvalidFormat,
}

} // verus!
