//! Why a device does not carry out an incoming frame.

use vstd::prelude::*;
use crate::exception::Exception;

verus! {

/// The outcomes of analysing an incoming frame other than a valid operation.
#[derive(Debug, Clone, Copy, PartialEq, Eq, Structural)]
pub enum PacketError {
    /// The frame is too short to analyse; holds its length.
    TooShort(usize),
    /// The CRC computed over the frame differs from the one it carries.
    CrcMismatch { expected: u16, received: u16 },
    /// The frame is for another device; it is ignored without a reply.
    NotMyId(u8),
    /// The request must be answered with this exception for this function code.
    Exception { function_code: u8, exception: Exception },
}

} // verus!
