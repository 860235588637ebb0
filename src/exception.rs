//! Modbus exception codes.

use vstd::prelude::*;

verus! {

/// The Modbus application exceptions returned by a slave device, with a
/// catch-all that keeps any code this crate does not name.
#[derive(Debug, Clone, Copy, PartialEq, Eq, Structural)]
pub enum Exception {
    /// A code not named below; keeps the raw value.
    Undefined(u8),
    /// `0x01`: the function is not supported, or not in the current state.
    IllegalFunction,
    /// `0x02`: the addressed range is not valid for the device.
    IllegalDataAddress,
    /// `0x03`: a value in the request is not acceptable.
    IllegalDataValue,
    /// `0x04`: an unrecoverable fault occurred in the device.
    DeviceFailure,
    /// `0x05`: the request was accepted and will complete later.
    Acknowledge,
    /// `0x06`: the device is busy with a long-running command.
    DeviceBusy,
    /// `0x08`: a parity error was found in extended memory.
    MemoryParityError,
    /// `0x0A`: a gateway could not allocate a path.
    GatewayPathUnavailable,
    /// `0x0B`: a gateway got no response from the target device.
    GatewayTargetDeviceFailedToRespond,
}

impl Exception {
    /// The wire code of an exception.
    pub open spec fn code(self) -> u8 {
        match self {
            Exception::Undefined(c) => c,
            Exception::IllegalFunction => 0x01,
            Exception::IllegalDataAddress => 0x02,
            Exception::IllegalDataValue => 0x03,
            Exception::DeviceFailure => 0x04,
            Exception::Acknowledge => 0x05,
            Exception::DeviceBusy => 0x06,
            Exception::MemoryParityError => 0x08,
            Exception::GatewayPathUnavailable => 0x0A,
            Exception::GatewayTargetDeviceFailedToRespond => 0x0B,
        }
    }

    /// The exception that a wire code denotes.
    pub open spec fn of_code(code: u8) -> Exception {
        if code == 0x01 {
            Exception::IllegalFunction
        } else if code == 0x02 {
            Exception::IllegalDataAddress
        } else if code == 0x03 {
            Exception::IllegalDataValue
        } else if code == 0x04 {
            Exception::DeviceFailure
        } else if code == 0x05 {
            Exception::Acknowledge
        } else if code == 0x06 {
            Exception::DeviceBusy
        } else if code == 0x08 {
            Exception::MemoryParityError
        } else if code == 0x0A {
            Exception::GatewayPathUnavailable
        } else if code == 0x0B {
            Exception::GatewayTargetDeviceFailedToRespond
        } else {
            Exception::Undefined(code)
        }
    }

    /// Returns the Modbus exception code of this variant.
    pub fn as_code(&self) -> (r: u8)
        ensures
            r == self.code(),
    {
        match self {
            Exception::Undefined(code) => *code,
            Exception::IllegalFunction => 0x01,
            Exception::IllegalDataAddress => 0x02,
            Exception::IllegalDataValue => 0x03,
            Exception::DeviceFailure => 0x04,
            Exception::Acknowledge => 0x05,
            Exception::DeviceBusy => 0x06,
            Exception::MemoryParityError => 0x08,
            Exception::GatewayPathUnavailable => 0x0A,
            Exception::GatewayTargetDeviceFailedToRespond => 0x0B,
        }
    }

    /// Converts a wire code into its variant; codes without a name become
    /// `Undefined(code)`.
    pub fn from_code(code: u8) -> (r: Exception)
        ensures
            r == Exception::of_code(code),
            r.code() == code,
    {
        match code {
            0x01 => Exception::IllegalFunction,
            0x02 => Exception::IllegalDataAddress,
            0x03 => Exception::IllegalDataValue,
            0x04 => Exception::DeviceFailure,
            0x05 => Exception::Acknowledge,
            0x06 => Exception::DeviceBusy,
            0x08 => Exception::MemoryParityError,
            0x0A => Exception::GatewayPathUnavailable,
            0x0B => Exception::GatewayTargetDeviceFailedToRespond,
            _ => Exception::Undefined(code),
        }
    }

    /// Returns `true` exactly for `Acknowledge`.
    pub fn is_ack(&self) -> (r: bool)
        ensures
            r == (*self == Exception::Acknowledge),
    {
        match self {
            Exception::Acknowledge => true,
            _ => false,
        }
    }
}

/// Decoding any byte as an exception and encoding it again gives the byte back.
pub proof fn lemma_exception_code_round_trip(code: u8)
    ensures
        Exception::of_code(code).code() == code,
{
}

/// Every named exception is recovered from its own code.
pub proof fn lemma_named_exception_round_trip(e: Exception)
    requires
        !(e is Undefined),
    ensures
        Exception::of_code(e.code()) == e,
{
}

} // verus!
