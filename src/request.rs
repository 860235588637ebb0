//! An outgoing request: target device, function and response timeout.

use vstd::prelude::*;
use std::time::Duration;
use crate::crc::with_crc;
use crate::error::RequestPacketError;
use crate::function::Function;
use crate::utils::crc16_modbus;

verus! {

/// The device id that addresses every device at once; such frames are never
/// answered.
pub const BROADCAST_ID: u8 = 0;

/// The full frame for a function sent to device `id`, or why it cannot be
/// built: `[id] ++ payload ++ crc`.
pub open spec fn request_frame(id: u8, f: Function) -> Result<Seq<u8>, RequestPacketError> {
    if id == BROADCAST_ID && f.spec_kind().is_read() {
        Err(RequestPacketError::CannotBroadcast)
    } else {
        match f.payload() {
            Ok(p) => Ok(with_crc(seq![id] + p)),
            Err(e) => Err(e),
        }
    }
}

/// An outgoing Modbus RTU request along with its metadata.
#[derive(Debug, Clone, Copy, PartialEq, Eq)]
pub struct Request<'a> {
    modbus_id: u8,
    function: &'a Function,
    timeout: Duration,
}

impl<'a> Request<'a> {
    /// The device id this request targets.
    pub closed spec fn id(&self) -> u8 {
        self.modbus_id
    }

    /// The function this request carries.
    pub closed spec fn func(&self) -> Function {
        *self.function
    }

    /// The timeout this request carries.
    pub closed spec fn wait(&self) -> Duration {
        self.timeout
    }

    /// Creates a request for a device, function and response timeout.
    pub fn new(modbus_id: u8, function: &'a Function, timeout: Duration) -> (r: Request<'a>)
        ensures
            r.id() == modbus_id,
            r.func() == *function,
            r.wait() == timeout,
    {
        Request { modbus_id, function, timeout }
    }

    /// Returns the device id this request targets.
    pub fn modbus_id(&self) -> (r: u8)
        ensures
            r == self.id(),
    {
        self.modbus_id
    }

    /// Changes the device id this request targets.
    pub fn set_modbus_id(&mut self, modbus_id: u8)
        ensures
            final(self).id() == modbus_id,
            final(self).func() == old(self).func(),
            final(self).wait() == old(self).wait(),
    {
        self.modbus_id = modbus_id;
    }

    /// Returns the function this request carries.
    pub fn function(&self) -> (r: &Function)
        ensures
            *r == self.func(),
    {
        self.function
    }

    /// Replaces the function this request carries.
    pub fn set_function(&mut self, function: &'a Function)
        ensures
            final(self).id() == old(self).id(),
            final(self).func() == *function,
            final(self).wait() == old(self).wait(),
    {
        self.function = function;
    }

    /// Returns the response timeout of this request.
    pub fn timeout(&self) -> (r: Duration)
        ensures
            r == self.wait(),
    {
        self.timeout
    }

    /// Changes the response timeout of this request.
    pub fn set_timeout(&mut self, timeout: Duration)
        ensures
            final(self).id() == old(self).id(),
            final(self).func() == old(self).func(),
            final(self).wait() == timeout,
    {
        self.timeout = timeout;
    }

    /// Returns `true` when the request targets the broadcast id.
    pub fn is_broadcasting(&self) -> (r: bool)
        ensures
            r == (self.id() == BROADCAST_ID),
    {
        self.modbus_id == BROADCAST_ID
    }

    /// Serializes the request into a frame: device id, function payload, CRC.
    ///
    /// Fails with `CannotBroadcast` for a read sent to the broadcast id, and
    /// with the function's own error when it cannot be encoded.
    pub fn to_bytes(&self) -> (r: Result<Vec<u8>, RequestPacketError>)
        ensures
            match r {
                Ok(v) => request_frame(self.id(), self.func()) == Ok::<Seq<u8>, RequestPacketError>(v@),
                Err(e) => request_frame(self.id(), self.func()) == Err::<Seq<u8>, RequestPacketError>(e),
            },
    {
        if self.is_broadcasting() && self.function.kind().is_read_kind() {
            return Err(RequestPacketError::CannotBroadcast);
        }
        let payload = self.function.to_bytes()?;
        let mut buf: Vec<u8> = Vec::new();
        buf.push(self.modbus_id);
        crate::function::append_bytes(&mut buf, &payload);
        let crc = crc16_modbus(buf.as_slice());
        buf.push(crc[0]);
        buf.push(crc[1]);
        proof {
            assert(buf@ =~= with_crc(seq![self.modbus_id] + payload@));
        }
        Ok(buf)
    }
}

} // verus!
