//! The function codes this crate supports.

use vstd::prelude::*;

verus! {

/// The function codes defined by the Modbus RTU protocol that this crate
/// supports. Other codes have no representation.
#[derive(Debug, Clone, Copy, PartialEq, Eq, Structural)]
pub enum FunctionKind {
    /// Read Coils `(0x01)`
    ReadCoils,
    /// Read Discrete Inputs `(0x02)`
    ReadDiscreteInputs,
    /// Read Holding Registers `(0x03)`
    ReadHoldingRegisters,
    /// Read Input Registers `(0x04)`
    ReadInputRegisters,
    /// Write Single Coil `(0x05)`
    WriteSingleCoil,
    /// Write Single Register `(0x06)`
    WriteSingleRegister,
    /// Write Multiple Coils `(0x0F)`
    WriteMultipleCoils,
    /// Write Multiple Registers `(0x10)`
    WriteMultipleRegisters,
}

impl FunctionKind {
    /// The wire code of a function kind.
    pub open spec fn code(self) -> u8 {
        match self {
            FunctionKind::ReadCoils => 0x01,
            FunctionKind::ReadDiscreteInputs => 0x02,
            FunctionKind::ReadHoldingRegisters => 0x03,
            FunctionKind::ReadInputRegisters => 0x04,
            FunctionKind::WriteSingleCoil => 0x05,
            FunctionKind::WriteSingleRegister => 0x06,
            FunctionKind::WriteMultipleCoils => 0x0F,
            FunctionKind::WriteMultipleRegisters => 0x10,
        }
    }

    /// The kind that a wire code denotes, if any.
    pub open spec fn of_code(code: u8) -> Option<FunctionKind> {
        if code == 0x01 {
            Some(FunctionKind::ReadCoils)
        } else if code == 0x02 {
            Some(FunctionKind::ReadDiscreteInputs)
        } else if code == 0x03 {
            Some(FunctionKind::ReadHoldingRegisters)
        } else if code == 0x04 {
            Some(FunctionKind::ReadInputRegisters)
        } else if code == 0x05 {
            Some(FunctionKind::WriteSingleCoil)
        } else if code == 0x06 {
            Some(FunctionKind::WriteSingleRegister)
        } else if code == 0x0F {
            Some(FunctionKind::WriteMultipleCoils)
        } else if code == 0x10 {
            Some(FunctionKind::WriteMultipleRegisters)
        } else {
            None
        }
    }

    /// Kinds that read data and therefore need a reply.
    pub open spec fn is_read(self) -> bool {
        match self {
            FunctionKind::ReadCoils
            | FunctionKind::ReadDiscreteInputs
            | FunctionKind::ReadHoldingRegisters
            | FunctionKind::ReadInputRegisters => true,
            _ => false,
        }
    }

    /// Returns the Modbus RTU function code of this kind.
    pub fn as_code(&self) -> (r: u8)
        ensures
            r == self.code(),
    {
        match self {
            FunctionKind::ReadCoils => 0x01,
            FunctionKind::ReadDiscreteInputs => 0x02,
            FunctionKind::ReadHoldingRegisters => 0x03,
            FunctionKind::ReadInputRegisters => 0x04,
            FunctionKind::WriteSingleCoil => 0x05,
            FunctionKind::WriteSingleRegister => 0x06,
            FunctionKind::WriteMultipleCoils => 0x0F,
            FunctionKind::WriteMultipleRegisters => 0x10,
        }
    }

    /// Converts a function code into its kind; `None` for unsupported codes.
    pub fn from_code(code: u8) -> (r: Option<FunctionKind>)
        ensures
            r == FunctionKind::of_code(code),
            r matches Some(k) ==> k.code() == code,
    {
        match code {
            0x01 => Some(FunctionKind::ReadCoils),
            0x02 => Some(FunctionKind::ReadDiscreteInputs),
            0x03 => Some(FunctionKind::ReadHoldingRegisters),
            0x04 => Some(FunctionKind::ReadInputRegisters),
            0x05 => Some(FunctionKind::WriteSingleCoil),
            0x06 => Some(FunctionKind::WriteSingleRegister),
            0x0F => Some(FunctionKind::WriteMultipleCoils),
            0x10 => Some(FunctionKind::WriteMultipleRegisters),
            _ => None,
        }
    }

    /// Returns `true` for the four read kinds.
    pub fn is_read_kind(&self) -> (r: bool)
        ensures
            r == self.is_read(),
    {
        match self {
            FunctionKind::ReadCoils
            | FunctionKind::ReadDiscreteInputs
            | FunctionKind::ReadHoldingRegisters
            | FunctionKind::ReadInputRegisters => true,
            _ => false,
        }
    }
}

/// Every kind is recovered from its own code, and no two kinds share a code.
pub proof fn lemma_kind_code_round_trip(k: FunctionKind)
    ensures
        FunctionKind::of_code(k.code()) == Some(k),
        k.code() & 0x80 == 0,
{
    assert(k.code() & 0x80 == 0) by {
        let c = k.code();
        assert(c <= 0x10);
        assert(c <= 0x10 ==> c & 0x80 == 0) by (bit_vector);
    }
}

} // verus!
