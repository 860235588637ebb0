//! Semantic Modbus functions and their encoding into a payload.

use vstd::prelude::*;
use crate::bytes::{be_bytes, hi_byte, lo_byte, split_word};
use crate::error::RequestPacketError;
use crate::function_kind::FunctionKind;
use crate::utils::{pack_bits, packed_len, vec_bool_to_vec_u8};

verus! {

/// Largest frame, in bytes, that a device is assumed to accept.
pub const MAX_FRAME_LEN: usize = 256;

/// Bytes of a read response that are not data: id, code, byte count, CRC.
pub const READ_OVERHEAD: usize = 5;

/// Bytes of a multiple-write request that are not data: id, code, address,
/// quantity, byte count, CRC.
pub const WRITE_OVERHEAD: usize = 9;

/// Most coils or discrete inputs one read may ask for.
pub const MAX_READ_BITS: usize = (MAX_FRAME_LEN - READ_OVERHEAD) * 8;

/// Most registers one read may ask for.
pub const MAX_READ_REGISTERS: usize = (MAX_FRAME_LEN - READ_OVERHEAD) / 2;

/// Most coils one write may carry.
pub const MAX_WRITE_COILS: usize = (MAX_FRAME_LEN - WRITE_OVERHEAD) * 8;

/// Most registers one write may carry.
pub const MAX_WRITE_REGISTERS: usize = (MAX_FRAME_LEN - WRITE_OVERHEAD) / 2;

/// A Modbus RTU operation along with the data needed to encode it.
#[derive(Debug, Clone, PartialEq, Eq)]
pub enum Function {
    /// Read Coils `(0x01)`
    ReadCoils { starting_address: u16, quantity: u16 },
    /// Read Discrete Inputs `(0x02)`
    ReadDiscreteInputs { starting_address: u16, quantity: u16 },
    /// Read Holding Registers `(0x03)`
    ReadHoldingRegisters { starting_address: u16, quantity: u16 },
    /// Read Input Registers `(0x04)`
    ReadInputRegisters { starting_address: u16, quantity: u16 },
    /// Write Single Coil `(0x05)`
    WriteSingleCoil { address: u16, value: bool },
    /// Write Single Register `(0x06)`
    WriteSingleRegister { address: u16, value: u16 },
    /// Write Multiple Coils `(0x0F)`
    WriteMultipleCoils { starting_address: u16, value: Vec<bool> },
    /// Write Multiple Registers `(0x10)`
    WriteMultipleRegisters { starting_address: u16, value: Vec<u16> },
}

/// `n` consecutive addresses from `start` stay within `0..=0xFFFF`.
pub open spec fn range_fits(start: u16, n: int) -> bool {
    n == 0 || start as int + n - 1 <= 0xFFFF
}

/// Registers written big-endian, one after the other.
pub open spec fn be_words(values: Seq<u16>) -> Seq<u8>
    decreases values.len(),
{
    if values.len() == 0 {
        seq![]
    } else {
        be_words(values.drop_last()) + be_bytes(values.last())
    }
}

/// Each register occupies two bytes, high byte first.
pub proof fn lemma_be_words(values: Seq<u16>)
    ensures
        be_words(values).len() == 2 * values.len(),
        forall|i: int|
            0 <= i < values.len() ==> #[trigger] be_words(values)[2 * i] == hi_byte(values[i])
                && be_words(values)[2 * i + 1] == lo_byte(values[i]),
    decreases values.len(),
{
    if values.len() > 0 {
        let init = values.drop_last();
        lemma_be_words(init);
        assert forall|i: int| 0 <= i < values.len() implies #[trigger] be_words(values)[2 * i]
            == hi_byte(values[i]) && be_words(values)[2 * i + 1] == lo_byte(values[i]) by {
            if i < init.len() {
                assert(init[i] == values[i]);
                assert(be_words(init)[2 * i] == hi_byte(init[i]));
            }
        }
    }
}

/// Payload of a request with a start address and a quantity.
pub open spec fn ranged_payload(code: u8, start: u16, quantity: u16) -> Seq<u8> {
    seq![code] + be_bytes(start) + be_bytes(quantity)
}

/// The value a coil write puts on the wire.
pub open spec fn coil_word(value: bool) -> u16 {
    if value {
        0xFF00
    } else {
        0x0000
    }
}

impl Function {
    /// The kind of a function.
    pub open spec fn spec_kind(self) -> FunctionKind {
        match self {
            Function::ReadCoils { .. } => FunctionKind::ReadCoils,
            Function::ReadDiscreteInputs { .. } => FunctionKind::ReadDiscreteInputs,
            Function::ReadHoldingRegisters { .. } => FunctionKind::ReadHoldingRegisters,
            Function::ReadInputRegisters { .. } => FunctionKind::ReadInputRegisters,
            Function::WriteSingleCoil { .. } => FunctionKind::WriteSingleCoil,
            Function::WriteSingleRegister { .. } => FunctionKind::WriteSingleRegister,
            Function::WriteMultipleCoils { .. } => FunctionKind::WriteMultipleCoils,
            Function::WriteMultipleRegisters { .. } => FunctionKind::WriteMultipleRegisters,
        }
    }

    /// The payload (function code and fields) of a function, or why it
    /// cannot be encoded.
    pub open spec fn payload(self) -> Result<Seq<u8>, RequestPacketError> {
        let code = self.spec_kind().code();
        match self {
            Function::ReadCoils { starting_address, quantity }
            | Function::ReadDiscreteInputs { starting_address, quantity } => {
                if quantity > MAX_READ_BITS || !range_fits(starting_address, quantity as int) {
                    Err(RequestPacketError::ResponseWillTooBig)
                } else {
                    Ok(ranged_payload(code, starting_address, quantity))
                }
            },
            Function::ReadHoldingRegisters { starting_address, quantity }
            | Function::ReadInputRegisters { starting_address, quantity } => {
                if quantity > MAX_READ_REGISTERS || !range_fits(
                    starting_address,
                    quantity as int,
                ) {
                    Err(RequestPacketError::ResponseWillTooBig)
                } else {
                    Ok(ranged_payload(code, starting_address, quantity))
                }
            },
            Function::WriteSingleCoil { address, value } => Ok(
                seq![code] + be_bytes(address) + be_bytes(coil_word(value)),
            ),
            Function::WriteSingleRegister { address, value } => Ok(
                seq![code] + be_bytes(address) + be_bytes(value),
            ),
            Function::WriteMultipleCoils { starting_address, value } => {
                let n = value@.len();
                if n > MAX_WRITE_COILS || !range_fits(starting_address, n as int) {
                    Err(RequestPacketError::RequestTooBig)
                } else {
                    Ok(
                        ranged_payload(code, starting_address, n as u16) + seq![
                            packed_len(n) as u8,
                        ] + pack_bits(value@),
                    )
                }
            },
            Function::WriteMultipleRegisters { starting_address, value } => {
                let n = value@.len();
                if n > MAX_WRITE_REGISTERS || !range_fits(starting_address, n as int) {
                    Err(RequestPacketError::RequestTooBig)
                } else {
                    Ok(
                        ranged_payload(code, starting_address, n as u16) + seq![(2 * n) as u8]
                            + be_words(value@),
                    )
                }
            },
        }
    }

    /// Returns the kind of this function.
    pub fn kind(&self) -> (r: FunctionKind)
        ensures
            r == self.spec_kind(),
    {
        match self {
            Function::ReadCoils { .. } => FunctionKind::ReadCoils,
            Function::ReadDiscreteInputs { .. } => FunctionKind::ReadDiscreteInputs,
            Function::ReadHoldingRegisters { .. } => FunctionKind::ReadHoldingRegisters,
            Function::ReadInputRegisters { .. } => FunctionKind::ReadInputRegisters,
            Function::WriteSingleCoil { .. } => FunctionKind::WriteSingleCoil,
            Function::WriteSingleRegister { .. } => FunctionKind::WriteSingleRegister,
            Function::WriteMultipleCoils { .. } => FunctionKind::WriteMultipleCoils,
            Function::WriteMultipleRegisters { .. } => FunctionKind::WriteMultipleRegisters,
        }
    }

    /// Returns the function code of this function.
    pub fn as_code(&self) -> (r: u8)
        ensures
            r == self.spec_kind().code(),
    {
        self.kind().as_code()
    }

    /// Serializes this function into its payload: function code, then fields.
    ///
    /// Fails when the request or its expected response would exceed the frame
    /// limit, or when the addressed range runs past `0xFFFF`.
    pub fn to_bytes(&self) -> (r: Result<Vec<u8>, RequestPacketError>)
        ensures
            match r {
                Ok(v) => self.payload() == Ok::<Seq<u8>, RequestPacketError>(v@),
                Err(e) => self.payload() == Err::<Seq<u8>, RequestPacketError>(e),
            },
    {
        let code = self.as_code();
        let mut buf: Vec<u8> = Vec::new();
        buf.push(code);
        match self {
            Function::ReadCoils { starting_address, quantity }
            | Function::ReadDiscreteInputs { starting_address, quantity } => {
                if *quantity as usize > MAX_READ_BITS || !fits(*starting_address, *quantity as usize) {
                    return Err(RequestPacketError::ResponseWillTooBig);
                }
                push_word(&mut buf, *starting_address);
                push_word(&mut buf, *quantity);
                proof {
                    assert(buf@ =~= ranged_payload(code, *starting_address, *quantity));
                }
            },
            Function::ReadHoldingRegisters { starting_address, quantity }
            | Function::ReadInputRegisters { starting_address, quantity } => {
                if *quantity as usize > MAX_READ_REGISTERS || !fits(*starting_address, *quantity as usize) {
                    return Err(RequestPacketError::ResponseWillTooBig);
                }
                push_word(&mut buf, *starting_address);
                push_word(&mut buf, *quantity);
                proof {
                    assert(buf@ =~= ranged_payload(code, *starting_address, *quantity));
                }
            },
            Function::WriteSingleCoil { address, value } => {
                push_word(&mut buf, *address);
                let word: u16 = if *value { 0xFF00 } else { 0x0000 };
                push_word(&mut buf, word);
                proof {
                    assert(buf@ =~= seq![code] + be_bytes(*address) + be_bytes(coil_word(*value)));
                }
            },
            Function::WriteSingleRegister { address, value } => {
                push_word(&mut buf, *address);
                push_word(&mut buf, *value);
                proof {
                    assert(buf@ =~= seq![code] + be_bytes(*address) + be_bytes(*value));
                }
            },
            Function::WriteMultipleCoils { starting_address, value } => {
                let n = value.len();
                if n > MAX_WRITE_COILS || !fits(*starting_address, n) {
                    return Err(RequestPacketError::RequestTooBig);
                }
                let packed = vec_bool_to_vec_u8(value);
                push_word(&mut buf, *starting_address);
                push_word(&mut buf, n as u16);
                buf.push(packed.len() as u8);
                let ghost head = buf@;
                append_bytes(&mut buf, &packed);
                proof {
                    assert(head =~= ranged_payload(code, *starting_address, n as u16) + seq![
                        packed_len(n as nat) as u8,
                    ]);
                }
            },
            Function::WriteMultipleRegisters { starting_address, value } => {
                let n = value.len();
                if n > MAX_WRITE_REGISTERS || !fits(*starting_address, n) {
                    return Err(RequestPacketError::RequestTooBig);
                }
                push_word(&mut buf, *starting_address);
                push_word(&mut buf, n as u16);
                buf.push((2 * n) as u8);
                let ghost head = buf@;
                let mut i: usize = 0;
                while i < n
                    invariant
                        n == value@.len(),
                        i <= n,
                        buf@ == head + be_words(value@.subrange(0, i as int)),
                    decreases n - i,
                {
                    push_word(&mut buf, value[i]);
                    proof {
                        let s = value@.subrange(0, i + 1);
                        assert(s.drop_last() =~= value@.subrange(0, i as int));
                    }
                    i = i + 1;
                }
                proof {
                    assert(value@.subrange(0, n as int) =~= value@);
                    assert(head =~= ranged_payload(code, *starting_address, n as u16) + seq![
                        (2 * n) as u8,
                    ]);
                }
            },
        }
        Ok(buf)
    }
}

/// Whether `n` addresses from `start` stay within `0..=0xFFFF`.
fn fits(start: u16, n: usize) -> (r: bool)
    ensures
        r == range_fits(start, n as int),
{
    n == 0 || n - 1 <= 0xFFFF - (start as usize)
}

/// Appends the big-endian bytes of `v`.
pub(crate) fn push_word(buf: &mut Vec<u8>, v: u16)
    ensures
        final(buf)@ == old(buf)@ + be_bytes(v),
{
    let (hi, lo) = split_word(v);
    buf.push(hi);
    buf.push(lo);
    proof {
        assert(final(buf)@ =~= old(buf)@ + be_bytes(v));
    }
}

/// Appends all of `src`.
pub(crate) fn append_bytes(buf: &mut Vec<u8>, src: &Vec<u8>)
    ensures
        final(buf)@ == old(buf)@ + src@,
{
    let ghost start = buf@;
    let mut i: usize = 0;
    while i < src.len()
        invariant
            i <= src@.len(),
            buf@ == start + src@.subrange(0, i as int),
        decreases src.len() - i,
    {
        buf.push(src[i]);
        proof {
            assert(start + src@.subrange(0, i + 1) =~= start + src@.subrange(0, i as int) + seq![src@[i as int]]);
        }
        i = i + 1;
    }
    proof {
        assert(src@.subrange(0, src@.len() as int) =~= src@);
    }
}

} // verus!
