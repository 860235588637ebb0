//! Responses and the decoder that checks a raw frame against its request.

use vstd::prelude::*;
use crate::bytes::{be_bytes, join_word, lemma_bytes_word, lemma_word_bytes, word};
use crate::crc::{
    carried_crc, crc16, crc_ok, frame_body, lemma_crc_detects_trailing_bit_flip, lemma_with_crc_ok,
    validate, with_crc,
};
use crate::error::ResponsePacketError;
use crate::exception::Exception;
use crate::function::{
    be_words, coil_word, lemma_be_words, ranged_payload, Function, MAX_READ_BITS, MAX_READ_REGISTERS,
    MAX_WRITE_COILS, MAX_WRITE_REGISTERS,
};
use crate::function_kind::{lemma_kind_code_round_trip, FunctionKind};
use crate::request::{request_frame, Request};
use crate::utils::{lemma_unpack_pack, pack_bits, packed_len, unpack_bits};

verus! {

/// Shortest frame a device can send: id, code, one byte, CRC.
pub const MIN_RESPONSE_LEN: usize = 5;

/// The outcome of a request: read data, a write acknowledgement, or an
/// exception reported by the device.
#[derive(Debug, Clone, PartialEq, Eq)]
pub enum Response {
    /// Coil or discrete input states.
    Status(Vec<bool>),
    /// Register values.
    Value(Vec<u16>),
    /// A write completed.
    Success,
    /// The device answered with an exception.
    Exception(Exception),
}

/// The mathematical content of a [`Response`].
pub enum ResponseView {
    Status(Seq<bool>),
    Value(Seq<u16>),
    Success,
    Exception(Exception),
}

impl View for Response {
    type V = ResponseView;

    open spec fn view(&self) -> ResponseView {
        match self {
            Response::Status(v) => ResponseView::Status(v@),
            Response::Value(v) => ResponseView::Value(v@),
            Response::Success => ResponseView::Success,
            Response::Exception(e) => ResponseView::Exception(*e),
        }
    }
}

/// A decoding result with the response replaced by its view.
pub open spec fn result_view(r: Result<Response, ResponsePacketError>) -> Result<
    ResponseView,
    ResponsePacketError,
> {
    match r {
        Ok(resp) => Ok(resp@),
        Err(e) => Err(e),
    }
}

/// Whether a response counts as success: data, an acknowledgement, or the
/// `Acknowledge` exception.
pub open spec fn view_is_success(v: ResponseView) -> bool {
    match v {
        ResponseView::Exception(e) => e == Exception::Acknowledge,
        _ => true,
    }
}

/// Register values read big-endian from `data`, `n` of them.
pub open spec fn words_from(data: Seq<u8>, n: nat) -> Seq<u16> {
    Seq::new(n, |i: int| word(data[2 * i], data[2 * i + 1]))
}

/// What the payload `p` (the frame without id, code and CRC) means for `f`.
pub open spec fn decode_payload(f: Function, p: Seq<u8>) -> Result<ResponseView, ResponsePacketError> {
    match f {
        Function::ReadCoils { quantity, .. } | Function::ReadDiscreteInputs { quantity, .. } => {
            if (p[0] as nat) < packed_len(quantity as nat) || p.len() < p[0] + 1 {
                Err(ResponsePacketError::InvalidFormat)
            } else {
                Ok(ResponseView::Status(unpack_bits(p.subrange(1, p.len() as int), quantity as nat)))
            }
        },
        Function::ReadHoldingRegisters { quantity, .. }
        | Function::ReadInputRegisters { quantity, .. } => {
            if p[0] as int != 2 * quantity || p.len() < p[0] + 1 {
                Err(ResponsePacketError::InvalidFormat)
            } else {
                Ok(ResponseView::Value(words_from(p.subrange(1, p.len() as int), quantity as nat)))
            }
        },
        Function::WriteSingleCoil { address, value } => {
            if p.len() != 4 || word(p[0], p[1]) != address || word(p[2], p[3]) != coil_word(value) {
                Err(ResponsePacketError::InvalidFormat)
            } else {
                Ok(ResponseView::Success)
            }
        },
        Function::WriteSingleRegister { address, value } => {
            if p.len() != 4 || word(p[0], p[1]) != address || word(p[2], p[3]) != value {
                Err(ResponsePacketError::InvalidFormat)
            } else {
                Ok(ResponseView::Success)
            }
        },
        Function::WriteMultipleCoils { starting_address, value } => {
            if p.len() != 4 || word(p[0], p[1]) != starting_address || word(p[2], p[3]) as int
                != value@.len() {
                Err(ResponsePacketError::InvalidFormat)
            } else {
                Ok(ResponseView::Success)
            }
        },
        Function::WriteMultipleRegisters { starting_address, value } => {
            if p.len() != 4 || word(p[0], p[1]) != starting_address || word(p[2], p[3]) as int
                != value@.len() {
                Err(ResponsePacketError::InvalidFormat)
            } else {
                Ok(ResponseView::Success)
            }
        },
    }
}

/// What frame `b` means as the answer to function `f` sent to device `id`.
///
/// Checked in order: length, CRC, exception flag (before the id), device id,
/// function code, then the payload.
pub open spec fn decode(id: u8, f: Function, b: Seq<u8>) -> Result<ResponseView, ResponsePacketError> {
    if b.len() < MIN_RESPONSE_LEN {
        Err(ResponsePacketError::TooShort(b.len() as usize))
    } else if !crc_ok(b) {
        Err(
            ResponsePacketError::CRCMismatch {
                expected: crc16(frame_body(b)),
                received: carried_crc(b),
            },
        )
    } else if b[1] & 0x80 != 0 {
        Ok(ResponseView::Exception(Exception::of_code(b[2])))
    } else if b[0] != id {
        Err(ResponsePacketError::UnexpectedResponder(b[0]))
    } else if b[1] != f.spec_kind().code() {
        Err(ResponsePacketError::InvalidFormat)
    } else {
        decode_payload(f, b.subrange(2, b.len() - 2))
    }
}

impl Response {
    /// Decodes a response frame against the request it answers.
    ///
    /// Fails with `TooShort` under five bytes, `CRCMismatch` on a bad CRC,
    /// `UnexpectedResponder` when another device answered, and
    /// `InvalidFormat` when the code or payload does not fit the request. An
    /// exception frame is accepted before the device id is looked at.
    pub fn from_bytes(request: &Request, bytes: &[u8]) -> (r: Result<Response, ResponsePacketError>)
        ensures
            result_view(r) == decode(request.id(), request.func(), bytes@),
    {
        let len = bytes.len();
        if len < MIN_RESPONSE_LEN {
            return Err(ResponsePacketError::TooShort(len));
        }
        validate(bytes)?;
        let function_code = bytes[1];
        if function_code & 0x80 != 0 {
            return Ok(Response::Exception(Exception::from_code(bytes[2])));
        }
        if bytes[0] != request.modbus_id() {
            return Err(ResponsePacketError::UnexpectedResponder(bytes[0]));
        }
        let function = request.function();
        let function_kind = match FunctionKind::from_code(function_code) {
            Some(kind) => kind,
            None => return Err(ResponsePacketError::InvalidFormat),
        };
        if function_kind != function.kind() {
            return Err(ResponsePacketError::InvalidFormat);
        }
        let packet = vstd::slice::slice_subrange(bytes, 2, len - 2);
        Response::from_payload(function, packet)
    }

    /// Decodes the payload of a frame (without id, code and CRC) for `f`.
    fn from_payload(f: &Function, p: &[u8]) -> (r: Result<Response, ResponsePacketError>)
        requires
            p@.len() >= 1,
        ensures
            result_view(r) == decode_payload(*f, p@),
    {
        match f {
            Function::ReadCoils { quantity, .. } | Function::ReadDiscreteInputs { quantity, .. } => {
                let byte_count = p[0] as usize;
                let q = *quantity as usize;
                let needed: usize = if q % 8 == 0 { q / 8 } else { q / 8 + 1 };
                if byte_count < needed || p.len() < byte_count + 1 {
                    return Err(ResponsePacketError::InvalidFormat);
                }
                let ghost data = p@.subrange(1, p@.len() as int);
                let mut list: Vec<bool> = Vec::new();
                let mut i: usize = 0;
                while i < q
                    invariant
                        q == *quantity as nat,
                        needed == packed_len(q as nat),
                        needed <= byte_count,
                        byte_count + 1 <= p@.len(),
                        data == p@.subrange(1, p@.len() as int),
                        i <= q,
                        list@ =~= unpack_bits(data, q as nat).subrange(0, i as int),
                    decreases q - i,
                {
                    assert(i / 8 < needed);
                    let byte = p[1 + i / 8];
                    let bit = (byte >> ((i % 8) as u8)) & 1 == 1;
                    list.push(bit);
                    i = i + 1;
                }
                proof {
                    assert(list@ =~= unpack_bits(data, q as nat));
                }
                Ok(Response::Status(list))
            },
            Function::ReadHoldingRegisters { quantity, .. }
            | Function::ReadInputRegisters { quantity, .. } => {
                let byte_count = p[0] as usize;
                let q = *quantity as usize;
                if byte_count != 2 * q || p.len() < byte_count + 1 {
                    return Err(ResponsePacketError::InvalidFormat);
                }
                let ghost data = p@.subrange(1, p@.len() as int);
                let mut list: Vec<u16> = Vec::new();
                let mut i: usize = 0;
                while i < q
                    invariant
                        q == *quantity as nat,
                        byte_count == 2 * q,
                        byte_count + 1 <= p@.len(),
                        data == p@.subrange(1, p@.len() as int),
                        i <= q,
                        list@ =~= words_from(data, q as nat).subrange(0, i as int),
                    decreases q - i,
                {
                    let value = join_word(p[1 + 2 * i], p[2 + 2 * i]);
                    list.push(value);
                    i = i + 1;
                }
                proof {
                    assert(list@ =~= words_from(data, q as nat));
                }
                Ok(Response::Value(list))
            },
            Function::WriteSingleCoil { address, value } => {
                if p.len() != 4 {
                    return Err(ResponsePacketError::InvalidFormat);
                }
                let expected: u16 = if *value { 0xFF00 } else { 0x0000 };
                Response::check_echo(p, *address, expected)
            },
            Function::WriteSingleRegister { address, value } => {
                if p.len() != 4 {
                    return Err(ResponsePacketError::InvalidFormat);
                }
                Response::check_echo(p, *address, *value)
            },
            Function::WriteMultipleCoils { starting_address, value } => {
                if p.len() != 4 || value.len() > 0xFFFF {
                    return Err(ResponsePacketError::InvalidFormat);
                }
                Response::check_echo(p, *starting_address, value.len() as u16)
            },
            Function::WriteMultipleRegisters { starting_address, value } => {
                if p.len() != 4 || value.len() > 0xFFFF {
                    return Err(ResponsePacketError::InvalidFormat);
                }
                Response::check_echo(p, *starting_address, value.len() as u16)
            },
        }
    }

    /// Accepts a four-byte echo of an address and a value.
    fn check_echo(p: &[u8], address: u16, value: u16) -> (r: Result<Response, ResponsePacketError>)
        requires
            p@.len() == 4,
        ensures
            result_view(r) == (if word(p@[0], p@[1]) != address || word(p@[2], p@[3]) != value {
                Err(ResponsePacketError::InvalidFormat)
            } else {
                Ok(ResponseView::Success)
            }),
    {
        let res_address = join_word(p[0], p[1]);
        let res_value = join_word(p[2], p[3]);
        if res_address != address || res_value != value {
            return Err(ResponsePacketError::InvalidFormat);
        }
        Ok(Response::Success)
    }

    /// Returns `true` for data and write acknowledgements, and for the
    /// `Acknowledge` exception; every other exception is a failure.
    pub fn is_success(&self) -> (r: bool)
        ensures
            r == view_is_success(self@),
    {
        match self {
            Response::Status(_) | Response::Value(_) | Response::Success => true,
            Response::Exception(exception) => exception.is_ack(),
        }
    }
}

/// A well-formed reply to a coil or discrete-input read carrying `bits`.
pub open spec fn bit_reply(id: u8, code: u8, bits: Seq<bool>) -> Seq<u8> {
    with_crc(seq![id, code, packed_len(bits.len()) as u8] + pack_bits(bits))
}

/// A well-formed reply to a register read carrying `values`.
pub open spec fn register_reply(id: u8, code: u8, values: Seq<u16>) -> Seq<u8> {
    with_crc(seq![id, code, (2 * values.len()) as u8] + be_words(values))
}

/// The reply a device sends to a multiple write: the first six bytes of the
/// request (id, code, address, quantity) with a fresh CRC.
pub open spec fn write_multiple_reply(request: Seq<u8>) -> Seq<u8> {
    with_crc(request.subrange(0, 6))
}

/// An exception reply from device `id` to function code `code`.
pub open spec fn exception_reply(id: u8, code: u8, exception_code: u8) -> Seq<u8> {
    with_crc(seq![id, code | 0x80, exception_code])
}

/// The number of items a read function asks for.
pub open spec fn read_quantity(f: Function) -> int {
    match f {
        Function::ReadCoils { quantity, .. }
        | Function::ReadDiscreteInputs { quantity, .. }
        | Function::ReadHoldingRegisters { quantity, .. }
        | Function::ReadInputRegisters { quantity, .. } => quantity as int,
        _ => 0,
    }
}

proof fn lemma_reply_header(id: u8, f: Function, body: Seq<u8>)
    requires
        body.len() >= 3,
        body[0] == id,
        body[1] == f.spec_kind().code(),
    ensures
        decode(id, f, with_crc(body)) == decode_payload(f, body.subrange(2, body.len() as int)),
{
    let b = with_crc(body);
    lemma_with_crc_ok(body);
    lemma_kind_code_round_trip(f.spec_kind());
    assert(b.subrange(2, b.len() - 2) =~= body.subrange(2, body.len() as int));
}

/// Any encodable coil or discrete-input read, answered by a well-formed reply
/// carrying as many bits as it asked for, decodes to exactly those bits.
pub proof fn lemma_bit_read_round_trip(id: u8, f: Function, bits: Seq<bool>)
    requires
        f is ReadCoils || f is ReadDiscreteInputs,
        request_frame(id, f) is Ok,
        bits.len() == read_quantity(f),
    ensures
        decode(id, f, bit_reply(id, f.spec_kind().code(), bits)) == Ok::<
            ResponseView,
            ResponsePacketError,
        >(ResponseView::Status(bits)),
{
    let code = f.spec_kind().code();
    let n = bits.len();
    let body = seq![id, code, packed_len(n) as u8] + pack_bits(bits);
    assert(n <= MAX_READ_BITS);
    lemma_reply_header(id, f, body);
    let p = body.subrange(2, body.len() as int);
    assert(p.subrange(1, p.len() as int) =~= pack_bits(bits));
    lemma_unpack_pack(bits);
}

/// Any encodable register read, answered by a well-formed reply carrying as
/// many values as it asked for, decodes to exactly those values.
pub proof fn lemma_register_read_round_trip(id: u8, f: Function, values: Seq<u16>)
    requires
        f is ReadHoldingRegisters || f is ReadInputRegisters,
        request_frame(id, f) is Ok,
        values.len() == read_quantity(f),
    ensures
        decode(id, f, register_reply(id, f.spec_kind().code(), values)) == Ok::<
            ResponseView,
            ResponsePacketError,
        >(ResponseView::Value(values)),
{
    let code = f.spec_kind().code();
    let n = values.len();
    let body = seq![id, code, (2 * n) as u8] + be_words(values);
    assert(n <= MAX_READ_REGISTERS);
    lemma_reply_header(id, f, body);
    let p = body.subrange(2, body.len() as int);
    let data = p.subrange(1, p.len() as int);
    assert(data =~= be_words(values));
    lemma_be_words(values);
    assert(words_from(data, n) =~= values) by {
        assert forall|i: int| 0 <= i < n implies #[trigger] words_from(data, n)[i] == values[i] by {
            assert(be_words(values)[2 * i] == crate::bytes::hi_byte(values[i]));
            lemma_word_bytes(values[i]);
        }
    }
}

/// Any encodable single write, answered by the echo of its own frame,
/// decodes to `Success`.
pub proof fn lemma_write_single_round_trip(id: u8, f: Function, frame: Seq<u8>)
    requires
        f is WriteSingleCoil || f is WriteSingleRegister,
        request_frame(id, f) == Ok::<Seq<u8>, crate::error::RequestPacketError>(frame),
    ensures
        decode(id, f, frame) == Ok::<ResponseView, ResponsePacketError>(ResponseView::Success),
{
    let payload = f.payload()->Ok_0;
    let body = seq![id] + payload;
    assert(frame == with_crc(body));
    lemma_reply_header(id, f, body);
    let p = body.subrange(2, body.len() as int);
    match f {
        Function::WriteSingleCoil { address, value } => {
            assert(p =~= be_bytes(address) + be_bytes(coil_word(value)));
            lemma_word_bytes(address);
            lemma_word_bytes(coil_word(value));
        },
        Function::WriteSingleRegister { address, value } => {
            assert(p =~= be_bytes(address) + be_bytes(value));
            lemma_word_bytes(address);
            lemma_word_bytes(value);
        },
        _ => {},
    }
}

/// Any encodable multiple write, answered by the echo of its id, code,
/// address and quantity, decodes to `Success`.
pub proof fn lemma_write_multiple_round_trip(id: u8, f: Function, frame: Seq<u8>)
    requires
        f is WriteMultipleCoils || f is WriteMultipleRegisters,
        request_frame(id, f) == Ok::<Seq<u8>, crate::error::RequestPacketError>(frame),
    ensures
        decode(id, f, write_multiple_reply(frame)) == Ok::<ResponseView, ResponsePacketError>(
            ResponseView::Success,
        ),
{
    let payload = f.payload()->Ok_0;
    let body = seq![id] + payload;
    assert(frame == with_crc(body));
    let head = frame.subrange(0, 6);
    match f {
        Function::WriteMultipleCoils { starting_address, value } => {
            let n = value@.len();
            assert(n <= MAX_WRITE_COILS);
            assert(head =~= seq![id] + ranged_payload(f.spec_kind().code(), starting_address, n as u16));
            lemma_reply_header(id, f, head);
            assert(head.subrange(2, 6) =~= be_bytes(starting_address) + be_bytes(n as u16));
            lemma_word_bytes(starting_address);
            lemma_word_bytes(n as u16);
        },
        Function::WriteMultipleRegisters { starting_address, value } => {
            let n = value@.len();
            assert(n <= MAX_WRITE_REGISTERS);
            assert(head =~= seq![id] + ranged_payload(f.spec_kind().code(), starting_address, n as u16));
            lemma_reply_header(id, f, head);
            assert(head.subrange(2, 6) =~= be_bytes(starting_address) + be_bytes(n as u16));
            lemma_word_bytes(starting_address);
            lemma_word_bytes(n as u16);
        },
        _ => {},
    }
}

/// An exception reply decodes to its exception whatever request it answers
/// and whichever device sent it.
pub proof fn lemma_exception_reply(id: u8, f: Function, sender: u8, code: u8, exception_code: u8)
    ensures
        decode(id, f, exception_reply(sender, code, exception_code)) == Ok::<
            ResponseView,
            ResponsePacketError,
        >(ResponseView::Exception(Exception::of_code(exception_code))),
{
    let body = seq![sender, code | 0x80, exception_code];
    lemma_with_crc_ok(body);
    assert((code | 0x80) & 0x80 != 0) by (bit_vector);
    assert(with_crc(body)[1] == body[1]);
    assert(with_crc(body)[2] == body[2]);
}

/// A frame under five bytes is rejected as `TooShort` with its length.
pub proof fn lemma_decode_rejects_short(id: u8, f: Function, b: Seq<u8>)
    requires
        b.len() < MIN_RESPONSE_LEN,
    ensures
        decode(id, f, b) == Err::<ResponseView, ResponsePacketError>(
            ResponsePacketError::TooShort(b.len() as usize),
        ),
{
}

/// A frame that passed the CRC check fails it, as `CRCMismatch`, once a
/// single bit of either CRC byte is flipped.
pub proof fn lemma_decode_rejects_flipped_crc(id: u8, f: Function, b: Seq<u8>, i: int, bit: u8)
    requires
        b.len() >= MIN_RESPONSE_LEN,
        crc_ok(b),
        i == b.len() - 1 || i == b.len() - 2,
        bit < 8,
    ensures
        decode(id, f, b.update(i, b[i] ^ (1u8 << bit))) == Err::<ResponseView, ResponsePacketError>(
            ResponsePacketError::CRCMismatch {
                expected: crc16(frame_body(b)),
                received: carried_crc(b.update(i, b[i] ^ (1u8 << bit))),
            },
        ),
{
    lemma_crc_detects_trailing_bit_flip(b, i, bit);
}

/// A sound frame without the exception flag from another device than the
/// one addressed is rejected as `UnexpectedResponder`.
pub proof fn lemma_decode_rejects_other_device(id: u8, f: Function, b: Seq<u8>)
    requires
        b.len() >= MIN_RESPONSE_LEN,
        crc_ok(b),
        b[1] & 0x80 == 0,
        b[0] != id,
    ensures
        decode(id, f, b) == Err::<ResponseView, ResponsePacketError>(
            ResponsePacketError::UnexpectedResponder(b[0]),
        ),
{
}

/// A sound frame from the addressed device with another function code than
/// the request's is rejected as `InvalidFormat`.
pub proof fn lemma_decode_rejects_other_function(id: u8, f: Function, b: Seq<u8>)
    requires
        b.len() >= MIN_RESPONSE_LEN,
        crc_ok(b),
        b[1] & 0x80 == 0,
        b[0] == id,
        b[1] != f.spec_kind().code(),
    ensures
        decode(id, f, b) == Err::<ResponseView, ResponsePacketError>(
            ResponsePacketError::InvalidFormat,
        ),
{
}

} // verus!
