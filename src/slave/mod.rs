//! Device-side register banks and request analysis.

pub mod data_model;
pub mod packet_error;
pub mod request_form;
pub mod structure;

pub use data_model::DataModel;
pub use packet_error::PacketError;
pub use request_form::{RequestForm, RequestFormView};
pub use structure::DataStructure;

use vstd::prelude::*;
use crate::bytes::{be_bytes, join_word, lemma_word_bytes, word};
use crate::crc::{carried_crc, crc16, crc_ok, frame_body, lemma_with_crc_ok, validate, with_crc};
use crate::error::ResponsePacketError;
use crate::exception::Exception;
use crate::function::{be_words, lemma_be_words, Function, MAX_WRITE_REGISTERS};
use crate::request::request_frame;
use crate::response::{exception_reply, words_from};
use crate::utils::crc16_modbus;

verus! {

/// Shortest frame a device analyses: id, code, CRC.
pub const MIN_REQUEST_LEN: usize = 4;

/// Length of a frame with an address and one 16-bit field.
pub const FIXED_REQUEST_LEN: usize = 8;

/// Length of a multiple-write frame without its data.
pub const WRITE_MULTIPLE_HEADER_LEN: usize = 9;

/// The device id that listens to every frame and never answers.
pub const LISTEN_ALL_ID: u8 = 0;

/// The answer "reply with `exception`" to function code `fc`.
pub open spec fn refuse(fc: u8, exception: Exception) -> Result<RequestFormView, PacketError> {
    Err(PacketError::Exception { function_code: fc, exception })
}

/// Every address of the inclusive range `start..=start + count` is in `space`,
/// and the range does not run past `0xFFFF`.
pub open spec fn range_resolves(space: Seq<u16>, start: u16, count: u16) -> bool {
    &&& start as int + count as int <= 0xFFFF
    &&& forall|a: u16| start <= a <= start + count ==> #[trigger] space.contains(a)
}

/// Analysis of a read of holding (`0x03`) or input (`0x04`) registers.
pub open spec fn analyze_read(space: Seq<u16>, f: Seq<u8>) -> Result<RequestFormView, PacketError> {
    let fc = f[1];
    if space.len() == 0 {
        refuse(fc, Exception::IllegalFunction)
    } else if f.len() < FIXED_REQUEST_LEN {
        refuse(fc, Exception::IllegalDataValue)
    } else {
        let start = word(f[2], f[3]);
        let count = word(f[4], f[5]);
        if !range_resolves(space, start, count) {
            refuse(fc, Exception::IllegalDataAddress)
        } else if fc == 0x03 {
            Ok(RequestFormView::ReadHoldingRegisters { start_register: start, registers_count: count })
        } else {
            Ok(RequestFormView::ReadInputRegisters { start_register: start, registers_count: count })
        }
    }
}

/// Analysis of a write of one holding register (`0x06`).
pub open spec fn analyze_write_single(space: Seq<u16>, f: Seq<u8>) -> Result<RequestFormView, PacketError> {
    let fc = f[1];
    if space.len() == 0 {
        refuse(fc, Exception::IllegalFunction)
    } else if f.len() < FIXED_REQUEST_LEN {
        refuse(fc, Exception::IllegalDataValue)
    } else if !space.contains(word(f[2], f[3])) {
        refuse(fc, Exception::IllegalDataAddress)
    } else {
        Ok(
            RequestFormView::WriteSingleRegister {
                register_address: word(f[2], f[3]),
                data_to_write: word(f[4], f[5]),
            },
        )
    }
}

/// Analysis of a write of several holding registers (`0x10`).
pub open spec fn analyze_write_multiple(space: Seq<u16>, f: Seq<u8>) -> Result<RequestFormView, PacketError> {
    let fc = f[1];
    if space.len() == 0 {
        refuse(fc, Exception::IllegalFunction)
    } else if f.len() < WRITE_MULTIPLE_HEADER_LEN {
        refuse(fc, Exception::IllegalDataValue)
    } else {
        let start = word(f[2], f[3]);
        let count = word(f[4], f[5]);
        let byte_count = f[6];
        if count > MAX_WRITE_REGISTERS || byte_count as int != 2 * count {
            refuse(fc, Exception::IllegalDataValue)
        } else if f.len() < WRITE_MULTIPLE_HEADER_LEN + byte_count {
            refuse(fc, Exception::IllegalDataValue)
        } else if !range_resolves(space, start, count) {
            refuse(fc, Exception::IllegalDataAddress)
        } else {
            Ok(
                RequestFormView::WriteMultipleRegisters {
                    start_register: start,
                    datas_to_write: words_from(f.subrange(7, f.len() as int), count as nat),
                },
            )
        }
    }
}

/// What a device with id `my_id` and the given holding and input register
/// addresses makes of the incoming frame `f`.
///
/// Checked in order: length, CRC, device id, then the function.
pub open spec fn analyze(my_id: u8, holding: Seq<u16>, input: Seq<u16>, f: Seq<u8>) -> Result<
    RequestFormView,
    PacketError,
> {
    if f.len() < MIN_REQUEST_LEN {
        Err(PacketError::TooShort(f.len() as usize))
    } else if !crc_ok(f) {
        Err(PacketError::CrcMismatch { expected: crc16(frame_body(f)), received: carried_crc(f) })
    } else if my_id != LISTEN_ALL_ID && f[0] != my_id {
        Err(PacketError::NotMyId(f[0]))
    } else if f[1] == 0x03 {
        analyze_read(holding, f)
    } else if f[1] == 0x04 {
        analyze_read(input, f)
    } else if f[1] == 0x06 {
        analyze_write_single(holding, f)
    } else if f[1] == 0x10 {
        analyze_write_multiple(holding, f)
    } else {
        refuse(f[1], Exception::IllegalFunction)
    }
}

/// An analysis result with the operation replaced by its view.
pub open spec fn form_result_view(r: Result<RequestForm, PacketError>) -> Result<
    RequestFormView,
    PacketError,
> {
    match r {
        Ok(form) => Ok(form@),
        Err(e) => Err(e),
    }
}

/// A Modbus device with holding and input registers.
#[derive(Debug)]
pub struct ModbusSlave<const L1: usize, const L2: usize> {
    modbus_id: u8,
    holding_registers: DataModel<L1, u16>,
    input_registers: DataModel<L2, u16>,
}

impl<const L1: usize, const L2: usize> ModbusSlave<L1, L2> {
    /// The device id; `0` listens to every frame and never answers.
    pub closed spec fn id(&self) -> u8 {
        self.modbus_id
    }

    /// The holding registers.
    pub closed spec fn holding(&self) -> DataModel<L1, u16> {
        self.holding_registers
    }

    /// The input registers.
    pub closed spec fn input(&self) -> DataModel<L2, u16> {
        self.input_registers
    }

    /// Creates a device with an id and its two register banks.
    pub fn new(
        modbus_id: u8,
        holding_registers: DataModel<L1, u16>,
        input_registers: DataModel<L2, u16>,
    ) -> (r: ModbusSlave<L1, L2>)
        ensures
            r.id() == modbus_id,
            r.holding() == holding_registers,
            r.input() == input_registers,
    {
        ModbusSlave { modbus_id, holding_registers, input_registers }
    }

    /// Returns the device id.
    pub fn get_modbus_id(&self) -> (r: u8)
        ensures
            r == self.id(),
    {
        self.modbus_id
    }

    /// Changes the device id.
    pub fn set_modbus_id(&mut self, modbus_id: u8)
        ensures
            final(self).id() == modbus_id,
            final(self).holding() == old(self).holding(),
            final(self).input() == old(self).input(),
    {
        self.modbus_id = modbus_id;
    }

    /// Returns the holding registers.
    pub fn get_holding_registers(&self) -> (r: &DataModel<L1, u16>)
        ensures
            *r == self.holding(),
    {
        &self.holding_registers
    }

    /// Returns the holding registers for update.
    pub fn get_holding_registers_mut(&mut self) -> (r: &mut DataModel<L1, u16>)
        ensures
            *r == old(self).holding(),
            final(self).holding() == *final(r),
            final(self).id() == old(self).id(),
            final(self).input() == old(self).input(),
    {
        &mut self.holding_registers
    }

    /// Returns the input registers.
    pub fn get_input_registers(&self) -> (r: &DataModel<L2, u16>)
        ensures
            *r == self.input(),
    {
        &self.input_registers
    }

    /// Returns the input registers for update.
    pub fn get_input_registers_mut(&mut self) -> (r: &mut DataModel<L2, u16>)
        ensures
            *r == old(self).input(),
            final(self).input() == *final(r),
            final(self).id() == old(self).id(),
            final(self).holding() == old(self).holding(),
    {
        &mut self.input_registers
    }

    /// Builds the five-byte exception frame
    /// `[id, fc | 0x80, exception code, crc_lo, crc_hi]`.
    pub fn build_exception_response_packet(&self, fc: u8, exception: Exception) -> (r: [u8; 5])
        ensures
            r@ == exception_reply(self.id(), fc, exception.code()),
    {
        let head: Vec<u8> = vec![self.modbus_id, fc | 0x80, exception.as_code()];
        let crc = crc16_modbus(head.as_slice());
        let r: [u8; 5] = [head[0], head[1], head[2], crc[0], crc[1]];
        proof {
            assert(head@ =~= seq![self.modbus_id, fc | 0x80, exception.code()]);
            assert(r@ =~= exception_reply(self.id(), fc, exception.code()));
        }
        r
    }

    /// Analyses an incoming frame: a valid operation, or why it is not one.
    ///
    /// Short frames, bad CRCs and frames for other devices are reported as
    /// such; everything else that cannot be carried out comes back as the
    /// exception to answer with.
    pub fn analyze_packet(&self, packet: &[u8]) -> (r: Result<RequestForm, PacketError>)
        ensures
            form_result_view(r) == analyze(
                self.id(),
                self.holding().addresses(),
                self.input().addresses(),
                packet@,
            ),
    {
        let len = packet.len();
        if len < MIN_REQUEST_LEN {
            return Err(PacketError::TooShort(len));
        }
        match validate(packet) {
            Ok(()) => {},
            Err(ResponsePacketError::CRCMismatch { expected, received }) => {
                return Err(PacketError::CrcMismatch { expected, received });
            },
            Err(_) => {
                return Err(PacketError::TooShort(len));
            },
        }
        if self.modbus_id != LISTEN_ALL_ID && packet[0] != self.modbus_id {
            return Err(PacketError::NotMyId(packet[0]));
        }
        let fc = packet[1];
        if fc == 0x03 {
            read_request(&self.holding_registers, packet)
        } else if fc == 0x04 {
            read_request(&self.input_registers, packet)
        } else if fc == 0x06 {
            write_single_request(&self.holding_registers, packet)
        } else if fc == 0x10 {
            write_multiple_request(&self.holding_registers, packet)
        } else {
            Err(PacketError::Exception { function_code: fc, exception: Exception::IllegalFunction })
        }
    }
}

/// Whether every address of `start..=start + count` is in the bank.
fn resolves<const L: usize>(bank: &DataModel<L, u16>, start: u16, count: u16) -> (r: bool)
    ensures
        r == range_resolves(bank.addresses(), start, count),
{
    if count > 0xFFFF - start {
        return false;
    }
    let end: u16 = start + count;
    let mut a: u16 = start;
    loop
        invariant
            start <= a <= end,
            end == start + count,
            forall|x: u16| start <= x < a ==> #[trigger] bank.addresses().contains(x),
        decreases end - a,
    {
        match bank.find_index(a) {
            None => {
                return false;
            },
            Some(i) => {
                proof {
                    assert(bank.addresses()[i as int] == a);
                }
            },
        }
        if a == end {
            return true;
        }
        a = a + 1;
    }
}

fn read_request<const L: usize>(bank: &DataModel<L, u16>, f: &[u8]) -> (r: Result<RequestForm, PacketError>)
    requires
        f@.len() >= MIN_REQUEST_LEN,
        f@[1] == 0x03 || f@[1] == 0x04,
    ensures
        form_result_view(r) == analyze_read(bank.addresses(), f@),
{
    let fc = f[1];
    if bank.is_empty() {
        return Err(PacketError::Exception { function_code: fc, exception: Exception::IllegalFunction });
    }
    if f.len() < FIXED_REQUEST_LEN {
        return Err(PacketError::Exception { function_code: fc, exception: Exception::IllegalDataValue });
    }
    let start = join_word(f[2], f[3]);
    let count = join_word(f[4], f[5]);
    if !resolves(bank, start, count) {
        return Err(PacketError::Exception { function_code: fc, exception: Exception::IllegalDataAddress });
    }
    if fc == 0x03 {
        Ok(RequestForm::ReadHoldingRegisters { start_register: start, registers_count: count })
    } else {
        Ok(RequestForm::ReadInputRegisters { start_register: start, registers_count: count })
    }
}

fn write_single_request<const L: usize>(bank: &DataModel<L, u16>, f: &[u8]) -> (r: Result<RequestForm, PacketError>)
    requires
        f@.len() >= MIN_REQUEST_LEN,
    ensures
        form_result_view(r) == analyze_write_single(bank.addresses(), f@),
{
    let fc = f[1];
    if bank.is_empty() {
        return Err(PacketError::Exception { function_code: fc, exception: Exception::IllegalFunction });
    }
    if f.len() < FIXED_REQUEST_LEN {
        return Err(PacketError::Exception { function_code: fc, exception: Exception::IllegalDataValue });
    }
    let address = join_word(f[2], f[3]);
    match bank.find_index(address) {
        None => Err(PacketError::Exception { function_code: fc, exception: Exception::IllegalDataAddress }),
        Some(i) => {
            proof {
                assert(bank.addresses()[i as int] == address);
            }
            Ok(RequestForm::WriteSingleRegister { register_address: address, data_to_write: join_word(f[4], f[5]) })
        },
    }
}

fn write_multiple_request<const L: usize>(bank: &DataModel<L, u16>, f: &[u8]) -> (r: Result<RequestForm, PacketError>)
    requires
        f@.len() >= MIN_REQUEST_LEN,
    ensures
        form_result_view(r) == analyze_write_multiple(bank.addresses(), f@),
{
    let fc = f[1];
    if bank.is_empty() {
        return Err(PacketError::Exception { function_code: fc, exception: Exception::IllegalFunction });
    }
    if f.len() < WRITE_MULTIPLE_HEADER_LEN {
        return Err(PacketError::Exception { function_code: fc, exception: Exception::IllegalDataValue });
    }
    let start = join_word(f[2], f[3]);
    let count = join_word(f[4], f[5]);
    let byte_count = f[6] as usize;
    if count as usize > MAX_WRITE_REGISTERS || byte_count != 2 * (count as usize) {
        return Err(PacketError::Exception { function_code: fc, exception: Exception::IllegalDataValue });
    }
    if f.len() < WRITE_MULTIPLE_HEADER_LEN + byte_count {
        return Err(PacketError::Exception { function_code: fc, exception: Exception::IllegalDataValue });
    }
    if !resolves(bank, start, count) {
        return Err(PacketError::Exception { function_code: fc, exception: Exception::IllegalDataAddress });
    }
    let ghost data = f@.subrange(7, f@.len() as int);
    let n = count as usize;
    let mut values: Vec<u16> = Vec::new();
    let mut i: usize = 0;
    while i < n
        invariant
            n == count,
            n <= MAX_WRITE_REGISTERS,
            WRITE_MULTIPLE_HEADER_LEN + 2 * n <= f@.len(),
            data == f@.subrange(7, f@.len() as int),
            i <= n,
            values@ =~= words_from(data, n as nat).subrange(0, i as int),
        decreases n - i,
    {
        values.push(join_word(f[7 + 2 * i], f[8 + 2 * i]));
        i = i + 1;
    }
    proof {
        assert(values@ =~= words_from(data, n as nat));
    }
    Ok(RequestForm::WriteMultipleRegisters { start_register: start, datas_to_write: values })
}

/// A master's frame for a single register write, sent to this device's id,
/// is analysed as exactly that write when the register exists.
pub proof fn lemma_analyze_write_single_frame(
    id: u8,
    holding: Seq<u16>,
    input: Seq<u16>,
    address: u16,
    value: u16,
    frame: Seq<u8>,
)
    requires
        holding.contains(address),
        request_frame(id, Function::WriteSingleRegister { address, value }) == Ok::<
            Seq<u8>,
            crate::error::RequestPacketError,
        >(frame),
    ensures
        analyze(id, holding, input, frame) == Ok::<RequestFormView, PacketError>(
            RequestFormView::WriteSingleRegister { register_address: address, data_to_write: value },
        ),
{
    let body = seq![id, 0x06u8] + be_bytes(address) + be_bytes(value);
    let f = Function::WriteSingleRegister { address, value };
    assert(seq![id] + f.payload()->Ok_0 =~= body);
    assert(frame == with_crc(body));
    lemma_with_crc_ok(body);
    lemma_word_bytes(address);
    lemma_word_bytes(value);
}

/// A master's frame for a holding-register read, sent to this device's id,
/// is analysed as exactly that read when its inclusive range resolves.
pub proof fn lemma_analyze_read_frame(
    id: u8,
    holding: Seq<u16>,
    input: Seq<u16>,
    start: u16,
    quantity: u16,
    frame: Seq<u8>,
)
    requires
        holding.len() > 0,
        range_resolves(holding, start, quantity),
        request_frame(id, Function::ReadHoldingRegisters { starting_address: start, quantity })
            == Ok::<Seq<u8>, crate::error::RequestPacketError>(frame),
    ensures
        analyze(id, holding, input, frame) == Ok::<RequestFormView, PacketError>(
            RequestFormView::ReadHoldingRegisters { start_register: start, registers_count: quantity },
        ),
{
    let body = seq![id, 0x03u8] + be_bytes(start) + be_bytes(quantity);
    let f = Function::ReadHoldingRegisters { starting_address: start, quantity };
    assert(seq![id] + f.payload()->Ok_0 =~= body);
    assert(frame == with_crc(body));
    lemma_with_crc_ok(body);
    lemma_word_bytes(start);
    lemma_word_bytes(quantity);
}

/// A master's frame for a multiple register write, sent to this device's id,
/// is analysed as exactly that write, values included, when its inclusive
/// range resolves.
pub proof fn lemma_analyze_write_multiple_frame(
    id: u8,
    holding: Seq<u16>,
    input: Seq<u16>,
    start: u16,
    value: Vec<u16>,
    frame: Seq<u8>,
)
    requires
        holding.len() > 0,
        range_resolves(holding, start, value@.len() as u16),
        request_frame(id, Function::WriteMultipleRegisters { starting_address: start, value })
            == Ok::<Seq<u8>, crate::error::RequestPacketError>(frame),
    ensures
        analyze(id, holding, input, frame) == Ok::<RequestFormView, PacketError>(
            RequestFormView::WriteMultipleRegisters { start_register: start, datas_to_write: value@ },
        ),
{
    let n = value@.len();
    assert(n <= MAX_WRITE_REGISTERS);
    let body = seq![id, 0x10u8] + be_bytes(start) + be_bytes(n as u16) + seq![(2 * n) as u8]
        + be_words(value@);
    let f = Function::WriteMultipleRegisters { starting_address: start, value };
    assert(seq![id] + f.payload()->Ok_0 =~= body);
    assert(frame == with_crc(body));
    lemma_with_crc_ok(body);
    lemma_word_bytes(start);
    lemma_word_bytes(n as u16);
    lemma_be_words(value@);
    let data = frame.subrange(7, frame.len() as int);
    assert forall|i: int| 0 <= i < n implies #[trigger] words_from(data, n)[i] == value@[i] by {
        assert(data[2 * i] == be_words(value@)[2 * i]);
        assert(data[2 * i + 1] == be_words(value@)[2 * i + 1]);
        lemma_word_bytes(value@[i]);
    }
    assert(words_from(data, n) =~= value@);
}

} // verus!
