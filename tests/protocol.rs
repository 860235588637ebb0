use std::time::Duration;

use modbus_rtu::error::{RequestPacketError, ResponsePacketError};
use modbus_rtu::{Exception, Function, FunctionKind, Request, Response};

fn ms(n: u64) -> Duration {
    Duration::from_millis(n)
}

#[test]
fn write_single_coil_frame() {
    let func = Function::WriteSingleCoil { address: 0x0025, value: true };
    assert_eq!(func.to_bytes().unwrap(), vec![0x05, 0x00, 0x25, 0xFF, 0x00]);
    let request = Request::new(0x05, &func, ms(100));
    assert_eq!(
        request.to_bytes().unwrap(),
        vec![0x05, 0x05, 0x00, 0x25, 0xFF, 0x00, 0x9C, 0x75]
    );
}

#[test]
fn write_single_register_frame() {
    let func = Function::WriteSingleRegister { address: 0x0010, value: 0xABCD };
    let request = Request::new(0x11, &func, ms(100));
    assert_eq!(
        request.to_bytes().unwrap(),
        vec![0x11, 0x06, 0x00, 0x10, 0xAB, 0xCD, 0x34, 0x3A]
    );
}

#[test]
fn write_multiple_frames() {
    let regs = Function::WriteMultipleRegisters { starting_address: 0x0001, value: vec![0x1234, 0x5678] };
    assert_eq!(
        Request::new(0x01, &regs, ms(100)).to_bytes().unwrap(),
        vec![0x01, 0x10, 0x00, 0x01, 0x00, 0x02, 0x04, 0x12, 0x34, 0x56, 0x78, 0x49, 0x57]
    );
    let bits = vec![true, false, true, true, false, false, true, true, true, false];
    let coils = Function::WriteMultipleCoils { starting_address: 0x0013, value: bits };
    assert_eq!(
        Request::new(0x01, &coils, ms(100)).to_bytes().unwrap(),
        vec![0x01, 0x0F, 0x00, 0x13, 0x00, 0x0A, 0x02, 0xCD, 0x01, 0x72, 0xCB]
    );
}

#[test]
fn encoder_size_and_range_limits() {
    let ok = Function::ReadCoils { starting_address: 0, quantity: 2008 };
    assert!(ok.to_bytes().is_ok());
    let big = Function::ReadDiscreteInputs { starting_address: 0, quantity: 2009 };
    assert_eq!(big.to_bytes(), Err(RequestPacketError::ResponseWillTooBig));
    let regs = Function::ReadHoldingRegisters { starting_address: 0, quantity: 125 };
    assert!(regs.to_bytes().is_ok());
    let regs = Function::ReadInputRegisters { starting_address: 0, quantity: 126 };
    assert_eq!(regs.to_bytes(), Err(RequestPacketError::ResponseWillTooBig));
    let past_end = Function::ReadHoldingRegisters { starting_address: 0xFFFF, quantity: 2 };
    assert_eq!(past_end.to_bytes(), Err(RequestPacketError::ResponseWillTooBig));
    let at_end = Function::ReadHoldingRegisters { starting_address: 0xFFFF, quantity: 1 };
    assert!(at_end.to_bytes().is_ok());
    let coils = Function::WriteMultipleCoils { starting_address: 0, value: vec![false; 1977] };
    assert_eq!(coils.to_bytes(), Err(RequestPacketError::RequestTooBig));
    let coils = Function::WriteMultipleCoils { starting_address: 0, value: vec![false; 1976] };
    assert_eq!(coils.to_bytes().unwrap().len(), 6 + 247);
    let regs = Function::WriteMultipleRegisters { starting_address: 0, value: vec![0; 124] };
    assert_eq!(regs.to_bytes(), Err(RequestPacketError::RequestTooBig));
    let regs = Function::WriteMultipleRegisters { starting_address: 0xFFFF, value: vec![0; 2] };
    assert_eq!(regs.to_bytes(), Err(RequestPacketError::RequestTooBig));
}

#[test]
fn reads_cannot_be_broadcast() {
    let read = Function::ReadCoils { starting_address: 0, quantity: 1 };
    assert_eq!(Request::new(0, &read, ms(10)).to_bytes(), Err(RequestPacketError::CannotBroadcast));
    let write = Function::WriteSingleRegister { address: 1, value: 2 };
    let request = Request::new(0, &write, ms(10));
    assert!(request.is_broadcasting());
    assert!(request.to_bytes().is_ok());
}

#[test]
fn request_accessors() {
    let a = Function::ReadCoils { starting_address: 0, quantity: 2 };
    let b = Function::WriteSingleCoil { address: 3, value: false };
    let mut request = Request::new(0x01, &a, ms(200));
    assert_eq!(request.modbus_id(), 0x01);
    assert_eq!(request.timeout(), ms(200));
    assert_eq!(request.function().kind(), FunctionKind::ReadCoils);
    request.set_modbus_id(0x07);
    request.set_function(&b);
    request.set_timeout(ms(50));
    assert_eq!(request.modbus_id(), 0x07);
    assert_eq!(request.function().as_code(), 0x05);
    assert_eq!(request.timeout(), ms(50));
}

#[test]
fn function_codes() {
    assert_eq!(FunctionKind::ReadHoldingRegisters.as_code(), 0x03);
    assert_eq!(FunctionKind::from_code(0x04), Some(FunctionKind::ReadInputRegisters));
    assert_eq!(FunctionKind::from_code(0x0F), Some(FunctionKind::WriteMultipleCoils));
    assert_eq!(FunctionKind::from_code(0x7F), None);
    let f = Function::WriteSingleRegister { address: 0x10, value: 0x1234 };
    assert_eq!(f.as_code(), 0x06);
    assert_eq!(f.kind(), FunctionKind::WriteSingleRegister);
}

#[test]
fn exception_codes() {
    assert_eq!(Exception::from_code(0x05), Exception::Acknowledge);
    assert_eq!(Exception::from_code(0x05).as_code(), 0x05);
    assert_eq!(Exception::from_code(0x7F), Exception::Undefined(0x7F));
    assert_eq!(Exception::from_code(0x7F).as_code(), 0x7F);
    assert_eq!(Exception::from_code(0x07), Exception::Undefined(0x07));
    assert_eq!(Exception::IllegalDataAddress.as_code(), 0x02);
    assert_eq!(Exception::GatewayTargetDeviceFailedToRespond.as_code(), 0x0B);
    for code in 0..=255u8 {
        assert_eq!(Exception::from_code(code).as_code(), code);
    }
    assert!(Exception::Acknowledge.is_ack());
    assert!(!Exception::DeviceBusy.is_ack());
}

#[test]
fn decode_input_registers() {
    let function = Function::ReadInputRegisters { starting_address: 0x0000, quantity: 2 };
    let request = Request::new(0x01, &function, ms(100));
    let frame = [0x01, 0x04, 0x04, 0x00, 0x10, 0x00, 0x20, 0xFB, 0x99];
    assert_eq!(Response::from_bytes(&request, &frame), Ok(Response::Value(vec![0x0010, 0x0020])));
}

#[test]
fn success_of_responses() {
    assert!(Response::Success.is_success());
    assert!(Response::Value(vec![]).is_success());
    assert!(Response::Status(vec![true]).is_success());
    assert!(Response::Exception(Exception::Acknowledge).is_success());
    assert!(!Response::Exception(Exception::IllegalFunction).is_success());
}

#[test]
fn round_trip_read_coils() {
    let function = Function::ReadCoils { starting_address: 0x0013, quantity: 10 };
    let request = Request::new(0x01, &function, ms(100));
    assert_eq!(
        request.to_bytes().unwrap(),
        vec![0x01, 0x01, 0x00, 0x13, 0x00, 0x0A, 0x4D, 0xC8]
    );
    let reply = [0x01, 0x01, 0x02, 0xCD, 0x01, 0x2C, 0xAC];
    let bits = vec![true, false, true, true, false, false, true, true, true, false];
    assert_eq!(Response::from_bytes(&request, &reply), Ok(Response::Status(bits)));
}

#[test]
fn round_trip_read_holding_registers() {
    let function = Function::ReadHoldingRegisters { starting_address: 0, quantity: 2 };
    let request = Request::new(0x01, &function, ms(100));
    assert_eq!(
        request.to_bytes().unwrap(),
        vec![0x01, 0x03, 0x00, 0x00, 0x00, 0x02, 0xC4, 0x0B]
    );
    let reply = [0x01, 0x03, 0x04, 0x12, 0x34, 0x56, 0x78, 0x81, 0x07];
    assert_eq!(Response::from_bytes(&request, &reply), Ok(Response::Value(vec![0x1234, 0x5678])));
}

#[test]
fn round_trip_writes() {
    let single = Function::WriteSingleRegister { address: 1, value: 3 };
    let request = Request::new(0x01, &single, ms(100));
    let frame = request.to_bytes().unwrap();
    assert_eq!(frame, vec![0x01, 0x06, 0x00, 0x01, 0x00, 0x03, 0x98, 0x0B]);
    assert_eq!(Response::from_bytes(&request, &frame), Ok(Response::Success));

    let multiple = Function::WriteMultipleRegisters { starting_address: 1, value: vec![0x1234, 0x5678] };
    let request = Request::new(0x01, &multiple, ms(100));
    let reply = [0x01, 0x10, 0x00, 0x01, 0x00, 0x02, 0x10, 0x08];
    assert_eq!(Response::from_bytes(&request, &reply), Ok(Response::Success));

    let bits = vec![true, false, true, true, false, false, true, true, true, false];
    let coils = Function::WriteMultipleCoils { starting_address: 0x13, value: bits };
    let request = Request::new(0x01, &coils, ms(100));
    let reply = [0x01, 0x0F, 0x00, 0x13, 0x00, 0x0A, 0x24, 0x09];
    assert_eq!(Response::from_bytes(&request, &reply), Ok(Response::Success));
}

#[test]
fn exception_reply_is_accepted_before_id_check() {
    let function = Function::ReadHoldingRegisters { starting_address: 0, quantity: 2 };
    let request = Request::new(0x09, &function, ms(100));
    let reply = [0x01, 0x83, 0x02, 0xC0, 0xF1];
    assert_eq!(
        Response::from_bytes(&request, &reply),
        Ok(Response::Exception(Exception::IllegalDataAddress))
    );
}

#[test]
fn malformed_replies() {
    let function = Function::ReadInputRegisters { starting_address: 0x0000, quantity: 2 };
    let request = Request::new(0x01, &function, ms(100));
    let good = [0x01, 0x04, 0x04, 0x00, 0x10, 0x00, 0x20, 0xFB, 0x99];

    assert_eq!(Response::from_bytes(&request, &good[..4]), Err(ResponsePacketError::TooShort(4)));
    assert_eq!(Response::from_bytes(&request, &[]), Err(ResponsePacketError::TooShort(0)));

    let mut flipped = good;
    flipped[8] ^= 0x10;
    assert_eq!(
        Response::from_bytes(&request, &flipped),
        Err(ResponsePacketError::CRCMismatch { expected: 0x99FB, received: 0x89FB })
    );

    let other = Request::new(0x02, &function, ms(100));
    assert_eq!(
        Response::from_bytes(&other, &good),
        Err(ResponsePacketError::UnexpectedResponder(0x01))
    );

    let holding = Function::ReadHoldingRegisters { starting_address: 0x0000, quantity: 2 };
    let wrong_kind = Request::new(0x01, &holding, ms(100));
    assert_eq!(Response::from_bytes(&wrong_kind, &good), Err(ResponsePacketError::InvalidFormat));

    let three = Function::ReadInputRegisters { starting_address: 0x0000, quantity: 3 };
    let wrong_count = Request::new(0x01, &three, ms(100));
    assert_eq!(Response::from_bytes(&wrong_count, &good), Err(ResponsePacketError::InvalidFormat));
}

#[test]
fn write_echo_must_match() {
    let single = Function::WriteSingleRegister { address: 1, value: 4 };
    let request = Request::new(0x01, &single, ms(100));
    let echo_of_other_value = [0x01, 0x06, 0x00, 0x01, 0x00, 0x03, 0x98, 0x0B];
    assert_eq!(
        Response::from_bytes(&request, &echo_of_other_value),
        Err(ResponsePacketError::InvalidFormat)
    );
}
