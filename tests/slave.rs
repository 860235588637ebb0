use modbus_rtu::slave::structure::AddressError;
use modbus_rtu::slave::{DataModel, DataStructure, ModbusSlave, PacketError, RequestForm};
use modbus_rtu::{Exception, Function, Request};
use std::time::Duration;

fn holding() -> DataModel<3, u16> {
    DataModel::new(DataStructure::new([0x0001, 0x0002, 0x0003]).unwrap(), [10, 20, 30])
}

fn input() -> DataModel<2, u16> {
    DataModel::new(DataStructure::new([0x0000, 0x0001]).unwrap(), [7, 8])
}

fn refused(fc: u8, exception: Exception) -> PacketError {
    PacketError::Exception { function_code: fc, exception }
}

#[test]
fn address_space_construction() {
    assert_eq!(DataStructure::new([5, 5]).err(), Some(AddressError::NotIncreasing { index: 0 }));
    assert_eq!(DataStructure::new([5, 3]).err(), Some(AddressError::NotIncreasing { index: 0 }));
    assert_eq!(DataStructure::new([1, 4, 4]).err(), Some(AddressError::NotIncreasing { index: 1 }));
    let space = DataStructure::new([1, 2, 10]).unwrap();
    assert_eq!(space.find(2), Some(1));
    assert_eq!(space.find(9), None);
    assert_eq!(space.find(10), Some(2));
    assert_eq!(space.find(0), None);
    assert_eq!(space.find(11), None);
    assert_eq!(space.get(1), 0);
    assert_eq!(space.get_address_by_index(2), 10);
    assert_eq!(space.len(), 3);
    assert!(DataStructure::new([]).is_ok());
    assert!(DataStructure::new([0xFFFF]).is_ok());
    assert_eq!(DataStructure::empty().find(0), None);
}

#[test]
fn register_model_lookup_and_update() {
    let structure = DataStructure::new([0x0000, 0x0001, 0x0002, 0x1234, 0x5678]).unwrap();
    let mut model = DataModel::new(structure, [10, 20, 30, 40, 50]);
    assert_eq!(model.get_value(0x0001), 20);
    assert_eq!(model.find_value(0x0002), Some(30));
    assert_eq!(model.find_value(0x9999), None);
    let i = model.get_index(0x1234);
    assert_eq!(i, 3);
    model.set_value(i, 99);
    assert_eq!(model.get_value(0x1234), 99);
    assert_eq!(model.find_index(0x5678), Some(4));
    assert_eq!(model.find_index(0x0003), None);
    assert!(!model.is_empty());
    assert!(DataModel::<0, u16>::empty().is_empty());
}

#[test]
fn slave_accessors() {
    let mut slave = ModbusSlave::new(0x01, holding(), input());
    assert_eq!(slave.get_modbus_id(), 0x01);
    slave.set_modbus_id(0x11);
    assert_eq!(slave.get_modbus_id(), 0x11);
    let i = slave.get_holding_registers().get_index(0x0002);
    slave.get_holding_registers_mut().set_value(i, 0xBEEF);
    assert_eq!(slave.get_holding_registers().get_value(0x0002), 0xBEEF);
    slave.get_input_registers_mut().set_value(0, 1);
    assert_eq!(slave.get_input_registers().get_value(0x0000), 1);
}

#[test]
fn exception_frame() {
    let slave = ModbusSlave::new(0x01, holding(), input());
    assert_eq!(
        slave.build_exception_response_packet(0x03, Exception::IllegalDataAddress),
        [0x01, 0x83, 0x02, 0xC0, 0xF1]
    );
}

#[test]
fn analyze_reads() {
    let slave = ModbusSlave::new(0x01, holding(), input());
    let frame = [0x01, 0x03, 0x00, 0x01, 0x00, 0x02, 0x95, 0xCB];
    assert_eq!(
        slave.analyze_packet(&frame),
        Ok(RequestForm::ReadHoldingRegisters { start_register: 1, registers_count: 2 })
    );
    let frame = [0x01, 0x04, 0x00, 0x00, 0x00, 0x01, 0x31, 0xCA];
    let form = slave.analyze_packet(&frame).unwrap();
    assert_eq!(form, RequestForm::ReadInputRegisters { start_register: 0, registers_count: 1 });
    assert_eq!(form.get_function_code(), 0x04);
}

#[test]
fn analyze_checks_one_address_past_the_count() {
    let small = DataModel::new(DataStructure::new([0x0001, 0x0002]).unwrap(), [0, 0]);
    let slave = ModbusSlave::new(0x01, small, input());
    let frame = [0x01, 0x03, 0x00, 0x01, 0x00, 0x02, 0x95, 0xCB];
    assert_eq!(slave.analyze_packet(&frame), Err(refused(0x03, Exception::IllegalDataAddress)));
}

#[test]
fn analyze_writes() {
    let slave = ModbusSlave::new(0x01, holding(), input());
    let frame = [0x01, 0x06, 0x00, 0x02, 0x12, 0x34, 0x25, 0x7D];
    assert_eq!(
        slave.analyze_packet(&frame),
        Ok(RequestForm::WriteSingleRegister { register_address: 2, data_to_write: 0x1234 })
    );
    let frame = [0x01, 0x06, 0x00, 0x09, 0x12, 0x34, 0x54, 0xBF];
    assert_eq!(slave.analyze_packet(&frame), Err(refused(0x06, Exception::IllegalDataAddress)));
    let frame = [0x01, 0x10, 0x00, 0x01, 0x00, 0x01, 0x02, 0xAB, 0xCD, 0x19, 0x24];
    assert_eq!(
        slave.analyze_packet(&frame),
        Ok(RequestForm::WriteMultipleRegisters { start_register: 1, datas_to_write: vec![0xABCD] })
    );
    let frame = [0x01, 0x10, 0x00, 0x01, 0x00, 0x01, 0x03, 0xAB, 0xCD, 0x48, 0xE4];
    assert_eq!(slave.analyze_packet(&frame), Err(refused(0x10, Exception::IllegalDataValue)));
}

#[test]
fn analyze_rejections() {
    let slave = ModbusSlave::new(0x01, holding(), input());
    assert_eq!(slave.analyze_packet(&[0x01, 0x03, 0x00]), Err(PacketError::TooShort(3)));
    let mut frame = [0x01, 0x03, 0x00, 0x01, 0x00, 0x02, 0x95, 0xCB];
    frame[7] = 0x00;
    assert_eq!(
        slave.analyze_packet(&frame),
        Err(PacketError::CrcMismatch { expected: 0xCB95, received: 0x0095 })
    );
    let frame = [0x02, 0x03, 0x00, 0x01, 0x00, 0x01, 0xD5, 0xF9];
    assert_eq!(slave.analyze_packet(&frame), Err(PacketError::NotMyId(0x02)));
    let frame = [0x01, 0x2B, 0x00, 0x00, 0x00, 0x00, 0x25, 0xCC];
    assert_eq!(slave.analyze_packet(&frame), Err(refused(0x2B, Exception::IllegalFunction)));
    let frame = [0x01, 0x03, 0x00, 0x01, 0x30, 0x18];
    assert_eq!(slave.analyze_packet(&frame), Err(refused(0x03, Exception::IllegalDataValue)));
}

#[test]
fn listen_all_device_and_empty_banks() {
    let slave = ModbusSlave::new(0x00, DataModel::<0, u16>::empty(), input());
    let frame = [0x02, 0x03, 0x00, 0x01, 0x00, 0x01, 0xD5, 0xF9];
    assert_eq!(slave.analyze_packet(&frame), Err(refused(0x03, Exception::IllegalFunction)));
}

#[test]
fn master_frames_are_read_back_by_the_device() {
    let slave = ModbusSlave::new(0x01, holding(), input());
    let write = Function::WriteMultipleRegisters { starting_address: 1, value: vec![0x1111, 0x2222] };
    let frame = Request::new(0x01, &write, Duration::from_millis(10)).to_bytes().unwrap();
    assert_eq!(
        slave.analyze_packet(&frame),
        Ok(RequestForm::WriteMultipleRegisters { start_register: 1, datas_to_write: vec![0x1111, 0x2222] })
    );
    let single = Function::WriteSingleRegister { address: 3, value: 0x0042 };
    let frame = Request::new(0x01, &single, Duration::from_millis(10)).to_bytes().unwrap();
    assert_eq!(
        slave.analyze_packet(&frame),
        Ok(RequestForm::WriteSingleRegister { register_address: 3, data_to_write: 0x0042 })
    );
}
