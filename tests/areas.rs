use modbus_rtu::address_area::AddressArea;
use modbus_rtu::data::Data;
use modbus_rtu::data_area::{DataArea, DataAreaError};

type Check = fn(&u16) -> bool;

#[test]
fn data_area_put() {
    let mut area: DataArea<u16, Check, 2> = DataArea::new();
    assert_eq!(area.put(0x0010, Data::new(1)), Ok(()));
    assert_eq!(area.put(0x0010, Data::new(2)), Err(DataAreaError::DuplicatedAddress(0x0010)));
    assert_eq!(area.put(0x0011, Data::new(3)), Ok(()));
    assert_eq!(area.put(0x0012, Data::new(4)), Err(DataAreaError::SlotsAreFull(2)));
    assert_eq!(area.put(0x0011, Data::new(4)), Err(DataAreaError::DuplicatedAddress(0x0011)));
}

#[test]
fn address_area_add() {
    let mut area: AddressArea<u16, Check, 2> = AddressArea::new();
    assert_eq!(area.add(1, 10), Ok(()));
    assert_eq!(area.add(1, 11), Err(()));
    assert_eq!(area.add(2, 12), Ok(()));
    assert_eq!(area.add(3, 13), Err(()));
    let mut none: AddressArea<u16, Check, 0> = AddressArea::new();
    assert_eq!(none.add(1, 10), Err(()));
}
