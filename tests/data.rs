use modbus_rtu::data::constraint::DataConstraint;
use modbus_rtu::data::Data;

type Check = fn(&i32) -> bool;

fn is_even(val: &i32) -> bool {
    val % 2 == 0
}

#[test]
fn constraint_kinds() {
    let only: DataConstraint<i32, Check> = DataConstraint::Only(10);
    assert!(only.validate(&10));
    assert!(!only.validate(&5));
    let range: DataConstraint<i32, Check> = DataConstraint::Range { min: -10, max: 10 };
    assert!(range.validate(&0));
    assert!(range.validate(&-10));
    assert!(range.validate(&10));
    assert!(!range.validate(&-15));
    assert!(!range.validate(&20));
    let custom: DataConstraint<i32, Check> = DataConstraint::Custom(is_even);
    assert!(custom.validate(&8));
    assert!(!custom.validate(&7));
}

#[test]
fn constrained_data() {
    let data: Data<i32, Check> = Data::new(7);
    assert_eq!(data.get_value(), 7);
    let mut data: Data<i32, Check> = Data::new(10).with_constraint(DataConstraint::Only(10)).unwrap();
    assert!(data.set_value(&10).is_ok());
    assert!(data.set_value(&5).is_err());
    assert_eq!(data.get_value(), 10);
    let mut even: Data<i32, Check> = Data::new(3).with_constraint(DataConstraint::Custom(is_even as Check)).unwrap();
    assert!(even.set_value(&4).is_ok());
    assert_eq!(even.get_value(), 4);
    let broken: Data<i32, Check> = Data::new(3);
    let broken = broken.with_constraint(DataConstraint::Custom(is_even as Check)).unwrap();
    assert!(broken.with_constraint(DataConstraint::Only(3)).is_err());
}
