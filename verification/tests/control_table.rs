use dynamixel_protocol::control_table::{ControlTable, ControlTableData, CONTROL_TABLE_SIZE};

#[test]
fn to_address() {
    let name = ControlTable::ModelNumber;

    assert_eq!(name.to_address(), 0);
    assert_eq!(ControlTable::TorqueEnable.to_address(), 64)
}

#[test]
fn to_size() {
    let name = ControlTable::ModelNumber;
    assert_eq!(name.to_size(), 2);
    assert_eq!(ControlTable::ModelInformation.to_size(), 4)
}

#[test]
fn control_table_read() {
    let ctd = ControlTableData::new();
    assert_eq!(ctd.read().bits(), vec![0u8; CONTROL_TABLE_SIZE])
}

#[test]
fn control_table_write() {
    let mut ctd = ControlTableData::new();
    ctd.write(|w| w.bits(vec![1u8; CONTROL_TABLE_SIZE]));
    assert_eq!(ctd.read().bits(), vec![1u8; CONTROL_TABLE_SIZE]);
}

#[test]
fn modify() {
    let mut ctd = ControlTableData::new();
    ctd.write(|w| w.bits(vec![1u8; CONTROL_TABLE_SIZE]));
    assert_eq!(ctd.read().bits(), vec![1u8; CONTROL_TABLE_SIZE]);
    ctd.modify(|_, w| w.bits(vec![2u8; CONTROL_TABLE_SIZE]));
    assert_eq!(ctd.read().bits(), vec![2u8; CONTROL_TABLE_SIZE]);
    ctd.write(|w| w.id(3));
    assert_eq!(ctd.read().bits()[0..9], [0, 0, 0, 0, 0, 0, 0, 3, 0]);
    ctd.write(|w| w.model_number(0x4321));
    assert_eq!(ctd.read().bits()[0..9], [0x21, 0x43, 0, 0, 0, 0, 0, 0, 0]);
    assert_eq!(ctd.read().model_number(), 0x4321);
    ctd.modify(|_, w| w.id(2));
    assert_eq!(ctd.read().bits()[0..9], [0x21, 0x43, 0, 0, 0, 0, 0, 2, 0]);
    ctd.modify(|r, w| {
        let mut c = r.bits();
        c[5] = 1;
        c[6] = 3;
        w.bits(c)
    });
    assert_eq!(ctd.read().bits()[0..9], [0x21, 0x43, 0, 0, 0, 1, 3, 2, 0]);
    ctd.modify(|_, w| w.bytes(4, &[1, 2]));
    assert_eq!(ctd.read().bits()[0..9], [0x21, 0x43, 0, 0, 1, 2, 3, 2, 0]);
}

#[test]
fn write_each_field() {
    let mut ctd = ControlTableData::new();
    ctd.write(|w| w.indirect_address1(0x2222));
}
