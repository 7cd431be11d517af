use rustyboy::register::{Flags, Register, CARRY_MASK, HALF_CARRY_MASK, OPERATION_MASK, ZERO_MASK};

#[test]
fn register_power_up_values() {
    let reg = Register::new();
    assert_eq!(reg.get_af(), 0x0180);
    assert_eq!(reg.get_bc(), 0x0013);
    assert_eq!(reg.get_de(), 0x00D8);
    assert_eq!(reg.get_hl(), 0x014D);
    assert_eq!(reg.sp, 0xFFFE);
    assert_eq!(reg.pc, 0x0100);
}

#[test]
fn register_pair_write_then_read() {
    let mut reg = Register::new();
    reg.set_bc(0x1234);
    assert_eq!(reg.get_bc(), 0x1234);
    assert_eq!(reg.b, 0x12);
    assert_eq!(reg.c, 0x34);
    reg.set_de(0xBEEF);
    assert_eq!(reg.get_de(), 0xBEEF);
    reg.set_hl(0x00FF);
    assert_eq!(reg.get_hl(), 0x00FF);
    assert_eq!(reg.h, 0x00);
    assert_eq!(reg.l, 0xFF);
    reg.set_af(0xA5F0);
    assert_eq!(reg.get_af(), 0xA5F0);
}

#[test]
fn register_pair_write_is_local() {
    let mut reg = Register::new();
    let de = reg.get_de();
    let hl = reg.get_hl();
    let af = reg.get_af();
    reg.set_bc(0xFFFF);
    assert_eq!(reg.get_de(), de);
    assert_eq!(reg.get_hl(), hl);
    assert_eq!(reg.get_af(), af);
    assert_eq!(reg.sp, 0xFFFE);
    assert_eq!(reg.pc, 0x0100);
}

#[test]
fn register_pair_read_then_write() {
    let mut reg = Register::new();
    let (b, c, h, l) = (reg.b, reg.c, reg.h, reg.l);
    let bc = reg.get_bc();
    reg.set_bc(bc);
    let hl = reg.get_hl();
    reg.set_hl(hl);
    assert_eq!((reg.b, reg.c, reg.h, reg.l), (b, c, h, l));
}

#[test]
fn flag_masks() {
    assert_eq!(u8::from(Flags::Zero), 0x80);
    assert_eq!(u8::from(Flags::Operation), 0x40);
    assert_eq!(u8::from(Flags::HalfCarry), 0x20);
    assert_eq!(u8::from(Flags::Carry), 0x10);
    assert_eq!(u8::from(Flags::NoFlag), 0x00);
    assert_eq!(ZERO_MASK | OPERATION_MASK | HALF_CARRY_MASK | CARRY_MASK, 0xF0);
}
