use rustyboy::cpu::Cpu;
use rustyboy::register::Flags;

#[test]
fn test_nop() {
    // Arrange
    let mut cpu = Cpu::new();
    let expected_m_cycles = 1;
    let expected_pc = cpu.reg.pc + 1;

    // Act
    cpu.nop();

    // Assert
    assert_eq!(expected_m_cycles, cpu.m);
    assert_eq!(expected_pc, cpu.reg.pc);
}

#[test]
fn test_load_bc() {
    // Arrange
    let mut cpu = Cpu::new();
    let expected_m_cycles = 3;
    let expected_pc = cpu.reg.pc + 3;
    // 244 << 8 | 128
    let expected_bc: u16 = 62592;
    cpu.mmu.working_ram[expected_pc as usize] = 244;
    cpu.mmu.working_ram[expected_pc as usize + 1] = 128;

    // Act
    cpu.load_bc();

    // Assert
    assert_eq!(expected_m_cycles, cpu.m);
    assert_eq!(expected_pc, cpu.reg.pc);
    assert_eq!(expected_bc, cpu.reg.get_bc());
}

#[test]
fn test_load_bc_a() {
    // Arrange
    let mut cpu = Cpu::new();
    let expected_m_cycles = 2;
    let expected_pc = cpu.reg.pc + 1;
    let register_a = 235;

    // Act
    cpu.reg.a = register_a;
    cpu.load_bc_a();

    // Assert
    assert_eq!(expected_m_cycles, cpu.m);
    assert_eq!(expected_pc, cpu.reg.pc);
    assert_eq!(register_a, cpu.mmu.working_ram[cpu.reg.get_bc() as usize]);
}

#[test]
fn test_inc_bc() {
    // Arrange
    let mut cpu = Cpu::new();
    let expected_m_cycles = 2;
    let expected_pc = cpu.reg.pc + 1;
    let expected_register_bc = cpu.reg.get_bc() + 1;

    // Act
    cpu.inc_bc();

    // Assert
    assert_eq!(expected_m_cycles, cpu.m);
    assert_eq!(expected_pc, cpu.reg.pc);
    assert_eq!(expected_register_bc, cpu.reg.get_bc());
}

#[test]
fn test_inc_b() {
    // Arrange
    let mut cpu = Cpu::new();
    let expected_m_cycles = 1;
    let expected_pc = cpu.reg.pc + 1;
    let expected_register_b_value = 1;
    let expected_register_f_value = 0x0;

    // Act
    cpu.inc_b();

    // Assert
    assert_eq!(expected_m_cycles, cpu.m);
    assert_eq!(expected_pc, cpu.reg.pc);
    assert_eq!(expected_register_b_value, cpu.reg.b);
    assert_eq!(expected_register_f_value, cpu.reg.f);
}

#[test]
fn test_load_b() {
    // Arrange
    let mut cpu = Cpu::new();
    let expected_m_cycles = 2;
    let expected_pc = cpu.reg.pc + 2;
    let expected_b_load_value = 235;
    // since the program counter starts at 0x0100
    // then we add two to the program counter we arrive
    // at position 0x0102
    cpu.mmu.working_ram[expected_pc as usize] = expected_b_load_value;

    // Act
    cpu.load_b();

    // Assert
    assert_eq!(expected_m_cycles, cpu.m);
    assert_eq!(expected_pc, cpu.reg.pc);
    assert_eq!(expected_b_load_value, cpu.reg.b);
}

#[test]
fn test_rlca() {
    // Arrange
    let mut cpu = Cpu::new();
    let expected_m_cycles = 1;
    let expected_pc = cpu.reg.pc + 1;
    let expected_register_f_value = 0;
    let expected_register_a_value: u8 = 4;
    let expected_register_a_value_with_carry = 1;

    // Act
    cpu.reg.a = 2;
    cpu.rlca();

    // Assert
    assert_eq!(expected_m_cycles, cpu.m);
    assert_eq!(expected_pc, cpu.reg.pc);
    assert_eq!(expected_register_f_value, cpu.reg.f);
    assert_eq!(expected_register_a_value, cpu.reg.a);

    cpu.reg.a = 128;
    cpu.rlca();

    assert_eq!(expected_register_a_value_with_carry, cpu.reg.a);
}

#[test]
fn test_load_sp() {
    // Arrange
    let mut cpu = Cpu::new();
    let expected_m_cycles = 5;
    let expected_pc = cpu.reg.pc + 3;
    // based on setting the sp at 32678
    let expected_sp_lower_byte = 166;
    let expected_sp_upper_byte = 127;

    // Act
    cpu.reg.sp = 32678;
    cpu.load_sp_at_addr();

    // Assert
    assert_eq!(expected_m_cycles, cpu.m);
    assert_eq!(expected_pc, cpu.reg.pc);
    assert_eq!(
        expected_sp_lower_byte,
        cpu.mmu.working_ram[expected_pc as usize]
    );
    assert_eq!(
        expected_sp_upper_byte,
        cpu.mmu.working_ram[expected_pc as usize + 1]
    );
}

#[test]
fn test_add_hl_bc() {
    // Arrange
    let mut cpu = Cpu::new();
    let expected_m_cycles = 2;
    let expected_pc = cpu.reg.pc + 1;
    let expected_hl = 16555;
    let expected_bc = 32678;
    let expected_f_register = cpu.reg.f & !u8::from(Flags::Operation);
    let expected_f_register_after_half_carry = u8::from(Flags::HalfCarry);
    let expected_f_register_after_carry = u8::from(Flags::Carry);

    // Act
    cpu.reg.set_hl(expected_hl);
    cpu.reg.set_bc(expected_bc);
    cpu.add_hl_bc();

    // Assert
    assert_eq!(expected_m_cycles, cpu.m);
    assert_eq!(expected_pc, cpu.reg.pc);
    assert_eq!(expected_hl + expected_bc, cpu.reg.get_hl());
    assert_eq!(expected_f_register_after_carry, cpu.reg.f);

    cpu = Cpu::new();
    cpu.reg.set_hl(1000);
    cpu.reg.set_bc(2048);
    cpu.add_hl_bc();
    assert_eq!(expected_f_register_after_half_carry, cpu.reg.f);

    cpu = Cpu::new();
    cpu.reg.set_hl(155);
    cpu.reg.set_bc(155);
    cpu.add_hl_bc();
    assert_eq!(expected_f_register, cpu.reg.f);
}

#[test]
fn test_ld_a_bc() {
    // Arrange
    let mut cpu = Cpu::new();
    let expected_m_cycles = 2;
    let expected_pc = cpu.reg.pc + 1;
    let expected_a = 255;
    cpu.mmu.working_ram[cpu.reg.get_bc() as usize] = expected_a;

    // Act
    cpu.ld_a_bc();

    // Assert
    assert_eq!(expected_m_cycles, cpu.m);
    assert_eq!(expected_pc, cpu.reg.pc);
    assert_eq!(expected_a, cpu.mmu.working_ram[cpu.reg.get_bc() as usize]);
}

#[test]
fn test_dec_bc() {
    // Arrange
    let mut cpu = Cpu::new();
    let expected_m_cycles = 2;
    let expected_pc = cpu.reg.pc + 1;
    let expected_bc = 9;
    cpu.reg.set_bc(10);

    // Act
    cpu.dec_bc();

    // Assert
    assert_eq!(expected_m_cycles, cpu.m);
    assert_eq!(expected_pc, cpu.reg.pc);
    assert_eq!(expected_bc, cpu.reg.get_bc());
}

#[test]
fn test_inc_c() {
    // Arrange
    let mut cpu = Cpu::new();
    let expected_m_cycles = 1;
    let expected_pc = cpu.reg.pc + 1;
    let expected_c = 241;
    cpu.reg.c = 240;

    // Act
    cpu.inc_c();

    // Assert
    assert_eq!(expected_m_cycles, cpu.m);
    assert_eq!(expected_pc, cpu.reg.pc);
    assert_eq!(expected_c, cpu.reg.c);
    assert_eq!(
        cpu.reg.f & !u8::from(Flags::Operation) | u8::from(Flags::HalfCarry),
        cpu.reg.f
    );
}

#[test]
fn test_dec_c() {
    // Arrange
    let mut cpu = Cpu::new();
    let expected_m_cycles = 1;
    let expected_pc = cpu.reg.pc + 1;
    let expected_c = 24;
    cpu.reg.c = 25;

    // Act
    cpu.dec_c();

    assert_eq!(expected_m_cycles, cpu.m);
    assert_eq!(expected_pc, cpu.reg.pc);
    assert_eq!(expected_c, cpu.reg.c);

    cpu = Cpu::new();
    cpu.reg.c = 1;
    cpu.dec_c();
    println!("{}", cpu.reg.c);

    assert_eq!(
        u8::from(Flags::Operation) | u8::from(Flags::Zero),
        cpu.reg.f
    );

    cpu = Cpu::new();
    cpu.reg.c = 17;
    cpu.dec_c();

    assert_eq!(
        u8::from(Flags::Operation) | u8::from(Flags::HalfCarry),
        cpu.reg.f
    );
}

#[test]
fn test_ld_c() {
    // Arrange
    let mut cpu = Cpu::new();
    let expected_m_cycles = 2;
    let expected_pc = cpu.reg.pc + 2;
    let expected_c = 25;
    cpu.mmu.working_ram[expected_pc as usize] = 25;

    // Act
    cpu.ld_c();

    // Assert
    assert_eq!(expected_m_cycles, cpu.m);
    assert_eq!(expected_pc, cpu.reg.pc);
    assert_eq!(expected_c, cpu.reg.c);
}

#[test]
fn test_rrca() {
    // Arrange
    let mut cpu = Cpu::new();
    let expected_m_cycles = 1;
    let expected_pc = cpu.reg.pc + 1;
    let expected_register_f = u8::from(Flags::NoFlag);
    // 240 >> 1
    let expected_a = 120;
    cpu.reg.a = 240;

    // Act
    cpu.rrca();

    // Assert
    assert_eq!(expected_m_cycles, cpu.m);
    assert_eq!(expected_pc, cpu.reg.pc);
    assert_eq!(expected_register_f, cpu.reg.f);
    assert_eq!(expected_a, cpu.reg.a);

    cpu = Cpu::new();
    let expected_a = 248;
    cpu.reg.a = 241;
    cpu.rrca();

    assert_eq!(expected_a, cpu.reg.a);
}

#[test]
fn test_ld_de() {
    // Arrange
    let mut cpu = Cpu::new();
    let expected_m_cycles = 3;
    let expected_pc = cpu.reg.pc + 3;
    // 244 << 8 | 128
    let expected_de: u16 = 62592;
    cpu.mmu.working_ram[expected_pc as usize] = 244;
    cpu.mmu.working_ram[expected_pc as usize + 1] = 128;

    // Act
    cpu.ld_de();

    // Assert
    assert_eq!(expected_m_cycles, cpu.m);
    assert_eq!(expected_pc, cpu.reg.pc);
    assert_eq!(expected_de, cpu.reg.get_de());
}
