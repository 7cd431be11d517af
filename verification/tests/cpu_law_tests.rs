use rustyboy::cpu::Cpu;

fn cpu_with_stack() -> Cpu {
    let mut cpu = Cpu::new();
    cpu.reg.sp = 0x7000;
    cpu.reg.pc = 0x0200;
    cpu
}

#[test]
fn call_then_ret_comes_back() {
    let mut cpu = cpu_with_stack();
    cpu.mmu.working_ram[0x200] = 0x12;
    cpu.mmu.working_ram[0x201] = 0x34;
    cpu.call();
    assert_eq!(cpu.reg.pc, 0x1234);
    assert_eq!(cpu.reg.sp, 0x6FFE);
    assert_eq!(cpu.m, 6);
    cpu.ret();
    assert_eq!(cpu.reg.pc, 0x0202);
    assert_eq!(cpu.reg.sp, 0x7000);
    assert_eq!(cpu.m, 4);
}

#[test]
fn rst_then_ret_comes_back() {
    let mut cpu = cpu_with_stack();
    cpu.rst_zero();
    assert_eq!(cpu.reg.pc, 0x0000);
    assert_eq!(cpu.reg.sp, 0x6FFE);
    cpu.ret();
    assert_eq!(cpu.reg.pc, 0x0200);
    assert_eq!(cpu.reg.sp, 0x7000);
}

#[test]
fn pop_undoes_push() {
    let mut cpu = cpu_with_stack();
    cpu.reg.set_de(0xBEEF);
    cpu.push_de();
    cpu.reg.set_de(0);
    cpu.pop_de();
    assert_eq!(cpu.reg.get_de(), 0xBEEF);
    assert_eq!(cpu.reg.sp, 0x7000);

    cpu.reg.set_hl(0x8001);
    cpu.push_hl();
    cpu.reg.set_hl(0);
    cpu.pop_hl();
    assert_eq!(cpu.reg.get_hl(), 0x8001);
    assert_eq!(cpu.reg.sp, 0x7000);
}

#[test]
fn pop_bc_after_push_bc_swaps_bytes() {
    let mut cpu = cpu_with_stack();
    cpu.reg.set_bc(0x1234);
    cpu.push_bc();
    cpu.pop_bc();
    assert_eq!(cpu.reg.get_bc(), 0x3412);
    assert_eq!(cpu.reg.sp, 0x7000);
}

#[test]
fn pop_af_keeps_upper_flag_nibble() {
    let mut cpu = cpu_with_stack();
    cpu.reg.a = 0x12;
    cpu.reg.f = 0xFF;
    cpu.push_af();
    cpu.reg.a = 0;
    cpu.reg.f = 0;
    cpu.pop_af();
    assert_eq!(cpu.reg.a, 0x12);
    assert_eq!(cpu.reg.f, 0xF0);
    assert_eq!(cpu.reg.sp, 0x7000);
}

#[test]
fn decode_execute_runs_the_fetched_instruction() {
    let mut cpu = cpu_with_stack();
    cpu.reg.b = 0x0F;
    cpu.mmu.working_ram[0x200] = 0x04; // INC B
    assert!(cpu.can_execute());
    assert!(cpu.decode_execute());
    assert_eq!(cpu.current_opcode, 0x04);
    assert_eq!(cpu.reg.b, 0x10);
    // the fetch and the instruction each move past one byte
    assert_eq!(cpu.reg.pc, 0x0202);
    assert_eq!(cpu.m, 1);
}

#[test]
fn decode_execute_unknown_opcode() {
    let mut cpu = cpu_with_stack();
    cpu.mmu.working_ram[0x200] = 0xD3;
    assert!(cpu.can_execute());
    assert!(!cpu.decode_execute());
    assert_eq!(cpu.current_opcode, 0xD3);
    assert_eq!(cpu.reg.pc, 0x0201);
}

#[test]
fn can_execute_rejects_out_of_ram_accesses() {
    let mut cpu = cpu_with_stack();
    cpu.reg.pc = 0x8000;
    assert!(!cpu.can_execute());

    let mut cpu = cpu_with_stack();
    cpu.mmu.working_ram[0x200] = 0x0A; // LD A,(BC)
    cpu.reg.set_bc(0x9000);
    assert!(!cpu.can_execute());
    cpu.reg.set_bc(0x1000);
    assert!(cpu.can_execute());

    let mut cpu = cpu_with_stack();
    cpu.mmu.working_ram[0x200] = 0xE0; // LDH (a8),A: reaches the zero page
    assert!(cpu.can_execute());
    cpu.reg.pc = 0x7FFF;
    cpu.mmu.working_ram[0x7FFF] = 0xE0; // its operand would lie past working RAM
    assert!(!cpu.can_execute());

    let mut cpu = Cpu::new();
    cpu.reg.pc = 0x0200;
    cpu.mmu.working_ram[0x200] = 0xC5; // PUSH BC with the power-up stack at 0xFFFE
    assert!(!cpu.can_execute());
}

#[test]
fn inc_b_wraps_and_sets_flags() {
    let mut cpu = Cpu::new();
    cpu.reg.f = 0x40;
    cpu.reg.b = 0xFF;
    cpu.inc_b();
    assert_eq!(cpu.reg.b, 0x00);
    // zero set, subtraction cleared, half-carry clear (the result is not above 0xF)
    assert_eq!(cpu.reg.f, 0x80);

    let mut cpu = Cpu::new();
    cpu.reg.f = 0x00;
    cpu.reg.b = 0x0F;
    cpu.inc_b();
    assert_eq!(cpu.reg.b, 0x10);
    assert_eq!(cpu.reg.f, 0x20);
}

#[test]
fn daa_after_addition_adjusts_upwards() {
    let mut cpu = Cpu::new();
    cpu.reg.a = 0x0A;
    cpu.reg.f = 0x00;
    cpu.daa();
    assert_eq!(cpu.reg.a, 0x10);
    assert_eq!(cpu.reg.f, 0x00);
    assert_eq!(cpu.reg.pc, 0x0101);
    assert_eq!(cpu.m, 1);

    // above 0x99: add 0x60 and set carry
    let mut cpu = Cpu::new();
    cpu.reg.a = 0x9A;
    cpu.reg.f = 0x00;
    cpu.daa();
    assert_eq!(cpu.reg.a, 0x00);
    assert_eq!(cpu.reg.f, 0x90);
}

#[test]
fn daa_after_subtraction_adjusts_downwards() {
    let mut cpu = Cpu::new();
    cpu.reg.a = 0x7F;
    cpu.reg.f = 0x70; // subtraction, half-carry and carry set
    cpu.daa();
    assert_eq!(cpu.reg.a, 0x19);
    assert_eq!(cpu.reg.f, 0x50);
}

#[test]
fn sub_register_subtracts() {
    let mut cpu = Cpu::new();
    cpu.current_opcode = 0x90; // SUB B
    cpu.reg.a = 0x05;
    cpu.reg.b = 0x03;
    cpu.parse_math_opcodes();
    assert_eq!(cpu.reg.a, 0x02);
    assert_eq!(cpu.reg.b, 0x03);
    assert!(cpu.reg.f & 0x40 != 0);
    assert!(cpu.reg.f & 0x10 == 0);
    assert_eq!(cpu.reg.pc, 0x0101);
    assert_eq!(cpu.m, 1);

    // a borrow wraps and sets carry
    let mut cpu = Cpu::new();
    cpu.current_opcode = 0x90;
    cpu.reg.a = 0x03;
    cpu.reg.b = 0x05;
    cpu.parse_math_opcodes();
    assert_eq!(cpu.reg.a, 0xFE);
    assert!(cpu.reg.f & 0x10 != 0);
}

#[test]
fn adc_and_sbc_use_the_carry_bit() {
    let mut cpu = Cpu::new();
    cpu.current_opcode = 0x88; // ADC B
    cpu.reg.a = 0x01;
    cpu.reg.b = 0x01;
    cpu.reg.f = 0x00;
    cpu.parse_math_opcodes();
    assert_eq!(cpu.reg.a, 0x02);
    assert!(cpu.reg.f & 0x40 == 0);
    assert_eq!(cpu.reg.pc, 0x0101);

    let mut cpu = Cpu::new();
    cpu.current_opcode = 0x88;
    cpu.reg.a = 0x01;
    cpu.reg.b = 0xFF;
    cpu.reg.f = 0x10;
    cpu.parse_math_opcodes();
    assert_eq!(cpu.reg.a, 0x01);

    let mut cpu = Cpu::new();
    cpu.current_opcode = 0x98; // SBC B
    cpu.reg.a = 0x05;
    cpu.reg.b = 0x01;
    cpu.reg.f = 0x10;
    cpu.parse_math_opcodes();
    assert_eq!(cpu.reg.a, 0x03);

    let mut cpu = Cpu::new();
    cpu.reg.a = 0x10;
    cpu.reg.f = 0x10;
    cpu.mmu.working_ram[0x100] = 0x05;
    cpu.adc_a();
    assert_eq!(cpu.reg.a, 0x16);
    assert_eq!(cpu.reg.pc, 0x0102);

    let mut cpu = Cpu::new();
    cpu.reg.a = 0x10;
    cpu.reg.f = 0x00;
    cpu.mmu.working_ram[0x100] = 0x05;
    cpu.sbc_a();
    assert_eq!(cpu.reg.a, 0x0B);
    assert_eq!(cpu.reg.pc, 0x0101);
}

#[test]
fn cp_d8_leaves_a() {
    let mut cpu = Cpu::new();
    cpu.reg.a = 0x05;
    cpu.mmu.working_ram[0x0100] = 0x05;
    cpu.cp_d8();
    assert_eq!(cpu.reg.a, 0x05);
    assert!(cpu.reg.f & 0x80 != 0);
    assert!(cpu.reg.f & 0x40 != 0);
    assert!(cpu.reg.f & 0x10 == 0);
    assert_eq!(cpu.reg.pc, 0x0101);
    assert_eq!(cpu.m, 2);

    let mut cpu = Cpu::new();
    cpu.reg.a = 0x05;
    cpu.mmu.working_ram[0x0100] = 0x06;
    cpu.cp_d8();
    assert_eq!(cpu.reg.a, 0x05);
    assert!(cpu.reg.f & 0x80 == 0);
    assert!(cpu.reg.f & 0x10 != 0);
}

#[test]
fn rla_and_rra_rotate_through_carry() {
    let mut cpu = Cpu::new();
    cpu.reg.a = 0x80;
    cpu.reg.f = 0x00;
    cpu.rla();
    assert_eq!(cpu.reg.a, 0x00);
    assert!(cpu.reg.f & 0x10 != 0);
    assert_eq!(cpu.reg.pc, 0x0101);
    assert_eq!(cpu.m, 1);
    cpu.rla();
    assert_eq!(cpu.reg.a, 0x01);
    assert!(cpu.reg.f & 0x10 == 0);

    let mut cpu = Cpu::new();
    cpu.reg.a = 0x01;
    cpu.reg.f = 0x00;
    cpu.rra();
    assert_eq!(cpu.reg.a, 0x00);
    assert!(cpu.reg.f & 0x10 != 0);
    cpu.rra();
    assert_eq!(cpu.reg.a, 0x80);
    assert!(cpu.reg.f & 0x10 == 0);
}

#[test]
fn jr_takes_a_signed_offset() {
    let mut cpu = Cpu::new();
    cpu.mmu.working_ram[0x0100] = 0xFE;
    cpu.jr();
    assert_eq!(cpu.reg.pc, 0x00FE);
    assert_eq!(cpu.m, 3);

    let mut cpu = Cpu::new();
    cpu.mmu.working_ram[0x0100] = 0x10;
    cpu.jr();
    assert_eq!(cpu.reg.pc, 0x0110);

    let mut cpu = Cpu::new();
    cpu.reg.f = 0x00; // zero clear
    cpu.mmu.working_ram[0x0100] = 0x80;
    cpu.jr_nz();
    assert_eq!(cpu.reg.pc, 0x0080);
    let mut cpu = Cpu::new();
    cpu.reg.f = 0x80; // zero set: no jump
    cpu.mmu.working_ram[0x0100] = 0x80;
    cpu.jr_nz();
    assert_eq!(cpu.reg.pc, 0x0101);
    cpu.mmu.working_ram[0x0101] = 0xFF;
    cpu.jr_z();
    assert_eq!(cpu.reg.pc, 0x0100);
}

#[test]
fn ldh_reaches_the_zero_page() {
    let mut cpu = Cpu::new();
    cpu.reg.a = 0x42;
    cpu.mmu.working_ram[0x0100] = 0x80;
    cpu.ld_addr_a();
    assert_eq!(cpu.mmu.zero_page_ram[0x80], 0x42);
    assert_eq!(cpu.mmu.read_zero_page(0x80), 0x42);
    assert_eq!(cpu.reg.pc, 0x0101);
    assert_eq!(cpu.m, 3);

    cpu.reg.c = 0x44;
    cpu.reg.a = 0x99;
    cpu.ld_addr_c_a();
    assert_eq!(cpu.mmu.zero_page_ram[0x44], 0x99);
    assert_eq!(cpu.m, 2);

    cpu.reg.a = 0;
    cpu.ld_a_c_addr();
    assert_eq!(cpu.reg.a, 0x99);

    cpu.reg.a = 0;
    cpu.mmu.working_ram[0x0101] = 0x80;
    cpu.ld_a_a8();
    assert_eq!(cpu.reg.a, 0x42);
    assert_eq!(cpu.reg.pc, 0x0101);

    // through decode_execute: LDH (0xFF00+0x10),A at 0x0200
    let mut cpu = cpu_with_stack();
    cpu.reg.a = 0x77;
    cpu.mmu.working_ram[0x200] = 0xE0;
    cpu.mmu.working_ram[0x201] = 0x10;
    assert!(cpu.can_execute());
    assert!(cpu.decode_execute());
    assert_eq!(cpu.mmu.read_zero_page(0x10), 0x77);
    assert_eq!(cpu.reg.pc, 0x0202);
}
