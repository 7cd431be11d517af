use vstd::prelude::*;
use crate::mmu::{Mmu, WORKING_RAM_BYTES};
use crate::register::{Flags, Register, flag_mask, ZERO_MASK, HALF_CARRY_MASK, CARRY_MASK};

verus! {

/// `f` with the bits of `mask` set when `cond` holds and cleared otherwise.
pub open spec fn flag_if(f: u8, mask: u8, cond: bool) -> u8 {
    if cond {
        f | mask
    } else {
        f & !mask
    }
}

/// An 8-bit two's-complement value widened to 16 bits.
pub open spec fn sign_extend(b: u8) -> u16 {
    if b < 0x80 {
        b as u16
    } else {
        (b + 0xFF00) as u16
    }
}

/// Whether an opcode stands for an instruction of this processor. The twelve
/// without one are `0xCB`, `0xD3`, `0xDB`, `0xDD`, `0xE3`, `0xE4`, `0xEB`,
/// `0xEC`, `0xED`, `0xF4`, `0xFC` and `0xFD`.
pub open spec fn is_known_opcode(opcode: u8) -> bool {
    !(opcode == 0xCB || opcode == 0xD3 || opcode == 0xDB || opcode == 0xDD || opcode == 0xE3
        || opcode == 0xE4 || opcode == 0xEB || opcode == 0xEC || opcode == 0xED || opcode == 0xF4
        || opcode == 0xFC || opcode == 0xFD)
}

/// The processor: its registers, the memory it addresses, and the bookkeeping
/// of the instruction being executed.
///
/// Timings assume a clock of 4.19 MHz ("T-states"); since they are divisible
/// by 4, instruction lengths are counted in "M-cycles" (T-states divided by 4).
pub struct Cpu {
    pub reg: Register,
    pub mmu: Mmu,
    /// The opcode fetched by the last call of `decode_execute`.
    pub current_opcode: u8,
    /// Accumulated clock.
    pub clock_m: u8,
    pub clock_t: u8,
    /// M-cycles taken by the last instruction.
    pub m: u8,
    pub halted: bool,
    pub ei: bool,
    pub di: bool,
}

impl Cpu {
    /// The processor with register `F` replaced by `f`.
    pub open spec fn with_f(self, f: u8) -> Cpu {
        Cpu { reg: Register { f, ..self.reg }, ..self }
    }

    /// Whether the bit of `mask` is set in register `F`.
    pub open spec fn flag_set(self, mask: u8) -> bool {
        self.reg.f & mask == mask
    }

    /// The 8-bit operand that a register index 0..=7 names: `B, C, D, E, H, L`,
    /// the byte at `HL`, `A`; `0xFF` for any other index.
    pub open spec fn register_value(self, index: u8) -> u8 {
        if index == 0 {
            self.reg.b
        } else if index == 1 {
            self.reg.c
        } else if index == 2 {
            self.reg.d
        } else if index == 3 {
            self.reg.e
        } else if index == 4 {
            self.reg.h
        } else if index == 5 {
            self.reg.l
        } else if index == 6 {
            self.mmu.byte_at(self.reg.hl() as int)
        } else if index == 7 {
            self.reg.a
        } else {
            0xFF
        }
    }

    /// Whether the operand that a register index names can be read: the byte at
    /// `HL` has to lie in working RAM.
    pub open spec fn register_readable(self, index: u8) -> bool {
        index == 6 ==> self.reg.hl() < WORKING_RAM_BYTES
    }

    /// The processor with the operand that `index` names replaced by `value`;
    /// unchanged for an index above 7.
    pub open spec fn with_register_value(self, index: u8, value: u8) -> Cpu {
        if index == 0 {
            Cpu { reg: Register { b: value, ..self.reg }, ..self }
        } else if index == 1 {
            Cpu { reg: Register { c: value, ..self.reg }, ..self }
        } else if index == 2 {
            Cpu { reg: Register { d: value, ..self.reg }, ..self }
        } else if index == 3 {
            Cpu { reg: Register { e: value, ..self.reg }, ..self }
        } else if index == 4 {
            Cpu { reg: Register { h: value, ..self.reg }, ..self }
        } else if index == 5 {
            Cpu { reg: Register { l: value, ..self.reg }, ..self }
        } else if index == 6 {
            Cpu { mmu: self.mmu.with_byte(self.reg.hl() as int, value), ..self }
        } else if index == 7 {
            Cpu { reg: Register { a: value, ..self.reg }, ..self }
        } else {
            self
        }
    }

    /// The processor at power-up: registers as `Register::new` sets them,
    /// memory zeroed, clocks at zero, not halted, no interrupt request.
    pub open spec fn is_power_up(self) -> bool {
        &&& self.reg == Register::power_up()
        &&& self.mmu.is_zeroed()
        &&& self.current_opcode == 0
        &&& self.clock_m == 0
        &&& self.clock_t == 0
        &&& self.m == 0
        &&& !self.halted
        &&& !self.ei
        &&& !self.di
    }

    pub fn new() -> (cpu: Self)
        ensures
            cpu.is_power_up(),
    {
        Self {
            reg: Register::new(),
            mmu: Mmu::new(),
            current_opcode: 0,
            clock_m: 0,
            clock_t: 0,
            m: 0,
            halted: false,
            ei: false,
            di: false,
        }
    }

    // --------------------------- flags -----------------------------------------------

    /// Clears the zero, half-carry and carry flags.
    pub(crate) fn reset_flags(&mut self)
        ensures
            *final(self) == old(self).with_f(
                old(self).reg.f & !ZERO_MASK & !HALF_CARRY_MASK & !CARRY_MASK,
            ),
    {
        self.reg.f &= !u8::from(Flags::Zero);
        self.reg.f &= !u8::from(Flags::HalfCarry);
        self.reg.f &= !u8::from(Flags::Carry);
    }

    /// The bit of register `F` that `flag` stands for (not whether it is set).
    pub(crate) fn get_flag(&self, flag: Flags) -> (mask: u8)
        ensures
            mask == flag_mask(flag),
    {
        u8::from(flag)
    }

    pub(crate) fn set_flag(&mut self, flag: Flags)
        ensures
            *final(self) == old(self).with_f(old(self).reg.f | flag_mask(flag)),
    {
        self.reg.f |= u8::from(flag);
    }

    pub(crate) fn unset_flag(&mut self, flag: Flags)
        ensures
            *final(self) == old(self).with_f(old(self).reg.f & !flag_mask(flag)),
    {
        self.reg.f &= !u8::from(flag);
    }

    pub(crate) fn flag_is_active(&self, flag: Flags) -> (active: bool)
        ensures
            active == self.flag_set(flag_mask(flag)),
    {
        let mask = u8::from(flag);
        self.reg.f & mask == mask
    }

    /// Sets `flag` when `condition` holds and clears it otherwise.
    pub(crate) fn set_flag_on_if(&mut self, flag: Flags, condition: bool)
        ensures
            *final(self) == old(self).with_f(flag_if(old(self).reg.f, flag_mask(flag), condition)),
    {
        if condition {
            self.set_flag(flag);
        } else {
            self.unset_flag(flag);
        }
    }

    /// Reads the operand that a register index names (see `register_value`).
    pub(crate) fn get_src_register(&self, src_register: u8) -> (value: u8)
        requires
            self.register_readable(src_register),
        ensures
            value == self.register_value(src_register),
    {
        match src_register {
            0 => self.reg.b,
            1 => self.reg.c,
            2 => self.reg.d,
            3 => self.reg.e,
            4 => self.reg.h,
            5 => self.reg.l,
            6 => self.mmu.working_ram[self.reg.get_hl() as usize],
            7 => self.reg.a,
            _ => u8::MAX,
        }
    }

    /// Copies the operand named by `src_register` into the one named by `dest_register`.
    pub(crate) fn set_register(&mut self, dest_register: u8, src_register: u8)
        requires
            old(self).register_readable(dest_register),
            old(self).register_readable(src_register),
        ensures
            *final(self) == old(self).with_register_value(
                dest_register,
                old(self).register_value(src_register),
            ),
    {
        match dest_register {
            0 => self.reg.b = self.get_src_register(src_register),
            1 => self.reg.c = self.get_src_register(src_register),
            2 => self.reg.d = self.get_src_register(src_register),
            3 => self.reg.e = self.get_src_register(src_register),
            4 => self.reg.h = self.get_src_register(src_register),
            5 => self.reg.l = self.get_src_register(src_register),
            6 => {
                let value = self.get_src_register(src_register);
                self.mmu.working_ram[self.reg.get_hl() as usize] = value;
            },
            7 => self.reg.a = self.get_src_register(src_register),
            _ => {},
        }
    }
    /// The state once the opcode at the program counter has been fetched: it
    /// becomes the current opcode and the program counter moves past it.
    pub open spec fn fetched(self) -> Cpu {
        Cpu {
            current_opcode: self.mmu.byte_at(self.reg.pc as int),
            reg: Register { pc: (self.reg.pc + 1) as u16, ..self.reg },
            ..self
        }
    }

    /// When the instruction for the current opcode can run; an opcode without
    /// an instruction can always "run", doing nothing.
    pub open spec fn pre_execute(self) -> bool {
        match self.current_opcode {
            0x00 => self.pre_nop(),
            0x01 => self.pre_load_bc(),
            0x02 => self.pre_load_bc_a(),
            0x03 => self.pre_inc_bc(),
            0x04 => self.pre_inc_b(),
            0x05 => self.pre_dec_b(),
            0x06 => self.pre_load_b(),
            0x07 => self.pre_rlca(),
            0x08 => self.pre_load_sp_at_addr(),
            0x09 => self.pre_add_hl_bc(),
            0x0A => self.pre_ld_a_bc(),
            0x0B => self.pre_dec_bc(),
            0x0C => self.pre_inc_c(),
            0x0D => self.pre_dec_c(),
            0x0E => self.pre_ld_c(),
            0x0F => self.pre_rrca(),
            0x10 => true,
            0x11 => self.pre_ld_de(),
            0x12 => self.pre_ld_a(),
            0x13 => self.pre_inc_de(),
            0x14 => self.pre_inc_d(),
            0x15 => self.pre_dec_d(),
            0x16 => self.pre_ld_d(),
            0x17 => self.pre_rla(),
            0x18 => self.pre_jr(),
            0x19 => self.pre_add_hl_de(),
            0x1A => self.pre_ld_a_de(),
            0x1B => self.pre_dec_de(),
            0x1C => self.pre_inc_e(),
            0x1D => self.pre_dec_e(),
            0x1E => self.pre_ld_e(),
            0x1F => self.pre_rra(),
            0x20 => self.pre_jr_nz(),
            0x21 => self.pre_ld_hl(),
            0x22 => self.pre_ld_hl_inc_a(),
            0x23 => self.pre_inc_hl(),
            0x24 => self.pre_inc_h(),
            0x25 => self.pre_dec_h(),
            0x26 => self.pre_ld_h(),
            0x27 => self.pre_daa(),
            0x28 => self.pre_jr_z(),
            0x29 => self.pre_add_hl_hl(),
            0x2A => self.pre_ld_a_hl_plus(),
            0x2B => self.pre_dec_hl(),
            0x2C => self.pre_inc_l(),
            0x2D => self.pre_dec_l(),
            0x2E => self.pre_ld_l(),
            0x2F => self.pre_cpl(),
            0x30 => self.pre_jr_nc(),
            0x31 => self.pre_ld_sp(),
            0x32 => self.pre_ld_hlm_a(),
            0x33 => self.pre_inc_sp(),
            0x34 => self.pre_inc_content_at_hl(),
            0x35 => self.pre_dec_content_at_hl(),
            0x36 => self.pre_ld_hl_byte(),
            0x37 => self.pre_scf(),
            0x38 => self.pre_jr_c(),
            0x39 => self.pre_add_hl_sp(),
            0x3A => self.pre_ld_a_hl_dec(),
            0x3B => self.pre_dec_sp(),
            0x3C => self.pre_inc_a(),
            0x3D => self.pre_dec_a(),
            0x3E => self.pre_ld_a_byte(),
            0x3F => self.pre_ccf(),
            0xC0 => self.pre_ret_nz(),
            0xC1 => self.pre_pop_bc(),
            0xC2 => self.pre_jp_nz(),
            0xC3 => self.pre_jp(),
            0xC4 => self.pre_call_nz(),
            0xC5 => self.pre_push_bc(),
            0xC6 => self.pre_add_a_byte(),
            0xC7 => self.pre_rst_zero(),
            0xC8 => self.pre_ret_z(),
            0xC9 => self.pre_ret(),
            0xCA => self.pre_jp_z(),
            0xCC => self.pre_call_z(),
            0xCD => self.pre_call(),
            0xCE => self.pre_adc_a(),
            0xCF => self.pre_rst_one(),
            0xD0 => self.pre_ret_nc(),
            0xD1 => self.pre_pop_de(),
            0xD2 => self.pre_jp_nc(),
            0xD4 => self.pre_call_nc(),
            0xD5 => self.pre_push_de(),
            0xD6 => self.pre_sub(),
            0xD7 => self.pre_rst_two(),
            0xD8 => self.pre_ret_c(),
            0xD9 => self.pre_reti(),
            0xDA => self.pre_jp_c(),
            0xDC => self.pre_call_c(),
            0xDE => self.pre_sbc_a(),
            0xDF => self.pre_rst_three(),
            0xE0 => self.pre_ld_addr_a(),
            0xE1 => self.pre_pop_hl(),
            0xE2 => true,
            0xE5 => self.pre_push_hl(),
            0xE6 => self.pre_and_a(),
            0xE7 => self.pre_rst_four(),
            0xE8 => self.pre_add_sp(),
            0xE9 => true,
            0xEA => self.pre_ld_addr_a16_a(),
            0xEE => self.pre_xor_d8(),
            0xEF => self.pre_rst_five(),
            0xF0 => self.pre_ld_a_a8(),
            0xF1 => self.pre_pop_af(),
            0xF2 => true,
            0xF3 => true,
            0xF5 => self.pre_push_af(),
            0xF6 => self.pre_or_d8(),
            0xF7 => self.pre_rst_six(),
            0xF8 => self.pre_ld_hl_sp_s8(),
            0xF9 => true,
            0xFA => self.pre_ld_a_a16(),
            0xFB => true,
            0xFE => self.pre_cp_d8(),
            0xFF => self.pre_rst_seven(),
            _ => {
                if 0x40 <= self.current_opcode <= 0x7F {
                    self.pre_parse_load_opcodes()
                } else if 0x80 <= self.current_opcode <= 0x9F {
                    self.pre_parse_math_opcodes()
                } else if 0xA0 <= self.current_opcode <= 0xA7 {
                    self.pre_parse_and_opcodes()
                } else if 0xA8 <= self.current_opcode <= 0xAF {
                    self.pre_parse_xor_opcodes()
                } else if 0xB0 <= self.current_opcode <= 0xB7 {
                    self.pre_parse_or_opcodes()
                } else if 0xB8 <= self.current_opcode <= 0xBF {
                    self.pre_parse_cp_opcodes()
                } else {
                    true
                }
            },
        }
    }

    /// The state that the instruction for the current opcode leaves; unchanged
    /// for an opcode without an instruction.
    pub open spec fn post_execute(self) -> Cpu {
        match self.current_opcode {
            0x00 => self.post_nop(),
            0x01 => self.post_load_bc(),
            0x02 => self.post_load_bc_a(),
            0x03 => self.post_inc_bc(),
            0x04 => self.post_inc_b(),
            0x05 => self.post_dec_b(),
            0x06 => self.post_load_b(),
            0x07 => self.post_rlca(),
            0x08 => self.post_load_sp_at_addr(),
            0x09 => self.post_add_hl_bc(),
            0x0A => self.post_ld_a_bc(),
            0x0B => self.post_dec_bc(),
            0x0C => self.post_inc_c(),
            0x0D => self.post_dec_c(),
            0x0E => self.post_ld_c(),
            0x0F => self.post_rrca(),
            0x10 => self.post_stop(),
            0x11 => self.post_ld_de(),
            0x12 => self.post_ld_a(),
            0x13 => self.post_inc_de(),
            0x14 => self.post_inc_d(),
            0x15 => self.post_dec_d(),
            0x16 => self.post_ld_d(),
            0x17 => self.post_rla(),
            0x18 => self.post_jr(),
            0x19 => self.post_add_hl_de(),
            0x1A => self.post_ld_a_de(),
            0x1B => self.post_dec_de(),
            0x1C => self.post_inc_e(),
            0x1D => self.post_dec_e(),
            0x1E => self.post_ld_e(),
            0x1F => self.post_rra(),
            0x20 => self.post_jr_nz(),
            0x21 => self.post_ld_hl(),
            0x22 => self.post_ld_hl_inc_a(),
            0x23 => self.post_inc_hl(),
            0x24 => self.post_inc_h(),
            0x25 => self.post_dec_h(),
            0x26 => self.post_ld_h(),
            0x27 => self.post_daa(),
            0x28 => self.post_jr_z(),
            0x29 => self.post_add_hl_hl(),
            0x2A => self.post_ld_a_hl_plus(),
            0x2B => self.post_dec_hl(),
            0x2C => self.post_inc_l(),
            0x2D => self.post_dec_l(),
            0x2E => self.post_ld_l(),
            0x2F => self.post_cpl(),
            0x30 => self.post_jr_nc(),
            0x31 => self.post_ld_sp(),
            0x32 => self.post_ld_hlm_a(),
            0x33 => self.post_inc_sp(),
            0x34 => self.post_inc_content_at_hl(),
            0x35 => self.post_dec_content_at_hl(),
            0x36 => self.post_ld_hl_byte(),
            0x37 => self.post_scf(),
            0x38 => self.post_jr_c(),
            0x39 => self.post_add_hl_sp(),
            0x3A => self.post_ld_a_hl_dec(),
            0x3B => self.post_dec_sp(),
            0x3C => self.post_inc_a(),
            0x3D => self.post_dec_a(),
            0x3E => self.post_ld_a_byte(),
            0x3F => self.post_ccf(),
            0xC0 => self.post_ret_nz(),
            0xC1 => self.post_pop_bc(),
            0xC2 => self.post_jp_nz(),
            0xC3 => self.post_jp(),
            0xC4 => self.post_call_nz(),
            0xC5 => self.post_push_bc(),
            0xC6 => self.post_add_a_byte(),
            0xC7 => self.post_rst_zero(),
            0xC8 => self.post_ret_z(),
            0xC9 => self.post_ret(),
            0xCA => self.post_jp_z(),
            0xCC => self.post_call_z(),
            0xCD => self.post_call(),
            0xCE => self.post_adc_a(),
            0xCF => self.post_rst_one(),
            0xD0 => self.post_ret_nc(),
            0xD1 => self.post_pop_de(),
            0xD2 => self.post_jp_nc(),
            0xD4 => self.post_call_nc(),
            0xD5 => self.post_push_de(),
            0xD6 => self.post_sub(),
            0xD7 => self.post_rst_two(),
            0xD8 => self.post_ret_c(),
            0xD9 => self.post_reti(),
            0xDA => self.post_jp_c(),
            0xDC => self.post_call_c(),
            0xDE => self.post_sbc_a(),
            0xDF => self.post_rst_three(),
            0xE0 => self.post_ld_addr_a(),
            0xE1 => self.post_pop_hl(),
            0xE2 => self.post_ld_addr_c_a(),
            0xE5 => self.post_push_hl(),
            0xE6 => self.post_and_a(),
            0xE7 => self.post_rst_four(),
            0xE8 => self.post_add_sp(),
            0xE9 => self.post_jp_hl(),
            0xEA => self.post_ld_addr_a16_a(),
            0xEE => self.post_xor_d8(),
            0xEF => self.post_rst_five(),
            0xF0 => self.post_ld_a_a8(),
            0xF1 => self.post_pop_af(),
            0xF2 => self.post_ld_a_c_addr(),
            0xF3 => self.post_di(),
            0xF5 => self.post_push_af(),
            0xF6 => self.post_or_d8(),
            0xF7 => self.post_rst_six(),
            0xF8 => self.post_ld_hl_sp_s8(),
            0xF9 => self.post_ld_sp_hl(),
            0xFA => self.post_ld_a_a16(),
            0xFB => self.post_ei(),
            0xFE => self.post_cp_d8(),
            0xFF => self.post_rst_seven(),
            _ => {
                if 0x40 <= self.current_opcode <= 0x7F {
                    self.post_parse_load_opcodes()
                } else if 0x80 <= self.current_opcode <= 0x9F {
                    self.post_parse_math_opcodes()
                } else if 0xA0 <= self.current_opcode <= 0xA7 {
                    self.post_parse_and_opcodes()
                } else if 0xA8 <= self.current_opcode <= 0xAF {
                    self.post_parse_xor_opcodes()
                } else if 0xB0 <= self.current_opcode <= 0xB7 {
                    self.post_parse_or_opcodes()
                } else if 0xB8 <= self.current_opcode <= 0xBF {
                    self.post_parse_cp_opcodes()
                } else {
                    self
                }
            },
        }
    }

    /// Fetches the opcode at the program counter, moves past it and executes
    /// the instruction it stands for. Returns whether the opcode has an
    /// instruction; an opcode without one leaves the state as fetched.
    pub fn decode_execute(&mut self) -> (known: bool)
        requires
            old(self).reg.pc < WORKING_RAM_BYTES,
            old(self).fetched().pre_execute(),
        ensures
            *final(self) == old(self).fetched().post_execute(),
            known == is_known_opcode(old(self).mmu.byte_at(old(self).reg.pc as int)),
    {
        self.current_opcode = self.mmu.read_byte(self.reg.pc.into());
        self.reg.pc += 1;
        match self.current_opcode {
            0x00 => self.nop(),
            0x01 => self.load_bc(),
            0x02 => self.load_bc_a(),
            0x03 => self.inc_bc(),
            0x04 => self.inc_b(),
            0x05 => self.dec_b(),
            0x06 => self.load_b(),
            0x07 => self.rlca(),
            0x08 => self.load_sp_at_addr(),
            0x09 => self.add_hl_bc(),
            0x0A => self.ld_a_bc(),
            0x0B => self.dec_bc(),
            0x0C => self.inc_c(),
            0x0D => self.dec_c(),
            0x0E => self.ld_c(),
            0x0F => self.rrca(),
            0x10 => self.stop(),
            0x11 => self.ld_de(),
            0x12 => self.ld_a(),
            0x13 => self.inc_de(),
            0x14 => self.inc_d(),
            0x15 => self.dec_d(),
            0x16 => self.ld_d(),
            0x17 => self.rla(),
            0x18 => self.jr(),
            0x19 => self.add_hl_de(),
            0x1A => self.ld_a_de(),
            0x1B => self.dec_de(),
            0x1C => self.inc_e(),
            0x1D => self.dec_e(),
            0x1E => self.ld_e(),
            0x1F => self.rra(),
            0x20 => self.jr_nz(),
            0x21 => self.ld_hl(),
            0x22 => self.ld_hl_inc_a(),
            0x23 => self.inc_hl(),
            0x24 => self.inc_h(),
            0x25 => self.dec_h(),
            0x26 => self.ld_h(),
            0x27 => self.daa(),
            0x28 => self.jr_z(),
            0x29 => self.add_hl_hl(),
            0x2A => self.ld_a_hl_plus(),
            0x2B => self.dec_hl(),
            0x2C => self.inc_l(),
            0x2D => self.dec_l(),
            0x2E => self.ld_l(),
            0x2F => self.cpl(),
            0x30 => self.jr_nc(),
            0x31 => self.ld_sp(),
            0x32 => self.ld_hlm_a(),
            0x33 => self.inc_sp(),
            0x34 => self.inc_content_at_hl(),
            0x35 => self.dec_content_at_hl(),
            0x36 => self.ld_hl_byte(),
            0x37 => self.scf(),
            0x38 => self.jr_c(),
            0x39 => self.add_hl_sp(),
            0x3A => self.ld_a_hl_dec(),
            0x3B => self.dec_sp(),
            0x3C => self.inc_a(),
            0x3D => self.dec_a(),
            0x3E => self.ld_a_byte(),
            0x3F => self.ccf(),
            0x40..=0x7F => self.parse_load_opcodes(),
            0x80..=0x9F => self.parse_math_opcodes(),
            0xA0..=0xA7 => self.parse_and_opcodes(),
            0xA8..=0xAF => self.parse_xor_opcodes(),
            0xB0..=0xB7 => self.parse_or_opcodes(),
            0xB8..=0xBF => self.parse_cp_opcodes(),
            0xC0 => self.ret_nz(),
            0xC1 => self.pop_bc(),
            0xC2 => self.jp_nz(),
            0xC3 => self.jp(),
            0xC4 => self.call_nz(),
            0xC5 => self.push_bc(),
            0xC6 => self.add_a_byte(),
            0xC7 => self.rst_zero(),
            0xC8 => self.ret_z(),
            0xC9 => self.ret(),
            0xCA => self.jp_z(),
            0xCC => self.call_z(),
            0xCD => self.call(),
            0xCE => self.adc_a(),
            0xCF => self.rst_one(),
            0xD0 => self.ret_nc(),
            0xD1 => self.pop_de(),
            0xD2 => self.jp_nc(),
            0xD4 => self.call_nc(),
            0xD5 => self.push_de(),
            0xD6 => self.sub(),
            0xD7 => self.rst_two(),
            0xD8 => self.ret_c(),
            0xD9 => self.reti(),
            0xDA => self.jp_c(),
            0xDC => self.call_c(),
            0xDE => self.sbc_a(),
            0xDF => self.rst_three(),
            0xE0 => self.ld_addr_a(),
            0xE1 => self.pop_hl(),
            0xE2 => self.ld_addr_c_a(),
            0xE5 => self.push_hl(),
            0xE6 => self.and_a(),
            0xE7 => self.rst_four(),
            0xE8 => self.add_sp(),
            0xE9 => self.jp_hl(),
            0xEA => self.ld_addr_a16_a(),
            0xEE => self.xor_d8(),
            0xEF => self.rst_five(),
            0xF0 => self.ld_a_a8(),
            0xF1 => self.pop_af(),
            0xF2 => self.ld_a_c_addr(),
            0xF3 => self.di(),
            0xF5 => self.push_af(),
            0xF6 => self.or_d8(),
            0xF7 => self.rst_six(),
            0xF8 => self.ld_hl_sp_s8(),
            0xF9 => self.ld_sp_hl(),
            0xFA => self.ld_a_a16(),
            0xFB => self.ei(),
            0xFE => self.cp_d8(),
            0xFF => self.rst_seven(),
            _ => {
                return false;
            },
        }
        true
    }
}

/// First address past working RAM, for bounds checked on 32-bit sums.
const RAM_END: u32 = 0x8000;

impl Cpu {
    /// Whether the instruction for `opcode` can run with the program counter
    /// at `pc` and the rest of the state as it is.
    fn ready_at(&self, opcode: u8, pc: u32) -> (ready: bool)
        requires
            pc <= 0xFFFF,
        ensures
            ready == (Cpu {
                current_opcode: opcode,
                reg: Register { pc: pc as u16, ..self.reg },
                ..*self
            }).pre_execute(),
    {
        match opcode {
            0x00 => pc < 0xFFFF,
            0x01 => pc + 4 < RAM_END,
            0x02 => (self.reg.get_bc() as u32) < RAM_END && pc < 0xFFFF,
            0x03 => (self.reg.get_bc() as u32) < 0xFFFF && pc < 0xFFFF,
            0x04 => pc < 0xFFFF,
            0x05 => pc < 0xFFFF,
            0x06 => pc + 2 < RAM_END,
            0x07 => pc < 0xFFFF,
            0x08 => pc + 4 < RAM_END,
            0x09 => pc < 0xFFFF,
            0x0A => (self.reg.get_bc() as u32) < RAM_END && pc < 0xFFFF,
            0x0B => (self.reg.get_bc() as u32) > 0 && pc < 0xFFFF,
            0x0C => pc < 0xFFFF,
            0x0D => pc < 0xFFFF,
            0x0E => pc + 2 < RAM_END,
            0x0F => pc < 0xFFFF,
            0x10 => true,
            0x11 => pc + 4 < RAM_END,
            0x12 => (self.reg.get_de() as u32) < RAM_END && pc < 0xFFFF,
            0x13 => pc < 0xFFFF,
            0x14 => pc < 0xFFFF,
            0x15 => pc < 0xFFFF,
            0x16 => pc < RAM_END,
            0x17 => pc < 0xFFFF,
            0x18 => pc < RAM_END,
            0x19 => pc < 0xFFFF,
            0x1A => (self.reg.get_de() as u32) < RAM_END && pc < 0xFFFF,
            0x1B => pc < 0xFFFF,
            0x1C => pc < 0xFFFF,
            0x1D => pc < 0xFFFF,
            0x1E => pc < RAM_END,
            0x1F => pc < 0xFFFF,
            0x20 => if self.reg.f & ZERO_MASK != ZERO_MASK { pc < RAM_END } else { pc < 0xFFFF },
            0x21 => pc + 1 < RAM_END,
            0x22 => (self.reg.get_hl() as u32) < RAM_END && pc < 0xFFFF,
            0x23 => pc < 0xFFFF,
            0x24 => pc < 0xFFFF,
            0x25 => pc < 0xFFFF,
            0x26 => pc < RAM_END,
            0x27 => pc < 0xFFFF,
            0x28 => if self.reg.f & ZERO_MASK == ZERO_MASK { pc < RAM_END } else { pc < 0xFFFF },
            0x29 => pc < 0xFFFF,
            0x2A => (self.reg.get_hl() as u32) < RAM_END && pc < 0xFFFF,
            0x2B => pc < 0xFFFF,
            0x2C => pc < 0xFFFF,
            0x2D => pc < 0xFFFF,
            0x2E => pc < RAM_END,
            0x2F => pc < 0xFFFF,
            0x30 => if self.reg.f & CARRY_MASK != CARRY_MASK { pc < RAM_END } else { pc < 0xFFFF },
            0x31 => pc + 1 < RAM_END,
            0x32 => (self.reg.get_hl() as u32) < RAM_END && pc < 0xFFFF,
            0x33 => pc < 0xFFFF,
            0x34 => (self.reg.get_hl() as u32) < RAM_END && self.mmu.read_byte(self.reg.get_hl() as usize) < 0xFF && pc < 0xFFFF,
            0x35 => (self.reg.get_hl() as u32) < RAM_END && self.mmu.read_byte(self.reg.get_hl() as usize) > 0 && pc < 0xFFFF,
            0x36 => (self.reg.get_hl() as u32) < RAM_END && pc < RAM_END,
            0x37 => pc < 0xFFFF,
            0x38 => if self.reg.f & CARRY_MASK == CARRY_MASK { pc < RAM_END } else { pc < 0xFFFF },
            0x39 => pc < 0xFFFF,
            0x3A => (self.reg.get_hl() as u32) < RAM_END && pc < 0xFFFF,
            0x3B => pc < 0xFFFF,
            0x3C => pc < 0xFFFF,
            0x3D => pc < 0xFFFF,
            0x3E => pc < RAM_END,
            0x3F => pc < 0xFFFF,
            0xC0 => if self.reg.f & ZERO_MASK != ZERO_MASK {
        (self.reg.sp as u32) + 1 < RAM_END && self.mmu.read_word((self.reg.sp as u32) as usize) < 0xFFFF
    } else {
        pc < 0xFFFF
    },
            0xC1 => (self.reg.sp as u32) + 1 < RAM_END && pc < 0xFFFF,
            0xC2 => if self.reg.f & ZERO_MASK != ZERO_MASK { pc + 1 < RAM_END } else { pc < 0xFFFF },
            0xC3 => pc + 1 < RAM_END,
            0xC4 => if self.reg.f & ZERO_MASK != ZERO_MASK { (self.reg.sp as u32) >= 2 && (self.reg.sp as u32) - 1 < RAM_END && pc + 1 < RAM_END } else { pc < 0xFFFE },
            0xC5 => (self.reg.sp as u32) >= 2 && (self.reg.sp as u32) - 1 < RAM_END && pc < 0xFFFF,
            0xC6 => pc < RAM_END,
            0xC7 => (self.reg.sp as u32) >= 2 && (self.reg.sp as u32) - 1 < RAM_END,
            0xC8 => self.reg.f & ZERO_MASK != ZERO_MASK || (self.reg.sp as u32) + 1 < RAM_END,
            0xC9 => (self.reg.sp as u32) + 1 < RAM_END,
            0xCA => if self.reg.f & ZERO_MASK == ZERO_MASK { pc + 1 < RAM_END } else { pc < 0xFFFE },
            0xCC => if self.reg.f & ZERO_MASK == ZERO_MASK { (self.reg.sp as u32) >= 2 && (self.reg.sp as u32) - 1 < RAM_END && pc + 1 < RAM_END } else { pc < 0xFFFE },
            0xCD => (self.reg.sp as u32) >= 2 && (self.reg.sp as u32) - 1 < RAM_END && pc + 1 < RAM_END,
            0xCE => pc < RAM_END,
            0xCF => (self.reg.sp as u32) >= 2 && (self.reg.sp as u32) - 1 < RAM_END,
            0xD0 => self.reg.f & CARRY_MASK == CARRY_MASK || (self.reg.sp as u32) + 1 < RAM_END,
            0xD1 => (self.reg.sp as u32) + 1 < RAM_END,
            0xD2 => if self.reg.f & CARRY_MASK != CARRY_MASK { pc + 1 < RAM_END } else { pc < 0xFFFE },
            0xD4 => if self.reg.f & CARRY_MASK != CARRY_MASK { (self.reg.sp as u32) >= 2 && (self.reg.sp as u32) - 1 < RAM_END && pc + 1 < RAM_END } else { pc < 0xFFFE },
            0xD5 => (self.reg.sp as u32) >= 2 && (self.reg.sp as u32) - 1 < RAM_END,
            0xD6 => pc < RAM_END,
            0xD7 => (self.reg.sp as u32) >= 2 && (self.reg.sp as u32) - 1 < RAM_END,
            0xD8 => pc < 0xFFFF && (self.reg.f & CARRY_MASK != CARRY_MASK || (self.reg.sp as u32) + 1 < RAM_END),
            0xD9 => (self.reg.sp as u32) + 1 < RAM_END,
            0xDA => if self.reg.f & CARRY_MASK == CARRY_MASK { pc + 1 < RAM_END } else { pc < 0xFFFE },
            0xDC => if self.reg.f & CARRY_MASK == CARRY_MASK { (self.reg.sp as u32) >= 2 && (self.reg.sp as u32) - 1 < RAM_END && pc + 1 < RAM_END } else { pc < 0xFFFE },
            0xDE => pc < RAM_END,
            0xDF => (self.reg.sp as u32) >= 2 && (self.reg.sp as u32) - 1 < RAM_END && pc < 0xFFFF,
            0xE0 => pc < RAM_END,
            0xE1 => (self.reg.sp as u32) + 1 < RAM_END,
            0xE2 => true,
            0xE5 => (self.reg.sp as u32) >= 2 && (self.reg.sp as u32) - 1 < RAM_END,
            0xE6 => pc < RAM_END,
            0xE7 => (self.reg.sp as u32) >= 2 && (self.reg.sp as u32) - 1 < RAM_END,
            0xE8 => pc < RAM_END,
            0xE9 => true,
            0xEA => pc + 1 < RAM_END && (self.mmu.read_word(pc as usize) as u32) < RAM_END,
            0xEE => pc < RAM_END,
            0xEF => (self.reg.sp as u32) >= 2 && (self.reg.sp as u32) - 1 < RAM_END && pc < 0xFFFF,
            0xF0 => pc < RAM_END,
            0xF1 => pc < 0xFFFF && (self.reg.sp as u32) + 1 < RAM_END,
            0xF2 => true,
            0xF3 => true,
            0xF5 => (self.reg.sp as u32) >= 2 && (self.reg.sp as u32) - 1 < RAM_END && pc < 0xFFFF,
            0xF6 => pc < RAM_END,
            0xF7 => (self.reg.sp as u32) >= 2 && (self.reg.sp as u32) - 1 < RAM_END,
            0xF8 => pc < RAM_END,
            0xF9 => true,
            0xFA => pc + 4 < RAM_END && (self.mmu.read_word((pc + 3) as usize) as u32) < RAM_END,
            0xFB => true,
            0xFE => pc < RAM_END,
            0xFF => (self.reg.sp as u32) >= 2 && (self.reg.sp as u32) - 1 < RAM_END,
            _ => {
                if 0x40 <= opcode && opcode <= 0x7F {
                    pc < 0xFFFF && (opcode == 0x76 || (((opcode & 0x7) != 6 || self.reg.get_hl() < RAM_END as u16) && (((opcode >> 3u8)
                        & 0x7) != 6 || self.reg.get_hl() < RAM_END as u16)))
                } else if 0x80 <= opcode && opcode <= 0x9F {
                    pc < 0xFFFF && ((opcode & 0x7) != 6 || self.reg.get_hl() < RAM_END as u16)
                } else if 0xA0 <= opcode && opcode <= 0xBF {
                    pc < 0xFFFF && ((opcode & 0x7) != 6 || self.reg.get_hl() < RAM_END as u16)
                } else {
                    true
                }
            },
        }
    }

    /// Whether `decode_execute` can run from this state: the opcode lies in
    /// working RAM, and the instruction it names touches only working RAM and
    /// its checked arithmetic does not overflow.
    pub fn can_execute(&self) -> (ready: bool)
        ensures
            ready == (self.reg.pc < WORKING_RAM_BYTES && self.fetched().pre_execute()),
    {
        if self.reg.pc as usize >= WORKING_RAM_BYTES {
            return false;
        }
        let opcode = self.mmu.read_byte(self.reg.pc as usize);
        self.ready_at(opcode, self.reg.pc as u32 + 1)
    }
}

} // verus!
