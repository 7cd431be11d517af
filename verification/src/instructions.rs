use vstd::prelude::*;
use crate::cpu::{Cpu, flag_if, sign_extend};
use crate::mmu::{WORKING_RAM_BYTES, lemma_word_write_then_read};
use crate::register::{lemma_pair_write_then_read, lemma_pair_write_is_local};
use crate::register::{Flags, Register, high_byte, ZERO_MASK, OPERATION_MASK, HALF_CARRY_MASK, CARRY_MASK};

verus! {

/// An 8-bit two's-complement value widened to 16 bits.
fn signed_offset(b: u8) -> (offset: u16)
    ensures
        offset == sign_extend(b),
{
    let offset = b as i8 as i16 as u16;
    assert((b < 0x80 ==> (b as i8 as i16 as u16) == b as u16) && (b >= 0x80 ==> (b as i8 as i16
        as u16) == (b + 0xFF00) as u16)) by (bit_vector);
    offset
}

impl Cpu {
    /// When `nop` can run: the memory it touches lies in working RAM and
    /// its checked arithmetic does not overflow.
    pub open spec fn pre_nop(self) -> bool {
        self.reg.pc < 0xFFFF
    }

    /// The state that `nop` leaves.
    pub open spec fn post_nop(self) -> Cpu {
        Cpu { reg: Register { pc: (self.reg.pc + 1) as u16, ..self.reg }, m: 1, ..self }
    }

    /// No operation; only advances the program counter by 1.
    pub fn nop(&mut self)
        requires
            old(self).pre_nop(),
        ensures
            *final(self) == old(self).post_nop(),
    {
        self.reg.pc += 1;
        self.m = 1;
    }

    /// When `load_bc` can run: the memory it touches lies in working RAM and
    /// its checked arithmetic does not overflow.
    pub open spec fn pre_load_bc(self) -> bool {
        self.reg.pc + 4 < WORKING_RAM_BYTES
    }

    /// The state that `load_bc` leaves.
    pub open spec fn post_load_bc(self) -> Cpu {
        let pc = (self.reg.pc + 3) as u16;
        Cpu { reg: Register { pc, ..self.reg }.with_bc(self.mmu.word_at(pc as int)), m: 3, ..self }
    }

    /// Loads the 2-byte immediate into `BC`; the operand is read after the
    /// program counter has moved past the instruction.
    pub fn load_bc(&mut self)
        requires
            old(self).pre_load_bc(),
        ensures
            *final(self) == old(self).post_load_bc(),
    {
        self.m = 3;
        self.reg.pc += 3;
        self.reg.set_bc(self.mmu.read_word(self.reg.pc.into()));
    }

    /// When `load_bc_a` can run: the memory it touches lies in working RAM and
    /// its checked arithmetic does not overflow.
    pub open spec fn pre_load_bc_a(self) -> bool {
        self.reg.bc() < WORKING_RAM_BYTES && self.reg.pc < 0xFFFF
    }

    /// The state that `load_bc_a` leaves.
    pub open spec fn post_load_bc_a(self) -> Cpu {
        Cpu {
            reg: Register { pc: (self.reg.pc + 1) as u16, ..self.reg },
            mmu: self.mmu.with_byte(self.reg.bc() as int, self.reg.a),
            m: 2,
            ..self
        }
    }

    /// Stores `A` at the address in `BC`.
    pub fn load_bc_a(&mut self)
        requires
            old(self).pre_load_bc_a(),
        ensures
            *final(self) == old(self).post_load_bc_a(),
    {
        self.m = 2;
        self.mmu.working_ram[self.reg.get_bc() as usize] = self.reg.a;
        self.reg.pc += 1;
    }

    /// When `inc_bc` can run: the memory it touches lies in working RAM and
    /// its checked arithmetic does not overflow.
    pub open spec fn pre_inc_bc(self) -> bool {
        self.reg.bc() < 0xFFFF && self.reg.pc < 0xFFFF
    }

    /// The state that `inc_bc` leaves.
    pub open spec fn post_inc_bc(self) -> Cpu {
        Cpu {
            reg: Register { pc: (self.reg.pc + 1) as u16, ..self.reg }.with_bc((self.reg.bc() + 1) as u16),
            m: 2,
            ..self
        }
    }

    /// Increments `BC`.
    pub fn inc_bc(&mut self)
        requires
            old(self).pre_inc_bc(),
        ensures
            *final(self) == old(self).post_inc_bc(),
    {
        self.m = 2;
        self.reg.set_bc(self.reg.get_bc() + 1);
        self.reg.pc += 1;
    }

    /// When `inc_b` can run: the memory it touches lies in working RAM and
    /// its checked arithmetic does not overflow.
    pub open spec fn pre_inc_b(self) -> bool {
        self.reg.pc < 0xFFFF
    }

    /// The state that `inc_b` leaves.
    pub open spec fn post_inc_b(self) -> Cpu {
        let v = self.reg.b.wrapping_add(1);
        let f = flag_if(flag_if(self.reg.f & !OPERATION_MASK, HALF_CARRY_MASK, v > 0xF), ZERO_MASK, v == 0);
        Cpu { reg: Register { b: v, f, pc: (self.reg.pc + 1) as u16, ..self.reg }, m: 1, ..self }
    }

    /// Increments `B`; clears the subtraction flag, sets the half-carry flag when
    /// the result is above `0xF` and the zero flag when it is zero.
    pub fn inc_b(&mut self)
        requires
            old(self).pre_inc_b(),
        ensures
            *final(self) == old(self).post_inc_b(),
    {
        self.m = 1;
        self.reg.b = self.reg.b.wrapping_add(1);
        self.unset_flag(Flags::Operation);
        // set half carry flag if we overflowed the lower 4-bits
        self.set_flag_on_if(Flags::HalfCarry, self.reg.b > 0xF);
        self.set_flag_on_if(Flags::Zero, self.reg.b == 0);
        self.reg.pc += 1;
    }

    /// When `dec_b` can run: the memory it touches lies in working RAM and
    /// its checked arithmetic does not overflow.
    pub open spec fn pre_dec_b(self) -> bool {
        self.reg.pc < 0xFFFF
    }

    /// The state that `dec_b` leaves.
    pub open spec fn post_dec_b(self) -> Cpu {
        let v = self.reg.b.wrapping_sub(1);
        let f = flag_if(flag_if(self.reg.f | OPERATION_MASK, ZERO_MASK, v == 0), HALF_CARRY_MASK, v & 0xF == 0);
        Cpu { reg: Register { b: v, f, pc: (self.reg.pc + 1) as u16, ..self.reg }, m: 1, ..self }
    }

    /// Decrements `B`; sets the subtraction flag, the zero flag when the result is
    /// zero and the half-carry flag when its lower nibble is zero.
    pub fn dec_b(&mut self)
        requires
            old(self).pre_dec_b(),
        ensures
            *final(self) == old(self).post_dec_b(),
    {
        self.m = 1;
        self.reg.b = self.reg.b.wrapping_sub(1);
        self.set_flag(Flags::Operation);
        self.set_flag_on_if(Flags::Zero, self.reg.b == 0);
        self.set_flag_on_if(Flags::HalfCarry, self.reg.b & 0xF == 0);
        self.reg.pc += 1;
    }

    /// When `load_b` can run: the memory it touches lies in working RAM and
    /// its checked arithmetic does not overflow.
    pub open spec fn pre_load_b(self) -> bool {
        self.reg.pc + 2 < WORKING_RAM_BYTES
    }

    /// The state that `load_b` leaves.
    pub open spec fn post_load_b(self) -> Cpu {
        let pc = (self.reg.pc + 2) as u16;
        Cpu { reg: Register { b: self.mmu.byte_at(pc as int), pc, ..self.reg }, m: 2, ..self }
    }

    /// Loads the immediate byte into `B`; the operand is read after the program
    /// counter has moved past the instruction.
    pub fn load_b(&mut self)
        requires
            old(self).pre_load_b(),
        ensures
            *final(self) == old(self).post_load_b(),
    {
        self.m = 2;
        self.reg.pc += 2;
        self.reg.b = self.mmu.read_byte(self.reg.pc.into());
    }

    /// When `rlca` can run: the memory it touches lies in working RAM and
    /// its checked arithmetic does not overflow.
    pub open spec fn pre_rlca(self) -> bool {
        self.reg.pc < 0xFFFF
    }

    /// The state that `rlca` leaves.
    pub open spec fn post_rlca(self) -> Cpu {
        let a = (self.reg.a << 1u8) | (if self.reg.a & 0x80 == 0x80 { 1u8 } else { 0u8 });
        let f = self.reg.f & !ZERO_MASK & !HALF_CARRY_MASK & !CARRY_MASK;
        Cpu { reg: Register { a, f, pc: (self.reg.pc + 1) as u16, ..self.reg }, m: 1, ..self }
    }

    /// Rotates `A` left, bit 7 moving into bit 0; clears the zero, half-carry and
    /// carry flags.
    pub fn rlca(&mut self)
        requires
            old(self).pre_rlca(),
        ensures
            *final(self) == old(self).post_rlca(),
    {
        self.m = 1;
        self.reset_flags();
        self.reg.a = (self.reg.a << 1u8) | (if self.reg.a & self.get_flag(Flags::Zero) == 0x80 {
            1
        } else {
            0
        });
        self.reg.pc += 1;
    }

    /// When `load_sp_at_addr` can run: the memory it touches lies in working RAM and
    /// its checked arithmetic does not overflow.
    pub open spec fn pre_load_sp_at_addr(self) -> bool {
        self.reg.pc + 4 < WORKING_RAM_BYTES
    }

    /// The state that `load_sp_at_addr` leaves.
    pub open spec fn post_load_sp_at_addr(self) -> Cpu {
        let pc = (self.reg.pc + 3) as u16;
        Cpu {
            reg: Register { pc, ..self.reg },
            mmu: self.mmu.with_byte(pc as int, self.reg.sp as u8).with_byte(pc + 1, (self.reg.sp >> 8u16 & 0xFF) as u8),
            m: 5,
            ..self
        }
    }

    /// Stores `SP` at the position after the instruction: lower byte first, upper
    /// byte next; the program counter moves past the instruction first.
    pub fn load_sp_at_addr(&mut self)
        requires
            old(self).pre_load_sp_at_addr(),
        ensures
            *final(self) == old(self).post_load_sp_at_addr(),
    {
        self.m = 5;
        self.reg.pc += 3;
        // store lower byte of sp at addr
        self.mmu.working_ram[self.reg.pc as usize] = self.reg.sp as u8;
        // store upper byte of sp at addr + 1
        self.mmu.working_ram[self.reg.pc as usize + 1] = (self.reg.sp >> 8u16 & 0xFF) as u8;
    }

    /// When `add_hl_bc` can run: the memory it touches lies in working RAM and
    /// its checked arithmetic does not overflow.
    pub open spec fn pre_add_hl_bc(self) -> bool {
        self.reg.pc < 0xFFFF
    }

    /// The state that `add_hl_bc` leaves.
    pub open spec fn post_add_hl_bc(self) -> Cpu {
        let sum = self.reg.hl().wrapping_add(self.reg.bc());
        let f = if sum > 0x7FA6 {
            CARRY_MASK
        } else if sum > 0x800 {
            HALF_CARRY_MASK
        } else {
            self.reg.f & !OPERATION_MASK & !HALF_CARRY_MASK & !CARRY_MASK
        };
        Cpu { reg: Register { f, pc: (self.reg.pc + 1) as u16, ..self.reg }.with_hl(sum), m: 2, ..self }
    }

    /// Adds `BC` to `HL` (wrapping). Register `F` becomes the carry flag alone
    /// when the sum is above `0x7FA6`, the half-carry flag alone when it is above
    /// `0x800`, and otherwise loses its subtraction, half-carry and carry flags.
    pub fn add_hl_bc(&mut self)
        requires
            old(self).pre_add_hl_bc(),
        ensures
            *final(self) == old(self).post_add_hl_bc(),
    {
        self.m = 2;
        self.reg.set_hl(self.reg.get_hl().wrapping_add(self.reg.get_bc()));
        self.unset_flag(Flags::Operation);
        let sum = self.reg.get_hl();
        if sum > 0x7FA6 {
            self.reg.f = u8::from(Flags::Carry);
        } else if sum > 0x800 {
            self.reg.f = u8::from(Flags::HalfCarry);
        } else {
            self.unset_flag(Flags::HalfCarry);
            self.unset_flag(Flags::Carry);
        }
        self.reg.pc += 1;
    }

    /// When `ld_a_bc` can run: the memory it touches lies in working RAM and
    /// its checked arithmetic does not overflow.
    pub open spec fn pre_ld_a_bc(self) -> bool {
        self.reg.bc() < WORKING_RAM_BYTES && self.reg.pc < 0xFFFF
    }

    /// The state that `ld_a_bc` leaves.
    pub open spec fn post_ld_a_bc(self) -> Cpu {
        Cpu {
            reg: Register { a: self.mmu.byte_at(self.reg.bc() as int), pc: (self.reg.pc + 1) as u16, ..self.reg },
            m: 2,
            ..self
        }
    }

    /// Loads the byte at the address in `BC` into `A`.
    pub fn ld_a_bc(&mut self)
        requires
            old(self).pre_ld_a_bc(),
        ensures
            *final(self) == old(self).post_ld_a_bc(),
    {
        self.m = 2;
        self.reg.a = self.mmu.working_ram[self.reg.get_bc() as usize];
        self.reg.pc += 1;
    }

    /// When `dec_bc` can run: the memory it touches lies in working RAM and
    /// its checked arithmetic does not overflow.
    pub open spec fn pre_dec_bc(self) -> bool {
        self.reg.bc() > 0 && self.reg.pc < 0xFFFF
    }

    /// The state that `dec_bc` leaves.
    pub open spec fn post_dec_bc(self) -> Cpu {
        Cpu {
            reg: Register { pc: (self.reg.pc + 1) as u16, ..self.reg }.with_bc((self.reg.bc() - 1) as u16),
            m: 2,
            ..self
        }
    }

    /// Decrements `BC`.
    pub fn dec_bc(&mut self)
        requires
            old(self).pre_dec_bc(),
        ensures
            *final(self) == old(self).post_dec_bc(),
    {
        self.m = 2;
        self.reg.set_bc(self.reg.get_bc() - 1);
        self.reg.pc += 1;
    }

    /// When `inc_c` can run: the memory it touches lies in working RAM and
    /// its checked arithmetic does not overflow.
    pub open spec fn pre_inc_c(self) -> bool {
        self.reg.pc < 0xFFFF
    }

    /// The state that `inc_c` leaves.
    pub open spec fn post_inc_c(self) -> Cpu {
        let v = self.reg.c.wrapping_add(1);
        let f = flag_if(flag_if(self.reg.f & !OPERATION_MASK, ZERO_MASK, v == 0), HALF_CARRY_MASK, v > 0xF);
        Cpu { reg: Register { c: v, f, pc: (self.reg.pc + 1) as u16, ..self.reg }, m: 1, ..self }
    }

    /// Increments `C`; clears the subtraction flag, sets the zero flag when the
    /// result is zero and the half-carry flag when it is above `0xF`.
    pub fn inc_c(&mut self)
        requires
            old(self).pre_inc_c(),
        ensures
            *final(self) == old(self).post_inc_c(),
    {
        self.m = 1;
        self.reg.c = self.reg.c.wrapping_add(1);
        self.unset_flag(Flags::Operation);
        self.set_flag_on_if(Flags::Zero, self.reg.c == 0);
        self.set_flag_on_if(Flags::HalfCarry, self.reg.c > 0xF);
        self.reg.pc += 1;
    }

    /// When `dec_c` can run: the memory it touches lies in working RAM and
    /// its checked arithmetic does not overflow.
    pub open spec fn pre_dec_c(self) -> bool {
        self.reg.pc < 0xFFFF
    }

    /// The state that `dec_c` leaves.
    pub open spec fn post_dec_c(self) -> Cpu {
        let v = self.reg.c.wrapping_sub(1);
        let f = flag_if(flag_if(self.reg.f | OPERATION_MASK, ZERO_MASK, v == 0), HALF_CARRY_MASK, v & 0xF == 0 && v != 0);
        Cpu { reg: Register { c: v, f, pc: (self.reg.pc + 1) as u16, ..self.reg }, m: 1, ..self }
    }

    /// Decrements `C`; sets the subtraction flag, the zero flag when the result is
    /// zero, and the half-carry flag when its lower nibble is zero but the result is not.
    pub fn dec_c(&mut self)
        requires
            old(self).pre_dec_c(),
        ensures
            *final(self) == old(self).post_dec_c(),
    {
        self.m = 1;
        self.reg.c = self.reg.c.wrapping_sub(1);
        self.set_flag(Flags::Operation);
        self.set_flag_on_if(Flags::Zero, self.reg.c == 0);
        self.set_flag_on_if(Flags::HalfCarry, self.reg.c & 0xF == 0 && self.reg.c != 0);
        self.reg.pc += 1;
    }

    /// When `ld_c` can run: the memory it touches lies in working RAM and
    /// its checked arithmetic does not overflow.
    pub open spec fn pre_ld_c(self) -> bool {
        self.reg.pc + 2 < WORKING_RAM_BYTES
    }

    /// The state that `ld_c` leaves.
    pub open spec fn post_ld_c(self) -> Cpu {
        let pc = (self.reg.pc + 2) as u16;
        Cpu { reg: Register { c: self.mmu.byte_at(pc as int), pc, ..self.reg }, m: 2, ..self }
    }

    /// Loads the immediate byte into `C`; the operand is read after the program
    /// counter has moved past the instruction.
    pub fn ld_c(&mut self)
        requires
            old(self).pre_ld_c(),
        ensures
            *final(self) == old(self).post_ld_c(),
    {
        self.m = 2;
        self.reg.pc += 2;
        self.reg.c = self.mmu.working_ram[self.reg.pc as usize];
    }

    /// When `rrca` can run: the memory it touches lies in working RAM and
    /// its checked arithmetic does not overflow.
    pub open spec fn pre_rrca(self) -> bool {
        self.reg.pc < 0xFFFF
    }

    /// The state that `rrca` leaves.
    pub open spec fn post_rrca(self) -> Cpu {
        let a = (self.reg.a >> 1u8) | (if self.reg.a & 0x01 == 0x01 { 0x80u8 } else { 0u8 });
        let f = self.reg.f & !ZERO_MASK & !HALF_CARRY_MASK & !CARRY_MASK;
        Cpu { reg: Register { a, f, pc: (self.reg.pc + 1) as u16, ..self.reg }, m: 1, ..self }
    }

    /// Rotates `A` right, bit 0 moving into bit 7; clears the zero, half-carry and
    /// carry flags.
    pub fn rrca(&mut self)
        requires
            old(self).pre_rrca(),
        ensures
            *final(self) == old(self).post_rrca(),
    {
        self.m = 1;
        self.reset_flags();
        self.reg.a = (self.reg.a >> 1u8) | (if self.reg.a & 0x01 == 0x01 { 0x80 } else { 0 });
        self.reg.pc += 1;
    }

    /// The state that `stop` leaves.
    pub open spec fn post_stop(self) -> Cpu {
        Cpu { m: 1, ..self }
    }

    /// Stops the system clock; only the cycle count is recorded.
    pub fn stop(&mut self)
        ensures
            *final(self) == old(self).post_stop(),
    {
        self.m = 1;
    }

    /// When `ld_de` can run: the memory it touches lies in working RAM and
    /// its checked arithmetic does not overflow.
    pub open spec fn pre_ld_de(self) -> bool {
        self.reg.pc + 4 < WORKING_RAM_BYTES
    }

    /// The state that `ld_de` leaves.
    pub open spec fn post_ld_de(self) -> Cpu {
        let pc = (self.reg.pc + 3) as u16;
        Cpu { reg: Register { pc, ..self.reg }.with_de(self.mmu.word_at(pc as int)), m: 3, ..self }
    }

    /// Loads the 2-byte immediate into `DE`; the operand is read after the
    /// program counter has moved past the instruction.
    pub fn ld_de(&mut self)
        requires
            old(self).pre_ld_de(),
        ensures
            *final(self) == old(self).post_ld_de(),
    {
        self.m = 3;
        self.reg.pc += 3;
        self.reg.set_de(self.mmu.read_word(self.reg.pc.into()));
    }

    /// When `ld_a` can run: the memory it touches lies in working RAM and
    /// its checked arithmetic does not overflow.
    pub open spec fn pre_ld_a(self) -> bool {
        self.reg.de() < WORKING_RAM_BYTES && self.reg.pc < 0xFFFF
    }

    /// The state that `ld_a` leaves.
    pub open spec fn post_ld_a(self) -> Cpu {
        Cpu {
            reg: Register { pc: (self.reg.pc + 1) as u16, ..self.reg },
            mmu: self.mmu.with_byte(self.reg.de() as int, self.reg.a),
            m: 2,
            ..self
        }
    }

    /// Stores `A` at the address in `DE`.
    pub fn ld_a(&mut self)
        requires
            old(self).pre_ld_a(),
        ensures
            *final(self) == old(self).post_ld_a(),
    {
        self.m = 2;
        self.mmu.working_ram[self.reg.get_de() as usize] = self.reg.a;
        self.reg.pc += 1;
    }

    /// When `inc_de` can run: the memory it touches lies in working RAM and
    /// its checked arithmetic does not overflow.
    pub open spec fn pre_inc_de(self) -> bool {
        self.reg.pc < 0xFFFF
    }

    /// The state that `inc_de` leaves.
    pub open spec fn post_inc_de(self) -> Cpu {
        Cpu {
            reg: Register { pc: (self.reg.pc + 1) as u16, ..self.reg }.with_de(self.reg.de().wrapping_add(1)),
            m: 2,
            ..self
        }
    }

    /// Increments `DE` (wrapping).
    pub fn inc_de(&mut self)
        requires
            old(self).pre_inc_de(),
        ensures
            *final(self) == old(self).post_inc_de(),
    {
        self.m = 2;
        self.reg.set_de(self.reg.get_de().wrapping_add(1));
        self.reg.pc += 1;
    }

    /// When `inc_d` can run: the memory it touches lies in working RAM and
    /// its checked arithmetic does not overflow.
    pub open spec fn pre_inc_d(self) -> bool {
        self.reg.pc < 0xFFFF
    }

    /// The state that `inc_d` leaves.
    pub open spec fn post_inc_d(self) -> Cpu {
        let v = self.reg.d.wrapping_add(1);
        let f = flag_if(flag_if(self.reg.f & !OPERATION_MASK, ZERO_MASK, v == 0), HALF_CARRY_MASK, v > 0xF);
        Cpu { reg: Register { d: v, f, pc: (self.reg.pc + 1) as u16, ..self.reg }, m: 1, ..self }
    }

    /// Increments `D`; clears the subtraction flag, sets the zero flag when the
    /// result is zero and the half-carry flag when it is above `0xF`.
    pub fn inc_d(&mut self)
        requires
            old(self).pre_inc_d(),
        ensures
            *final(self) == old(self).post_inc_d(),
    {
        self.m = 1;
        self.reg.d = self.reg.d.wrapping_add(1);
        self.unset_flag(Flags::Operation);
        self.set_flag_on_if(Flags::Zero, self.reg.d == 0);
        self.set_flag_on_if(Flags::HalfCarry, self.reg.d > 0xF);
        self.reg.pc += 1;
    }

    /// When `dec_d` can run: the memory it touches lies in working RAM and
    /// its checked arithmetic does not overflow.
    pub open spec fn pre_dec_d(self) -> bool {
        self.reg.pc < 0xFFFF
    }

    /// The state that `dec_d` leaves.
    pub open spec fn post_dec_d(self) -> Cpu {
        let v = self.reg.d.wrapping_sub(1);
        let f = flag_if(flag_if(self.reg.f | OPERATION_MASK, ZERO_MASK, v == 0), HALF_CARRY_MASK, v & 0xF == 0);
        Cpu { reg: Register { d: v, f, pc: (self.reg.pc + 1) as u16, ..self.reg }, m: 1, ..self }
    }

    /// Decrements `D`; sets the subtraction flag, the zero flag when the result is
    /// zero and the half-carry flag when its lower nibble is zero.
    pub fn dec_d(&mut self)
        requires
            old(self).pre_dec_d(),
        ensures
            *final(self) == old(self).post_dec_d(),
    {
        self.m = 1;
        self.reg.d = self.reg.d.wrapping_sub(1);
        self.set_flag(Flags::Operation);
        self.set_flag_on_if(Flags::Zero, self.reg.d == 0);
        self.set_flag_on_if(Flags::HalfCarry, self.reg.d & 0xF == 0);
        self.reg.pc += 1;
    }

    /// When `ld_d` can run: the memory it touches lies in working RAM and
    /// its checked arithmetic does not overflow.
    pub open spec fn pre_ld_d(self) -> bool {
        self.reg.pc < WORKING_RAM_BYTES
    }

    /// The state that `ld_d` leaves.
    pub open spec fn post_ld_d(self) -> Cpu {
        Cpu { reg: Register { d: self.mmu.byte_at(self.reg.pc as int), pc: (self.reg.pc + 2) as u16, ..self.reg }, m: 2, ..self }
    }

    /// Loads the byte at the program counter into `D`, then moves past the instruction.
    pub fn ld_d(&mut self)
        requires
            old(self).pre_ld_d(),
        ensures
            *final(self) == old(self).post_ld_d(),
    {
        self.m = 2;
        self.reg.d = self.mmu.read_byte(self.reg.pc.into());
        self.reg.pc += 2;
    }

    /// When `rla` can run: the memory it touches lies in working RAM and
    /// its checked arithmetic does not overflow.
    pub open spec fn pre_rla(self) -> bool {
        self.reg.pc < 0xFFFF
    }

    /// The state that `rla` leaves.
    pub open spec fn post_rla(self) -> Cpu {
        let a = (self.reg.a << 1u8) | (if self.flag_set(CARRY_MASK) { 1u8 } else { 0u8 });
        let f = flag_if(self.reg.f & !ZERO_MASK & !HALF_CARRY_MASK & !CARRY_MASK, CARRY_MASK, self.reg.a & 0x80 == 0x80);
        Cpu { reg: Register { a, f, pc: (self.reg.pc + 1) as u16, ..self.reg }, m: 1, ..self }
    }

    /// Rotates `A` left through the carry flag: the carry flag moves into bit 0 and
    /// bit 7 into the carry flag; clears the zero and half-carry flags.
    pub fn rla(&mut self)
        requires
            old(self).pre_rla(),
        ensures
            *final(self) == old(self).post_rla(),
    {
        self.m = 1;
        let carry_in: u8 = if self.flag_is_active(Flags::Carry) { 1 } else { 0 };
        let carry_out = self.reg.a & 0x80 == 0x80;
        self.reset_flags();
        self.reg.a = (self.reg.a << 1u8) | carry_in;
        self.set_flag_on_if(Flags::Carry, carry_out);
        self.reg.pc += 1;
    }

    /// When `jr` can run: the memory it touches lies in working RAM and
    /// its checked arithmetic does not overflow.
    pub open spec fn pre_jr(self) -> bool {
        self.reg.pc < WORKING_RAM_BYTES
    }

    /// The state that `jr` leaves.
    pub open spec fn post_jr(self) -> Cpu {
        Cpu { reg: Register { pc: self.reg.pc.wrapping_add(sign_extend(self.mmu.byte_at(self.reg.pc as int))), ..self.reg }, m: 3, ..self }
    }

    /// Jumps by the signed byte at the program counter, added to the program
    /// counter with wrapping.
    pub fn jr(&mut self)
        requires
            old(self).pre_jr(),
        ensures
            *final(self) == old(self).post_jr(),
    {
        self.m = 3;
        self.reg.pc = self.reg.pc.wrapping_add(signed_offset(self.mmu.working_ram[self.reg.pc as usize]));
    }

    /// When `add_hl_de` can run: the memory it touches lies in working RAM and
    /// its checked arithmetic does not overflow.
    pub open spec fn pre_add_hl_de(self) -> bool {
        self.reg.pc < 0xFFFF
    }

    /// The state that `add_hl_de` leaves.
    pub open spec fn post_add_hl_de(self) -> Cpu {
        let sum = self.reg.hl().wrapping_add(self.reg.de());
        let f = flag_if(flag_if(self.reg.f & !OPERATION_MASK, HALF_CARRY_MASK, sum & 0x07FF == 0), CARRY_MASK, sum & 0x7FFF == 0);
        Cpu { reg: Register { f, pc: (self.reg.pc + 1) as u16, ..self.reg }.with_hl(sum), m: 2, ..self }
    }

    /// Adds `DE` to `HL` (wrapping); clears the subtraction flag, sets the half-carry
    /// flag when the low 11 bits of the sum are zero and the carry flag when its low 15 bits are.
    pub fn add_hl_de(&mut self)
        requires
            old(self).pre_add_hl_de(),
        ensures
            *final(self) == old(self).post_add_hl_de(),
    {
        self.m = 2;
        self.reg.set_hl(self.reg.get_hl().wrapping_add(self.reg.get_de()));
        self.unset_flag(Flags::Operation);
        self.set_flag_on_if(Flags::HalfCarry, self.reg.get_hl() & 0x07FF == 0);
        self.set_flag_on_if(Flags::Carry, self.reg.get_hl() & 0x7FFF == 0);
        self.reg.pc += 1;
    }

    /// When `ld_a_de` can run: the memory it touches lies in working RAM and
    /// its checked arithmetic does not overflow.
    pub open spec fn pre_ld_a_de(self) -> bool {
        self.reg.de() < WORKING_RAM_BYTES && self.reg.pc < 0xFFFF
    }

    /// The state that `ld_a_de` leaves.
    pub open spec fn post_ld_a_de(self) -> Cpu {
        Cpu {
            reg: Register { a: self.mmu.byte_at(self.reg.de() as int), pc: (self.reg.pc + 1) as u16, ..self.reg },
            m: 2,
            ..self
        }
    }

    /// Loads the byte at the address in `DE` into `A`.
    pub fn ld_a_de(&mut self)
        requires
            old(self).pre_ld_a_de(),
        ensures
            *final(self) == old(self).post_ld_a_de(),
    {
        self.m = 2;
        self.reg.a = self.mmu.working_ram[self.reg.get_de() as usize];
        self.reg.pc += 1;
    }

    /// When `dec_de` can run: the memory it touches lies in working RAM and
    /// its checked arithmetic does not overflow.
    pub open spec fn pre_dec_de(self) -> bool {
        self.reg.pc < 0xFFFF
    }

    /// The state that `dec_de` leaves.
    pub open spec fn post_dec_de(self) -> Cpu {
        Cpu {
            reg: Register { pc: (self.reg.pc + 1) as u16, ..self.reg }.with_de(self.reg.de().wrapping_sub(1)),
            m: 2,
            ..self
        }
    }

    /// Decrements `DE` (wrapping).
    pub fn dec_de(&mut self)
        requires
            old(self).pre_dec_de(),
        ensures
            *final(self) == old(self).post_dec_de(),
    {
        self.m = 2;
        self.reg.set_de(self.reg.get_de().wrapping_sub(1));
        self.reg.pc += 1;
    }

    /// When `inc_e` can run: the memory it touches lies in working RAM and
    /// its checked arithmetic does not overflow.
    pub open spec fn pre_inc_e(self) -> bool {
        self.reg.pc < 0xFFFF
    }

    /// The state that `inc_e` leaves.
    pub open spec fn post_inc_e(self) -> Cpu {
        let v = self.reg.e.wrapping_add(1);
        let f = flag_if(flag_if(self.reg.f & !OPERATION_MASK, ZERO_MASK, v == 0), HALF_CARRY_MASK, v & 0xF == 0);
        Cpu { reg: Register { e: v, f, pc: (self.reg.pc + 1) as u16, ..self.reg }, m: 1, ..self }
    }

    /// Increments `E`; clears the subtraction flag, sets the zero flag when the
    /// result is zero and the half-carry flag when its lower nibble is zero.
    pub fn inc_e(&mut self)
        requires
            old(self).pre_inc_e(),
        ensures
            *final(self) == old(self).post_inc_e(),
    {
        self.m = 1;
        self.reg.e = self.reg.e.wrapping_add(1);
        self.unset_flag(Flags::Operation);
        self.set_flag_on_if(Flags::Zero, self.reg.e == 0);
        self.set_flag_on_if(Flags::HalfCarry, self.reg.e & 0xF == 0);
        self.reg.pc += 1;
    }

    /// When `dec_e` can run: the memory it touches lies in working RAM and
    /// its checked arithmetic does not overflow.
    pub open spec fn pre_dec_e(self) -> bool {
        self.reg.pc < 0xFFFF
    }

    /// The state that `dec_e` leaves.
    pub open spec fn post_dec_e(self) -> Cpu {
        let v = self.reg.e.wrapping_sub(1);
        let f = flag_if(flag_if(self.reg.f | OPERATION_MASK, ZERO_MASK, v == 0), HALF_CARRY_MASK, v & 0xF == 0);
        Cpu { reg: Register { e: v, f, pc: (self.reg.pc + 1) as u16, ..self.reg }, m: 1, ..self }
    }

    /// Decrements `E`; sets the subtraction flag, the zero flag when the result is
    /// zero and the half-carry flag when its lower nibble is zero.
    pub fn dec_e(&mut self)
        requires
            old(self).pre_dec_e(),
        ensures
            *final(self) == old(self).post_dec_e(),
    {
        self.m = 1;
        self.reg.e = self.reg.e.wrapping_sub(1);
        self.set_flag(Flags::Operation);
        self.set_flag_on_if(Flags::Zero, self.reg.e == 0);
        self.set_flag_on_if(Flags::HalfCarry, self.reg.e & 0xF == 0);
        self.reg.pc += 1;
    }

    /// When `ld_e` can run: the memory it touches lies in working RAM and
    /// its checked arithmetic does not overflow.
    pub open spec fn pre_ld_e(self) -> bool {
        self.reg.pc < WORKING_RAM_BYTES
    }

    /// The state that `ld_e` leaves.
    pub open spec fn post_ld_e(self) -> Cpu {
        Cpu { reg: Register { e: self.mmu.byte_at(self.reg.pc as int), pc: (self.reg.pc + 2) as u16, ..self.reg }, m: 2, ..self }
    }

    /// Loads the byte at the program counter into `E`, then moves past the instruction.
    pub fn ld_e(&mut self)
        requires
            old(self).pre_ld_e(),
        ensures
            *final(self) == old(self).post_ld_e(),
    {
        self.m = 2;
        self.reg.e = self.mmu.read_byte(self.reg.pc.into());
        self.reg.pc += 2;
    }

    /// When `rra` can run: the memory it touches lies in working RAM and
    /// its checked arithmetic does not overflow.
    pub open spec fn pre_rra(self) -> bool {
        self.reg.pc < 0xFFFF
    }

    /// The state that `rra` leaves.
    pub open spec fn post_rra(self) -> Cpu {
        let a = (self.reg.a >> 1u8) | (if self.flag_set(CARRY_MASK) { 0x80u8 } else { 0u8 });
        let f = flag_if(self.reg.f, CARRY_MASK, self.reg.a & 0x01 == 0x01);
        Cpu { reg: Register { a, f, pc: (self.reg.pc + 1) as u16, ..self.reg }, m: 1, ..self }
    }

    /// Rotates `A` right through the carry flag: the carry flag moves into bit 7
    /// and bit 0 into the carry flag; the other flags are left as they are.
    pub fn rra(&mut self)
        requires
            old(self).pre_rra(),
        ensures
            *final(self) == old(self).post_rra(),
    {
        self.m = 1;
        let carry_in: u8 = if self.flag_is_active(Flags::Carry) { 0x80 } else { 0 };
        let carry_out = self.reg.a & 0x01 == 0x01;
        self.reg.a = (self.reg.a >> 1u8) | carry_in;
        self.set_flag_on_if(Flags::Carry, carry_out);
        self.reg.pc += 1;
    }

    /// When `jr_nz` can run: the memory it touches lies in working RAM and
    /// its checked arithmetic does not overflow.
    pub open spec fn pre_jr_nz(self) -> bool {
        if !self.flag_set(ZERO_MASK) { self.reg.pc < WORKING_RAM_BYTES } else { self.reg.pc < 0xFFFF }
    }

    /// The state that `jr_nz` leaves.
    pub open spec fn post_jr_nz(self) -> Cpu {
        let pc = if !self.flag_set(ZERO_MASK) {
            self.reg.pc.wrapping_add(sign_extend(self.mmu.byte_at(self.reg.pc as int)))
        } else {
            (self.reg.pc + 1) as u16
        };
        Cpu { reg: Register { pc, ..self.reg }, m: 2, ..self }
    }

    /// When the zero flag is clear, jumps by the signed byte at the
    /// program counter; otherwise moves on by 1.
    pub fn jr_nz(&mut self)
        requires
            old(self).pre_jr_nz(),
        ensures
            *final(self) == old(self).post_jr_nz(),
    {
        self.m = 2;
        if !self.flag_is_active(Flags::Zero) {
            self.reg.pc = self.reg.pc.wrapping_add(signed_offset(self.mmu.working_ram[self.reg.pc as usize]));
        } else {
            self.reg.pc += 1;
        }
    }

    /// When `ld_hl` can run: the memory it touches lies in working RAM and
    /// its checked arithmetic does not overflow.
    pub open spec fn pre_ld_hl(self) -> bool {
        self.reg.pc + 1 < WORKING_RAM_BYTES
    }

    /// The state that `ld_hl` leaves.
    pub open spec fn post_ld_hl(self) -> Cpu {
        Cpu {
            reg: Register { pc: (self.reg.pc + 3) as u16, ..self.reg }.with_hl(self.mmu.word_at(self.reg.pc as int)),
            m: 3,
            ..self
        }
    }

    /// Loads the word at the program counter into `HL`, then moves past the instruction.
    pub fn ld_hl(&mut self)
        requires
            old(self).pre_ld_hl(),
        ensures
            *final(self) == old(self).post_ld_hl(),
    {
        self.m = 3;
        self.reg.set_hl(self.mmu.read_word(self.reg.pc.into()));
        self.reg.pc += 3;
    }

    /// When `ld_hl_inc_a` can run: the memory it touches lies in working RAM and
    /// its checked arithmetic does not overflow.
    pub open spec fn pre_ld_hl_inc_a(self) -> bool {
        self.reg.hl() < WORKING_RAM_BYTES && self.reg.pc < 0xFFFF
    }

    /// The state that `ld_hl_inc_a` leaves.
    pub open spec fn post_ld_hl_inc_a(self) -> Cpu {
        Cpu {
            reg: Register { pc: (self.reg.pc + 1) as u16, ..self.reg }.with_hl(self.reg.hl().wrapping_add(1)),
            mmu: self.mmu.with_byte(self.reg.hl() as int, self.reg.a),
            m: 2,
            ..self
        }
    }

    /// Stores `A` at the address in `HL`, then increments `HL` (wrapping).
    pub fn ld_hl_inc_a(&mut self)
        requires
            old(self).pre_ld_hl_inc_a(),
        ensures
            *final(self) == old(self).post_ld_hl_inc_a(),
    {
        self.m = 2;
        self.mmu.working_ram[self.reg.get_hl() as usize] = self.reg.a;
        self.reg.set_hl(self.reg.get_hl().wrapping_add(1));
        self.reg.pc += 1;
    }

    /// When `inc_hl` can run: the memory it touches lies in working RAM and
    /// its checked arithmetic does not overflow.
    pub open spec fn pre_inc_hl(self) -> bool {
        self.reg.pc < 0xFFFF
    }

    /// The state that `inc_hl` leaves.
    pub open spec fn post_inc_hl(self) -> Cpu {
        Cpu {
            reg: Register { pc: (self.reg.pc + 1) as u16, ..self.reg }.with_hl(self.reg.hl().wrapping_add(1)),
            m: 2,
            ..self
        }
    }

    /// Increments `HL` (wrapping).
    pub fn inc_hl(&mut self)
        requires
            old(self).pre_inc_hl(),
        ensures
            *final(self) == old(self).post_inc_hl(),
    {
        self.m = 2;
        self.reg.set_hl(self.reg.get_hl().wrapping_add(1));
        self.reg.pc += 1;
    }

    /// When `inc_h` can run: the memory it touches lies in working RAM and
    /// its checked arithmetic does not overflow.
    pub open spec fn pre_inc_h(self) -> bool {
        self.reg.pc < 0xFFFF
    }

    /// The state that `inc_h` leaves.
    pub open spec fn post_inc_h(self) -> Cpu {
        let v = self.reg.h.wrapping_add(1);
        let f = flag_if(flag_if(self.reg.f & !OPERATION_MASK, ZERO_MASK, v == 0), HALF_CARRY_MASK, v & 0xF == 0);
        Cpu { reg: Register { h: v, f, pc: (self.reg.pc + 1) as u16, ..self.reg }, m: 1, ..self }
    }

    /// Increments `H`; clears the subtraction flag, sets the zero flag when the
    /// result is zero and the half-carry flag when its lower nibble is zero.
    pub fn inc_h(&mut self)
        requires
            old(self).pre_inc_h(),
        ensures
            *final(self) == old(self).post_inc_h(),
    {
        self.m = 1;
        self.reg.h = self.reg.h.wrapping_add(1);
        self.unset_flag(Flags::Operation);
        self.set_flag_on_if(Flags::Zero, self.reg.h == 0);
        self.set_flag_on_if(Flags::HalfCarry, self.reg.h & 0xF == 0);
        self.reg.pc += 1;
    }

    /// When `dec_h` can run: the memory it touches lies in working RAM and
    /// its checked arithmetic does not overflow.
    pub open spec fn pre_dec_h(self) -> bool {
        self.reg.pc < 0xFFFF
    }

    /// The state that `dec_h` leaves.
    pub open spec fn post_dec_h(self) -> Cpu {
        let v = self.reg.h.wrapping_sub(1);
        let f = flag_if(flag_if(self.reg.f | OPERATION_MASK, ZERO_MASK, v == 0), HALF_CARRY_MASK, v & 0xF == 0);
        Cpu { reg: Register { h: v, f, pc: (self.reg.pc + 1) as u16, ..self.reg }, m: 1, ..self }
    }

    /// Decrements `H`; sets the subtraction flag, the zero flag when the result is
    /// zero and the half-carry flag when its lower nibble is zero.
    pub fn dec_h(&mut self)
        requires
            old(self).pre_dec_h(),
        ensures
            *final(self) == old(self).post_dec_h(),
    {
        self.m = 1;
        self.reg.h = self.reg.h.wrapping_sub(1);
        self.set_flag(Flags::Operation);
        self.set_flag_on_if(Flags::Zero, self.reg.h == 0);
        self.set_flag_on_if(Flags::HalfCarry, self.reg.h & 0xF == 0);
        self.reg.pc += 1;
    }

    /// When `ld_h` can run: the memory it touches lies in working RAM and
    /// its checked arithmetic does not overflow.
    pub open spec fn pre_ld_h(self) -> bool {
        self.reg.pc < WORKING_RAM_BYTES
    }

    /// The state that `ld_h` leaves.
    pub open spec fn post_ld_h(self) -> Cpu {
        Cpu { reg: Register { h: self.mmu.byte_at(self.reg.pc as int), pc: (self.reg.pc + 2) as u16, ..self.reg }, m: 2, ..self }
    }

    /// Loads the byte at the program counter into `H`, then moves past the instruction.
    pub fn ld_h(&mut self)
        requires
            old(self).pre_ld_h(),
        ensures
            *final(self) == old(self).post_ld_h(),
    {
        self.m = 2;
        self.reg.h = self.mmu.read_byte(self.reg.pc.into());
        self.reg.pc += 2;
    }

    /// When `daa` can run: the memory it touches lies in working RAM and
    /// its checked arithmetic does not overflow.
    pub open spec fn pre_daa(self) -> bool {
        self.reg.pc < 0xFFFF
    }

    /// The state that `daa` leaves.
    pub open spec fn post_daa(self) -> Cpu {
        let (a2, f0) = if !self.flag_set(OPERATION_MASK) {
            let a1 = if self.flag_set(HALF_CARRY_MASK) || self.reg.a & 0xF > 0x9 {
                self.reg.a.wrapping_add(0x6)
            } else {
                self.reg.a
            };
            if self.flag_set(CARRY_MASK) || a1 > 0x99 {
                (a1.wrapping_add(0x60), self.reg.f | CARRY_MASK)
            } else {
                (a1, self.reg.f)
            }
        } else {
            let a1 = if self.flag_set(CARRY_MASK) { self.reg.a.wrapping_sub(0x60) } else { self.reg.a };
            (if self.flag_set(HALF_CARRY_MASK) { a1.wrapping_sub(0x6) } else { a1 }, self.reg.f)
        };
        let f1 = if a2 == 0 { f0 | ZERO_MASK } else { f0 };
        Cpu { reg: Register { a: a2, f: f1 & !HALF_CARRY_MASK, pc: (self.reg.pc + 1) as u16, ..self.reg }, m: 1, ..self }
    }

    /// Decimal adjust of `A` into binary-coded decimal after an arithmetic
    /// instruction (wrapping). After an addition (subtraction flag clear): plus `6`
    /// when the half-carry flag is set or the low digit is above 9, then plus `0x60`,
    /// setting the carry flag, when the carry flag is set or `A` is above `0x99`.
    /// After a subtraction: less `0x60` when the carry flag is set, then less `6`
    /// when the half-carry flag is set. Sets the zero flag when `A` ends at zero and
    /// clears the half-carry flag.
    pub fn daa(&mut self)
        requires
            old(self).pre_daa(),
        ensures
            *final(self) == old(self).post_daa(),
    {
        self.m = 1;
        // after addition
        if !self.flag_is_active(Flags::Operation) {
            if self.flag_is_active(Flags::HalfCarry) || self.reg.a & 0xF > 0x9 {
                self.reg.a = self.reg.a.wrapping_add(0x6);
            }
            if self.flag_is_active(Flags::Carry) || self.reg.a > 0x99 {
                self.reg.a = self.reg.a.wrapping_add(0x60);
                self.set_flag(Flags::Carry);
            }
        } else {
            // after subtraction
            if self.flag_is_active(Flags::Carry) {
                self.reg.a = self.reg.a.wrapping_sub(0x60);
            }
            if self.flag_is_active(Flags::HalfCarry) {
                self.reg.a = self.reg.a.wrapping_sub(0x6);
            }
        }
        if self.reg.a == 0 {
            self.set_flag(Flags::Zero);
        }
        self.unset_flag(Flags::HalfCarry);
        self.reg.pc += 1;
    }

    /// When `jr_z` can run: the memory it touches lies in working RAM and
    /// its checked arithmetic does not overflow.
    pub open spec fn pre_jr_z(self) -> bool {
        if self.flag_set(ZERO_MASK) { self.reg.pc < WORKING_RAM_BYTES } else { self.reg.pc < 0xFFFF }
    }

    /// The state that `jr_z` leaves.
    pub open spec fn post_jr_z(self) -> Cpu {
        let pc = if self.flag_set(ZERO_MASK) {
            self.reg.pc.wrapping_add(sign_extend(self.mmu.byte_at(self.reg.pc as int)))
        } else {
            (self.reg.pc + 1) as u16
        };
        Cpu { reg: Register { pc, ..self.reg }, m: 2, ..self }
    }

    /// When the zero flag is set, jumps by the signed byte at the
    /// program counter; otherwise moves on by 1.
    pub fn jr_z(&mut self)
        requires
            old(self).pre_jr_z(),
        ensures
            *final(self) == old(self).post_jr_z(),
    {
        self.m = 2;
        if self.flag_is_active(Flags::Zero) {
            self.reg.pc = self.reg.pc.wrapping_add(signed_offset(self.mmu.working_ram[self.reg.pc as usize]));
        } else {
            self.reg.pc += 1;
        }
    }

    /// When `add_hl_hl` can run: the memory it touches lies in working RAM and
    /// its checked arithmetic does not overflow.
    pub open spec fn pre_add_hl_hl(self) -> bool {
        self.reg.pc < 0xFFFF
    }

    /// The state that `add_hl_hl` leaves.
    pub open spec fn post_add_hl_hl(self) -> Cpu {
        let sum = self.reg.hl().wrapping_add(self.reg.hl());
        let f = flag_if(flag_if(self.reg.f & !OPERATION_MASK, HALF_CARRY_MASK, sum & 0x07FF == 0), CARRY_MASK, sum & 0x7FF == 0);
        Cpu { reg: Register { f, pc: (self.reg.pc + 1) as u16, ..self.reg }.with_hl(sum), m: 2, ..self }
    }

    /// Doubles `HL` (wrapping); clears the subtraction flag and sets both the
    /// half-carry and the carry flag exactly when the low 11 bits of the result are zero.
    pub fn add_hl_hl(&mut self)
        requires
            old(self).pre_add_hl_hl(),
        ensures
            *final(self) == old(self).post_add_hl_hl(),
    {
        self.m = 2;
        self.reg.set_hl(self.reg.get_hl().wrapping_add(self.reg.get_hl()));
        self.unset_flag(Flags::Operation);
        self.set_flag_on_if(Flags::HalfCarry, self.reg.get_hl() & 0x07FF == 0);
        self.set_flag_on_if(Flags::Carry, self.reg.get_hl() & 0x7FF == 0);
        self.reg.pc += 1;
    }

    /// When `ld_a_hl_plus` can run: the memory it touches lies in working RAM and
    /// its checked arithmetic does not overflow.
    pub open spec fn pre_ld_a_hl_plus(self) -> bool {
        self.reg.hl() < WORKING_RAM_BYTES && self.reg.pc < 0xFFFF
    }

    /// The state that `ld_a_hl_plus` leaves.
    pub open spec fn post_ld_a_hl_plus(self) -> Cpu {
        Cpu {
            reg: Register { a: self.mmu.byte_at(self.reg.hl() as int), pc: (self.reg.pc + 1) as u16, ..self.reg }.with_hl(self.reg.hl().wrapping_add(1)),
            m: 2,
            ..self
        }
    }

    /// Loads the byte at the address in `HL` into `A`, then increments `HL` (wrapping).
    pub fn ld_a_hl_plus(&mut self)
        requires
            old(self).pre_ld_a_hl_plus(),
        ensures
            *final(self) == old(self).post_ld_a_hl_plus(),
    {
        self.m = 2;
        self.reg.a = self.mmu.working_ram[self.reg.get_hl() as usize];
        self.reg.set_hl(self.reg.get_hl().wrapping_add(1));
        self.reg.pc += 1;
    }

    /// When `dec_hl` can run: the memory it touches lies in working RAM and
    /// its checked arithmetic does not overflow.
    pub open spec fn pre_dec_hl(self) -> bool {
        self.reg.pc < 0xFFFF
    }

    /// The state that `dec_hl` leaves.
    pub open spec fn post_dec_hl(self) -> Cpu {
        Cpu {
            reg: Register { pc: (self.reg.pc + 1) as u16, ..self.reg }.with_hl(self.reg.hl().wrapping_sub(1)),
            m: 2,
            ..self
        }
    }

    /// Decrements `HL` (wrapping).
    pub fn dec_hl(&mut self)
        requires
            old(self).pre_dec_hl(),
        ensures
            *final(self) == old(self).post_dec_hl(),
    {
        self.m = 2;
        self.reg.set_hl(self.reg.get_hl().wrapping_sub(1));
        self.reg.pc += 1;
    }

    /// When `inc_l` can run: the memory it touches lies in working RAM and
    /// its checked arithmetic does not overflow.
    pub open spec fn pre_inc_l(self) -> bool {
        self.reg.pc < 0xFFFF
    }

    /// The state that `inc_l` leaves.
    pub open spec fn post_inc_l(self) -> Cpu {
        let v = self.reg.l.wrapping_add(1);
        let f = flag_if(flag_if(self.reg.f & !OPERATION_MASK, ZERO_MASK, v == 0), HALF_CARRY_MASK, v & 0x8 == 0);
        Cpu { reg: Register { l: v, f, pc: (self.reg.pc + 1) as u16, ..self.reg }, m: 1, ..self }
    }

    /// Increments `L`; clears the subtraction flag, sets the zero flag when the
    /// result is zero and the half-carry flag when its bit 3 is clear.
    pub fn inc_l(&mut self)
        requires
            old(self).pre_inc_l(),
        ensures
            *final(self) == old(self).post_inc_l(),
    {
        self.m = 1;
        self.reg.l = self.reg.l.wrapping_add(1);
        self.unset_flag(Flags::Operation);
        self.set_flag_on_if(Flags::Zero, self.reg.l == 0);
        self.set_flag_on_if(Flags::HalfCarry, self.reg.l & 0x8 == 0);
        self.reg.pc += 1;
    }

    /// When `dec_l` can run: the memory it touches lies in working RAM and
    /// its checked arithmetic does not overflow.
    pub open spec fn pre_dec_l(self) -> bool {
        self.reg.pc < 0xFFFF
    }

    /// The state that `dec_l` leaves.
    pub open spec fn post_dec_l(self) -> Cpu {
        let v = self.reg.l.wrapping_sub(1);
        let f = flag_if(flag_if(self.reg.f | OPERATION_MASK, ZERO_MASK, v == 0), HALF_CARRY_MASK, v > 0xF);
        Cpu { reg: Register { l: v, f, pc: (self.reg.pc + 1) as u16, ..self.reg }, m: 1, ..self }
    }

    /// Decrements `L`; sets the subtraction flag, the zero flag when the result is
    /// zero and the half-carry flag when it is above `0xF`.
    pub fn dec_l(&mut self)
        requires
            old(self).pre_dec_l(),
        ensures
            *final(self) == old(self).post_dec_l(),
    {
        self.m = 1;
        self.reg.l = self.reg.l.wrapping_sub(1);
        self.set_flag(Flags::Operation);
        self.set_flag_on_if(Flags::Zero, self.reg.l == 0);
        self.set_flag_on_if(Flags::HalfCarry, self.reg.l > 0xF);
        self.reg.pc += 1;
    }

    /// When `ld_l` can run: the memory it touches lies in working RAM and
    /// its checked arithmetic does not overflow.
    pub open spec fn pre_ld_l(self) -> bool {
        self.reg.pc < WORKING_RAM_BYTES
    }

    /// The state that `ld_l` leaves.
    pub open spec fn post_ld_l(self) -> Cpu {
        Cpu { reg: Register { l: self.mmu.byte_at(self.reg.pc as int), pc: (self.reg.pc + 2) as u16, ..self.reg }, m: 2, ..self }
    }

    /// Loads the byte at the program counter into `L`, then moves past the instruction.
    pub fn ld_l(&mut self)
        requires
            old(self).pre_ld_l(),
        ensures
            *final(self) == old(self).post_ld_l(),
    {
        self.m = 2;
        self.reg.l = self.mmu.read_byte(self.reg.pc.into());
        self.reg.pc += 2;
    }

    /// When `cpl` can run: the memory it touches lies in working RAM and
    /// its checked arithmetic does not overflow.
    pub open spec fn pre_cpl(self) -> bool {
        self.reg.pc < 0xFFFF
    }

    /// The state that `cpl` leaves.
    pub open spec fn post_cpl(self) -> Cpu {
        Cpu {
            reg: Register { a: !self.reg.a, f: self.reg.f | OPERATION_MASK | HALF_CARRY_MASK, pc: (self.reg.pc + 1) as u16, ..self.reg },
            m: 1,
            ..self
        }
    }

    /// Flips every bit of `A`; sets the subtraction and half-carry flags.
    pub fn cpl(&mut self)
        requires
            old(self).pre_cpl(),
        ensures
            *final(self) == old(self).post_cpl(),
    {
        self.m = 1;
        self.reg.a = !self.reg.a;
        self.set_flag(Flags::Operation);
        self.set_flag(Flags::HalfCarry);
        self.reg.pc += 1;
    }

    /// When `jr_nc` can run: the memory it touches lies in working RAM and
    /// its checked arithmetic does not overflow.
    pub open spec fn pre_jr_nc(self) -> bool {
        if !self.flag_set(CARRY_MASK) { self.reg.pc < WORKING_RAM_BYTES } else { self.reg.pc < 0xFFFF }
    }

    /// The state that `jr_nc` leaves.
    pub open spec fn post_jr_nc(self) -> Cpu {
        let pc = if !self.flag_set(CARRY_MASK) {
            self.reg.pc.wrapping_add(sign_extend(self.mmu.byte_at(self.reg.pc as int)))
        } else {
            (self.reg.pc + 1) as u16
        };
        Cpu { reg: Register { pc, ..self.reg }, m: 2, ..self }
    }

    /// When the carry flag is clear, jumps by the signed byte at the
    /// program counter; otherwise moves on by 1.
    pub fn jr_nc(&mut self)
        requires
            old(self).pre_jr_nc(),
        ensures
            *final(self) == old(self).post_jr_nc(),
    {
        self.m = 2;
        if !self.flag_is_active(Flags::Carry) {
            self.reg.pc = self.reg.pc.wrapping_add(signed_offset(self.mmu.working_ram[self.reg.pc as usize]));
        } else {
            self.reg.pc += 1;
        }
    }

    /// When `ld_sp` can run: the memory it touches lies in working RAM and
    /// its checked arithmetic does not overflow.
    pub open spec fn pre_ld_sp(self) -> bool {
        self.reg.pc + 1 < WORKING_RAM_BYTES
    }

    /// The state that `ld_sp` leaves.
    pub open spec fn post_ld_sp(self) -> Cpu {
        Cpu { reg: Register { sp: self.mmu.word_at(self.reg.pc as int), pc: (self.reg.pc + 3) as u16, ..self.reg }, m: 3, ..self }
    }

    /// Loads the word at the program counter into `SP`, then moves past the instruction.
    pub fn ld_sp(&mut self)
        requires
            old(self).pre_ld_sp(),
        ensures
            *final(self) == old(self).post_ld_sp(),
    {
        self.m = 3;
        self.reg.sp = self.mmu.read_word(self.reg.pc.into());
        self.reg.pc += 3;
    }

    /// When `ld_hlm_a` can run: the memory it touches lies in working RAM and
    /// its checked arithmetic does not overflow.
    pub open spec fn pre_ld_hlm_a(self) -> bool {
        self.reg.hl() < WORKING_RAM_BYTES && self.reg.pc < 0xFFFF
    }

    /// The state that `ld_hlm_a` leaves.
    pub open spec fn post_ld_hlm_a(self) -> Cpu {
        Cpu {
            reg: Register { pc: (self.reg.pc + 1) as u16, ..self.reg }.with_hl(self.reg.hl().wrapping_sub(1)),
            mmu: self.mmu.with_byte(self.reg.hl() as int, self.reg.a),
            m: 2,
            ..self
        }
    }

    /// Stores `A` at the address in `HL`, then decrements `HL` (wrapping).
    pub fn ld_hlm_a(&mut self)
        requires
            old(self).pre_ld_hlm_a(),
        ensures
            *final(self) == old(self).post_ld_hlm_a(),
    {
        self.m = 2;
        self.mmu.working_ram[self.reg.get_hl() as usize] = self.reg.a;
        self.reg.set_hl(self.reg.get_hl().wrapping_sub(1));
        self.reg.pc += 1;
    }

    /// When `inc_sp` can run: the memory it touches lies in working RAM and
    /// its checked arithmetic does not overflow.
    pub open spec fn pre_inc_sp(self) -> bool {
        self.reg.pc < 0xFFFF
    }

    /// The state that `inc_sp` leaves.
    pub open spec fn post_inc_sp(self) -> Cpu {
        Cpu { reg: Register { sp: self.reg.sp.wrapping_add(1), pc: (self.reg.pc + 1) as u16, ..self.reg }, m: 2, ..self }
    }

    /// Increments `SP` (wrapping).
    pub fn inc_sp(&mut self)
        requires
            old(self).pre_inc_sp(),
        ensures
            *final(self) == old(self).post_inc_sp(),
    {
        self.m = 2;
        self.reg.sp = self.reg.sp.wrapping_add(1);
        self.reg.pc += 1;
    }

    /// When `inc_content_at_hl` can run: the memory it touches lies in working RAM and
    /// its checked arithmetic does not overflow.
    pub open spec fn pre_inc_content_at_hl(self) -> bool {
        self.reg.hl() < WORKING_RAM_BYTES && self.mmu.byte_at(self.reg.hl() as int) < 0xFF && self.reg.pc < 0xFFFF
    }

    /// The state that `inc_content_at_hl` leaves.
    pub open spec fn post_inc_content_at_hl(self) -> Cpu {
        let v = (self.mmu.byte_at(self.reg.hl() as int) + 1) as u8;
        let f = flag_if(flag_if(self.reg.f & !OPERATION_MASK, ZERO_MASK, v == 0), HALF_CARRY_MASK, v & 0xF == 0);
        Cpu {
            reg: Register { f, pc: (self.reg.pc + 1) as u16, ..self.reg },
            mmu: self.mmu.with_byte(self.reg.hl() as int, v),
            m: 3,
            ..self
        }
    }

    /// Increments the byte at the address in `HL`; clears the subtraction flag,
    /// sets the zero flag when the result is zero and the half-carry flag when its
    /// lower nibble is zero.
    pub fn inc_content_at_hl(&mut self)
        requires
            old(self).pre_inc_content_at_hl(),
        ensures
            *final(self) == old(self).post_inc_content_at_hl(),
    {
        self.m = 3;
        self.mmu.working_ram[self.reg.get_hl() as usize] += 1;
        self.unset_flag(Flags::Operation);
        self.set_flag_on_if(Flags::Zero, self.mmu.working_ram[self.reg.get_hl() as usize] == 0);
        self.set_flag_on_if(Flags::HalfCarry, self.mmu.working_ram[self.reg.get_hl() as usize] & 0xF == 0);
        self.reg.pc += 1;
    }

    /// When `dec_content_at_hl` can run: the memory it touches lies in working RAM and
    /// its checked arithmetic does not overflow.
    pub open spec fn pre_dec_content_at_hl(self) -> bool {
        self.reg.hl() < WORKING_RAM_BYTES && self.mmu.byte_at(self.reg.hl() as int) > 0 && self.reg.pc < 0xFFFF
    }

    /// The state that `dec_content_at_hl` leaves.
    pub open spec fn post_dec_content_at_hl(self) -> Cpu {
        let v = (self.mmu.byte_at(self.reg.hl() as int) - 1) as u8;
        let f = flag_if(flag_if(self.reg.f | OPERATION_MASK, ZERO_MASK, v == 0), HALF_CARRY_MASK, v & 0xF == 0);
        Cpu {
            reg: Register { f, pc: (self.reg.pc + 1) as u16, ..self.reg },
            mmu: self.mmu.with_byte(self.reg.hl() as int, v),
            m: 3,
            ..self
        }
    }

    /// Decrements the byte at the address in `HL`; sets the subtraction flag, the
    /// zero flag when the result is zero and the half-carry flag when its lower nibble is zero.
    pub fn dec_content_at_hl(&mut self)
        requires
            old(self).pre_dec_content_at_hl(),
        ensures
            *final(self) == old(self).post_dec_content_at_hl(),
    {
        self.m = 3;
        self.mmu.working_ram[self.reg.get_hl() as usize] -= 1;
        self.set_flag(Flags::Operation);
        self.set_flag_on_if(Flags::Zero, self.mmu.working_ram[self.reg.get_hl() as usize] == 0);
        self.set_flag_on_if(Flags::HalfCarry, self.mmu.working_ram[self.reg.get_hl() as usize] & 0xF == 0);
        self.reg.pc += 1;
    }

    /// When `ld_hl_byte` can run: the memory it touches lies in working RAM and
    /// its checked arithmetic does not overflow.
    pub open spec fn pre_ld_hl_byte(self) -> bool {
        self.reg.hl() < WORKING_RAM_BYTES && self.reg.pc < WORKING_RAM_BYTES
    }

    /// The state that `ld_hl_byte` leaves.
    pub open spec fn post_ld_hl_byte(self) -> Cpu {
        Cpu {
            reg: Register { pc: (self.reg.pc + 2) as u16, ..self.reg },
            mmu: self.mmu.with_byte(self.reg.hl() as int, self.mmu.byte_at(self.reg.pc as int)),
            m: 3,
            ..self
        }
    }

    /// Stores the byte at the program counter at the address in `HL`, then moves
    /// past the instruction.
    pub fn ld_hl_byte(&mut self)
        requires
            old(self).pre_ld_hl_byte(),
        ensures
            *final(self) == old(self).post_ld_hl_byte(),
    {
        self.m = 3;
        let value = self.mmu.read_byte(self.reg.pc.into());
        self.mmu.working_ram[self.reg.get_hl() as usize] = value;
        self.reg.pc += 2;
    }

    /// When `scf` can run: the memory it touches lies in working RAM and
    /// its checked arithmetic does not overflow.
    pub open spec fn pre_scf(self) -> bool {
        self.reg.pc < 0xFFFF
    }

    /// The state that `scf` leaves.
    pub open spec fn post_scf(self) -> Cpu {
        Cpu { reg: Register { f: self.reg.f | CARRY_MASK, pc: (self.reg.pc + 1) as u16, ..self.reg }, m: 1, ..self }
    }

    /// Sets the carry flag.
    pub fn scf(&mut self)
        requires
            old(self).pre_scf(),
        ensures
            *final(self) == old(self).post_scf(),
    {
        self.m = 1;
        self.set_flag(Flags::Carry);
        self.reg.pc += 1;
    }

    /// When `jr_c` can run: the memory it touches lies in working RAM and
    /// its checked arithmetic does not overflow.
    pub open spec fn pre_jr_c(self) -> bool {
        if self.flag_set(CARRY_MASK) { self.reg.pc < WORKING_RAM_BYTES } else { self.reg.pc < 0xFFFF }
    }

    /// The state that `jr_c` leaves.
    pub open spec fn post_jr_c(self) -> Cpu {
        let pc = if self.flag_set(CARRY_MASK) {
            self.reg.pc.wrapping_add(sign_extend(self.mmu.byte_at(self.reg.pc as int)))
        } else {
            (self.reg.pc + 1) as u16
        };
        Cpu { reg: Register { pc, ..self.reg }, m: 2, ..self }
    }

    /// When the carry flag is set, jumps by the signed byte at the
    /// program counter; otherwise moves on by 1.
    pub fn jr_c(&mut self)
        requires
            old(self).pre_jr_c(),
        ensures
            *final(self) == old(self).post_jr_c(),
    {
        self.m = 2;
        if self.flag_is_active(Flags::Carry) {
            self.reg.pc = self.reg.pc.wrapping_add(signed_offset(self.mmu.working_ram[self.reg.pc as usize]));
        } else {
            self.reg.pc += 1;
        }
    }

    /// When `add_hl_sp` can run: the memory it touches lies in working RAM and
    /// its checked arithmetic does not overflow.
    pub open spec fn pre_add_hl_sp(self) -> bool {
        self.reg.pc < 0xFFFF
    }

    /// The state that `add_hl_sp` leaves.
    pub open spec fn post_add_hl_sp(self) -> Cpu {
        let sum = self.reg.hl().wrapping_add(self.reg.sp);
        let f = flag_if(flag_if(self.reg.f & !OPERATION_MASK, ZERO_MASK, sum & 0x07FF == 0), HALF_CARRY_MASK, sum & 0x7FF == 0);
        Cpu { reg: Register { f, pc: (self.reg.pc + 1) as u16, ..self.reg }.with_hl(sum), m: 2, ..self }
    }

    /// Adds `SP` to `HL` (wrapping); clears the subtraction flag and sets both the
    /// zero and the half-carry flag exactly when the low 11 bits of the sum are zero.
    pub fn add_hl_sp(&mut self)
        requires
            old(self).pre_add_hl_sp(),
        ensures
            *final(self) == old(self).post_add_hl_sp(),
    {
        self.m = 2;
        self.reg.set_hl(self.reg.get_hl().wrapping_add(self.reg.sp));
        self.unset_flag(Flags::Operation);
        self.set_flag_on_if(Flags::Zero, self.reg.get_hl() & 0x07FF == 0);
        self.set_flag_on_if(Flags::HalfCarry, self.reg.get_hl() & 0x7FF == 0);
        self.reg.pc += 1;
    }

    /// When `ld_a_hl_dec` can run: the memory it touches lies in working RAM and
    /// its checked arithmetic does not overflow.
    pub open spec fn pre_ld_a_hl_dec(self) -> bool {
        self.reg.hl() < WORKING_RAM_BYTES && self.reg.pc < 0xFFFF
    }

    /// The state that `ld_a_hl_dec` leaves.
    pub open spec fn post_ld_a_hl_dec(self) -> Cpu {
        Cpu {
            reg: Register { a: self.mmu.byte_at(self.reg.hl() as int), pc: (self.reg.pc + 1) as u16, ..self.reg }.with_hl(self.reg.hl().wrapping_sub(1)),
            m: 2,
            ..self
        }
    }

    /// Loads the byte at the address in `HL` into `A`, then decrements `HL` (wrapping).
    pub fn ld_a_hl_dec(&mut self)
        requires
            old(self).pre_ld_a_hl_dec(),
        ensures
            *final(self) == old(self).post_ld_a_hl_dec(),
    {
        self.m = 2;
        self.reg.a = self.mmu.working_ram[self.reg.get_hl() as usize];
        self.reg.set_hl(self.reg.get_hl().wrapping_sub(1));
        self.reg.pc += 1;
    }

    /// When `dec_sp` can run: the memory it touches lies in working RAM and
    /// its checked arithmetic does not overflow.
    pub open spec fn pre_dec_sp(self) -> bool {
        self.reg.pc < 0xFFFF
    }

    /// The state that `dec_sp` leaves.
    pub open spec fn post_dec_sp(self) -> Cpu {
        Cpu { reg: Register { sp: self.reg.sp.wrapping_sub(1), pc: (self.reg.pc + 1) as u16, ..self.reg }, m: 2, ..self }
    }

    /// Decrements `SP` (wrapping).
    pub fn dec_sp(&mut self)
        requires
            old(self).pre_dec_sp(),
        ensures
            *final(self) == old(self).post_dec_sp(),
    {
        self.m = 2;
        self.reg.sp = self.reg.sp.wrapping_sub(1);
        self.reg.pc += 1;
    }

    /// When `inc_a` can run: the memory it touches lies in working RAM and
    /// its checked arithmetic does not overflow.
    pub open spec fn pre_inc_a(self) -> bool {
        self.reg.pc < 0xFFFF
    }

    /// The state that `inc_a` leaves.
    pub open spec fn post_inc_a(self) -> Cpu {
        let v = self.reg.a.wrapping_add(1);
        let f = flag_if(flag_if(self.reg.f & !OPERATION_MASK, ZERO_MASK, v == 0), HALF_CARRY_MASK, v & 0x8 == 0);
        Cpu { reg: Register { a: v, f, pc: (self.reg.pc + 1) as u16, ..self.reg }, m: 1, ..self }
    }

    /// Increments `A`; clears the subtraction flag, sets the zero flag when the
    /// result is zero and the half-carry flag when its bit 3 is clear.
    pub fn inc_a(&mut self)
        requires
            old(self).pre_inc_a(),
        ensures
            *final(self) == old(self).post_inc_a(),
    {
        self.m = 1;
        self.reg.a = self.reg.a.wrapping_add(1);
        self.unset_flag(Flags::Operation);
        self.set_flag_on_if(Flags::Zero, self.reg.a == 0);
        self.set_flag_on_if(Flags::HalfCarry, self.reg.a & 0x8 == 0);
        self.reg.pc += 1;
    }

    /// When `dec_a` can run: the memory it touches lies in working RAM and
    /// its checked arithmetic does not overflow.
    pub open spec fn pre_dec_a(self) -> bool {
        self.reg.pc < 0xFFFF
    }

    /// The state that `dec_a` leaves.
    pub open spec fn post_dec_a(self) -> Cpu {
        let v = self.reg.a.wrapping_sub(1);
        let f = flag_if(flag_if(self.reg.f | OPERATION_MASK, ZERO_MASK, v == 0), HALF_CARRY_MASK, v & 0x8 == 0);
        Cpu { reg: Register { a: v, f, pc: (self.reg.pc + 1) as u16, ..self.reg }, m: 1, ..self }
    }

    /// Decrements `A`; sets the subtraction flag, the zero flag when the result is
    /// zero and the half-carry flag when its bit 3 is clear.
    pub fn dec_a(&mut self)
        requires
            old(self).pre_dec_a(),
        ensures
            *final(self) == old(self).post_dec_a(),
    {
        self.m = 1;
        self.reg.a = self.reg.a.wrapping_sub(1);
        self.set_flag(Flags::Operation);
        self.set_flag_on_if(Flags::Zero, self.reg.a == 0);
        self.set_flag_on_if(Flags::HalfCarry, self.reg.a & 0x8 == 0);
        self.reg.pc += 1;
    }

    /// When `ld_a_byte` can run: the memory it touches lies in working RAM and
    /// its checked arithmetic does not overflow.
    pub open spec fn pre_ld_a_byte(self) -> bool {
        self.reg.pc < WORKING_RAM_BYTES
    }

    /// The state that `ld_a_byte` leaves.
    pub open spec fn post_ld_a_byte(self) -> Cpu {
        Cpu { reg: Register { a: self.mmu.byte_at(self.reg.pc as int), pc: (self.reg.pc + 2) as u16, ..self.reg }, m: 2, ..self }
    }

    /// Loads the byte at the program counter into `A`, then moves past the instruction.
    pub fn ld_a_byte(&mut self)
        requires
            old(self).pre_ld_a_byte(),
        ensures
            *final(self) == old(self).post_ld_a_byte(),
    {
        self.m = 2;
        self.reg.a = self.mmu.read_byte(self.reg.pc.into());
        self.reg.pc += 2;
    }

    /// When `ccf` can run: the memory it touches lies in working RAM and
    /// its checked arithmetic does not overflow.
    pub open spec fn pre_ccf(self) -> bool {
        self.reg.pc < 0xFFFF
    }

    /// The state that `ccf` leaves.
    pub open spec fn post_ccf(self) -> Cpu {
        Cpu {
            reg: Register { f: (self.reg.f & !OPERATION_MASK & !HALF_CARRY_MASK) ^ CARRY_MASK, pc: (self.reg.pc + 1) as u16, ..self.reg },
            m: 1,
            ..self
        }
    }

    /// Flips the carry flag; clears the subtraction and half-carry flags.
    pub fn ccf(&mut self)
        requires
            old(self).pre_ccf(),
        ensures
            *final(self) == old(self).post_ccf(),
    {
        self.m = 1;
        self.unset_flag(Flags::Operation);
        self.unset_flag(Flags::HalfCarry);
        self.reg.f ^= u8::from(Flags::Carry);
        self.reg.pc += 1;
    }

    /// When `parse_load_opcodes` can run: the memory it touches lies in working RAM and
    /// its checked arithmetic does not overflow.
    pub open spec fn pre_parse_load_opcodes(self) -> bool {
        self.reg.pc < 0xFFFF && (self.current_opcode != 0x76 ==> self.register_readable(self.current_opcode & 0x7) && self.register_readable((self.current_opcode >> 3u8) & 0x7))
    }

    /// The state that `parse_load_opcodes` leaves.
    pub open spec fn post_parse_load_opcodes(self) -> Cpu {
        let moved = if self.current_opcode == 0x76 {
            Cpu { halted: true, ..self }
        } else {
            self.with_register_value((self.current_opcode >> 3u8) & 0x7, self.register_value(self.current_opcode & 0x7))
        };
        Cpu { reg: Register { pc: (self.reg.pc + 1) as u16, ..moved.reg }, m: 1, ..moved }
    }

    /// Opcodes `0x40` to `0x7F`. `0x76` halts; any other copies the operand named
    /// by the lowest 3 bits of the opcode into the one named by the 3 bits above them.
    pub fn parse_load_opcodes(&mut self)
        requires
            old(self).pre_parse_load_opcodes(),
        ensures
            *final(self) == old(self).post_parse_load_opcodes(),
    {
        self.m = 1;
        // HALT opcode
        if self.current_opcode == 0x76 {
            self.halted = true;
        } else {
            // the lowest 3 bits name the register to load from, the 3 bits above
            // them the register to load into
            let src_register = self.current_opcode & 0x7;
            let dest_register = (self.current_opcode >> 3u8) & 0x7;
            self.set_register(dest_register, src_register);
        }
        self.reg.pc += 1;
    }

    /// When `parse_math_opcodes` can run: the memory it touches lies in working RAM and
    /// its checked arithmetic does not overflow.
    pub open spec fn pre_parse_math_opcodes(self) -> bool {
        self.reg.pc < 0xFFFF && self.register_readable(self.current_opcode & 0x7)
    }

    /// The state that `parse_math_opcodes` leaves.
    pub open spec fn post_parse_math_opcodes(self) -> Cpu {
        let register = self.current_opcode & 0x7;
        let operation = (self.current_opcode >> 3u8) & 0x7;
        let value = self.register_value(register);
        let carry: u8 = if self.flag_set(CARRY_MASK) { 1 } else { 0 };
        let computed = if operation == 0 || operation == 1 {
            let a = if operation == 0 { self.reg.a.wrapping_add(value) } else { self.reg.a.wrapping_add(value).wrapping_add(carry) };
            let f = flag_if(flag_if(flag_if(self.reg.f & !OPERATION_MASK, ZERO_MASK, a == 0), HALF_CARRY_MASK, a & 0x7 == 0), CARRY_MASK, a & 0x40 == 0);
            Cpu { reg: Register { a, f, ..self.reg }, ..self }
        } else if operation == 2 {
            let a = self.reg.a.wrapping_sub(value);
            let f = flag_if(flag_if(flag_if(self.reg.f | OPERATION_MASK, ZERO_MASK, a == 0), HALF_CARRY_MASK, a > 0x8), CARRY_MASK, value > self.reg.a);
            Cpu { reg: Register { a, f, ..self.reg }, ..self }
        } else if operation == 3 {
            let a = self.reg.a.wrapping_sub(value.wrapping_add(carry));
            let after = Cpu { reg: Register { a, ..self.reg }, ..self };
            let f = flag_if(flag_if(flag_if(self.reg.f | OPERATION_MASK, ZERO_MASK, a == 0), HALF_CARRY_MASK, a > 0x8), CARRY_MASK, after.register_value(register).wrapping_add(carry) > a);
            Cpu { reg: Register { a, f, ..self.reg }, ..self }
        } else {
            self
        };
        Cpu { reg: Register { pc: (self.reg.pc + 1) as u16, ..computed.reg }, m: 1, ..computed }
    }

    /// Opcodes `0x80` to `0x9F`: the lowest 3 bits name the operand, the 3 bits above
    /// them the operation.
    /// - 0 (ADD): `A` plus the operand (wrapping); clears the subtraction flag, sets the zero
    ///   flag when the result is zero, the half-carry flag when its low 3 bits are zero and the
    ///   carry flag when its bit 6 is clear.
    /// - 1 (ADC): the same with the operand plus 1 when the carry flag is set.
    /// - 2 (SUB): `A` less the operand (wrapping); sets the subtraction flag, the zero flag
    ///   when the result is zero, the half-carry flag when it is above 8, and the carry flag
    ///   when the operand is above `A` (a borrow).
    /// - 3 (SBC): `A` less the operand and 1 more when the carry flag is set (wrapping);
    ///   flags as for SUB, except that the carry flag is set when the operand, read again,
    ///   plus that 1 is above the result.
    /// - any other: `A` and the flags are left as they are.
    pub fn parse_math_opcodes(&mut self)
        requires
            old(self).pre_parse_math_opcodes(),
        ensures
            *final(self) == old(self).post_parse_math_opcodes(),
    {
        self.m = 1;
        let register = self.current_opcode & 0x7;
        let math_operation = (self.current_opcode >> 3u8) & 0x7;
        let carry: u8 = if self.flag_is_active(Flags::Carry) { 1 } else { 0 };
        if math_operation == 0 {
            self.reg.a = self.reg.a.wrapping_add(self.get_src_register(register));
            self.unset_flag(Flags::Operation);
            self.set_flag_on_if(Flags::Zero, self.reg.a == 0);
            self.set_flag_on_if(Flags::HalfCarry, self.reg.a & 0x7 == 0);
            self.set_flag_on_if(Flags::Carry, self.reg.a & 0x40 == 0);
        } else if math_operation == 1 {
            self.reg.a = self.reg.a.wrapping_add(self.get_src_register(register)).wrapping_add(carry);
            self.unset_flag(Flags::Operation);
            self.set_flag_on_if(Flags::Zero, self.reg.a == 0);
            self.set_flag_on_if(Flags::HalfCarry, self.reg.a & 0x7 == 0);
            self.set_flag_on_if(Flags::Carry, self.reg.a & 0x40 == 0);
        } else if math_operation == 2 {
            let value = self.get_src_register(register);
            let before = self.reg.a;
            self.reg.a = self.reg.a.wrapping_sub(value);
            self.set_flag(Flags::Operation);
            self.set_flag_on_if(Flags::Zero, self.reg.a == 0);
            self.set_flag_on_if(Flags::HalfCarry, self.reg.a > 0x8);
            self.set_flag_on_if(Flags::Carry, value > before);
        } else if math_operation == 3 {
            self.reg.a = self.reg.a.wrapping_sub(
                self.get_src_register(register).wrapping_add(carry),
            );
            self.set_flag(Flags::Operation);
            self.set_flag_on_if(Flags::Zero, self.reg.a == 0);
            self.set_flag_on_if(Flags::HalfCarry, self.reg.a > 0x8);
            self.set_flag_on_if(
                Flags::Carry,
                self.get_src_register(register).wrapping_add(carry) > self.reg.a,
            );
        }
        self.reg.pc += 1;
    }

    /// When `parse_and_opcodes` can run: the memory it touches lies in working RAM and
    /// its checked arithmetic does not overflow.
    pub open spec fn pre_parse_and_opcodes(self) -> bool {
        self.reg.pc < 0xFFFF && self.register_readable(self.current_opcode & 0x7)
    }

    /// The state that `parse_and_opcodes` leaves.
    pub open spec fn post_parse_and_opcodes(self) -> Cpu {
        let a = self.reg.a & self.register_value(self.current_opcode & 0x7);
        let f = flag_if((self.reg.f | HALF_CARRY_MASK) & !OPERATION_MASK & !CARRY_MASK, ZERO_MASK, a == 0);
        Cpu { reg: Register { a, f, pc: (self.reg.pc + 1) as u16, ..self.reg }, m: 1, ..self }
    }

    /// Opcodes `0xA0` to `0xA7`: `A` AND the operand named by the lowest 3 bits;
    /// sets the half-carry flag, clears the subtraction and carry flags, sets the zero
    /// flag when the result is zero.
    pub fn parse_and_opcodes(&mut self)
        requires
            old(self).pre_parse_and_opcodes(),
        ensures
            *final(self) == old(self).post_parse_and_opcodes(),
    {
        self.m = 1;
        let register = self.current_opcode & 0x7;
        self.reg.a &= self.get_src_register(register);
        self.set_flag(Flags::HalfCarry);
        self.unset_flag(Flags::Operation);
        self.unset_flag(Flags::Carry);
        self.set_flag_on_if(Flags::Zero, self.reg.a == 0);
        self.reg.pc += 1;
    }

    /// When `parse_xor_opcodes` can run: the memory it touches lies in working RAM and
    /// its checked arithmetic does not overflow.
    pub open spec fn pre_parse_xor_opcodes(self) -> bool {
        self.reg.pc < 0xFFFF && self.register_readable(self.current_opcode & 0x7)
    }

    /// The state that `parse_xor_opcodes` leaves.
    pub open spec fn post_parse_xor_opcodes(self) -> Cpu {
        let a = self.reg.a ^ self.register_value(self.current_opcode & 0x7);
        let f = flag_if(self.reg.f & !ZERO_MASK & !HALF_CARRY_MASK & !CARRY_MASK, ZERO_MASK, a == 0);
        Cpu { reg: Register { a, f, pc: (self.reg.pc + 1) as u16, ..self.reg }, m: 1, ..self }
    }

    /// Opcodes `0xA8` to `0xAF`: `A` XOR the operand named by the lowest 3 bits;
    /// clears the half-carry and carry flags, sets the zero flag when the result is zero.
    pub fn parse_xor_opcodes(&mut self)
        requires
            old(self).pre_parse_xor_opcodes(),
        ensures
            *final(self) == old(self).post_parse_xor_opcodes(),
    {
        self.m = 1;
        let register = self.current_opcode & 0x7;
        self.reg.a ^= self.get_src_register(register);
        self.reset_flags();
        self.set_flag_on_if(Flags::Zero, self.reg.a == 0);
        self.reg.pc += 1;
    }

    /// When `parse_or_opcodes` can run: the memory it touches lies in working RAM and
    /// its checked arithmetic does not overflow.
    pub open spec fn pre_parse_or_opcodes(self) -> bool {
        self.reg.pc < 0xFFFF && self.register_readable(self.current_opcode & 0x7)
    }

    /// The state that `parse_or_opcodes` leaves.
    pub open spec fn post_parse_or_opcodes(self) -> Cpu {
        let a = self.reg.a | self.register_value(self.current_opcode & 0x7);
        let f = flag_if(self.reg.f & !ZERO_MASK & !HALF_CARRY_MASK & !CARRY_MASK, ZERO_MASK, a == 0);
        Cpu { reg: Register { a, f, pc: (self.reg.pc + 1) as u16, ..self.reg }, m: 1, ..self }
    }

    /// Opcodes `0xB0` to `0xB7`: `A` OR the operand named by the lowest 3 bits;
    /// clears the half-carry and carry flags, sets the zero flag when the result is zero.
    pub fn parse_or_opcodes(&mut self)
        requires
            old(self).pre_parse_or_opcodes(),
        ensures
            *final(self) == old(self).post_parse_or_opcodes(),
    {
        self.m = 1;
        let register = self.current_opcode & 0x7;
        self.reg.a |= self.get_src_register(register);
        self.reset_flags();
        self.set_flag_on_if(Flags::Zero, self.reg.a == 0);
        self.reg.pc += 1;
    }

    /// When `parse_cp_opcodes` can run: the memory it touches lies in working RAM and
    /// its checked arithmetic does not overflow.
    pub open spec fn pre_parse_cp_opcodes(self) -> bool {
        self.reg.pc < 0xFFFF && self.register_readable(self.current_opcode & 0x7)
    }

    /// The state that `parse_cp_opcodes` leaves.
    pub open spec fn post_parse_cp_opcodes(self) -> Cpu {
        let value = self.register_value(self.current_opcode & 0x7);
        let result = self.reg.a.wrapping_sub(value);
        let f = flag_if(flag_if(flag_if(self.reg.f | OPERATION_MASK, ZERO_MASK, result == 0), HALF_CARRY_MASK, result > 0x8), CARRY_MASK, value > self.reg.a);
        Cpu { reg: Register { f, pc: (self.reg.pc + 1) as u16, ..self.reg }, m: 1, ..self }
    }

    /// Opcodes `0xB8` to `0xBF`: compares `A` with the operand named by the lowest
    /// 3 bits. `A` is kept; sets the subtraction flag, the zero flag when `A` less the
    /// operand (wrapping) is zero, the half-carry flag when that difference is above 8
    /// and the carry flag when the operand is above `A`.
    pub fn parse_cp_opcodes(&mut self)
        requires
            old(self).pre_parse_cp_opcodes(),
        ensures
            *final(self) == old(self).post_parse_cp_opcodes(),
    {
        self.m = 1;
        let register = self.current_opcode & 0x7;
        let result = self.reg.a.wrapping_sub(self.get_src_register(register));
        self.set_flag(Flags::Operation);
        self.set_flag_on_if(Flags::Zero, result == 0);
        self.set_flag_on_if(Flags::HalfCarry, result > 0x8);
        self.set_flag_on_if(Flags::Carry, self.get_src_register(register) > self.reg.a);
        self.reg.pc += 1;
    }

    /// When `ret_nz` can run: the memory it touches lies in working RAM and
    /// its checked arithmetic does not overflow.
    pub open spec fn pre_ret_nz(self) -> bool {
        if !self.flag_set(ZERO_MASK) {
            self.reg.sp + 1 < WORKING_RAM_BYTES && self.mmu.word_at(self.reg.sp as int) < 0xFFFF
        } else {
            self.reg.pc < 0xFFFF
        }
    }

    /// The state that `ret_nz` leaves.
    pub open spec fn post_ret_nz(self) -> Cpu {
        let popped = if !self.flag_set(ZERO_MASK) {
            Register { pc: self.mmu.word_at(self.reg.sp as int), sp: (self.reg.sp + 2) as u16, ..self.reg }
        } else {
            self.reg
        };
        Cpu { reg: Register { pc: (popped.pc + 1) as u16, ..popped }, m: 5, ..self }
    }

    /// When the zero flag is clear, pops the program counter from the stack; then
    /// moves the program counter on by 1 in either case.
    pub fn ret_nz(&mut self)
        requires
            old(self).pre_ret_nz(),
        ensures
            *final(self) == old(self).post_ret_nz(),
    {
        self.m = 5;
        if !self.flag_is_active(Flags::Zero) {
            self.reg.pc = self.mmu.read_word(self.reg.sp.into());
            self.reg.sp += 2;
        }
        self.reg.pc += 1;
    }

    /// When `pop_bc` can run: the memory it touches lies in working RAM and
    /// its checked arithmetic does not overflow.
    pub open spec fn pre_pop_bc(self) -> bool {
        self.reg.sp + 1 < WORKING_RAM_BYTES && self.reg.pc < 0xFFFF
    }

    /// The state that `pop_bc` leaves.
    pub open spec fn post_pop_bc(self) -> Cpu {
        Cpu {
            reg: Register {
                c: self.mmu.byte_at(self.reg.sp as int),
                b: self.mmu.byte_at(self.reg.sp + 1),
                sp: (self.reg.sp + 2) as u16,
                pc: (self.reg.pc + 1) as u16,
                ..self.reg
            },
            m: 3,
            ..self
        }
    }

    /// Pops `BC` from the stack: `C` from `SP`, `B` from `SP + 1`.
    pub fn pop_bc(&mut self)
        requires
            old(self).pre_pop_bc(),
        ensures
            *final(self) == old(self).post_pop_bc(),
    {
        self.m = 3;
        let lower_byte = self.mmu.read_byte(self.reg.sp.into());
        self.reg.c = lower_byte;
        self.reg.sp += 1;
        let upper_byte = self.mmu.read_byte(self.reg.sp.into());
        self.reg.b = upper_byte;
        self.reg.sp += 1;
        self.reg.pc += 1;
    }

    /// When `jp_nz` can run: the memory it touches lies in working RAM and
    /// its checked arithmetic does not overflow.
    pub open spec fn pre_jp_nz(self) -> bool {
        if !self.flag_set(ZERO_MASK) { self.reg.pc + 1 < WORKING_RAM_BYTES } else { self.reg.pc < 0xFFFF }
    }

    /// The state that `jp_nz` leaves.
    pub open spec fn post_jp_nz(self) -> Cpu {
        let pc = if !self.flag_set(ZERO_MASK) { self.mmu.word_at(self.reg.pc as int) } else { (self.reg.pc + 1) as u16 };
        Cpu { reg: Register { pc, ..self.reg }, m: 4, ..self }
    }

    /// When the zero flag is clear, jumps to the word at the program counter;
    /// otherwise moves on by 1.
    pub fn jp_nz(&mut self)
        requires
            old(self).pre_jp_nz(),
        ensures
            *final(self) == old(self).post_jp_nz(),
    {
        self.m = 4;
        if !self.flag_is_active(Flags::Zero) {
            self.reg.pc = self.mmu.read_word(self.reg.pc.into());
        } else {
            self.reg.pc += 1;
        }
    }

    /// When `jp` can run: the memory it touches lies in working RAM and
    /// its checked arithmetic does not overflow.
    pub open spec fn pre_jp(self) -> bool {
        self.reg.pc + 1 < WORKING_RAM_BYTES
    }

    /// The state that `jp` leaves.
    pub open spec fn post_jp(self) -> Cpu {
        Cpu { reg: Register { pc: self.mmu.word_at(self.reg.pc as int), ..self.reg }, m: 4, ..self }
    }

    /// Jumps to the word at the program counter.
    pub fn jp(&mut self)
        requires
            old(self).pre_jp(),
        ensures
            *final(self) == old(self).post_jp(),
    {
        self.m = 4;
        self.reg.pc = self.mmu.read_word(self.reg.pc.into());
    }

    /// When `call_nz` can run: the memory it touches lies in working RAM and
    /// its checked arithmetic does not overflow.
    pub open spec fn pre_call_nz(self) -> bool {
        if !self.flag_set(ZERO_MASK) { self.reg.sp >= 2 && self.reg.sp - 1 < WORKING_RAM_BYTES && self.reg.pc + 1 < WORKING_RAM_BYTES } else { self.reg.pc < 0xFFFE }
    }

    /// The state that `call_nz` leaves.
    pub open spec fn post_call_nz(self) -> Cpu {
        if !self.flag_set(ZERO_MASK) {
            Cpu { m: 6, ..self }.post_call()
        } else {
            Cpu { reg: Register { pc: (self.reg.pc + 2) as u16, ..self.reg }, m: 3, ..self }
        }
    }

    /// When the zero flag is clear, calls the address at the program counter (see
    /// `call`); otherwise moves on by 2.
    pub fn call_nz(&mut self)
        requires
            old(self).pre_call_nz(),
        ensures
            *final(self) == old(self).post_call_nz(),
    {
        if !self.flag_is_active(Flags::Zero) {
            self.m = 6;
            self.reg.sp -= 2;
            self.mmu.write_word(self.reg.sp.into(), self.reg.pc + 2);
            self.reg.pc = self.mmu.read_word(self.reg.pc.into());
        } else {
            self.reg.pc += 2;
            self.m = 3;
        }
    }

    /// When `push_bc` can run: the memory it touches lies in working RAM and
    /// its checked arithmetic does not overflow.
    pub open spec fn pre_push_bc(self) -> bool {
        self.reg.sp >= 2 && self.reg.sp - 1 < WORKING_RAM_BYTES && self.reg.pc < 0xFFFF
    }

    /// The state that `push_bc` leaves.
    pub open spec fn post_push_bc(self) -> Cpu {
        let sp = (self.reg.sp - 2) as u16;
        Cpu {
            reg: Register { sp, pc: (self.reg.pc + 1) as u16, ..self.reg },
            mmu: self.mmu.with_word(sp as int, self.reg.bc()),
            m: 4,
            ..self
        }
    }

    /// Pushes `BC`: `SP` goes down by 2 and `BC` is stored there as a word.
    pub fn push_bc(&mut self)
        requires
            old(self).pre_push_bc(),
        ensures
            *final(self) == old(self).post_push_bc(),
    {
        self.m = 4;
        self.reg.sp -= 2;
        self.mmu.write_word(self.reg.sp.into(), self.reg.get_bc());
        self.reg.pc += 1;
    }

    /// When `add_a_byte` can run: the memory it touches lies in working RAM and
    /// its checked arithmetic does not overflow.
    pub open spec fn pre_add_a_byte(self) -> bool {
        self.reg.pc < WORKING_RAM_BYTES
    }

    /// The state that `add_a_byte` leaves.
    pub open spec fn post_add_a_byte(self) -> Cpu {
        let a = self.reg.a.wrapping_add(self.mmu.byte_at(self.reg.pc as int));
        let f = flag_if(flag_if(flag_if(self.reg.f & !OPERATION_MASK, ZERO_MASK, a == 0), HALF_CARRY_MASK, a & 0x7 == 0), CARRY_MASK, a & 0x80 == 0);
        Cpu { reg: Register { a, f, pc: (self.reg.pc + 2) as u16, ..self.reg }, m: 2, ..self }
    }

    /// Adds the byte at the program counter to `A` (wrapping); clears the
    /// subtraction flag, sets the zero flag when the result is zero, the half-carry
    /// flag when its low 3 bits are zero and the carry flag when its bit 7 is clear.
    pub fn add_a_byte(&mut self)
        requires
            old(self).pre_add_a_byte(),
        ensures
            *final(self) == old(self).post_add_a_byte(),
    {
        self.m = 2;
        self.reg.a = self.reg.a.wrapping_add(self.mmu.read_byte(self.reg.pc.into()));
        self.unset_flag(Flags::Operation);
        self.set_flag_on_if(Flags::Zero, self.reg.a == 0);
        self.set_flag_on_if(Flags::HalfCarry, self.reg.a & 0x7 == 0);
        self.set_flag_on_if(Flags::Carry, self.reg.a & 0x80 == 0);
        self.reg.pc += 2;
    }

    /// When `rst_zero` can run: the memory it touches lies in working RAM and
    /// its checked arithmetic does not overflow.
    pub open spec fn pre_rst_zero(self) -> bool {
        self.reg.sp >= 2 && self.reg.sp - 1 < WORKING_RAM_BYTES
    }

    /// The state that `rst_zero` leaves.
    pub open spec fn post_rst_zero(self) -> Cpu {
        let sp = (self.reg.sp - 2) as u16;
        Cpu {
            reg: Register { sp, pc: 0x00, ..self.reg },
            mmu: self.mmu.with_word(sp as int, self.reg.pc),
            m: 4,
            ..self
        }
    }

    /// Calls address `0x00`: pushes the program counter and jumps there.
    pub fn rst_zero(&mut self)
        requires
            old(self).pre_rst_zero(),
        ensures
            *final(self) == old(self).post_rst_zero(),
    {
        self.m = 4;
        self.reg.sp -= 2;
        self.mmu.write_word(self.reg.sp.into(), self.reg.pc);
        self.reg.pc = 0x00;
    }

    /// When `ret_z` can run: the memory it touches lies in working RAM and
    /// its checked arithmetic does not overflow.
    pub open spec fn pre_ret_z(self) -> bool {
        self.flag_set(ZERO_MASK) ==> self.reg.sp + 1 < WORKING_RAM_BYTES
    }

    /// The state that `ret_z` leaves.
    pub open spec fn post_ret_z(self) -> Cpu {
        if self.flag_set(ZERO_MASK) {
            Cpu { reg: Register { pc: self.mmu.word_at(self.reg.sp as int), sp: (self.reg.sp + 2) as u16, ..self.reg }, m: 5, ..self }
        } else {
            Cpu { m: 2, ..self }
        }
    }

    /// When the zero flag is set, returns from a subroutine (see `ret`).
    pub fn ret_z(&mut self)
        requires
            old(self).pre_ret_z(),
        ensures
            *final(self) == old(self).post_ret_z(),
    {
        if self.flag_is_active(Flags::Zero) {
            self.m = 5;
            self.reg.pc = self.mmu.read_word(self.reg.sp.into());
            self.reg.sp += 2;
        } else {
            self.m = 2;
        }
    }

    /// When `ret` can run: the memory it touches lies in working RAM and
    /// its checked arithmetic does not overflow.
    pub open spec fn pre_ret(self) -> bool {
        self.reg.sp + 1 < WORKING_RAM_BYTES
    }

    /// The state that `ret` leaves.
    pub open spec fn post_ret(self) -> Cpu {
        Cpu { reg: Register { pc: self.mmu.word_at(self.reg.sp as int), sp: (self.reg.sp + 2) as u16, ..self.reg }, m: 4, ..self }
    }

    /// Returns from a subroutine: the program counter is popped from the stack and
    /// `SP` goes up by 2.
    pub fn ret(&mut self)
        requires
            old(self).pre_ret(),
        ensures
            *final(self) == old(self).post_ret(),
    {
        self.m = 4;
        self.reg.pc = self.mmu.read_word(self.reg.sp.into());
        self.reg.sp += 2;
    }

    /// When `jp_z` can run: the memory it touches lies in working RAM and
    /// its checked arithmetic does not overflow.
    pub open spec fn pre_jp_z(self) -> bool {
        if self.flag_set(ZERO_MASK) { self.reg.pc + 1 < WORKING_RAM_BYTES } else { self.reg.pc < 0xFFFE }
    }

    /// The state that `jp_z` leaves.
    pub open spec fn post_jp_z(self) -> Cpu {
        if self.flag_set(ZERO_MASK) {
            Cpu { reg: Register { pc: self.mmu.word_at(self.reg.pc as int), ..self.reg }, m: 4, ..self }
        } else {
            Cpu { reg: Register { pc: (self.reg.pc + 2) as u16, ..self.reg }, m: 3, ..self }
        }
    }

    /// When the zero flag is set, jumps to the word at the program counter;
    /// otherwise moves on by 2.
    pub fn jp_z(&mut self)
        requires
            old(self).pre_jp_z(),
        ensures
            *final(self) == old(self).post_jp_z(),
    {
        if self.flag_is_active(Flags::Zero) {
            self.m = 4;
            self.reg.pc = self.mmu.read_word(self.reg.pc.into());
        } else {
            self.m = 3;
            self.reg.pc += 2;
        }
    }

    /// When `call_z` can run: the memory it touches lies in working RAM and
    /// its checked arithmetic does not overflow.
    pub open spec fn pre_call_z(self) -> bool {
        if self.flag_set(ZERO_MASK) { self.reg.sp >= 2 && self.reg.sp - 1 < WORKING_RAM_BYTES && self.reg.pc + 1 < WORKING_RAM_BYTES } else { self.reg.pc < 0xFFFE }
    }

    /// The state that `call_z` leaves.
    pub open spec fn post_call_z(self) -> Cpu {
        if self.flag_set(ZERO_MASK) {
            Cpu { m: 6, ..self }.post_call()
        } else {
            Cpu { reg: Register { pc: (self.reg.pc + 2) as u16, ..self.reg }, m: 3, ..self }
        }
    }

    /// When the zero flag is set, calls the address at the program counter (see
    /// `call`); otherwise moves on by 2.
    pub fn call_z(&mut self)
        requires
            old(self).pre_call_z(),
        ensures
            *final(self) == old(self).post_call_z(),
    {
        if self.flag_is_active(Flags::Zero) {
            self.m = 6;
            self.reg.sp -= 2;
            self.mmu.write_word(self.reg.sp.into(), self.reg.pc + 2);
            self.reg.pc = self.mmu.read_word(self.reg.pc.into());
        } else {
            self.m = 3;
            self.reg.pc += 2;
        }
    }

    /// When `call` can run: the memory it touches lies in working RAM and
    /// its checked arithmetic does not overflow.
    pub open spec fn pre_call(self) -> bool {
        self.reg.sp >= 2 && self.reg.sp - 1 < WORKING_RAM_BYTES && self.reg.pc + 1 < WORKING_RAM_BYTES
    }

    /// The state that `call` leaves.
    pub open spec fn post_call(self) -> Cpu {
        let sp = (self.reg.sp - 2) as u16;
        let mmu = self.mmu.with_word(sp as int, (self.reg.pc + 2) as u16);
        Cpu { reg: Register { sp, pc: mmu.word_at(self.reg.pc as int), ..self.reg }, mmu, m: 6, ..self }
    }

    /// Calls the address at the program counter: `SP` goes down by 2, the program
    /// counter plus 2 is stored there as a word, and the program counter becomes the
    /// word at its old value, read after that store.
    pub fn call(&mut self)
        requires
            old(self).pre_call(),
        ensures
            *final(self) == old(self).post_call(),
    {
        self.m = 6;
        self.reg.sp -= 2;
        self.mmu.write_word(self.reg.sp.into(), self.reg.pc + 2);
        self.reg.pc = self.mmu.read_word(self.reg.pc.into());
    }

    /// When `adc_a` can run: the memory it touches lies in working RAM and
    /// its checked arithmetic does not overflow.
    pub open spec fn pre_adc_a(self) -> bool {
        self.reg.pc < WORKING_RAM_BYTES
    }

    /// The state that `adc_a` leaves.
    pub open spec fn post_adc_a(self) -> Cpu {
        let carry: u8 = if self.flag_set(CARRY_MASK) { 1 } else { 0 };
        let a = self.reg.a.wrapping_add(self.mmu.byte_at(self.reg.pc as int)).wrapping_add(carry);
        let f = flag_if(flag_if(flag_if(self.reg.f & !OPERATION_MASK, ZERO_MASK, a == 0), HALF_CARRY_MASK, a & 0x7 == 0), CARRY_MASK, a & 0x80 == 0);
        Cpu { reg: Register { a, f, pc: (self.reg.pc + 2) as u16, ..self.reg }, m: 2, ..self }
    }

    /// Adds the byte at the program counter, and 1 more when the carry flag is set,
    /// to `A` (wrapping); flags as for `add_a_byte`.
    pub fn adc_a(&mut self)
        requires
            old(self).pre_adc_a(),
        ensures
            *final(self) == old(self).post_adc_a(),
    {
        self.m = 2;
        let carry: u8 = if self.flag_is_active(Flags::Carry) { 1 } else { 0 };
        self.reg.a = self.reg.a.wrapping_add(self.mmu.read_byte(self.reg.pc.into())).wrapping_add(carry);
        self.unset_flag(Flags::Operation);
        self.set_flag_on_if(Flags::Zero, self.reg.a == 0);
        self.set_flag_on_if(Flags::HalfCarry, self.reg.a & 0x7 == 0);
        self.set_flag_on_if(Flags::Carry, self.reg.a & 0x80 == 0);
        self.reg.pc += 2;
    }

    /// When `rst_one` can run: the memory it touches lies in working RAM and
    /// its checked arithmetic does not overflow.
    pub open spec fn pre_rst_one(self) -> bool {
        self.reg.sp >= 2 && self.reg.sp - 1 < WORKING_RAM_BYTES
    }

    /// The state that `rst_one` leaves.
    pub open spec fn post_rst_one(self) -> Cpu {
        let sp = (self.reg.sp - 2) as u16;
        Cpu {
            reg: Register { sp, pc: 0x08, ..self.reg },
            mmu: self.mmu.with_word(sp as int, self.reg.pc),
            m: 4,
            ..self
        }
    }

    /// Calls address `0x08`: pushes the program counter and jumps there.
    pub fn rst_one(&mut self)
        requires
            old(self).pre_rst_one(),
        ensures
            *final(self) == old(self).post_rst_one(),
    {
        self.m = 4;
        self.reg.sp -= 2;
        self.mmu.write_word(self.reg.sp.into(), self.reg.pc);
        self.reg.pc = 0x08;
    }

    /// When `ret_nc` can run: the memory it touches lies in working RAM and
    /// its checked arithmetic does not overflow.
    pub open spec fn pre_ret_nc(self) -> bool {
        !self.flag_set(CARRY_MASK) ==> self.reg.sp + 1 < WORKING_RAM_BYTES
    }

    /// The state that `ret_nc` leaves.
    pub open spec fn post_ret_nc(self) -> Cpu {
        if !self.flag_set(CARRY_MASK) {
            Cpu { reg: Register { pc: self.mmu.word_at(self.reg.sp as int), sp: (self.reg.sp + 2) as u16, ..self.reg }, m: 5, ..self }
        } else {
            Cpu { m: 2, ..self }
        }
    }

    /// When the carry flag is clear, returns from a subroutine (see `ret`).
    pub fn ret_nc(&mut self)
        requires
            old(self).pre_ret_nc(),
        ensures
            *final(self) == old(self).post_ret_nc(),
    {
        if !self.flag_is_active(Flags::Carry) {
            self.m = 5;
            self.reg.pc = self.mmu.read_word(self.reg.sp.into());
            self.reg.sp += 2;
        } else {
            self.m = 2;
        }
    }

    /// When `pop_de` can run: the memory it touches lies in working RAM and
    /// its checked arithmetic does not overflow.
    pub open spec fn pre_pop_de(self) -> bool {
        self.reg.sp + 1 < WORKING_RAM_BYTES
    }

    /// The state that `pop_de` leaves.
    pub open spec fn post_pop_de(self) -> Cpu {
        Cpu {
            reg: Register { sp: (self.reg.sp + 2) as u16, ..self.reg }.with_de(self.mmu.word_at(self.reg.sp as int)),
            m: 3,
            ..self
        }
    }

    /// Pops `DE` from the stack as a word; the program counter stays.
    pub fn pop_de(&mut self)
        requires
            old(self).pre_pop_de(),
        ensures
            *final(self) == old(self).post_pop_de(),
    {
        self.m = 3;
        self.reg.set_de(self.mmu.read_word(self.reg.sp.into()));
        self.reg.sp += 2;
    }

    /// When `jp_nc` can run: the memory it touches lies in working RAM and
    /// its checked arithmetic does not overflow.
    pub open spec fn pre_jp_nc(self) -> bool {
        if !self.flag_set(CARRY_MASK) { self.reg.pc + 1 < WORKING_RAM_BYTES } else { self.reg.pc < 0xFFFE }
    }

    /// The state that `jp_nc` leaves.
    pub open spec fn post_jp_nc(self) -> Cpu {
        if !self.flag_set(CARRY_MASK) {
            Cpu { reg: Register { pc: self.mmu.word_at(self.reg.pc as int), ..self.reg }, m: 4, ..self }
        } else {
            Cpu { reg: Register { pc: (self.reg.pc + 2) as u16, ..self.reg }, m: 3, ..self }
        }
    }

    /// When the carry flag is clear, jumps to the word at the program counter;
    /// otherwise moves on by 2.
    pub fn jp_nc(&mut self)
        requires
            old(self).pre_jp_nc(),
        ensures
            *final(self) == old(self).post_jp_nc(),
    {
        if !self.flag_is_active(Flags::Carry) {
            self.m = 4;
            self.reg.pc = self.mmu.read_word(self.reg.pc.into());
        } else {
            self.m = 3;
            self.reg.pc += 2;
        }
    }

    /// When `call_nc` can run: the memory it touches lies in working RAM and
    /// its checked arithmetic does not overflow.
    pub open spec fn pre_call_nc(self) -> bool {
        if !self.flag_set(CARRY_MASK) { self.reg.sp >= 2 && self.reg.sp - 1 < WORKING_RAM_BYTES && self.reg.pc + 1 < WORKING_RAM_BYTES } else { self.reg.pc < 0xFFFE }
    }

    /// The state that `call_nc` leaves.
    pub open spec fn post_call_nc(self) -> Cpu {
        if !self.flag_set(CARRY_MASK) {
            Cpu { m: 6, ..self }.post_call()
        } else {
            Cpu { reg: Register { pc: (self.reg.pc + 2) as u16, ..self.reg }, m: 3, ..self }
        }
    }

    /// When the carry flag is clear, calls the address at the program counter (see
    /// `call`); otherwise moves on by 2.
    pub fn call_nc(&mut self)
        requires
            old(self).pre_call_nc(),
        ensures
            *final(self) == old(self).post_call_nc(),
    {
        if !self.flag_is_active(Flags::Carry) {
            self.m = 6;
            self.reg.sp -= 2;
            self.mmu.write_word(self.reg.sp.into(), self.reg.pc + 2);
            self.reg.pc = self.mmu.read_word(self.reg.pc.into());
        } else {
            self.m = 3;
            self.reg.pc += 2;
        }
    }

    /// When `push_de` can run: the memory it touches lies in working RAM and
    /// its checked arithmetic does not overflow.
    pub open spec fn pre_push_de(self) -> bool {
        self.reg.sp >= 2 && self.reg.sp - 1 < WORKING_RAM_BYTES
    }

    /// The state that `push_de` leaves.
    pub open spec fn post_push_de(self) -> Cpu {
        let sp = (self.reg.sp - 2) as u16;
        Cpu {
            reg: Register { sp, pc: self.reg.pc, ..self.reg },
            mmu: self.mmu.with_word(sp as int, self.reg.de()),
            m: 4,
            ..self
        }
    }

    /// Pushes `DE` as a word; the program counter stays.
    pub fn push_de(&mut self)
        requires
            old(self).pre_push_de(),
        ensures
            *final(self) == old(self).post_push_de(),
    {
        self.m = 4;
        self.reg.sp -= 2;
        self.mmu.write_word(self.reg.sp.into(), self.reg.get_de());
    }

    /// When `sub` can run: the memory it touches lies in working RAM and
    /// its checked arithmetic does not overflow.
    pub open spec fn pre_sub(self) -> bool {
        self.reg.pc < WORKING_RAM_BYTES
    }

    /// The state that `sub` leaves.
    pub open spec fn post_sub(self) -> Cpu {
        let value = self.mmu.byte_at(self.reg.pc as int);
        let a = self.reg.a.wrapping_sub(value);
        let f = flag_if(flag_if(flag_if(self.reg.f | OPERATION_MASK, ZERO_MASK, a == 0), HALF_CARRY_MASK, a > 0xF), CARRY_MASK, a < value);
        Cpu { reg: Register { a, f, pc: (self.reg.pc + 1) as u16, ..self.reg }, m: 2, ..self }
    }

    /// Subtracts the byte at the program counter from `A` (wrapping); sets the
    /// subtraction flag, the zero flag when the result is zero, the half-carry flag
    /// when it is above `0xF` and the carry flag when it is below that byte; moves on by 1.
    pub fn sub(&mut self)
        requires
            old(self).pre_sub(),
        ensures
            *final(self) == old(self).post_sub(),
    {
        self.m = 2;
        self.reg.a = self.reg.a.wrapping_sub(self.mmu.read_byte(self.reg.pc.into()));
        self.set_flag(Flags::Operation);
        self.set_flag_on_if(Flags::Zero, self.reg.a == 0);
        self.set_flag_on_if(Flags::HalfCarry, self.reg.a > 0xF);
        self.set_flag_on_if(Flags::Carry, self.reg.a < self.mmu.read_byte(self.reg.pc.into()));
        self.reg.pc += 1;
    }

    /// When `rst_two` can run: the memory it touches lies in working RAM and
    /// its checked arithmetic does not overflow.
    pub open spec fn pre_rst_two(self) -> bool {
        self.reg.sp >= 2 && self.reg.sp - 1 < WORKING_RAM_BYTES
    }

    /// The state that `rst_two` leaves.
    pub open spec fn post_rst_two(self) -> Cpu {
        let sp = (self.reg.sp - 2) as u16;
        Cpu {
            reg: Register { sp, pc: 0x10, ..self.reg },
            mmu: self.mmu.with_word(sp as int, self.reg.pc),
            m: 4,
            ..self
        }
    }

    /// Calls address `0x10`: pushes the program counter and jumps there.
    pub fn rst_two(&mut self)
        requires
            old(self).pre_rst_two(),
        ensures
            *final(self) == old(self).post_rst_two(),
    {
        self.m = 4;
        self.reg.sp -= 2;
        self.mmu.write_word(self.reg.sp.into(), self.reg.pc);
        self.reg.pc = 0x10;
    }

    /// When `ret_c` can run: the memory it touches lies in working RAM and
    /// its checked arithmetic does not overflow.
    pub open spec fn pre_ret_c(self) -> bool {
        self.reg.pc < 0xFFFF && (self.flag_set(CARRY_MASK) ==> self.reg.sp + 1 < WORKING_RAM_BYTES)
    }

    /// The state that `ret_c` leaves.
    pub open spec fn post_ret_c(self) -> Cpu {
        let moved = Cpu { reg: Register { pc: (self.reg.pc + 1) as u16, ..self.reg }, ..self };
        if self.flag_set(CARRY_MASK) {
            Cpu { reg: Register { pc: self.mmu.word_at(self.reg.sp as int), sp: (self.reg.sp + 2) as u16, ..moved.reg }, m: 5, ..moved }
        } else {
            Cpu { m: 2, ..moved }
        }
    }

    /// Moves the program counter on by 1; then, when the carry flag is set,
    /// returns from a subroutine (see `ret`).
    pub fn ret_c(&mut self)
        requires
            old(self).pre_ret_c(),
        ensures
            *final(self) == old(self).post_ret_c(),
    {
        self.reg.pc += 1;
        if self.flag_is_active(Flags::Carry) {
            self.m = 5;
            self.reg.pc = self.mmu.read_word(self.reg.sp.into());
            self.reg.sp += 2;
        } else {
            self.m = 2;
        }
    }

    /// When `reti` can run: the memory it touches lies in working RAM and
    /// its checked arithmetic does not overflow.
    pub open spec fn pre_reti(self) -> bool {
        self.reg.sp + 1 < WORKING_RAM_BYTES
    }

    /// The state that `reti` leaves.
    pub open spec fn post_reti(self) -> Cpu {
        Cpu {
            reg: Register { pc: self.mmu.word_at(self.reg.sp as int), sp: self.reg.sp.wrapping_add(2), ..self.reg },
            ei: true,
            m: 4,
            ..self
        }
    }

    /// Returns from a subroutine (`SP` going up by 2, wrapping) and enables interrupts.
    pub fn reti(&mut self)
        requires
            old(self).pre_reti(),
        ensures
            *final(self) == old(self).post_reti(),
    {
        self.m = 4;
        self.reg.pc = self.mmu.read_word(self.reg.sp.into());
        self.reg.sp = self.reg.sp.wrapping_add(2);
        self.ei = true;
    }

    /// When `jp_c` can run: the memory it touches lies in working RAM and
    /// its checked arithmetic does not overflow.
    pub open spec fn pre_jp_c(self) -> bool {
        if self.flag_set(CARRY_MASK) { self.reg.pc + 1 < WORKING_RAM_BYTES } else { self.reg.pc < 0xFFFE }
    }

    /// The state that `jp_c` leaves.
    pub open spec fn post_jp_c(self) -> Cpu {
        if self.flag_set(CARRY_MASK) {
            Cpu { reg: Register { pc: self.mmu.word_at(self.reg.pc as int), ..self.reg }, m: 4, ..self }
        } else {
            Cpu { reg: Register { pc: (self.reg.pc + 2) as u16, ..self.reg }, m: 3, ..self }
        }
    }

    /// When the carry flag is set, jumps to the word at the program counter;
    /// otherwise moves on by 2.
    pub fn jp_c(&mut self)
        requires
            old(self).pre_jp_c(),
        ensures
            *final(self) == old(self).post_jp_c(),
    {
        if self.flag_is_active(Flags::Carry) {
            self.m = 4;
            self.reg.pc = self.mmu.read_word(self.reg.pc.into());
        } else {
            self.m = 3;
            self.reg.pc += 2;
        }
    }

    /// When `call_c` can run: the memory it touches lies in working RAM and
    /// its checked arithmetic does not overflow.
    pub open spec fn pre_call_c(self) -> bool {
        if self.flag_set(CARRY_MASK) { self.reg.sp >= 2 && self.reg.sp - 1 < WORKING_RAM_BYTES && self.reg.pc + 1 < WORKING_RAM_BYTES } else { self.reg.pc < 0xFFFE }
    }

    /// The state that `call_c` leaves.
    pub open spec fn post_call_c(self) -> Cpu {
        if self.flag_set(CARRY_MASK) {
            Cpu { m: 6, ..self }.post_call()
        } else {
            Cpu { reg: Register { pc: (self.reg.pc + 2) as u16, ..self.reg }, m: 3, ..self }
        }
    }

    /// When the carry flag is set, calls the address at the program counter (see
    /// `call`); otherwise moves on by 2.
    pub fn call_c(&mut self)
        requires
            old(self).pre_call_c(),
        ensures
            *final(self) == old(self).post_call_c(),
    {
        if self.flag_is_active(Flags::Carry) {
            self.m = 6;
            self.reg.sp -= 2;
            self.mmu.write_word(self.reg.sp.into(), self.reg.pc + 2);
            self.reg.pc = self.mmu.read_word(self.reg.pc.into());
        } else {
            self.m = 3;
            self.reg.pc += 2;
        }
    }

    /// When `sbc_a` can run: the memory it touches lies in working RAM and
    /// its checked arithmetic does not overflow.
    pub open spec fn pre_sbc_a(self) -> bool {
        self.reg.pc < WORKING_RAM_BYTES
    }

    /// The state that `sbc_a` leaves.
    pub open spec fn post_sbc_a(self) -> Cpu {
        let value = self.mmu.byte_at(self.reg.pc as int);
        let carry: u8 = if self.flag_set(CARRY_MASK) { 1 } else { 0 };
        let a = self.reg.a.wrapping_sub(value.wrapping_add(carry));
        let f = flag_if(flag_if(flag_if(self.reg.f | OPERATION_MASK, ZERO_MASK, a == 0), HALF_CARRY_MASK, a > 0xF), CARRY_MASK, value.wrapping_add(carry) > a);
        Cpu { reg: Register { a, f, pc: (self.reg.pc + 1) as u16, ..self.reg }, m: 2, ..self }
    }

    /// Subtracts the byte at the program counter, and 1 more when the carry flag is
    /// set, from `A` (wrapping); sets the subtraction flag, the zero flag when the
    /// result is zero, the half-carry flag when it is above `0xF` and the carry flag
    /// when that byte plus that 1 (wrapping) is above the result; moves on by 1.
    pub fn sbc_a(&mut self)
        requires
            old(self).pre_sbc_a(),
        ensures
            *final(self) == old(self).post_sbc_a(),
    {
        self.m = 2;
        let carry: u8 = if self.flag_is_active(Flags::Carry) { 1 } else { 0 };
        self.reg.a = self.reg.a.wrapping_sub(self.mmu.read_byte(self.reg.pc.into()).wrapping_add(carry));
        self.set_flag(Flags::Operation);
        self.set_flag_on_if(Flags::Zero, self.reg.a == 0);
        self.set_flag_on_if(Flags::HalfCarry, self.reg.a > 0xF);
        self.set_flag_on_if(
            Flags::Carry,
            self.mmu.read_byte(self.reg.pc.into()).wrapping_add(carry) > self.reg.a,
        );
        self.reg.pc += 1;
    }

    /// When `rst_three` can run: the memory it touches lies in working RAM and
    /// its checked arithmetic does not overflow.
    pub open spec fn pre_rst_three(self) -> bool {
        self.reg.sp >= 2 && self.reg.sp - 1 < WORKING_RAM_BYTES && self.reg.pc < 0xFFFF
    }

    /// The state that `rst_three` leaves.
    pub open spec fn post_rst_three(self) -> Cpu {
        let sp = (self.reg.sp - 2) as u16;
        Cpu {
            reg: Register { sp, pc: 0x18, ..self.reg },
            mmu: self.mmu.with_word(sp as int, (self.reg.pc + 1) as u16),
            m: 4,
            ..self
        }
    }

    /// Moves the program counter on by 1, then calls address `0x18`: pushes the
    /// program counter and jumps there.
    pub fn rst_three(&mut self)
        requires
            old(self).pre_rst_three(),
        ensures
            *final(self) == old(self).post_rst_three(),
    {
        self.reg.pc += 1;
        self.m = 4;
        self.reg.sp -= 2;
        self.mmu.write_word(self.reg.sp.into(), self.reg.pc);
        self.reg.pc = 0x18;
    }

    /// When `ld_addr_a` can run: the memory it touches lies in working RAM and
    /// its checked arithmetic does not overflow.
    pub open spec fn pre_ld_addr_a(self) -> bool {
        self.reg.pc < WORKING_RAM_BYTES
    }

    /// The state that `ld_addr_a` leaves.
    pub open spec fn post_ld_addr_a(self) -> Cpu {
        Cpu {
            reg: Register { pc: (self.reg.pc + 1) as u16, ..self.reg },
            mmu: self.mmu.with_zero_page(self.mmu.byte_at(self.reg.pc as int), self.reg.a),
            m: 3,
            ..self
        }
    }

    /// Stores `A` in the internal RAM, port or mode register at `0xFF00` plus the
    /// byte at the program counter; moves on by 1.
    pub fn ld_addr_a(&mut self)
        requires
            old(self).pre_ld_addr_a(),
        ensures
            *final(self) == old(self).post_ld_addr_a(),
    {
        self.m = 3;
        let offset = self.mmu.read_byte(self.reg.pc.into());
        self.mmu.write_zero_page(offset, self.reg.a);
        self.reg.pc += 1;
    }

    /// When `pop_hl` can run: the memory it touches lies in working RAM and
    /// its checked arithmetic does not overflow.
    pub open spec fn pre_pop_hl(self) -> bool {
        self.reg.sp + 1 < WORKING_RAM_BYTES
    }

    /// The state that `pop_hl` leaves.
    pub open spec fn post_pop_hl(self) -> Cpu {
        Cpu {
            reg: Register { sp: (self.reg.sp + 2) as u16, ..self.reg }.with_hl(self.mmu.word_at(self.reg.sp as int)),
            m: 3,
            ..self
        }
    }

    /// Pops `HL` from the stack as a word; the program counter stays.
    pub fn pop_hl(&mut self)
        requires
            old(self).pre_pop_hl(),
        ensures
            *final(self) == old(self).post_pop_hl(),
    {
        self.m = 3;
        self.reg.set_hl(self.mmu.read_word(self.reg.sp.into()));
        self.reg.sp += 2;
    }

    /// The state that `ld_addr_c_a` leaves.
    pub open spec fn post_ld_addr_c_a(self) -> Cpu {
        Cpu { mmu: self.mmu.with_zero_page(self.reg.c, self.reg.a), m: 2, ..self }
    }

    /// Stores `A` in the internal RAM, port or mode register at `0xFF00` plus `C`;
    /// the program counter stays.
    pub fn ld_addr_c_a(&mut self)
        ensures
            *final(self) == old(self).post_ld_addr_c_a(),
    {
        self.m = 2;
        self.mmu.write_zero_page(self.reg.c, self.reg.a);
    }

    /// When `push_hl` can run: the memory it touches lies in working RAM and
    /// its checked arithmetic does not overflow.
    pub open spec fn pre_push_hl(self) -> bool {
        self.reg.sp >= 2 && self.reg.sp - 1 < WORKING_RAM_BYTES
    }

    /// The state that `push_hl` leaves.
    pub open spec fn post_push_hl(self) -> Cpu {
        let sp = (self.reg.sp - 2) as u16;
        Cpu {
            reg: Register { sp, pc: self.reg.pc, ..self.reg },
            mmu: self.mmu.with_word(sp as int, self.reg.hl()),
            m: 4,
            ..self
        }
    }

    /// Pushes `HL` as a word; the program counter stays.
    pub fn push_hl(&mut self)
        requires
            old(self).pre_push_hl(),
        ensures
            *final(self) == old(self).post_push_hl(),
    {
        self.m = 4;
        self.reg.sp -= 2;
        self.mmu.write_word(self.reg.sp.into(), self.reg.get_hl());
    }

    /// When `and_a` can run: the memory it touches lies in working RAM and
    /// its checked arithmetic does not overflow.
    pub open spec fn pre_and_a(self) -> bool {
        self.reg.pc < WORKING_RAM_BYTES
    }

    /// The state that `and_a` leaves.
    pub open spec fn post_and_a(self) -> Cpu {
        let a = self.reg.a & self.mmu.byte_at(self.reg.pc as int);
        let f = flag_if((self.reg.f & !OPERATION_MASK & !CARRY_MASK) | HALF_CARRY_MASK, ZERO_MASK, a == 0);
        Cpu { reg: Register { a, f, pc: (self.reg.pc + 1) as u16, ..self.reg }, m: 2, ..self }
    }

    /// `A` AND the byte at the program counter; clears the subtraction and carry
    /// flags, sets the half-carry flag, and the zero flag when the result is zero;
    /// moves on by 1.
    pub fn and_a(&mut self)
        requires
            old(self).pre_and_a(),
        ensures
            *final(self) == old(self).post_and_a(),
    {
        self.m = 2;
        self.reg.a &= self.mmu.read_byte(self.reg.pc.into());
        self.unset_flag(Flags::Operation);
        self.unset_flag(Flags::Carry);
        self.set_flag(Flags::HalfCarry);
        self.set_flag_on_if(Flags::Zero, self.reg.a == 0);
        self.reg.pc += 1;
    }

    /// When `rst_four` can run: the memory it touches lies in working RAM and
    /// its checked arithmetic does not overflow.
    pub open spec fn pre_rst_four(self) -> bool {
        self.reg.sp >= 2 && self.reg.sp - 1 < WORKING_RAM_BYTES
    }

    /// The state that `rst_four` leaves.
    pub open spec fn post_rst_four(self) -> Cpu {
        let sp = (self.reg.sp - 2) as u16;
        Cpu {
            reg: Register { sp, pc: 0x20, ..self.reg },
            mmu: self.mmu.with_word(sp as int, self.reg.pc),
            m: 4,
            ..self
        }
    }

    /// Calls address `0x20`: pushes the program counter and jumps there.
    pub fn rst_four(&mut self)
        requires
            old(self).pre_rst_four(),
        ensures
            *final(self) == old(self).post_rst_four(),
    {
        self.m = 4;
        self.reg.sp -= 2;
        self.mmu.write_word(self.reg.sp.into(), self.reg.pc);
        self.reg.pc = 0x20;
    }

    /// When `add_sp` can run: the memory it touches lies in working RAM and
    /// its checked arithmetic does not overflow.
    pub open spec fn pre_add_sp(self) -> bool {
        self.reg.pc < WORKING_RAM_BYTES
    }

    /// The state that `add_sp` leaves.
    pub open spec fn post_add_sp(self) -> Cpu {
        let sp = self.reg.sp.wrapping_add(sign_extend(self.mmu.byte_at(self.reg.pc as int)));
        let f = flag_if(flag_if(self.reg.f & !OPERATION_MASK, HALF_CARRY_MASK, sp > 0x07FF), CARRY_MASK, sp > 0x7FF);
        Cpu { reg: Register { sp, f, pc: (self.reg.pc + 1) as u16, ..self.reg }, m: 4, ..self }
    }

    /// Adds the byte at the program counter, read as a signed value, to `SP`
    /// (wrapping); clears the subtraction flag and sets both the half-carry and the
    /// carry flag exactly when the result is above `0x7FF`; moves on by 1.
    pub fn add_sp(&mut self)
        requires
            old(self).pre_add_sp(),
        ensures
            *final(self) == old(self).post_add_sp(),
    {
        self.m = 4;
        let offset = signed_offset(self.mmu.read_byte(self.reg.pc.into()));
        self.reg.sp = self.reg.sp.wrapping_add(offset);
        self.unset_flag(Flags::Operation);
        self.set_flag_on_if(Flags::HalfCarry, self.reg.sp > 0x07FF);
        self.set_flag_on_if(Flags::Carry, self.reg.sp > 0x7FF);
        self.reg.pc += 1;
    }

    /// The state that `jp_hl` leaves.
    pub open spec fn post_jp_hl(self) -> Cpu {
        Cpu { reg: Register { pc: self.reg.hl(), ..self.reg }, m: 1, ..self }
    }

    /// Jumps to the address in `HL`.
    pub fn jp_hl(&mut self)
        ensures
            *final(self) == old(self).post_jp_hl(),
    {
        self.m = 1;
        self.reg.pc = self.reg.get_hl();
    }

    /// When `ld_addr_a16_a` can run: the memory it touches lies in working RAM and
    /// its checked arithmetic does not overflow.
    pub open spec fn pre_ld_addr_a16_a(self) -> bool {
        self.reg.pc + 1 < WORKING_RAM_BYTES && self.mmu.word_at(self.reg.pc as int) < WORKING_RAM_BYTES
    }

    /// The state that `ld_addr_a16_a` leaves.
    pub open spec fn post_ld_addr_a16_a(self) -> Cpu {
        Cpu {
            reg: Register { pc: (self.reg.pc + 2) as u16, ..self.reg },
            mmu: self.mmu.with_byte(self.mmu.word_at(self.reg.pc as int) as int, self.reg.a),
            m: 4,
            ..self
        }
    }

    /// Stores `A` at the address given by the word at the program counter; moves on by 2.
    pub fn ld_addr_a16_a(&mut self)
        requires
            old(self).pre_ld_addr_a16_a(),
        ensures
            *final(self) == old(self).post_ld_addr_a16_a(),
    {
        self.m = 4;
        self.mmu.write_byte((self.mmu.read_word(self.reg.pc.into())).into(), self.reg.a);
        self.reg.pc += 2;
    }

    /// When `xor_d8` can run: the memory it touches lies in working RAM and
    /// its checked arithmetic does not overflow.
    pub open spec fn pre_xor_d8(self) -> bool {
        self.reg.pc < WORKING_RAM_BYTES
    }

    /// The state that `xor_d8` leaves.
    pub open spec fn post_xor_d8(self) -> Cpu {
        let a = self.reg.a ^ self.mmu.byte_at(self.reg.pc as int);
        let f = flag_if(self.reg.f & !OPERATION_MASK & !HALF_CARRY_MASK & !CARRY_MASK, ZERO_MASK, a == 0);
        Cpu { reg: Register { a, f, pc: (self.reg.pc + 1) as u16, ..self.reg }, m: 2, ..self }
    }

    /// `A` XOR the byte at the program counter; clears the subtraction, half-carry
    /// and carry flags, sets the zero flag when the result is zero; moves on by 1.
    pub fn xor_d8(&mut self)
        requires
            old(self).pre_xor_d8(),
        ensures
            *final(self) == old(self).post_xor_d8(),
    {
        self.m = 2;
        self.reg.a ^= self.mmu.read_byte(self.reg.pc.into());
        self.unset_flag(Flags::Operation);
        self.unset_flag(Flags::HalfCarry);
        self.unset_flag(Flags::Carry);
        self.set_flag_on_if(Flags::Zero, self.reg.a == 0);
        self.reg.pc += 1;
    }

    /// When `rst_five` can run: the memory it touches lies in working RAM and
    /// its checked arithmetic does not overflow.
    pub open spec fn pre_rst_five(self) -> bool {
        self.reg.sp >= 2 && self.reg.sp - 1 < WORKING_RAM_BYTES && self.reg.pc < 0xFFFF
    }

    /// The state that `rst_five` leaves.
    pub open spec fn post_rst_five(self) -> Cpu {
        let sp = (self.reg.sp - 2) as u16;
        Cpu {
            reg: Register { sp, pc: 0x28, ..self.reg },
            mmu: self.mmu.with_word(sp as int, (self.reg.pc + 1) as u16),
            m: 4,
            ..self
        }
    }

    /// Moves the program counter on by 1, then calls address `0x28`: pushes the
    /// program counter and jumps there.
    pub fn rst_five(&mut self)
        requires
            old(self).pre_rst_five(),
        ensures
            *final(self) == old(self).post_rst_five(),
    {
        self.reg.pc += 1;
        self.m = 4;
        self.reg.sp -= 2;
        self.mmu.write_word(self.reg.sp.into(), self.reg.pc);
        self.reg.pc = 0x28;
    }

    /// When `ld_a_a8` can run: the memory it touches lies in working RAM and
    /// its checked arithmetic does not overflow.
    pub open spec fn pre_ld_a_a8(self) -> bool {
        self.reg.pc < WORKING_RAM_BYTES
    }

    /// The state that `ld_a_a8` leaves.
    pub open spec fn post_ld_a_a8(self) -> Cpu {
        Cpu {
            reg: Register { a: self.mmu.zero_page_at(self.mmu.byte_at(self.reg.pc as int)), ..self.reg },
            m: 3,
            ..self
        }
    }

    /// Loads into `A` the internal RAM, port or mode register at `0xFF00` plus the
    /// byte at the program counter; the program counter stays.
    pub fn ld_a_a8(&mut self)
        requires
            old(self).pre_ld_a_a8(),
        ensures
            *final(self) == old(self).post_ld_a_a8(),
    {
        self.m = 3;
        let offset = self.mmu.read_byte(self.reg.pc.into());
        self.reg.a = self.mmu.read_zero_page(offset);
    }

    /// When `pop_af` can run: the memory it touches lies in working RAM and
    /// its checked arithmetic does not overflow.
    pub open spec fn pre_pop_af(self) -> bool {
        self.reg.pc < 0xFFFF && self.reg.sp + 1 < WORKING_RAM_BYTES
    }

    /// The state that `pop_af` leaves.
    pub open spec fn post_pop_af(self) -> Cpu {
        Cpu {
            reg: Register { sp: (self.reg.sp + 2) as u16, pc: (self.reg.pc + 1) as u16, ..self.reg }.with_af(self.mmu.word_at(self.reg.sp as int) & 0xFFF0),
            m: 3,
            ..self
        }
    }

    /// Moves the program counter on by 1, then pops `AF` from the stack as a word
    /// with the lowest 4 bits of `F` cleared.
    pub fn pop_af(&mut self)
        requires
            old(self).pre_pop_af(),
        ensures
            *final(self) == old(self).post_pop_af(),
    {
        self.reg.pc += 1;
        self.m = 3;
        self.reg.set_af(self.mmu.read_word(self.reg.sp.into()) & 0xFFF0);
        self.reg.sp += 2;
    }

    /// The state that `ld_a_c_addr` leaves.
    pub open spec fn post_ld_a_c_addr(self) -> Cpu {
        Cpu { reg: Register { a: self.mmu.zero_page_at(self.reg.c), ..self.reg }, m: 2, ..self }
    }

    /// Loads into `A` the internal RAM, port or mode register at `0xFF00` plus `C`;
    /// the program counter stays.
    pub fn ld_a_c_addr(&mut self)
        ensures
            *final(self) == old(self).post_ld_a_c_addr(),
    {
        self.m = 2;
        self.reg.a = self.mmu.read_zero_page(self.reg.c);
    }

    /// The state that `di` leaves.
    pub open spec fn post_di(self) -> Cpu {
        Cpu { di: true, m: 1, ..self }
    }

    /// Requests that interrupts be disabled.
    pub fn di(&mut self)
        ensures
            *final(self) == old(self).post_di(),
    {
        self.m = 1;
        self.di = true;
    }

    /// When `push_af` can run: the memory it touches lies in working RAM and
    /// its checked arithmetic does not overflow.
    pub open spec fn pre_push_af(self) -> bool {
        self.reg.sp >= 2 && self.reg.sp - 1 < WORKING_RAM_BYTES && self.reg.pc < 0xFFFF
    }

    /// The state that `push_af` leaves.
    pub open spec fn post_push_af(self) -> Cpu {
        let sp = (self.reg.sp - 2) as u16;
        Cpu {
            reg: Register { sp, pc: (self.reg.pc + 1) as u16, ..self.reg },
            mmu: self.mmu.with_word(sp as int, self.reg.af()),
            m: 4,
            ..self
        }
    }

    /// Moves the program counter on by 1, then pushes `AF` as a word.
    pub fn push_af(&mut self)
        requires
            old(self).pre_push_af(),
        ensures
            *final(self) == old(self).post_push_af(),
    {
        self.reg.pc += 1;
        self.m = 4;
        self.reg.sp -= 2;
        self.mmu.write_word(self.reg.sp.into(), self.reg.get_af());
    }

    /// When `or_d8` can run: the memory it touches lies in working RAM and
    /// its checked arithmetic does not overflow.
    pub open spec fn pre_or_d8(self) -> bool {
        self.reg.pc < WORKING_RAM_BYTES
    }

    /// The state that `or_d8` leaves.
    pub open spec fn post_or_d8(self) -> Cpu {
        let a = self.reg.a | self.mmu.byte_at(self.reg.pc as int);
        let f = flag_if(self.reg.f & !OPERATION_MASK & !HALF_CARRY_MASK & !CARRY_MASK, ZERO_MASK, a == 0);
        Cpu { reg: Register { a, f, pc: (self.reg.pc + 1) as u16, ..self.reg }, m: 2, ..self }
    }

    /// `A` OR the byte at the program counter; clears the subtraction, half-carry
    /// and carry flags, sets the zero flag when the result is zero; moves on by 1.
    pub fn or_d8(&mut self)
        requires
            old(self).pre_or_d8(),
        ensures
            *final(self) == old(self).post_or_d8(),
    {
        self.m = 2;
        self.reg.a |= self.mmu.read_byte(self.reg.pc.into());
        self.unset_flag(Flags::Operation);
        self.unset_flag(Flags::HalfCarry);
        self.unset_flag(Flags::Carry);
        self.set_flag_on_if(Flags::Zero, self.reg.a == 0);
        self.reg.pc += 1;
    }

    /// When `rst_six` can run: the memory it touches lies in working RAM and
    /// its checked arithmetic does not overflow.
    pub open spec fn pre_rst_six(self) -> bool {
        self.reg.sp >= 2 && self.reg.sp - 1 < WORKING_RAM_BYTES
    }

    /// The state that `rst_six` leaves.
    pub open spec fn post_rst_six(self) -> Cpu {
        let sp = (self.reg.sp - 2) as u16;
        Cpu {
            reg: Register { sp, pc: 0x30, ..self.reg },
            mmu: self.mmu.with_word(sp as int, self.reg.pc),
            m: 4,
            ..self
        }
    }

    /// Calls address `0x30`: pushes the program counter and jumps there.
    pub fn rst_six(&mut self)
        requires
            old(self).pre_rst_six(),
        ensures
            *final(self) == old(self).post_rst_six(),
    {
        self.m = 4;
        self.reg.sp -= 2;
        self.mmu.write_word(self.reg.sp.into(), self.reg.pc);
        self.reg.pc = 0x30;
    }

    /// When `ld_hl_sp_s8` can run: the memory it touches lies in working RAM and
    /// its checked arithmetic does not overflow.
    pub open spec fn pre_ld_hl_sp_s8(self) -> bool {
        self.reg.pc < WORKING_RAM_BYTES
    }

    /// The state that `ld_hl_sp_s8` leaves.
    pub open spec fn post_ld_hl_sp_s8(self) -> Cpu {
        let hl = self.reg.sp.wrapping_add(sign_extend(self.mmu.byte_at(self.reg.pc as int)));
        let f = flag_if(flag_if(self.reg.f & !ZERO_MASK & !OPERATION_MASK, HALF_CARRY_MASK, hl > 0x07FF), CARRY_MASK, hl > 0x7FF);
        Cpu { reg: Register { f, pc: (self.reg.pc + 1) as u16, ..self.reg }.with_hl(hl), m: 3, ..self }
    }

    /// Loads `SP` plus the byte at the program counter, read as a signed value
    /// (wrapping), into `HL`; clears the zero and subtraction flags and sets both the
    /// half-carry and the carry flag exactly when the result is above `0x7FF`; moves on by 1.
    pub fn ld_hl_sp_s8(&mut self)
        requires
            old(self).pre_ld_hl_sp_s8(),
        ensures
            *final(self) == old(self).post_ld_hl_sp_s8(),
    {
        self.m = 3;
        let operand = signed_offset(self.mmu.read_byte(self.reg.pc.into()));
        self.reg.set_hl(self.reg.sp.wrapping_add(operand));
        self.unset_flag(Flags::Zero);
        self.unset_flag(Flags::Operation);
        self.set_flag_on_if(Flags::HalfCarry, self.reg.get_hl() > 0x07FF);
        self.set_flag_on_if(Flags::Carry, self.reg.get_hl() > 0x7FF);
        self.reg.pc += 1;
    }

    /// The state that `ld_sp_hl` leaves.
    pub open spec fn post_ld_sp_hl(self) -> Cpu {
        Cpu { reg: Register { sp: self.reg.hl(), ..self.reg }, m: 2, ..self }
    }

    /// Loads `HL` into `SP`.
    pub fn ld_sp_hl(&mut self)
        ensures
            *final(self) == old(self).post_ld_sp_hl(),
    {
        self.m = 2;
        self.reg.sp = self.reg.get_hl();
    }

    /// When `ld_a_a16` can run: the memory it touches lies in working RAM and
    /// its checked arithmetic does not overflow.
    pub open spec fn pre_ld_a_a16(self) -> bool {
        self.reg.pc + 4 < WORKING_RAM_BYTES && self.mmu.word_at(self.reg.pc + 3) < WORKING_RAM_BYTES
    }

    /// The state that `ld_a_a16` leaves.
    pub open spec fn post_ld_a_a16(self) -> Cpu {
        let pc = (self.reg.pc + 3) as u16;
        Cpu {
            reg: Register { a: self.mmu.byte_at(self.mmu.word_at(pc as int) as int), pc, ..self.reg },
            m: 4,
            ..self
        }
    }

    /// Moves the program counter on by 3, then loads into `A` the byte at the
    /// address given by the word at the new program counter.
    pub fn ld_a_a16(&mut self)
        requires
            old(self).pre_ld_a_a16(),
        ensures
            *final(self) == old(self).post_ld_a_a16(),
    {
        self.reg.pc += 3;
        self.m = 4;
        self.reg.a = self.mmu.read_byte((self.mmu.read_word(self.reg.pc.into())).into());
    }

    /// The state that `ei` leaves.
    pub open spec fn post_ei(self) -> Cpu {
        Cpu { ei: true, m: 1, ..self }
    }

    /// Requests that interrupts be enabled.
    pub fn ei(&mut self)
        ensures
            *final(self) == old(self).post_ei(),
    {
        self.m = 1;
        self.ei = true;
    }

    /// When `cp_d8` can run: the memory it touches lies in working RAM and
    /// its checked arithmetic does not overflow.
    pub open spec fn pre_cp_d8(self) -> bool {
        self.reg.pc < WORKING_RAM_BYTES
    }

    /// The state that `cp_d8` leaves.
    pub open spec fn post_cp_d8(self) -> Cpu {
        let value = self.mmu.byte_at(self.reg.pc as int);
        let result = self.reg.a.wrapping_sub(value);
        let f = flag_if(flag_if(flag_if(self.reg.f | OPERATION_MASK, ZERO_MASK, result == 0), HALF_CARRY_MASK, result > 0xF), CARRY_MASK, value > self.reg.a);
        Cpu { reg: Register { f, pc: (self.reg.pc + 1) as u16, ..self.reg }, m: 2, ..self }
    }

    /// Compares `A` with the byte at the program counter, leaving `A` as it is: sets
    /// the subtraction flag, the zero flag when they are equal, the half-carry flag
    /// when `A` less that byte (wrapping) is above `0xF` and the carry flag when that
    /// byte is above `A`; moves on by 1.
    pub fn cp_d8(&mut self)
        requires
            old(self).pre_cp_d8(),
        ensures
            *final(self) == old(self).post_cp_d8(),
    {
        self.m = 2;
        let result = self.reg.a.wrapping_sub(self.mmu.read_byte(self.reg.pc as usize));
        self.set_flag(Flags::Operation);
        self.set_flag_on_if(Flags::Zero, result == 0);
        self.set_flag_on_if(Flags::HalfCarry, result > 0xF);
        self.set_flag_on_if(Flags::Carry, self.mmu.working_ram[self.reg.pc as usize] > self.reg.a);
        self.reg.pc += 1;
    }

    /// When `rst_seven` can run: the memory it touches lies in working RAM and
    /// its checked arithmetic does not overflow.
    pub open spec fn pre_rst_seven(self) -> bool {
        self.reg.sp >= 2 && self.reg.sp - 1 < WORKING_RAM_BYTES
    }

    /// The state that `rst_seven` leaves.
    pub open spec fn post_rst_seven(self) -> Cpu {
        let sp = (self.reg.sp - 2) as u16;
        Cpu {
            reg: Register { sp, pc: 0x38, ..self.reg },
            mmu: self.mmu.with_word(sp as int, self.reg.pc),
            m: 4,
            ..self
        }
    }

    /// Calls address `0x38`: pushes the program counter and jumps there.
    pub fn rst_seven(&mut self)
        requires
            old(self).pre_rst_seven(),
        ensures
            *final(self) == old(self).post_rst_seven(),
    {
        self.m = 4;
        self.reg.sp -= 2;
        self.mmu.write_word(self.reg.sp.into(), self.reg.pc);
        self.reg.pc = 0x38;
    }

}

/// A call followed by a return comes back to the instruction after the call
/// (its address plus 2) with the stack pointer where it was.
pub proof fn lemma_ret_undoes_call(cpu: Cpu)
    requires
        cpu.pre_call(),
    ensures
        cpu.post_call().pre_ret(),
        cpu.post_call().post_ret().reg.pc == cpu.reg.pc + 2,
        cpu.post_call().post_ret().reg.sp == cpu.reg.sp,
{
    let sp = (cpu.reg.sp - 2) as u16;
    lemma_word_write_then_read(cpu.mmu, sp as int, (cpu.reg.pc + 2) as u16);
}

/// A restart followed by a return comes back to the address the restart was
/// executed at, with the stack pointer where it was.
pub proof fn lemma_ret_undoes_rst(cpu: Cpu)
    requires
        cpu.pre_rst_zero(),
    ensures
        cpu.post_rst_zero().pre_ret(),
        cpu.post_rst_zero().post_ret().reg.pc == cpu.reg.pc,
        cpu.post_rst_zero().post_ret().reg.sp == cpu.reg.sp,
{
    lemma_word_write_then_read(cpu.mmu, cpu.reg.sp - 2, cpu.reg.pc);
}

/// Popping `DE` (or `HL`) right after pushing it gives back the pair, with the
/// stack pointer where it was.
pub proof fn lemma_pop_undoes_push(cpu: Cpu)
    requires
        cpu.pre_push_de(),
        cpu.pre_push_hl(),
    ensures
        cpu.post_push_de().pre_pop_de(),
        cpu.post_push_de().post_pop_de().reg.de() == cpu.reg.de(),
        cpu.post_push_de().post_pop_de().reg.sp == cpu.reg.sp,
        cpu.post_push_hl().pre_pop_hl(),
        cpu.post_push_hl().post_pop_hl().reg.hl() == cpu.reg.hl(),
        cpu.post_push_hl().post_pop_hl().reg.sp == cpu.reg.sp,
{
    lemma_word_write_then_read(cpu.mmu, cpu.reg.sp - 2, cpu.reg.de());
    lemma_word_write_then_read(cpu.mmu, cpu.reg.sp - 2, cpu.reg.hl());
}

/// `push_bc` stores `BC` upper byte first while `pop_bc` takes `C` from the
/// lower address, so popping right after pushing swaps `B` and `C`.
pub proof fn lemma_pop_bc_swaps_push_bc(cpu: Cpu)
    requires
        cpu.pre_push_bc(),
        cpu.reg.pc < 0xFFFE,
    ensures
        cpu.post_push_bc().pre_pop_bc(),
        cpu.post_push_bc().post_pop_bc().reg.b == cpu.reg.c,
        cpu.post_push_bc().post_pop_bc().reg.c == cpu.reg.b,
        cpu.post_push_bc().post_pop_bc().reg.sp == cpu.reg.sp,
{
    let sp = cpu.reg.sp - 2;
    let m1 = cpu.mmu.with_byte(sp, high_byte(cpu.reg.bc()));
    assert(m1.working_ram@ == cpu.mmu.working_ram@.update(sp, high_byte(cpu.reg.bc())));
}

/// Popping `AF` right after pushing it gives back `A` and the flags (the upper
/// nibble of `F`), with the stack pointer where it was.
pub proof fn lemma_pop_af_undoes_push_af(cpu: Cpu)
    requires
        cpu.pre_push_af(),
        cpu.reg.pc < 0xFFFE,
    ensures
        cpu.post_push_af().pre_pop_af(),
        cpu.post_push_af().post_pop_af().reg.a == cpu.reg.a,
        cpu.post_push_af().post_pop_af().reg.f == cpu.reg.f & 0xF0,
        cpu.post_push_af().post_pop_af().reg.sp == cpu.reg.sp,
{
    let sp = cpu.reg.sp - 2;
    lemma_word_write_then_read(cpu.mmu, sp, cpu.reg.af());
    let w: u16 = cpu.reg.af();
    let a = cpu.reg.a;
    let f = cpu.reg.f;
    assert(w == a * 256 + f);
    assert((w & 0xFFF0) / 256 == a && (w & 0xFFF0) % 256 == f & 0xF0) by (bit_vector)
        requires
            w == a * 256 + f,
    ;
}

/// What a call leaves, relative to the state it started from: `SP` two lower,
/// the return address (the operand address plus 2) stored there as a word,
/// the program counter at the target word read from the operand address, the
/// other registers and every other working-RAM byte as they were, and a
/// `ret` that comes back to the return address with `SP` restored.
pub open spec fn called_from(before: Cpu, after: Cpu) -> bool {
    let sp = before.reg.sp - 2;
    &&& after.reg.sp == sp
    &&& after.mmu.word_at(sp) == before.reg.pc + 2
    &&& after.reg.pc == after.mmu.word_at(before.reg.pc as int)
    &&& after.reg == Register { sp: after.reg.sp, pc: after.reg.pc, ..before.reg }
    &&& forall|i: int|
        0 <= i < WORKING_RAM_BYTES && i != sp && i != sp + 1 ==> #[trigger] after.mmu.byte_at(i)
            == before.mmu.byte_at(i)
    &&& after.pre_ret()
    &&& after.post_ret().reg.pc == before.reg.pc + 2
    &&& after.post_ret().reg.sp == before.reg.sp
}

/// What a call not taken leaves: the program counter past the 2 operand bytes,
/// `SP`, the other registers and memory as they were.
pub open spec fn call_skipped(before: Cpu, after: Cpu) -> bool {
    &&& after.reg == Register { pc: (before.reg.pc + 2) as u16, ..before.reg }
    &&& after.mmu == before.mmu
}

proof fn lemma_call_pushes_return(cpu: Cpu)
    requires
        cpu.pre_call(),
    ensures
        called_from(cpu, cpu.post_call()),
{
    let sp = (cpu.reg.sp - 2) as u16;
    let ret = (cpu.reg.pc + 2) as u16;
    lemma_word_write_then_read(cpu.mmu, sp as int, ret);
    let after = cpu.post_call();
    assert forall|i: int|
        0 <= i < WORKING_RAM_BYTES && i != sp && i != sp + 1 implies #[trigger] after.mmu.byte_at(i)
        == cpu.mmu.byte_at(i) by {
        let m1 = cpu.mmu.with_byte(sp as int, high_byte(ret));
        assert(m1.working_ram@ == cpu.mmu.working_ram@.update(sp as int, high_byte(ret)));
    }
    lemma_ret_undoes_call(cpu);
}

/// A call, and each conditional call whose condition holds, pushes the
/// address after its operand and jumps to the operand, so that `ret` comes
/// back to the next instruction; a conditional call whose condition fails
/// only moves past its operand.
pub proof fn lemma_calls_push_return_address(cpu: Cpu)
    ensures
        cpu.pre_call() ==> called_from(cpu, cpu.post_call()),
        cpu.pre_call_nz() ==> if !cpu.flag_set(ZERO_MASK) {
            called_from(cpu, cpu.post_call_nz())
        } else {
            call_skipped(cpu, cpu.post_call_nz())
        },
        cpu.pre_call_z() ==> if cpu.flag_set(ZERO_MASK) {
            called_from(cpu, cpu.post_call_z())
        } else {
            call_skipped(cpu, cpu.post_call_z())
        },
        cpu.pre_call_nc() ==> if !cpu.flag_set(CARRY_MASK) {
            called_from(cpu, cpu.post_call_nc())
        } else {
            call_skipped(cpu, cpu.post_call_nc())
        },
        cpu.pre_call_c() ==> if cpu.flag_set(CARRY_MASK) {
            called_from(cpu, cpu.post_call_c())
        } else {
            call_skipped(cpu, cpu.post_call_c())
        },
{
    let with_m = Cpu { m: 6, ..cpu };
    if with_m.pre_call() {
        lemma_call_pushes_return(with_m);
        lemma_call_pushes_return(cpu);
    }
}

/// XOR: for opcodes `0xA8` to `0xAF`, `A` becomes the bitwise exclusive-or of
/// `A` and the operand the lowest 3 bits name; the zero flag tells whether
/// that is 0, the half-carry and carry flags are cleared, and the program
/// counter moves on by 1. XOR of `A` with itself always gives 0 with the zero
/// flag set, and XOR with another register twice gives `A` back.
pub proof fn lemma_xor(cpu: Cpu)
    requires
        0xA8 <= cpu.current_opcode <= 0xAF,
        cpu.pre_parse_xor_opcodes(),
    ensures
        ({
            let after = cpu.post_parse_xor_opcodes();
            let operand = cpu.register_value(cpu.current_opcode & 0x7);
            &&& after.reg.a == cpu.reg.a ^ operand
            &&& (after.reg.f & ZERO_MASK != 0) == (after.reg.a == 0)
            &&& after.reg.f & HALF_CARRY_MASK == 0
            &&& after.reg.f & CARRY_MASK == 0
            &&& after.reg.pc == cpu.reg.pc + 1
            &&& cpu.current_opcode == 0xAF ==> after.reg.a == 0 && after.reg.f & ZERO_MASK != 0
            &&& cpu.current_opcode != 0xAF && cpu.current_opcode != 0xAE && after.pre_parse_xor_opcodes()
                ==> after.post_parse_xor_opcodes().reg.a == cpu.reg.a
        }),
{
    let operand = cpu.register_value(cpu.current_opcode & 0x7);
    let a = cpu.reg.a;
    let f = cpu.reg.f;
    let r = a ^ operand;
    let op = cpu.current_opcode;
    let g = flag_if(f & !ZERO_MASK & !HALF_CARRY_MASK & !CARRY_MASK, ZERO_MASK, r == 0);
    assert(r ^ operand == a && a ^ a == 0 && (g & ZERO_MASK != 0 <==> r == 0) && g & HALF_CARRY_MASK
        == 0 && g & CARRY_MASK == 0 && (op == 0xAF ==> op & 0x7 == 7) && (0xA8 <= op <= 0xAD ==> op
        & 0x7 <= 5)) by (bit_vector)
        requires
            r == a ^ operand,
            g == flag_if(f & !ZERO_MASK & !HALF_CARRY_MASK & !CARRY_MASK, ZERO_MASK, r == 0),
    ;
}

/// Setting or clearing one flag with `flag_if` decides that flag and keeps
/// the other three; setting and clearing flags with masks does the same.
proof fn lemma_flag_if_bits()
    by (bit_vector)
    ensures
        forall|f: u8, c: bool|
            #![trigger flag_if(f, ZERO_MASK, c)]
            (flag_if(f, ZERO_MASK, c) & ZERO_MASK != 0) == c
                && (flag_if(f, ZERO_MASK, c) & OPERATION_MASK != 0) == (f & OPERATION_MASK != 0)
                && (flag_if(f, ZERO_MASK, c) & HALF_CARRY_MASK != 0) == (f & HALF_CARRY_MASK != 0)
                && (flag_if(f, ZERO_MASK, c) & CARRY_MASK != 0) == (f & CARRY_MASK != 0),
        forall|f: u8, c: bool|
            #![trigger flag_if(f, HALF_CARRY_MASK, c)]
            (flag_if(f, HALF_CARRY_MASK, c) & HALF_CARRY_MASK != 0) == c
                && (flag_if(f, HALF_CARRY_MASK, c) & ZERO_MASK != 0) == (f & ZERO_MASK != 0)
                && (flag_if(f, HALF_CARRY_MASK, c) & OPERATION_MASK != 0) == (f & OPERATION_MASK != 0)
                && (flag_if(f, HALF_CARRY_MASK, c) & CARRY_MASK != 0) == (f & CARRY_MASK != 0),
        forall|f: u8, c: bool|
            #![trigger flag_if(f, CARRY_MASK, c)]
            (flag_if(f, CARRY_MASK, c) & CARRY_MASK != 0) == c
                && (flag_if(f, CARRY_MASK, c) & ZERO_MASK != 0) == (f & ZERO_MASK != 0)
                && (flag_if(f, CARRY_MASK, c) & OPERATION_MASK != 0) == (f & OPERATION_MASK != 0)
                && (flag_if(f, CARRY_MASK, c) & HALF_CARRY_MASK != 0) == (f & HALF_CARRY_MASK != 0),
        forall|f: u8|
            #![trigger f | OPERATION_MASK]
            ((f | OPERATION_MASK) & OPERATION_MASK != 0) == true && ((f | OPERATION_MASK) & ZERO_MASK != 0) == (f & ZERO_MASK != 0) && ((f | OPERATION_MASK) & HALF_CARRY_MASK != 0) == (f & HALF_CARRY_MASK != 0) && ((f | OPERATION_MASK) & CARRY_MASK != 0) == (f & CARRY_MASK != 0),
        forall|f: u8|
            #![trigger f & !OPERATION_MASK]
            ((f & !OPERATION_MASK) & OPERATION_MASK != 0) == false && ((f & !OPERATION_MASK) & ZERO_MASK != 0) == (f & ZERO_MASK != 0) && ((f & !OPERATION_MASK) & HALF_CARRY_MASK != 0) == (f & HALF_CARRY_MASK != 0) && ((f & !OPERATION_MASK) & CARRY_MASK != 0) == (f & CARRY_MASK != 0),
        forall|f: u8|
            #![trigger (f | HALF_CARRY_MASK) & !OPERATION_MASK & !CARRY_MASK]
            (((f | HALF_CARRY_MASK) & !OPERATION_MASK & !CARRY_MASK) & OPERATION_MASK != 0) == false && (((f | HALF_CARRY_MASK) & !OPERATION_MASK & !CARRY_MASK) & HALF_CARRY_MASK != 0) == true && (((f | HALF_CARRY_MASK) & !OPERATION_MASK & !CARRY_MASK) & CARRY_MASK != 0) == false,
        forall|f: u8|
            #![trigger f & !ZERO_MASK & !HALF_CARRY_MASK & !CARRY_MASK]
            ((f & !ZERO_MASK & !HALF_CARRY_MASK & !CARRY_MASK) & HALF_CARRY_MASK != 0) == false && ((f & !ZERO_MASK & !HALF_CARRY_MASK & !CARRY_MASK) & CARRY_MASK != 0) == false && ((f & !ZERO_MASK & !HALF_CARRY_MASK & !CARRY_MASK) & OPERATION_MASK != 0) == (f & OPERATION_MASK != 0),
        forall|f: u8|
            #![trigger (f & !OPERATION_MASK & !CARRY_MASK) | HALF_CARRY_MASK]
            (((f & !OPERATION_MASK & !CARRY_MASK) | HALF_CARRY_MASK) & OPERATION_MASK != 0) == false && (((f & !OPERATION_MASK & !CARRY_MASK) | HALF_CARRY_MASK) & HALF_CARRY_MASK != 0) == true && (((f & !OPERATION_MASK & !CARRY_MASK) | HALF_CARRY_MASK) & CARRY_MASK != 0) == false,
        forall|f: u8|
            #![trigger f & !OPERATION_MASK & !HALF_CARRY_MASK & !CARRY_MASK]
            ((f & !OPERATION_MASK & !HALF_CARRY_MASK & !CARRY_MASK) & OPERATION_MASK != 0) == false && ((f & !OPERATION_MASK & !HALF_CARRY_MASK & !CARRY_MASK) & HALF_CARRY_MASK != 0) == false && ((f & !OPERATION_MASK & !HALF_CARRY_MASK & !CARRY_MASK) & CARRY_MASK != 0) == false,
{
}

/// The operation bits of opcodes `0x80` to `0x9F` in each block of eight,
/// and the low 3 bits of the opcodes naming `A`.
proof fn lemma_math_operation(op: u8)
    by (bit_vector)
    ensures
        0x80 <= op <= 0x87 ==> (op >> 3u8) & 0x7 == 0,
        0x88 <= op <= 0x8F ==> (op >> 3u8) & 0x7 == 1,
        0x90 <= op <= 0x97 ==> (op >> 3u8) & 0x7 == 2,
        0x98 <= op <= 0x9F ==> (op >> 3u8) & 0x7 == 3,
        op & 0x7 <= 7,
        (op >> 3u8) & 0x7 <= 7,
        0x40 <= op <= 0x7F && op != 0x76 ==> (op & 0x7 != 6 || (op >> 3u8) & 0x7 != 6),
{
}

/// A value from -512 to 511 taken modulo 256.
proof fn lemma_wrap_byte(x: int)
    requires
        -512 <= x < 512,
    ensures
        x % 256 == if x >= 256 {
            x - 256
        } else if x >= 0 {
            x
        } else if x >= -256 {
            x + 256
        } else {
            x + 512
        },
{
    let q: int = if x >= 256 {
        1
    } else if x >= 0 {
        0
    } else if x >= -256 {
        -1
    } else {
        -2
    };
    vstd::arithmetic::div_mod::lemma_fundamental_div_mod_converse(x, 256, q, x - 256 * q);
}

/// The carry flag as a number: 1 when set, 0 when clear.
pub open spec fn carry_bit(cpu: Cpu) -> int {
    if cpu.flag_set(CARRY_MASK) { 1 } else { 0 }
}

/// ADD and ADC on a register (opcodes `0x80` to `0x8F`): `A` becomes `A` plus
/// the operand, plus 1 more for ADC when the carry flag is set, modulo 256;
/// the subtraction flag is cleared, the zero flag tells whether the result is
/// 0, and the program counter moves on by 1.
pub proof fn lemma_add_register(cpu: Cpu)
    requires
        0x80 <= cpu.current_opcode <= 0x8F,
        cpu.pre_parse_math_opcodes(),
    ensures
        ({
            let after = cpu.post_parse_math_opcodes();
            let v = cpu.register_value(cpu.current_opcode & 0x7);
            let c = if cpu.current_opcode >= 0x88 { carry_bit(cpu) } else { 0 };
            &&& after.reg.a == (cpu.reg.a + v + c) % 256
            &&& (after.reg.f & ZERO_MASK != 0) == (after.reg.a == 0)
            &&& after.reg.f & OPERATION_MASK == 0
            &&& after.reg.pc == cpu.reg.pc + 1
        }),
{
    lemma_flag_if_bits();
    lemma_math_operation(cpu.current_opcode);
    let v = cpu.register_value(cpu.current_opcode & 0x7);
    lemma_wrap_byte(cpu.reg.a + v + carry_bit(cpu));
    lemma_wrap_byte(cpu.reg.a + v);
}

/// SUB and SBC on a register (opcodes `0x90` to `0x9F`): `A` becomes `A` less
/// the operand, less 1 more for SBC when the carry flag is set, modulo 256;
/// the subtraction flag is set, the zero flag tells whether the result is 0,
/// for SUB the carry flag tells whether the operand was above `A` (a borrow),
/// and the program counter moves on by 1.
pub proof fn lemma_sub_register(cpu: Cpu)
    requires
        0x90 <= cpu.current_opcode <= 0x9F,
        cpu.pre_parse_math_opcodes(),
    ensures
        ({
            let after = cpu.post_parse_math_opcodes();
            let v = cpu.register_value(cpu.current_opcode & 0x7);
            let c = if cpu.current_opcode >= 0x98 { carry_bit(cpu) } else { 0 };
            &&& after.reg.a == (cpu.reg.a - v - c) % 256
            &&& (after.reg.f & ZERO_MASK != 0) == (after.reg.a == 0)
            &&& after.reg.f & OPERATION_MASK != 0
            &&& cpu.current_opcode < 0x98 ==> (after.reg.f & CARRY_MASK != 0) == (v > cpu.reg.a)
            &&& after.reg.pc == cpu.reg.pc + 1
        }),
{
    lemma_flag_if_bits();
    lemma_math_operation(cpu.current_opcode);
    let v = cpu.register_value(cpu.current_opcode & 0x7);
    lemma_wrap_byte(cpu.reg.a - v - carry_bit(cpu));
    lemma_wrap_byte(cpu.reg.a - v);
    lemma_wrap_byte(v + carry_bit(cpu));
}

/// AND and OR on a register (opcodes `0xA0` to `0xA7` and `0xB0` to `0xB7`):
/// `A` becomes the bitwise AND (OR) of `A` and the operand; the zero flag tells
/// whether that is 0, AND sets the half-carry flag and clears the subtraction
/// and carry flags, OR clears the half-carry and carry flags; the program
/// counter moves on by 1.
pub proof fn lemma_and_or_register(cpu: Cpu)
    ensures
        0xA0 <= cpu.current_opcode <= 0xA7 && cpu.pre_parse_and_opcodes() ==> ({
            let after = cpu.post_parse_and_opcodes();
            &&& after.reg.a == cpu.reg.a & cpu.register_value(cpu.current_opcode & 0x7)
            &&& (after.reg.f & ZERO_MASK != 0) == (after.reg.a == 0)
            &&& after.reg.f & HALF_CARRY_MASK != 0
            &&& after.reg.f & OPERATION_MASK == 0
            &&& after.reg.f & CARRY_MASK == 0
            &&& after.reg.pc == cpu.reg.pc + 1
        }),
        0xB0 <= cpu.current_opcode <= 0xB7 && cpu.pre_parse_or_opcodes() ==> ({
            let after = cpu.post_parse_or_opcodes();
            &&& after.reg.a == cpu.reg.a | cpu.register_value(cpu.current_opcode & 0x7)
            &&& (after.reg.f & ZERO_MASK != 0) == (after.reg.a == 0)
            &&& after.reg.f & HALF_CARRY_MASK == 0
            &&& after.reg.f & CARRY_MASK == 0
            &&& after.reg.pc == cpu.reg.pc + 1
        }),
{
    lemma_flag_if_bits();
}

/// CP on a register (opcodes `0xB8` to `0xBF`) and on the byte at the program
/// counter (`cp_d8`): `A` is left as it is; the zero flag tells whether `A`
/// equals the operand, the carry flag whether the operand is above `A`, and
/// the subtraction flag is set.
pub proof fn lemma_compare(cpu: Cpu)
    ensures
        0xB8 <= cpu.current_opcode <= 0xBF && cpu.pre_parse_cp_opcodes() ==> ({
            let after = cpu.post_parse_cp_opcodes();
            let v = cpu.register_value(cpu.current_opcode & 0x7);
            &&& after.reg.a == cpu.reg.a
            &&& (after.reg.f & ZERO_MASK != 0) == (cpu.reg.a == v)
            &&& (after.reg.f & CARRY_MASK != 0) == (v > cpu.reg.a)
            &&& after.reg.f & OPERATION_MASK != 0
            &&& after.reg.pc == cpu.reg.pc + 1
        }),
        cpu.pre_cp_d8() ==> ({
            let after = cpu.post_cp_d8();
            let v = cpu.mmu.byte_at(cpu.reg.pc as int);
            &&& after.reg.a == cpu.reg.a
            &&& (after.reg.f & ZERO_MASK != 0) == (cpu.reg.a == v)
            &&& (after.reg.f & CARRY_MASK != 0) == (v > cpu.reg.a)
            &&& after.reg.f & OPERATION_MASK != 0
            &&& after.reg.pc == cpu.reg.pc + 1
        }),
{
    lemma_flag_if_bits();
}

/// The arithmetic and logic instructions on the byte at the program counter
/// `v`: ADD gives `(A + v) % 256`, ADC adds 1 more when the carry flag is set,
/// SUB gives `(A - v) % 256`, SBC takes 1 more when the carry flag is set, AND,
/// OR and XOR give the bitwise results; each sets the zero flag exactly when
/// the result is 0.
pub proof fn lemma_immediate_arithmetic(cpu: Cpu)
    ensures
        ({
            let v = cpu.mmu.byte_at(cpu.reg.pc as int);
            &&& cpu.pre_add_a_byte() ==> cpu.post_add_a_byte().reg.a == (cpu.reg.a + v) % 256
                && (cpu.post_add_a_byte().reg.f & ZERO_MASK != 0) == (cpu.post_add_a_byte().reg.a == 0)
            &&& cpu.pre_adc_a() ==> cpu.post_adc_a().reg.a == (cpu.reg.a + v + carry_bit(cpu)) % 256
                && (cpu.post_adc_a().reg.f & ZERO_MASK != 0) == (cpu.post_adc_a().reg.a == 0)
            &&& cpu.pre_sub() ==> cpu.post_sub().reg.a == (cpu.reg.a - v) % 256
                && (cpu.post_sub().reg.f & ZERO_MASK != 0) == (cpu.post_sub().reg.a == 0)
            &&& cpu.pre_sbc_a() ==> cpu.post_sbc_a().reg.a == (cpu.reg.a - v - carry_bit(cpu)) % 256
                && (cpu.post_sbc_a().reg.f & ZERO_MASK != 0) == (cpu.post_sbc_a().reg.a == 0)
            &&& cpu.pre_and_a() ==> cpu.post_and_a().reg.a == cpu.reg.a & v
                && (cpu.post_and_a().reg.f & ZERO_MASK != 0) == (cpu.post_and_a().reg.a == 0)
            &&& cpu.pre_or_d8() ==> cpu.post_or_d8().reg.a == cpu.reg.a | v
                && (cpu.post_or_d8().reg.f & ZERO_MASK != 0) == (cpu.post_or_d8().reg.a == 0)
            &&& cpu.pre_xor_d8() ==> cpu.post_xor_d8().reg.a == cpu.reg.a ^ v
                && (cpu.post_xor_d8().reg.f & ZERO_MASK != 0) == (cpu.post_xor_d8().reg.a == 0)
        }),
{
    lemma_flag_if_bits();
    let v = cpu.mmu.byte_at(cpu.reg.pc as int);
    lemma_wrap_byte(cpu.reg.a + v);
    lemma_wrap_byte(cpu.reg.a + v + carry_bit(cpu));
    lemma_wrap_byte(cpu.reg.a - v);
    lemma_wrap_byte(cpu.reg.a - v - carry_bit(cpu));
    lemma_wrap_byte(v + carry_bit(cpu));
}

/// INC A and DEC A move `A` by one modulo 256 and set the zero flag exactly
/// when it reaches 0; CPL flips every bit of `A`, so that applying it twice
/// gives `A` back.
pub proof fn lemma_inc_dec_cpl(cpu: Cpu)
    ensures
        cpu.pre_inc_a() ==> cpu.post_inc_a().reg.a == (cpu.reg.a + 1) % 256 && (cpu.post_inc_a().reg.f
            & ZERO_MASK != 0) == (cpu.post_inc_a().reg.a == 0),
        cpu.pre_dec_a() ==> cpu.post_dec_a().reg.a == (cpu.reg.a - 1) % 256 && (cpu.post_dec_a().reg.f
            & ZERO_MASK != 0) == (cpu.post_dec_a().reg.a == 0),
        cpu.pre_cpl() ==> cpu.post_cpl().reg.a ^ cpu.reg.a == 0xFF,
        cpu.pre_cpl() && cpu.post_cpl().pre_cpl() ==> cpu.post_cpl().post_cpl().reg.a == cpu.reg.a,
{
    lemma_flag_if_bits();
    lemma_wrap_byte(cpu.reg.a + 1);
    lemma_wrap_byte(cpu.reg.a - 1);
    let a = cpu.reg.a;
    assert(!a ^ a == 0xFF && !(!a) == a) by (bit_vector);
}

/// LD between operands (opcodes `0x40` to `0x7F` but `0x76`): the operand
/// named by bits 3-5 reads afterwards as the operand named by bits 0-2 read
/// before, every other register keeps its value, and the program counter
/// moves on by 1.
pub proof fn lemma_load_copies(cpu: Cpu)
    requires
        0x40 <= cpu.current_opcode <= 0x7F,
        cpu.current_opcode != 0x76,
        cpu.pre_parse_load_opcodes(),
    ensures
        ({
            let after = cpu.post_parse_load_opcodes();
            let dst = (cpu.current_opcode >> 3u8) & 0x7;
            let src = cpu.current_opcode & 0x7;
            &&& after.register_value(dst) == cpu.register_value(src)
            &&& forall|i: u8|
                i <= 7 && i != dst && i != 6 ==> #[trigger] after.register_value(i) == cpu.register_value(i)
            &&& after.reg.sp == cpu.reg.sp && after.reg.f == cpu.reg.f
            &&& after.reg.pc == cpu.reg.pc + 1
        }),
{
    lemma_math_operation(cpu.current_opcode);
}

/// What a restart to `target` leaves: `SP` two lower with the return address
/// `back` stored there as a word, the program counter at `target`, and a `ret`
/// that comes back to `back`.
pub open spec fn restarted_at(before: Cpu, after: Cpu, target: u16, back: int) -> bool {
    &&& after.reg.sp == before.reg.sp - 2
    &&& after.mmu.word_at(before.reg.sp - 2) == back
    &&& after.reg.pc == target
    &&& after.pre_ret()
    &&& after.post_ret().reg.pc == back
    &&& after.post_ret().reg.sp == before.reg.sp
}

/// Each RST instruction jumps to its fixed address `0x00`, `0x08`, ..., `0x38`
/// after pushing a return address, so that `ret` comes back to it: the
/// program counter, except for `0x18` and `0x28`, which move it on by 1 first.
pub proof fn lemma_restarts(cpu: Cpu)
    ensures
        cpu.pre_rst_zero() ==> restarted_at(cpu, cpu.post_rst_zero(), 0x00, cpu.reg.pc as int),
        cpu.pre_rst_one() ==> restarted_at(cpu, cpu.post_rst_one(), 0x08, cpu.reg.pc as int),
        cpu.pre_rst_two() ==> restarted_at(cpu, cpu.post_rst_two(), 0x10, cpu.reg.pc as int),
        cpu.pre_rst_three() ==> restarted_at(cpu, cpu.post_rst_three(), 0x18, cpu.reg.pc + 1),
        cpu.pre_rst_four() ==> restarted_at(cpu, cpu.post_rst_four(), 0x20, cpu.reg.pc as int),
        cpu.pre_rst_five() ==> restarted_at(cpu, cpu.post_rst_five(), 0x28, cpu.reg.pc + 1),
        cpu.pre_rst_six() ==> restarted_at(cpu, cpu.post_rst_six(), 0x30, cpu.reg.pc as int),
        cpu.pre_rst_seven() ==> restarted_at(cpu, cpu.post_rst_seven(), 0x38, cpu.reg.pc as int),
{
    if cpu.reg.sp >= 2 && cpu.reg.sp - 1 < WORKING_RAM_BYTES {
        lemma_word_write_then_read(cpu.mmu, cpu.reg.sp - 2, cpu.reg.pc);
        lemma_word_write_then_read(cpu.mmu, cpu.reg.sp - 2, (cpu.reg.pc + 1) as u16);
    }
}

/// A 16-bit sum taken modulo 65536.
proof fn lemma_wrap_word(x: int)
    requires
        -0x10000 <= x < 0x20000,
    ensures
        x % 0x10000 == if x >= 0x10000 {
            x - 0x10000
        } else if x >= 0 {
            x
        } else {
            x + 0x10000
        },
{
    let q: int = if x >= 0x10000 {
        1
    } else if x >= 0 {
        0
    } else {
        -1
    };
    vstd::arithmetic::div_mod::lemma_fundamental_div_mod_converse(x, 0x10000, q, x - 0x10000 * q);
}

/// The signed value of an offset byte: -128 to 127.
pub open spec fn signed_byte(b: u8) -> int {
    if b < 128 { b as int } else { b - 256 }
}

/// Relative jumps move the program counter by the signed byte `d` at the
/// program counter, modulo 65536: JR always, JR NZ/Z/NC/C exactly when the
/// zero flag is clear/set or the carry flag is clear/set; a conditional jump
/// not taken moves past the offset byte.
pub proof fn lemma_relative_jumps(cpu: Cpu)
    ensures
        ({
            let target = (cpu.reg.pc + signed_byte(cpu.mmu.byte_at(cpu.reg.pc as int))) % 0x10000;
            let next = cpu.reg.pc + 1;
            let z = cpu.flag_set(ZERO_MASK);
            let c = cpu.flag_set(CARRY_MASK);
            &&& cpu.pre_jr() ==> cpu.post_jr().reg.pc == target
            &&& cpu.pre_jr_nz() ==> cpu.post_jr_nz().reg.pc == if !z { target } else { next }
            &&& cpu.pre_jr_z() ==> cpu.post_jr_z().reg.pc == if z { target } else { next }
            &&& cpu.pre_jr_nc() ==> cpu.post_jr_nc().reg.pc == if !c { target } else { next }
            &&& cpu.pre_jr_c() ==> cpu.post_jr_c().reg.pc == if c { target } else { next }
        }),
{
    let b = cpu.mmu.byte_at(cpu.reg.pc as int);
    lemma_wrap_word(cpu.reg.pc + signed_byte(b));
    lemma_wrap_word(cpu.reg.pc + sign_extend(b));
}

/// Absolute conditional jumps go to the word at the program counter exactly
/// when their condition holds (zero flag clear/set, carry flag clear/set);
/// conditional returns pop the return address and raise `SP` by 2 exactly
/// when theirs holds, and leave `SP` alone otherwise.
pub proof fn lemma_conditional_branches(cpu: Cpu)
    ensures
        ({
            let target = cpu.mmu.word_at(cpu.reg.pc as int);
            let z = cpu.flag_set(ZERO_MASK);
            let c = cpu.flag_set(CARRY_MASK);
            &&& cpu.pre_jp_nz() ==> (cpu.post_jp_nz().reg.pc == target || z) && (!z || cpu.post_jp_nz().reg.pc == cpu.reg.pc + 1)
            &&& cpu.pre_jp_z() ==> (cpu.post_jp_z().reg.pc == target || !z) && (z || cpu.post_jp_z().reg.pc == cpu.reg.pc + 2)
            &&& cpu.pre_jp_nc() ==> (cpu.post_jp_nc().reg.pc == target || c) && (!c || cpu.post_jp_nc().reg.pc == cpu.reg.pc + 2)
            &&& cpu.pre_jp_c() ==> (cpu.post_jp_c().reg.pc == target || !c) && (c || cpu.post_jp_c().reg.pc == cpu.reg.pc + 2)
            &&& cpu.pre_ret_nz() ==> cpu.post_ret_nz().reg.sp == if !z { cpu.reg.sp + 2 } else { cpu.reg.sp as int }
            &&& cpu.pre_ret_z() ==> cpu.post_ret_z().reg.sp == if z { cpu.reg.sp + 2 } else { cpu.reg.sp as int }
            &&& cpu.pre_ret_z() && z ==> cpu.post_ret_z().reg.pc == cpu.mmu.word_at(cpu.reg.sp as int)
            &&& cpu.pre_ret_nc() ==> cpu.post_ret_nc().reg.sp == if !c { cpu.reg.sp + 2 } else { cpu.reg.sp as int }
            &&& cpu.pre_ret_nc() && !c ==> cpu.post_ret_nc().reg.pc == cpu.mmu.word_at(cpu.reg.sp as int)
            &&& cpu.pre_ret_c() ==> cpu.post_ret_c().reg.sp == if c { cpu.reg.sp + 2 } else { cpu.reg.sp as int }
            &&& cpu.pre_ret_c() && c ==> cpu.post_ret_c().reg.pc == cpu.mmu.word_at(cpu.reg.sp as int)
        }),
{
}

/// INC and DEC on `B`, `C`, `D`, `E`, `H` and `L` move the register by one
/// modulo 256, set the zero flag exactly when it reaches 0, clear (INC) or set
/// (DEC) the subtraction flag, leave `A` alone and move on by 1.
pub proof fn lemma_inc_dec_registers(cpu: Cpu)
    ensures
        cpu.pre_inc_b() ==> cpu.post_inc_b().reg.b == (cpu.reg.b + 1) % 256
            && (cpu.post_inc_b().reg.f & ZERO_MASK != 0) == (cpu.post_inc_b().reg.b == 0)
            && cpu.post_inc_b().reg.f & OPERATION_MASK == 0 && cpu.post_inc_b().reg.a == cpu.reg.a
            && cpu.post_inc_b().reg.pc == cpu.reg.pc + 1,
        cpu.pre_dec_b() ==> cpu.post_dec_b().reg.b == (cpu.reg.b - 1) % 256
            && (cpu.post_dec_b().reg.f & ZERO_MASK != 0) == (cpu.post_dec_b().reg.b == 0)
            && cpu.post_dec_b().reg.f & OPERATION_MASK != 0 && cpu.post_dec_b().reg.a == cpu.reg.a
            && cpu.post_dec_b().reg.pc == cpu.reg.pc + 1,
        cpu.pre_inc_c() ==> cpu.post_inc_c().reg.c == (cpu.reg.c + 1) % 256
            && (cpu.post_inc_c().reg.f & ZERO_MASK != 0) == (cpu.post_inc_c().reg.c == 0)
            && cpu.post_inc_c().reg.f & OPERATION_MASK == 0 && cpu.post_inc_c().reg.a == cpu.reg.a
            && cpu.post_inc_c().reg.pc == cpu.reg.pc + 1,
        cpu.pre_dec_c() ==> cpu.post_dec_c().reg.c == (cpu.reg.c - 1) % 256
            && (cpu.post_dec_c().reg.f & ZERO_MASK != 0) == (cpu.post_dec_c().reg.c == 0)
            && cpu.post_dec_c().reg.f & OPERATION_MASK != 0 && cpu.post_dec_c().reg.a == cpu.reg.a
            && cpu.post_dec_c().reg.pc == cpu.reg.pc + 1,
        cpu.pre_inc_d() ==> cpu.post_inc_d().reg.d == (cpu.reg.d + 1) % 256
            && (cpu.post_inc_d().reg.f & ZERO_MASK != 0) == (cpu.post_inc_d().reg.d == 0)
            && cpu.post_inc_d().reg.f & OPERATION_MASK == 0 && cpu.post_inc_d().reg.a == cpu.reg.a
            && cpu.post_inc_d().reg.pc == cpu.reg.pc + 1,
        cpu.pre_dec_d() ==> cpu.post_dec_d().reg.d == (cpu.reg.d - 1) % 256
            && (cpu.post_dec_d().reg.f & ZERO_MASK != 0) == (cpu.post_dec_d().reg.d == 0)
            && cpu.post_dec_d().reg.f & OPERATION_MASK != 0 && cpu.post_dec_d().reg.a == cpu.reg.a
            && cpu.post_dec_d().reg.pc == cpu.reg.pc + 1,
        cpu.pre_inc_e() ==> cpu.post_inc_e().reg.e == (cpu.reg.e + 1) % 256
            && (cpu.post_inc_e().reg.f & ZERO_MASK != 0) == (cpu.post_inc_e().reg.e == 0)
            && cpu.post_inc_e().reg.f & OPERATION_MASK == 0 && cpu.post_inc_e().reg.a == cpu.reg.a
            && cpu.post_inc_e().reg.pc == cpu.reg.pc + 1,
        cpu.pre_dec_e() ==> cpu.post_dec_e().reg.e == (cpu.reg.e - 1) % 256
            && (cpu.post_dec_e().reg.f & ZERO_MASK != 0) == (cpu.post_dec_e().reg.e == 0)
            && cpu.post_dec_e().reg.f & OPERATION_MASK != 0 && cpu.post_dec_e().reg.a == cpu.reg.a
            && cpu.post_dec_e().reg.pc == cpu.reg.pc + 1,
        cpu.pre_inc_h() ==> cpu.post_inc_h().reg.h == (cpu.reg.h + 1) % 256
            && (cpu.post_inc_h().reg.f & ZERO_MASK != 0) == (cpu.post_inc_h().reg.h == 0)
            && cpu.post_inc_h().reg.f & OPERATION_MASK == 0 && cpu.post_inc_h().reg.a == cpu.reg.a
            && cpu.post_inc_h().reg.pc == cpu.reg.pc + 1,
        cpu.pre_dec_h() ==> cpu.post_dec_h().reg.h == (cpu.reg.h - 1) % 256
            && (cpu.post_dec_h().reg.f & ZERO_MASK != 0) == (cpu.post_dec_h().reg.h == 0)
            && cpu.post_dec_h().reg.f & OPERATION_MASK != 0 && cpu.post_dec_h().reg.a == cpu.reg.a
            && cpu.post_dec_h().reg.pc == cpu.reg.pc + 1,
        cpu.pre_inc_l() ==> cpu.post_inc_l().reg.l == (cpu.reg.l + 1) % 256
            && (cpu.post_inc_l().reg.f & ZERO_MASK != 0) == (cpu.post_inc_l().reg.l == 0)
            && cpu.post_inc_l().reg.f & OPERATION_MASK == 0 && cpu.post_inc_l().reg.a == cpu.reg.a
            && cpu.post_inc_l().reg.pc == cpu.reg.pc + 1,
        cpu.pre_dec_l() ==> cpu.post_dec_l().reg.l == (cpu.reg.l - 1) % 256
            && (cpu.post_dec_l().reg.f & ZERO_MASK != 0) == (cpu.post_dec_l().reg.l == 0)
            && cpu.post_dec_l().reg.f & OPERATION_MASK != 0 && cpu.post_dec_l().reg.a == cpu.reg.a
            && cpu.post_dec_l().reg.pc == cpu.reg.pc + 1,
{
    lemma_flag_if_bits();
    lemma_wrap_byte(cpu.reg.b + 1);
    lemma_wrap_byte(cpu.reg.b - 1);
    lemma_wrap_byte(cpu.reg.c + 1);
    lemma_wrap_byte(cpu.reg.c - 1);
    lemma_wrap_byte(cpu.reg.d + 1);
    lemma_wrap_byte(cpu.reg.d - 1);
    lemma_wrap_byte(cpu.reg.e + 1);
    lemma_wrap_byte(cpu.reg.e - 1);
    lemma_wrap_byte(cpu.reg.h + 1);
    lemma_wrap_byte(cpu.reg.h - 1);
    lemma_wrap_byte(cpu.reg.l + 1);
    lemma_wrap_byte(cpu.reg.l - 1);
}

/// INC and DEC on the register pairs move the pair by one: `BC` within its
/// range (the instruction needs `BC` below `0xFFFF`, above 0), `DE` and `HL`
/// modulo 65536; the other pairs and `SP` keep their values.
pub proof fn lemma_inc_dec_pairs(cpu: Cpu)
    ensures
        cpu.pre_inc_bc() ==> cpu.post_inc_bc().reg.bc() == cpu.reg.bc() + 1
            && cpu.post_inc_bc().reg.de() == cpu.reg.de() && cpu.post_inc_bc().reg.hl() == cpu.reg.hl(),
        cpu.pre_dec_bc() ==> cpu.post_dec_bc().reg.bc() == cpu.reg.bc() - 1
            && cpu.post_dec_bc().reg.de() == cpu.reg.de() && cpu.post_dec_bc().reg.hl() == cpu.reg.hl(),
        cpu.pre_inc_de() ==> cpu.post_inc_de().reg.de() == (cpu.reg.de() + 1) % 0x10000
            && cpu.post_inc_de().reg.bc() == cpu.reg.bc() && cpu.post_inc_de().reg.hl() == cpu.reg.hl(),
        cpu.pre_dec_de() ==> cpu.post_dec_de().reg.de() == (cpu.reg.de() - 1) % 0x10000
            && cpu.post_dec_de().reg.bc() == cpu.reg.bc() && cpu.post_dec_de().reg.hl() == cpu.reg.hl(),
        cpu.pre_inc_hl() ==> cpu.post_inc_hl().reg.hl() == (cpu.reg.hl() + 1) % 0x10000
            && cpu.post_inc_hl().reg.bc() == cpu.reg.bc() && cpu.post_inc_hl().reg.de() == cpu.reg.de(),
        cpu.pre_dec_hl() ==> cpu.post_dec_hl().reg.hl() == (cpu.reg.hl() - 1) % 0x10000
            && cpu.post_dec_hl().reg.bc() == cpu.reg.bc() && cpu.post_dec_hl().reg.de() == cpu.reg.de(),
{
    let moved = Register { pc: (cpu.reg.pc + 1) as u16, ..cpu.reg };
    lemma_pair_write_then_read(moved, (cpu.reg.bc() + 1) as u16);
    lemma_pair_write_is_local(moved, (cpu.reg.bc() + 1) as u16);
    lemma_pair_write_then_read(moved, (cpu.reg.bc() - 1) as u16);
    lemma_pair_write_is_local(moved, (cpu.reg.bc() - 1) as u16);
    lemma_pair_write_then_read(moved, cpu.reg.de().wrapping_add(1));
    lemma_pair_write_is_local(moved, cpu.reg.de().wrapping_add(1));
    lemma_pair_write_then_read(moved, cpu.reg.de().wrapping_sub(1));
    lemma_pair_write_is_local(moved, cpu.reg.de().wrapping_sub(1));
    lemma_pair_write_then_read(moved, cpu.reg.hl().wrapping_add(1));
    lemma_pair_write_is_local(moved, cpu.reg.hl().wrapping_add(1));
    lemma_pair_write_then_read(moved, cpu.reg.hl().wrapping_sub(1));
    lemma_pair_write_is_local(moved, cpu.reg.hl().wrapping_sub(1));
    lemma_wrap_word(cpu.reg.de() + 1);
    lemma_wrap_word(cpu.reg.de() - 1);
    lemma_wrap_word(cpu.reg.hl() + 1);
    lemma_wrap_word(cpu.reg.hl() - 1);
}

} // verus!
