use vstd::prelude::*;

verus! {

/// The four condition flags kept in the upper nibble of register `F`,
/// plus `NoFlag` for "no flag".
#[derive(Clone, Copy, Debug, PartialEq, Eq)]
pub enum Flags {
    /// Set when the last operation produced zero.
    Zero,
    /// Set when the last operation was a subtraction.
    Operation,
    /// Set when the lower nibble overflowed in the last operation.
    HalfCarry,
    /// Set when the last operation went over 255 or under 0.
    Carry,
    /// No flag at all.
    NoFlag,
}

/// Bit of register `F` that holds the zero flag.
pub const ZERO_MASK: u8 = 0x80;
/// Bit of register `F` that holds the subtraction flag.
pub const OPERATION_MASK: u8 = 0x40;
/// Bit of register `F` that holds the half-carry flag.
pub const HALF_CARRY_MASK: u8 = 0x20;
/// Bit of register `F` that holds the carry flag.
pub const CARRY_MASK: u8 = 0x10;

/// The bit of register `F` that a flag stands for.
pub open spec fn flag_mask(flag: Flags) -> u8 {
    match flag {
        Flags::Zero => ZERO_MASK,
        Flags::Operation => OPERATION_MASK,
        Flags::HalfCarry => HALF_CARRY_MASK,
        Flags::Carry => CARRY_MASK,
        Flags::NoFlag => 0x00,
    }
}

impl From<Flags> for u8 {
    fn from(flags: Flags) -> (mask: u8) {
        match flags {
            Flags::Zero => ZERO_MASK,
            Flags::Operation => OPERATION_MASK,
            Flags::HalfCarry => HALF_CARRY_MASK,
            Flags::Carry => CARRY_MASK,
            Flags::NoFlag => 0x00,
        }
    }
}

impl vstd::std_specs::convert::FromSpecImpl<Flags> for u8 {
    open spec fn obeys_from_spec() -> bool {
        true
    }

    open spec fn from_spec(v: Flags) -> u8 {
        flag_mask(v)
    }
}


/// The 16-bit value held by a register pair whose upper half is `hi` and lower half `lo`.
pub open spec fn pair_value(hi: u8, lo: u8) -> u16 {
    (hi * 256 + lo) as u16
}

/// The upper byte of a 16-bit value.
pub open spec fn high_byte(value: u16) -> u8 {
    (value / 256) as u8
}

/// The lower byte of a 16-bit value.
pub open spec fn low_byte(value: u16) -> u8 {
    (value % 256) as u8
}

/// Joins two bytes into a 16-bit value, `hi` in the upper half.
pub(crate) fn join_bytes(hi: u8, lo: u8) -> (value: u16)
    ensures
        value == pair_value(hi, lo),
{
    let v = (hi as u16) << 8 | lo as u16;
    assert(((hi as u16) << 8 | lo as u16) == hi * 256 + lo) by (bit_vector);
    v
}

/// Splits a 16-bit value into its upper and lower byte.
pub(crate) fn split_word(value: u16) -> (bytes: (u8, u8))
    ensures
        bytes.0 == high_byte(value),
        bytes.1 == low_byte(value),
{
    let hi = ((value & 0xFF00) >> 8) as u8;
    let lo = (value & 0xFF) as u8;
    assert(((value & 0xFF00) >> 8) as u8 == (value / 256) as u8 && (value & 0xFF) as u8 == (value
        % 256) as u8) by (bit_vector);
    (hi, lo)
}

/// Splitting a word and joining its bytes gives the word back.
pub proof fn lemma_split_join(value: u16)
    ensures
        pair_value(high_byte(value), low_byte(value)) == value,
{
}

/// Joining two bytes and splitting the result gives the bytes back.
pub proof fn lemma_join_split(hi: u8, lo: u8)
    ensures
        high_byte(pair_value(hi, lo)) == hi,
        low_byte(pair_value(hi, lo)) == lo,
{
}

/// The CPU's register file: eight 8-bit registers, the stack pointer and the
/// program counter.
pub struct Register {
    pub a: u8,
    pub f: u8,
    pub b: u8,
    pub c: u8,
    pub d: u8,
    pub e: u8,
    pub h: u8,
    pub l: u8,
    pub sp: u16,
    pub pc: u16,
}

impl Register {
    /// The register pair `BC`.
    pub open spec fn bc(self) -> u16 {
        pair_value(self.b, self.c)
    }

    /// The register pair `DE`.
    pub open spec fn de(self) -> u16 {
        pair_value(self.d, self.e)
    }

    /// The register pair `HL`.
    pub open spec fn hl(self) -> u16 {
        pair_value(self.h, self.l)
    }

    /// The register pair `AF`.
    pub open spec fn af(self) -> u16 {
        pair_value(self.a, self.f)
    }

    /// The register file with `BC` holding `value` and everything else as in `self`.
    pub open spec fn with_bc(self, value: u16) -> Register {
        Register { b: high_byte(value), c: low_byte(value), ..self }
    }

    /// The register file with `DE` holding `value` and everything else as in `self`.
    pub open spec fn with_de(self, value: u16) -> Register {
        Register { d: high_byte(value), e: low_byte(value), ..self }
    }

    /// The register file with `HL` holding `value` and everything else as in `self`.
    pub open spec fn with_hl(self, value: u16) -> Register {
        Register { h: high_byte(value), l: low_byte(value), ..self }
    }

    /// The register file with `AF` holding `value` and everything else as in `self`.
    pub open spec fn with_af(self, value: u16) -> Register {
        Register { a: high_byte(value), f: low_byte(value), ..self }
    }

    /// The register values at power-up: `AF = 0x0180`, `BC = 0x0013`,
    /// `DE = 0x00D8`, `HL = 0x014D`, `SP = 0xFFFE`, `PC = 0x0100`.
    pub open spec fn power_up() -> Register {
        Register {
            a: 0x01,
            f: ZERO_MASK,
            b: 0x00,
            c: 0x13,
            d: 0x00,
            e: 0xD8,
            h: 0x01,
            l: 0x4D,
            sp: 0xFFFE,
            pc: 0x0100,
        }
    }

    /// Creates the register file in its power-up state; execution starts at `0x0100`.
    pub fn new() -> (reg: Self)
        ensures
            reg == Register::power_up(),
    {
        Self {
            a: 0x01,
            f: u8::from(Flags::Zero),
            b: 0x00,
            c: 0x13,
            d: 0x00,
            e: 0xD8,
            h: 0x01,
            l: 0x4D,
            sp: 0xFFFE,
            pc: 0x0100,
        }
    }

    pub fn get_bc(&self) -> (value: u16)
        ensures
            value == self.bc(),
    {
        join_bytes(self.b, self.c)
    }

    pub fn set_bc(&mut self, value: u16)
        ensures
            *final(self) == old(self).with_bc(value),
    {
        let (hi, lo) = split_word(value);
        self.b = hi;
        self.c = lo;
    }

    pub fn get_hl(&self) -> (value: u16)
        ensures
            value == self.hl(),
    {
        join_bytes(self.h, self.l)
    }

    pub fn set_hl(&mut self, value: u16)
        ensures
            *final(self) == old(self).with_hl(value),
    {
        let (hi, lo) = split_word(value);
        self.h = hi;
        self.l = lo;
    }

    pub fn get_de(&self) -> (value: u16)
        ensures
            value == self.de(),
    {
        join_bytes(self.d, self.e)
    }

    pub fn set_de(&mut self, value: u16)
        ensures
            *final(self) == old(self).with_de(value),
    {
        let (hi, lo) = split_word(value);
        self.d = hi;
        self.e = lo;
    }

    pub fn get_af(&self) -> (value: u16)
        ensures
            value == self.af(),
    {
        join_bytes(self.a, self.f)
    }

    pub fn set_af(&mut self, value: u16)
        ensures
            *final(self) == old(self).with_af(value),
    {
        let (hi, lo) = split_word(value);
        self.a = hi;
        self.f = lo;
    }
}

/// Reading a register pair right after writing it gives back what was written,
/// for each of `BC`, `DE`, `HL` and `AF`.
pub proof fn lemma_pair_write_then_read(reg: Register, value: u16)
    ensures
        reg.with_bc(value).bc() == value,
        reg.with_de(value).de() == value,
        reg.with_hl(value).hl() == value,
        reg.with_af(value).af() == value,
{
}

/// Writing back the value a register pair already holds leaves the register
/// file unchanged, for each of `BC`, `DE`, `HL` and `AF`.
pub proof fn lemma_pair_read_then_write(reg: Register)
    ensures
        reg.with_bc(reg.bc()) == reg,
        reg.with_de(reg.de()) == reg,
        reg.with_hl(reg.hl()) == reg,
        reg.with_af(reg.af()) == reg,
{
}

/// Writing one register pair leaves the other three pairs, `SP` and `PC` as they were.
pub proof fn lemma_pair_write_is_local(reg: Register, value: u16)
    ensures
        reg.with_bc(value).de() == reg.de() && reg.with_bc(value).hl() == reg.hl()
            && reg.with_bc(value).af() == reg.af(),
        reg.with_de(value).bc() == reg.bc() && reg.with_de(value).hl() == reg.hl()
            && reg.with_de(value).af() == reg.af(),
        reg.with_hl(value).bc() == reg.bc() && reg.with_hl(value).de() == reg.de()
            && reg.with_hl(value).af() == reg.af(),
        reg.with_af(value).bc() == reg.bc() && reg.with_af(value).de() == reg.de()
            && reg.with_af(value).hl() == reg.hl(),
        reg.with_bc(value).sp == reg.sp && reg.with_bc(value).pc == reg.pc,
        reg.with_de(value).sp == reg.sp && reg.with_de(value).pc == reg.pc,
        reg.with_hl(value).sp == reg.sp && reg.with_hl(value).pc == reg.pc,
        reg.with_af(value).sp == reg.sp && reg.with_af(value).pc == reg.pc,
{
}

} // verus!
