use vstd::prelude::*;

verus! {

/// The joypad register `P1` at `0xFF00`. Bits 4 and 5 of the select byte pick
/// the direction keys and the action keys (a clear bit selects them); a
/// pressed key reads as a clear bit.
pub struct Joypad {
    pub select: u8,
    pub action_state: u8,
    pub direction_state: u8,
}

/// The joypad register address.
pub const JOYPAD_REGISTER: u16 = 0xFF00;

impl Joypad {
    pub fn new() -> (joypad: Self)
        ensures
            joypad == (Joypad { select: 0xFF, action_state: 0xF, direction_state: 0xF }),
    {
        Self { select: 0xFF, action_state: 0xF, direction_state: 0xF }
    }

    /// The value `P1` reads as: the select bits 4-5, over the low nibble of each
    /// selected key group ANDed together (`0xF` when none is selected).
    pub open spec fn register(self) -> u8 {
        let action = if self.select & 0x20 == 0 {
            self.action_state
        } else {
            0xFF
        };
        let direction = if self.select & 0x10 == 0 {
            self.direction_state
        } else {
            0xFF
        };
        (self.select & 0x30) | (0x0F & action & direction)
    }

    pub fn read_byte(&self, addr: u16) -> (value: u8)
        ensures
            value == if addr == JOYPAD_REGISTER {
                self.register()
            } else {
                0xFF
            },
    {
        let mut lower: u8 = 0x0F;
        match addr {
            0xFF00 => {
                if self.select & 0x20 == 0 {
                    lower &= self.action_state
                }
                if self.select & 0x10 == 0 {
                    lower &= self.direction_state
                }
                let s = self.select;
                let a = self.action_state;
                let d = self.direction_state;
                assert(0x0Fu8 & a & 0xFF == 0x0F & a && 0x0Fu8 & 0xFF & d == 0x0F & d && 0x0Fu8
                    & 0xFF & 0xFF == 0x0F) by (bit_vector);
                (self.select & 0x30) | lower
            },
            _ => 0xFF,
        }
    }

    pub fn write_byte(&mut self, addr: u16, value: u8)
        ensures
            *final(self) == if addr == JOYPAD_REGISTER {
                Joypad { select: value, ..*old(self) }
            } else {
                *old(self)
            },
    {
        if addr == 0xFF00 {
            self.select = value;
        }
    }
}

/// After `value` is written to `P1`, reading it gives back bits 4-5 of that
/// value, bits 6-7 read as 0, and with neither key group selected the low
/// nibble reads as `0xF`.
pub proof fn lemma_joypad_write_then_read(joypad: Joypad, value: u8)
    ensures
        (Joypad { select: value, ..joypad }).register() & 0x30 == value & 0x30,
        (Joypad { select: value, ..joypad }).register() & 0xC0 == 0,
        value & 0x30 == 0x30 ==> (Joypad { select: value, ..joypad }).register() & 0x0F == 0x0F,
{
    let a = joypad.action_state;
    let d = joypad.direction_state;
    let a1: u8 = if value & 0x20 == 0 { a } else { 0xFF };
    let d1: u8 = if value & 0x10 == 0 { d } else { 0xFF };
    assert(((value & 0x30) | (0x0F & a1 & d1)) & 0x30 == value & 0x30 && ((value & 0x30) | (0x0F
        & a1 & d1)) & 0xC0 == 0 && (value & 0x30 == 0x30 ==> (value & 0x20 != 0 && value & 0x10
        != 0)) && ((value & 0x30) | (0x0F & 0xFFu8 & 0xFFu8)) & 0x0F == 0x0F) by (bit_vector);
}

} // verus!
