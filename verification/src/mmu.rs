use vstd::prelude::*;
use crate::register::{join_bytes, split_word, pair_value, high_byte, low_byte};

verus! {

/// Bytes of working RAM.
pub const WORKING_RAM_BYTES: usize = 0x8000;
/// Bytes of video RAM.
pub const VIDEO_RAM_BYTES: usize = 0x8000;
/// Bytes of zero-page RAM: the page `0xFF00-0xFFFF` of port, mode
/// registers and internal RAM.
pub const ZERO_PAGE_RAM_BYTES: usize = 0x100;

/// Memory that the CPU reads and writes. A "word" here is 16 bits, stored with
/// its upper byte first.
pub struct Mmu {
    /// Can be read from or written to by the CPU.
    pub working_ram: [u8; WORKING_RAM_BYTES],
    pub video_ram: [u8; VIDEO_RAM_BYTES],
    /// Most of the interaction between a program and the hardware goes through
    /// this page: byte `n` is address `0xFF00 + n`.
    pub zero_page_ram: [u8; ZERO_PAGE_RAM_BYTES],
}

impl Mmu {
    /// The byte of working RAM at `addr`.
    pub open spec fn byte_at(self, addr: int) -> u8 {
        self.working_ram@[addr]
    }

    /// The byte at address `0xFF00 + offset` of the zero page.
    pub open spec fn zero_page_at(self, offset: u8) -> u8 {
        self.zero_page_ram@[offset as int]
    }

    /// The memory with the zero-page byte at `0xFF00 + offset` replaced by `value`.
    pub open spec fn with_zero_page(self, offset: u8, value: u8) -> Mmu {
        Mmu {
            zero_page_ram: vstd::array::spec_array_update(self.zero_page_ram, offset as int, value),
            ..self
        }
    }

    /// The word stored at `addr`: upper byte at `addr`, lower byte at `addr + 1`.
    pub open spec fn word_at(self, addr: int) -> u16 {
        pair_value(self.working_ram@[addr], self.working_ram@[addr + 1])
    }

    /// The memory with the working-RAM byte at `addr` replaced by `value`.
    pub open spec fn with_byte(self, addr: int, value: u8) -> Mmu {
        Mmu { working_ram: vstd::array::spec_array_update(self.working_ram, addr, value), ..self }
    }

    /// The memory with `value` stored as a word at `addr`.
    pub open spec fn with_word(self, addr: int, value: u16) -> Mmu {
        self.with_byte(addr, high_byte(value)).with_byte(addr + 1, low_byte(value))
    }

    /// All three memories filled with zeros.
    pub open spec fn is_zeroed(self) -> bool {
        &&& forall|i: int| 0 <= i < WORKING_RAM_BYTES ==> #[trigger] self.working_ram@[i] == 0
        &&& forall|i: int| 0 <= i < VIDEO_RAM_BYTES ==> #[trigger] self.video_ram@[i] == 0
        &&& forall|i: int| 0 <= i < ZERO_PAGE_RAM_BYTES ==> #[trigger] self.zero_page_ram@[i] == 0
    }

    pub fn new() -> (mmu: Self)
        ensures
            mmu.is_zeroed(),
    {
        Self {
            working_ram: [0; WORKING_RAM_BYTES],
            video_ram: [0; VIDEO_RAM_BYTES],
            zero_page_ram: [0; ZERO_PAGE_RAM_BYTES],
        }
    }

    pub fn read_byte(&self, addr: usize) -> (value: u8)
        requires
            addr < WORKING_RAM_BYTES,
        ensures
            value == self.byte_at(addr as int),
    {
        self.working_ram[addr]
    }

    pub fn read_word(&self, addr: usize) -> (value: u16)
        requires
            addr + 1 < WORKING_RAM_BYTES,
        ensures
            value == self.word_at(addr as int),
    {
        join_bytes(self.working_ram[addr], self.working_ram[addr + 1])
    }

    pub fn write_byte(&mut self, addr: usize, value: u8)
        requires
            addr < WORKING_RAM_BYTES,
        ensures
            *final(self) == old(self).with_byte(addr as int, value),
    {
        self.working_ram[addr] = value;
    }

    /// Reads address `0xFF00 + offset` of the zero page.
    pub fn read_zero_page(&self, offset: u8) -> (value: u8)
        ensures
            value == self.zero_page_at(offset),
    {
        self.zero_page_ram[offset as usize]
    }

    /// Writes address `0xFF00 + offset` of the zero page.
    pub fn write_zero_page(&mut self, offset: u8, value: u8)
        ensures
            *final(self) == old(self).with_zero_page(offset, value),
    {
        self.zero_page_ram[offset as usize] = value;
    }

    pub fn write_word(&mut self, addr: usize, value: u16)
        requires
            addr + 1 < WORKING_RAM_BYTES,
        ensures
            *final(self) == old(self).with_word(addr as int, value),
    {
        let (hi, lo) = split_word(value);
        self.working_ram[addr] = hi;
        self.working_ram[addr + 1] = lo;
    }
}

/// Reading a word right after writing it at the same address gives back what was written.
pub proof fn lemma_word_write_then_read(mmu: Mmu, addr: int, value: u16)
    requires
        0 <= addr && addr + 1 < WORKING_RAM_BYTES,
    ensures
        mmu.with_word(addr, value).word_at(addr) == value,
{
    let m1 = mmu.with_byte(addr, high_byte(value));
    assert(m1.working_ram@ == mmu.working_ram@.update(addr, high_byte(value)));
}

/// Reading a byte right after writing it gives back what was written, and no
/// other byte changes.
pub proof fn lemma_byte_write_then_read(mmu: Mmu, addr: int, value: u8, other: int)
    requires
        0 <= addr < WORKING_RAM_BYTES,
        0 <= other < WORKING_RAM_BYTES,
    ensures
        mmu.with_byte(addr, value).byte_at(addr) == value,
        other != addr ==> mmu.with_byte(addr, value).byte_at(other) == mmu.byte_at(other),
{
}

} // verus!
