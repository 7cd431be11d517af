use vstd::prelude::*;
use crate::apu::{Apu, ApuView};
use crate::cartridge::Cartridge;
use crate::ppu::{PPU, PpuView};
use crate::serial::Serial;
use crate::timer::Timer;

verus! {

/// Highest working-RAM offset; working RAM holds `WRAM_SIZE + 1` bytes.
pub const WRAM_SIZE: u16 = 0x1FFF;
/// Highest high-RAM offset; high RAM holds `HRAM_SIZE + 1` bytes.
pub const HRAM_SIZE: u16 = 0x7F;
/// Bytes copied by one OAM DMA transfer.
pub const DMA_LENGTH: u16 = 160;

/// The memory bus: the 16-bit address space that the CPU sees, mapping each
/// address to the cartridge, video memory, working RAM, the I/O registers of
/// each unit or high RAM. "Word" means 16 bits, stored lower byte first.
pub struct Bus {
    pub timer: Timer,
    pub ppu: PPU,
    pub apu: Apu,
    pub rom: Cartridge,
    pub serial: Serial,
    pub working_ram: Vec<u8>,
    pub high_ram: Vec<u8>,
    pub ie: u8,
    /// Interrupt flag register, for the STAT and VBlank interrupts.
    pub if_: u8,
    /// Bytes the serial port has sent, in order, for the caller to print.
    pub serial_output: Vec<u8>,
}

/// The contents of the bus, its memories taken as sequences.
pub struct BusView {
    pub timer: Timer,
    pub ppu: PpuView,
    pub apu: ApuView,
    pub rom: Cartridge,
    pub serial: Serial,
    pub working_ram: Seq<u8>,
    pub high_ram: Seq<u8>,
    pub ie: u8,
    pub if_: u8,
    pub serial_output: Seq<u8>,
}

impl View for Bus {
    type V = BusView;

    open spec fn view(&self) -> BusView {
        BusView {
            timer: self.timer,
            ppu: self.ppu@,
            apu: self.apu@,
            rom: self.rom,
            serial: self.serial,
            working_ram: self.working_ram@,
            high_ram: self.high_ram@,
            ie: self.ie,
            if_: self.if_,
            serial_output: self.serial_output@,
        }
    }
}

/// Source address `i` of an OAM DMA transfer from page `value`.
pub open spec fn dma_source(value: u8, i: int) -> u16 {
    (value * 256 + i) as u16
}

impl BusView {
    /// The memories have their sizes and the picture and audio units keep
    /// their invariants.
    pub open spec fn wf(self) -> bool {
        &&& self.working_ram.len() == WRAM_SIZE + 1
        &&& self.high_ram.len() == HRAM_SIZE + 1
        &&& self.ppu.wf()
        &&& self.apu.wf()
    }

    /// Whether `addr` can be read: cartridge addresses must be readable by the
    /// cartridge, and `0xFF46` (the DMA register) cannot be read.
    pub open spec fn readable(self, addr: u16) -> bool {
        &&& (addr <= 0x7FFF || 0xA000 <= addr <= 0xBFFF) ==> self.rom.readable(addr)
        &&& addr != 0xFF46
    }

    /// The byte that `addr` reads as.
    pub open spec fn byte(self, addr: u16) -> u8 {
        if addr <= 0x7FFF {
            self.rom.byte(addr)
        } else if addr <= 0x9FFF {
            self.ppu.register(addr)
        } else if addr <= 0xBFFF {
            self.rom.byte(addr)
        } else if addr <= 0xDFFF {
            self.working_ram[(addr & WRAM_SIZE) as int]
        } else if addr <= 0xFDFF {
            self.working_ram[((addr - 0x2000) as u16 & WRAM_SIZE) as int]
        } else if addr <= 0xFE9F {
            self.ppu.register(addr)
        } else if addr <= 0xFEFF {
            0
        } else if addr == 0xFF00 {
            0xFF
        } else if addr <= 0xFF02 {
            if addr == 0xFF01 {
                self.serial.data
            } else {
                self.serial.control
            }
        } else if 0xFF04 <= addr <= 0xFF07 {
            self.timer.register(addr)
        } else if addr == 0xFF0F {
            self.if_ & 0x1F
        } else if 0xFF10 <= addr <= 0xFF26 || 0xFF30 <= addr <= 0xFF3F {
            self.apu.register(addr)
        } else if 0xFF80 <= addr <= 0xFFFE {
            self.high_ram[(addr & HRAM_SIZE) as int]
        } else if addr == 0xFFFF {
            self.ie & 0x1F
        } else if 0xFF40 <= addr <= 0xFF4B {
            self.ppu.register(addr)
        } else {
            0
        }
    }

    /// The bus after the first `count` bytes of an OAM DMA transfer from
    /// `source`: byte `i` is read from `source + i` and stored in OAM entry `i`.
    pub open spec fn dma_copied(self, source: u16, count: int) -> BusView
        decreases count,
    {
        if count <= 0 {
            self
        } else {
            let before = self.dma_copied(source, count - 1);
            let byte = before.byte((source + count - 1) as u16);
            BusView { ppu: PpuView { oam: before.ppu.oam.update(count - 1, byte), ..before.ppu }, ..before }
        }
    }

    /// Whether every source byte of an OAM DMA transfer from page `value` can be read.
    pub open spec fn dma_readable(self, value: u8) -> bool {
        forall|i: int| 0 <= i < DMA_LENGTH ==> #[trigger] self.readable(dma_source(value, i))
    }

    /// Whether a write to `addr` can be carried out: a DMA transfer needs its
    /// source readable.
    pub open spec fn writable(self, addr: u16, value: u8) -> bool {
        addr == 0xFF46 ==> self.dma_readable(value)
    }

    /// The bus after `value` is written to `addr`. Writes to working RAM also
    /// reach its echo and the other way round; the prohibited area and the
    /// joypad ignore writes; `IF` and `IE` keep their low 5 bits; `0xFF46`
    /// copies 160 bytes from page `value` to OAM; a byte the serial port sends
    /// is appended to `serial_output`.
    pub open spec fn written(self, addr: u16, value: u8) -> BusView {
        if addr <= 0x7FFF || 0xA000 <= addr <= 0xBFFF {
            BusView { rom: self.rom.written(addr, value), ..self }
        } else if 0x8000 <= addr <= 0x9FFF || 0xFE00 <= addr <= 0xFE9F {
            BusView { ppu: self.ppu.written(addr, value), ..self }
        } else if 0xC000 <= addr <= 0xFDFF {
            let index = if addr <= 0xDFFF {
                addr & WRAM_SIZE
            } else {
                (addr - 0x2000) as u16 & WRAM_SIZE
            };
            BusView { working_ram: self.working_ram.update(index as int, value), ..self }
        } else if addr == 0xFF01 || addr == 0xFF02 {
            let (serial, sent) = self.serial.written(addr, value);
            BusView {
                serial,
                serial_output: match sent {
                    Some(b) => self.serial_output.push(b),
                    None => self.serial_output,
                },
                ..self
            }
        } else if 0xFF04 <= addr <= 0xFF07 {
            BusView { timer: self.timer.written(addr, value), ..self }
        } else if addr == 0xFF0F {
            BusView { if_: value & 0x1F, ..self }
        } else if 0xFF10 <= addr <= 0xFF26 || 0xFF30 <= addr <= 0xFF3F {
            BusView { apu: self.apu.written(addr, value), ..self }
        } else if 0xFF40 <= addr <= 0xFF43 || addr == 0xFF45 || 0xFF47 <= addr <= 0xFF4B {
            BusView { ppu: self.ppu.written(addr, value), ..self }
        } else if addr == 0xFF46 {
            self.dma_copied(dma_source(value, 0), DMA_LENGTH as int)
        } else if 0xFF80 <= addr <= 0xFFFE {
            BusView { high_ram: self.high_ram.update((addr & HRAM_SIZE) as int, value), ..self }
        } else if addr == 0xFFFF {
            BusView { ie: value & 0x1F, ..self }
        } else {
            self
        }
    }
}

impl Bus {
    /// A bus around a cartridge: timer, serial port, picture and audio units
    /// in their power-up state, working and high RAM filled with `0xFF`,
    /// interrupt registers clear and nothing sent.
    pub fn new(rom: Cartridge, sample_rate: u32) -> (bus: Self)
        requires
            sample_rate > 0,
        ensures
            bus@.wf(),
            bus.rom == rom,
            bus.apu.is_initial(sample_rate),
            bus.ppu@.is_power_up(),
            bus.timer == Timer::new_state(),
            bus.serial == Serial::new_state(),
            forall|i: int| 0 <= i < bus.working_ram.len() ==> bus.working_ram@[i] == 0xFF,
            forall|i: int| 0 <= i < bus.high_ram.len() ==> bus.high_ram@[i] == 0xFF,
            bus.ie == 0 && bus.if_ == 0,
            bus.serial_output@ == Seq::<u8>::empty(),
    {
        Self {
            timer: Timer::new(),
            serial: Serial::new(),
            rom,
            ppu: PPU::new(),
            apu: Apu::new(sample_rate),
            working_ram: vec![0xFF; WRAM_SIZE as usize + 1],
            high_ram: vec![0xFF; HRAM_SIZE as usize + 1],
            ie: 0x00,
            if_: 0x00,
            serial_output: Vec::new(),
        }
    }

    pub fn read_byte(&self, addr: u16) -> (value: u8)
        requires
            self@.wf(),
            self@.readable(addr),
        ensures
            value == self@.byte(addr),
    {
        proof {
            lemma_ram_index(addr);
        }
        match addr {
            // from cartridge, usually fixed bank
            0x0000..=0x7FFF => self.rom.read_byte(addr),
            0x8000..=0x9FFF => self.ppu.read_byte(addr),
            0xA000..=0xBFFF => self.rom.read_byte(addr),
            0xC000..=0xDFFF => self.working_ram[addr as usize & WRAM_SIZE as usize],
            0xE000..=0xFDFF => {
                // Echo RAM - mirrors 0xC000-0xDDFF
                let mirrored_addr = addr - 0x2000;
                proof {
                    lemma_ram_index(mirrored_addr);
                }
                self.working_ram[mirrored_addr as usize & WRAM_SIZE as usize]
            },
            // sprite attribute table
            0xFE00..=0xFE9F => self.ppu.read_byte(addr),
            // prohibited area
            0xFEA0..=0xFEFF => 0,
            // I/O registers
            0xFF00 => 0xFF,
            0xFF01..=0xFF02 => self.serial.read_byte(addr),
            0xFF04..=0xFF07 => self.timer.read_byte(addr),
            0xFF0F => self.if_ & 0x1F,
            0xFF10..=0xFF26 => self.apu.read_byte(addr),
            0xFF30..=0xFF3F => self.apu.read_byte(addr),
            // high ram (HRAM)
            0xFF80..=0xFFFE => self.high_ram[addr as usize & HRAM_SIZE as usize],
            0xFFFF => self.ie & 0x1F,
            0xFF40..=0xFF4B => self.ppu.read_byte(addr),
            _ => 0,
        }
    }

    /// Copies 160 bytes from page `value` to OAM (see `dma_copied`).
    fn dma_transfer(&mut self, value: u8)
        requires
            old(self)@.wf(),
            old(self)@.dma_readable(value),
        ensures
            final(self)@ == old(self)@.dma_copied(dma_source(value, 0), DMA_LENGTH as int),
            final(self)@.wf(),
    {
        let source_addr = (value as u16) << 8u16;
        assert((value as u16) << 8u16 == value * 256) by (bit_vector);
        let mut i: u16 = 0;
        while i < 160
            invariant
                i <= 160,
                source_addr == value * 256,
                self@ == old(self)@.dma_copied(source_addr, i as int),
                self@.wf(),
                self.rom == old(self).rom,
                old(self)@.wf(),
                old(self)@.dma_readable(value),
            decreases 160 - i,
        {
            assert(old(self)@.readable(dma_source(value, i as int)));
            assert(dma_source(value, i as int) == source_addr + i);
            proof {
                lemma_dma_keeps_rom(old(self)@, source_addr, i as int);
            }
            let byte = self.read_byte(source_addr + i);
            self.ppu.oam[i as usize] = byte;
            i += 1;
        }
    }

    pub fn write_byte(&mut self, addr: u16, value: u8)
        requires
            old(self)@.wf(),
            old(self)@.writable(addr, value),
        ensures
            final(self)@ == old(self)@.written(addr, value),
            final(self)@.wf(),
    {
        proof {
            lemma_ram_index(addr);
        }
        match addr {
            // from cartridge, usually fixed bank
            0x0000..=0x7FFF => self.rom.write_byte(addr, value),
            0x8000..=0x9FFF => self.ppu.write_byte(addr, value),
            0xA000..=0xBFFF => self.rom.write_byte(addr, value),
            0xC000..=0xDFFF => {
                self.working_ram[addr as usize & WRAM_SIZE as usize] = value;
                // Also update echo RAM
                let echo_addr = addr + 0x2000;
                if echo_addr <= 0xFDFF {
                    assert((echo_addr as usize) & (WRAM_SIZE as usize) == (addr as usize) & (
                    WRAM_SIZE as usize)) by (bit_vector)
                        requires
                            echo_addr == addr + 0x2000,
                            addr <= 0xDFFF,
                    ;
                    self.working_ram[echo_addr as usize & WRAM_SIZE as usize] = value;
                }
                assert(self.working_ram@ =~= old(self).working_ram@.update(
                    (addr & WRAM_SIZE) as int,
                    value,
                ));
            },
            0xE000..=0xFDFF => {
                let mirrored_addr = addr - 0x2000;
                assert((mirrored_addr as usize) & (WRAM_SIZE as usize) == (addr as usize) & (
                WRAM_SIZE as usize) && (mirrored_addr & WRAM_SIZE) == (addr - 0x2000) as u16
                    & WRAM_SIZE) by (bit_vector)
                    requires
                        mirrored_addr == addr - 0x2000,
                        addr >= 0xE000,
                ;
                self.working_ram[mirrored_addr as usize & WRAM_SIZE as usize] = value;
                // Also update main RAM
                self.working_ram[addr as usize & WRAM_SIZE as usize] = value;
                assert(self.working_ram@ =~= old(self).working_ram@.update(
                    ((addr - 0x2000) as u16 & WRAM_SIZE) as int,
                    value,
                ));
            },
            // sprite attribute table
            0xFE00..=0xFE9F => {
                self.ppu.write_byte(addr, value);
            },
            // prohibited area
            0xFEA0..=0xFEFF => {},
            // I/O registers
            0xFF00 => {},
            0xFF01..=0xFF02 => {
                if let Some(sent) = self.serial.write_byte(addr, value) {
                    self.serial_output.push(sent);
                }
            },
            0xFF04..=0xFF07 => self.timer.write_byte(addr, value),
            0xFF0F => self.if_ = value & 0x1F,
            0xFF10..=0xFF26 => self.apu.write_byte(addr, value),
            0xFF30..=0xFF3F => self.apu.write_byte(addr, value),
            0xFF40..=0xFF43 | 0xFF45 => self.ppu.write_byte(addr, value),
            // DMA Transfer and Start Address
            0xFF46 => self.dma_transfer(value),
            0xFF47..=0xFF4B => self.ppu.write_byte(addr, value),
            // high ram (HRAM)
            0xFF80..=0xFFFE => self.high_ram[addr as usize & HRAM_SIZE as usize] = value,
            // interrupt enable register (IE)
            0xFFFF => {
                self.ie = value & 0x1F;
            },
            _ => {},
        }
    }

    /// Reads the word at `addr`: lower byte at `addr`, upper byte at `addr + 1`.
    pub fn read_word(&mut self, addr: u16) -> (value: u16)
        requires
            old(self)@.wf(),
            addr < 0xFFFF,
            old(self)@.readable(addr),
            old(self)@.readable((addr + 1) as u16),
        ensures
            value == old(self)@.byte(addr) + old(self)@.byte((addr + 1) as u16) * 256,
            *final(self) == *old(self),
    {
        let lo = self.read_byte(addr);
        let hi = self.read_byte(addr + 1);
        assert((lo as u16) | ((hi as u16) << 8u16) == lo + hi * 256) by (bit_vector);
        (lo as u16) | ((hi as u16) << 8u16)
    }

    /// Writes `value` as a word at `addr`: lower byte first, at `addr`, then
    /// the upper byte at `addr + 1`.
    pub fn write_word(&mut self, addr: u16, value: u16)
        requires
            old(self)@.wf(),
            addr < 0xFFFF,
            old(self)@.writable(addr, (value & 0xFF) as u8),
            old(self)@.writable((addr + 1) as u16, (value >> 8u16) as u8),
        ensures
            final(self)@ == old(self)@.written(addr, (value & 0xFF) as u8).written(
                (addr + 1) as u16,
                (value >> 8u16) as u8,
            ),
            final(self)@.wf(),
    {
        proof {
            lemma_written_keeps_readable(old(self)@, addr, (value & 0xFF) as u8);
        }
        self.write_byte(addr, (value & 0xFF) as u8);
        self.write_byte(addr + 1, (value >> 8u16) as u8);
    }

    /// The serial port, for the caller to change.
    pub fn serial_mut(&mut self) -> (serial: &mut Serial)
        ensures
            *serial == old(self).serial,
            final(self)@ == (BusView { serial: *final(serial), ..old(self)@ }),
    {
        &mut self.serial
    }
}

/// The readable addresses depend on the cartridge image and controller only,
/// which writes leave as they are.
proof fn lemma_dma_keeps_rom(bus: BusView, source: u16, count: int)
    requires
        count <= bus.ppu.oam.len(),
    ensures
        bus.dma_copied(source, count).rom == bus.rom,
        bus.dma_copied(source, count).working_ram == bus.working_ram,
        bus.dma_copied(source, count).high_ram == bus.high_ram,
        bus.dma_copied(source, count).apu == bus.apu,
        bus.dma_copied(source, count).ppu.oam.len() == bus.ppu.oam.len(),
        bus.dma_copied(source, count).ppu == (PpuView { oam: bus.dma_copied(source, count).ppu.oam, ..bus.ppu }),
    decreases count,
{
    if count > 0 {
        lemma_dma_keeps_rom(bus, source, count - 1);
    }
}

/// A write leaves every address as readable as it was.
pub proof fn lemma_written_keeps_readable(bus: BusView, addr: u16, value: u8)
    requires
        bus.wf(),
    ensures
        forall|a: u16| #[trigger] bus.written(addr, value).readable(a) == bus.readable(a),
{
    lemma_dma_keeps_rom(bus, dma_source(value, 0), DMA_LENGTH as int);
}

/// Working RAM and its echo are one memory: a byte written at `0xC000 + k`
/// reads back at `0xE000 + k` and at `0xC000 + k`, and one written at
/// Masking an address selects an index inside working RAM and high RAM.
proof fn lemma_ram_index(addr: u16)
    by (bit_vector)
    ensures
        (addr as usize) & (WRAM_SIZE as usize) == (addr & WRAM_SIZE) as usize,
        addr & WRAM_SIZE <= WRAM_SIZE,
        (addr as usize) & (HRAM_SIZE as usize) == (addr & HRAM_SIZE) as usize,
        addr & HRAM_SIZE <= HRAM_SIZE,
{
}

/// `0xE000 + k` reads back at `0xC000 + k`, for `k < 0x1E00`.
pub proof fn lemma_echo_ram(bus: BusView, k: u16, value: u8)
    requires
        bus.wf(),
        k < 0x1E00,
    ensures
        bus.written((0xC000 + k) as u16, value).byte((0xE000 + k) as u16) == value,
        bus.written((0xC000 + k) as u16, value).byte((0xC000 + k) as u16) == value,
        bus.written((0xE000 + k) as u16, value).byte((0xC000 + k) as u16) == value,
{
    let a = (0xC000 + k) as u16;
    let e = (0xE000 + k) as u16;
    assert(k < 0x1E00 ==> a & 0x1FFF == k && ((e - 0x2000) as u16) & 0x1FFF == k) by (bit_vector)
        requires
            a == (0xC000 + k) as u16,
            e == (0xE000 + k) as u16,
    ;
}

/// High RAM gives back the byte written to it, and `IE` and `IF` read back
/// the low 5 bits of what was written.
pub proof fn lemma_bus_write_then_read(bus: BusView, addr: u16, value: u8)
    requires
        bus.wf(),
    ensures
        0xFF80 <= addr <= 0xFFFE ==> bus.written(addr, value).byte(addr) == value,
        bus.written(0xFFFF, value).byte(0xFFFF) == value & 0x1F,
        bus.written(0xFF0F, value).byte(0xFF0F) == value & 0x1F,
{
    assert(addr & 0x7F <= 0x7F && (value & 0x1F) & 0x1F == value & 0x1F) by (bit_vector);
}

/// A word written to working RAM or high RAM reads back as that word.
pub proof fn lemma_word_write_then_read(bus: BusView, addr: u16, value: u16)
    requires
        bus.wf(),
        0xC000 <= addr < 0xDFFF || 0xFF80 <= addr < 0xFFFE,
    ensures
        ({
            let lo = (value & 0xFF) as u8;
            let hi = (value >> 8u16) as u8;
            let after = bus.written(addr, lo).written((addr + 1) as u16, hi);
            after.byte(addr) + after.byte((addr + 1) as u16) * 256 == value
        }),
{
    let next = (addr + 1) as u16;
    assert(0xC000 <= addr < 0xDFFF ==> addr & 0x1FFF != next & 0x1FFF) by (bit_vector)
        requires
            next == (addr + 1) as u16,
    ;
    assert(0xFF80 <= addr < 0xFFFE ==> addr & 0x7F != next & 0x7F && addr & 0x7F <= 0x7F && next
        & 0x7F <= 0x7F) by (bit_vector)
        requires
            next == (addr + 1) as u16,
    ;
    assert(addr & 0x1FFF <= 0x1FFF && next & 0x1FFF <= 0x1FFF && (value & 0xFF) as u8 + ((value
        >> 8u16) as u8) * 256 == value) by (bit_vector);
}

} // verus!
