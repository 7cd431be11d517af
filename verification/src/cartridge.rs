use vstd::prelude::*;
use crate::text::{push_char, u8_to_decimal, decimal_digits};

verus! {

/// The memory bank controller a cartridge uses.
pub enum MBCType {
    RomOnly,
    MBC1,
    MBC2,
    MBC3,
}

/// The controller that a cartridge-type byte (header `0x147`) stands for;
/// types without a supported controller count as ROM only.
pub open spec fn mbc_type_of(code: u8) -> MBCType {
    if code == 0x00 {
        MBCType::RomOnly
    } else if 0x01 <= code <= 0x03 {
        MBCType::MBC1
    } else if 0x05 <= code <= 0x06 {
        MBCType::MBC2
    } else if 0x0F <= code <= 0x13 {
        MBCType::MBC3
    } else {
        MBCType::RomOnly
    }
}

/// The name of a cartridge-type byte (header `0x147`); empty when unknown.
pub open spec fn cartridge_type_name(code: u8) -> &'static str {
    if code == 0x00 { "ROM ONLY" }
    else if code == 0x01 { "MBC1" }
    else if code == 0x02 { "MBC1+RAM" }
    else if code == 0x03 { "MBC1+RAM+BATTERY" }
    else if code == 0x05 { "MBC2" }
    else if code == 0x06 { "MBC2+BATTERY" }
    else if code == 0x08 { "ROM+RAM" }
    else if code == 0x09 { "ROM+RAM+BATTERY" }
    else if code == 0x0B { "MMM01" }
    else if code == 0x0C { "MMM01+RAM" }
    else if code == 0x0D { "MMM01+RAM+BATTERY" }
    else if code == 0x0F { "MBC3+TIMER+BATTERY" }
    else if code == 0x10 { "MBC3+TIMER+RAM+BATTERY" }
    else if code == 0x11 { "MBC3" }
    else if code == 0x12 { "MBC3+RAM" }
    else if code == 0x13 { "MBC3+RAM+BATTERY" }
    else if code == 0x19 { "MBC5" }
    else if code == 0x1A { "MBC5+RAM" }
    else if code == 0x1B { "MBC5+RAM+BATTERY" }
    else if code == 0x1C { "MBC5+RUMBLE" }
    else if code == 0x1D { "MBC5+RUMBLE+RAM" }
    else if code == 0x1E { "MBC5+RUMBLE+RAM+BATTERY" }
    else if code == 0x20 { "MBC6" }
    else if code == 0x22 { "MBC7+SENSOR+RUMBLE+RAM+BATTERY" }
    else if code == 0xFC { "POCKET CAMERA" }
    else if code == 0xFD { "BANDAI TAMA5" }
    else if code == 0xFE { "HuC3" }
    else if code == 0xFF { "HuC1+RAM+BATTERY" }
    else { "" }
}

/// The ROM size that a header byte (`0x148`) stands for; `"0"` when unknown.
pub open spec fn rom_size_name(code: u8) -> &'static str {
    if code == 0x00 { "32 KByte" }
    else if code == 0x01 { "64 KByte" }
    else if code == 0x02 { "128 KByte" }
    else if code == 0x03 { "256 KByte" }
    else if code == 0x04 { "512 KByte" }
    else if code == 0x05 { "1 MByte" }
    else if code == 0x06 { "2 MByte" }
    else if code == 0x07 { "4 MByte" }
    else if code == 0x08 { "8 MByte" }
    else if code == 0x52 { "1.1 MByte" }
    else if code == 0x53 { "1.2 MByte" }
    else if code == 0x54 { "1.5 MByte" }
    else { "0" }
}

/// The external RAM size that a header byte (`0x149`) stands for; `"0"` when unknown.
pub open spec fn ram_size_name(code: u8) -> &'static str {
    if code == 0x00 { "0" }
    else if code == 0x01 { "-" }
    else if code == 0x02 { "8 KB" }
    else if code == 0x03 { "32 KB" }
    else if code == 0x04 { "128 KB" }
    else if code == 0x05 { "64 KB" }
    else { "0" }
}

/// First header byte of the title.
pub const TITLE_START: usize = 0x134;
/// Number of title bytes.
pub const TITLE_LEN: usize = 16;
/// First header byte covered by the checksum.
pub const CHECKSUM_START: usize = 0x134;
/// Last header byte covered by the checksum.
pub const CHECKSUM_END: usize = 0x14C;

/// The title bytes of a ROM image, each taken as a character.
pub open spec fn title_chars(data: Seq<u8>) -> Seq<char> {
    Seq::new(TITLE_LEN as nat, |i: int| data[TITLE_START + i] as char)
}

/// The header checksum accumulated over bytes `0x134` up to (not including)
/// `end`: starting at 0, each byte and then 1 are subtracted, wrapping.
pub open spec fn checksum_upto(data: Seq<u8>, end: int) -> u8
    decreases end - CHECKSUM_START,
{
    if end <= CHECKSUM_START {
        0
    } else {
        checksum_upto(data, end - 1).wrapping_sub(data[end - 1]).wrapping_sub(1)
    }
}

/// The header checksum of a ROM image, over bytes `0x134` to `0x14C`.
pub open spec fn header_checksum(data: Seq<u8>) -> u8 {
    checksum_upto(data, CHECKSUM_END + 1)
}

/// A cartridge: its ROM image, the header fields read from it, and the bank
/// registers of its controller.
pub struct Cartridge {
    pub title: String,
    pub ctype: &'static str,
    pub rom_size: &'static str,
    pub ram_size: &'static str,
    pub rom_version: String,
    pub data: Vec<u8>,
    pub checksum: u8,
    pub mbc_type: MBCType,
    pub rom_bank: u8,
    pub ram_bank: u8,
    /// 0 selects ROM banking, 1 RAM banking.
    pub banking_mode: u8,
}

impl Cartridge {
    /// A cartridge with nothing loaded: empty title, version and data, the
    /// size and type texts `"UNKNOWN"`, checksum 0, ROM only, ROM bank 1, RAM
    /// bank 0, ROM banking.
    pub open spec fn is_blank(self) -> bool {
        &&& self.title@ == Seq::<char>::empty()
        &&& self.ctype == "UNKNOWN"
        &&& self.rom_size == "UNKNOWN"
        &&& self.ram_size == "UNKNOWN"
        &&& self.rom_version@ == Seq::<char>::empty()
        &&& self.data@ == Seq::<u8>::empty()
        &&& self.checksum == 0
        &&& self.mbc_type == MBCType::RomOnly
        &&& self.rom_bank == 1
        &&& self.ram_bank == 0
        &&& self.banking_mode == 0
    }

    pub fn new() -> (cartridge: Self)
        ensures
            cartridge.is_blank(),
    {
        Self {
            title: String::new(),
            ctype: "UNKNOWN",
            rom_size: "UNKNOWN",
            ram_size: "UNKNOWN",
            rom_version: String::new(),
            data: Vec::new(),
            checksum: 0,
            mbc_type: MBCType::RomOnly,
            rom_bank: 1,
            ram_bank: 0,
            banking_mode: 0,
        }
    }

    /// Whether a ROM image is long enough for its header to be read: up to
    /// byte `0x14C`.
    pub open spec fn header_readable(data: Seq<u8>) -> bool {
        data.len() > CHECKSUM_END
    }

    /// Takes a ROM image: picks the controller from header byte `0x147`,
    /// appends the 16 title bytes to the title, and records the type, ROM size,
    /// RAM size, version and header checksum that the header gives.
    pub fn load_bytes(&mut self, data: Vec<u8>)
        requires
            Cartridge::header_readable(data@),
        ensures
            final(self).data@ == data@,
            final(self).mbc_type == mbc_type_of(data@[0x147]),
            final(self).title@ == old(self).title@ + title_chars(data@),
            final(self).ctype == cartridge_type_name(data@[0x147]),
            final(self).rom_size == rom_size_name(data@[0x148]),
            final(self).ram_size == ram_size_name(data@[0x149]),
            final(self).rom_version@ == decimal_digits(data@[0x14C] as nat),
            final(self).checksum == header_checksum(data@),
            final(self).rom_bank == old(self).rom_bank,
            final(self).ram_bank == old(self).ram_bank,
            final(self).banking_mode == old(self).banking_mode,
    {
        self.data = data;
        self.mbc_type = match self.data[0x0147] {
            0x00 => MBCType::RomOnly,
            0x01..=0x03 => MBCType::MBC1,
            0x05..=0x06 => MBCType::MBC2,
            0x0F..=0x13 => MBCType::MBC3,
            _ => MBCType::RomOnly,
        };
        self.get_title();
        self.get_cartridge_type();
        self.get_rom_size();
        self.get_ram_size();
        self.get_version();
        self.calculate_and_check_checksum();
    }

    /// The ROM bank bits that the controller honours.
    pub open spec fn bank_mask(t: MBCType) -> u8 {
        match t {
            MBCType::MBC1 => 0x1F,
            MBCType::MBC2 => 0x0F,
            _ => 0x7F,
        }
    }

    /// The ROM bank that `0x4000-0x7FFF` shows: the honoured bits of the bank
    /// register, with bank 0 shown as bank 1.
    pub open spec fn switched_bank(self) -> int {
        let bank = self.rom_bank & Cartridge::bank_mask(self.mbc_type);
        if bank == 0 {
            1
        } else {
            bank as int
        }
    }

    /// Whether `addr` can be read: a ROM-only cartridge reads its image
    /// directly, so the address must lie inside it; a banked cartridge reads
    /// `0x0000-0x3FFF` directly.
    pub open spec fn readable(self, addr: u16) -> bool {
        match self.mbc_type {
            MBCType::RomOnly => addr < self.data.len(),
            _ => addr <= 0x3FFF ==> addr < self.data.len(),
        }
    }

    /// The byte that `addr` reads as. A banked cartridge reads `0x0000-0x3FFF`
    /// directly, `0x4000-0x7FFF` from the switched bank (`0xFF` past the end of
    /// the image) and anything above as `0xFF`.
    pub open spec fn byte(self, addr: u16) -> u8 {
        match self.mbc_type {
            MBCType::RomOnly => self.data@[addr as int],
            _ => {
                if addr <= 0x3FFF {
                    self.data@[addr as int]
                } else if addr <= 0x7FFF {
                    let offset = self.switched_bank() * 0x4000 + (addr - 0x4000);
                    if offset < self.data.len() {
                        self.data@[offset]
                    } else {
                        0xFF
                    }
                } else {
                    0xFF
                }
            },
        }
    }

    /// Reads from the switched bank at `addr` in `0x4000-0x7FFF`.
    fn read_banked(&self, addr: u16, mask: u8) -> (value: u8)
        requires
            0x4000 <= addr <= 0x7FFF,
            mask == Cartridge::bank_mask(self.mbc_type),
            !(self.mbc_type is RomOnly),
        ensures
            value == self.byte(addr),
    {
        let rom_bank = self.rom_bank;
        let bank = rom_bank & mask;
        assert(rom_bank & mask <= mask) by (bit_vector);
        let bank = if bank == 0 { 1 } else { bank };
        let offset = (bank as usize) * 0x4000 + (addr as usize - 0x4000);
        if offset < self.data.len() {
            self.data[offset]
        } else {
            0xFF
        }
    }

    pub fn read_byte(&self, addr: u16) -> (value: u8)
        requires
            self.readable(addr),
        ensures
            value == self.byte(addr),
    {
        match self.mbc_type {
            MBCType::RomOnly => self.data[addr as usize],
            MBCType::MBC1 => match addr {
                0x0000..=0x3FFF => self.data[addr as usize],
                0x4000..=0x7FFF => self.read_banked(addr, 0x1F),
                _ => 0xFF,
            },
            MBCType::MBC2 => match addr {
                0x0000..=0x3FFF => self.data[addr as usize],
                0x4000..=0x7FFF => self.read_banked(addr, 0x0F),
                _ => 0xFF,
            },
            MBCType::MBC3 => match addr {
                0x0000..=0x3FFF => self.data[addr as usize],
                0x4000..=0x7FFF => self.read_banked(addr, 0x7F),
                _ => 0xFF,
            },
        }
    }

    /// The bank registers after `value` is written at `addr`.
    ///
    /// - ROM only: nothing changes.
    /// - MBC1: `0x2000-0x3FFF` sets the low 5 bits of the ROM bank (0 becomes 1);
    ///   `0x4000-0x5FFF` sets bits 5-6 of the ROM bank in ROM banking mode, or the
    ///   RAM bank in RAM banking mode; `0x6000-0x7FFF` selects the banking mode.
    /// - MBC2: `0x0000-0x3FFF` sets the ROM bank to the low 4 bits (0 becomes 1).
    /// - MBC3: `0x2000-0x3FFF` sets the ROM bank to the low 7 bits (0 becomes 1);
    ///   `0x4000-0x5FFF` sets the RAM bank to the low 2 bits.
    pub open spec fn written(self, addr: u16, value: u8) -> Cartridge {
        match self.mbc_type {
            MBCType::RomOnly => self,
            MBCType::MBC1 => {
                if 0x2000 <= addr <= 0x3FFF {
                    let bank = (self.rom_bank & 0x60) | (value & 0x1F);
                    let bank = if bank & 0x1F == 0 {
                        (bank & 0xE0) | 1
                    } else {
                        bank
                    };
                    Cartridge { rom_bank: bank, ..self }
                } else if 0x4000 <= addr <= 0x5FFF {
                    if self.banking_mode == 0 {
                        Cartridge { rom_bank: (self.rom_bank & 0x1F) | ((value & 0x03) << 5u8), ..self }
                    } else {
                        Cartridge { ram_bank: value & 0x03, ..self }
                    }
                } else if 0x6000 <= addr <= 0x7FFF {
                    Cartridge { banking_mode: value & 0x01, ..self }
                } else {
                    self
                }
            },
            MBCType::MBC2 => {
                if addr <= 0x3FFF {
                    let bank = value & 0x0F;
                    Cartridge { rom_bank: if bank == 0 { 1 } else { bank }, ..self }
                } else {
                    self
                }
            },
            MBCType::MBC3 => {
                if 0x2000 <= addr <= 0x3FFF {
                    let bank = value & 0x7F;
                    Cartridge { rom_bank: if bank == 0 { 1 } else { bank }, ..self }
                } else if 0x4000 <= addr <= 0x5FFF {
                    Cartridge { ram_bank: value & 0x03, ..self }
                } else {
                    self
                }
            },
        }
    }

    pub fn write_byte(&mut self, addr: u16, value: u8)
        ensures
            *final(self) == old(self).written(addr, value),
    {
        match self.mbc_type {
            MBCType::RomOnly => {},
            MBCType::MBC1 => {
                match addr {
                    0x0000..=0x1FFF => {
                        // RAM enable/disable
                    },
                    0x2000..=0x3FFF => {
                        // set lower 5 bits of ROM bank number
                        self.rom_bank = (self.rom_bank & 0x60) | (value & 0x1F);
                        if self.rom_bank & 0x1F == 0 {
                            self.rom_bank = (self.rom_bank & 0xE0) | 1;
                        }
                    },
                    0x4000..=0x5FFF => {
                        // set upper 2 bits of ROM/RAM bank
                        if self.banking_mode == 0 {
                            // ROM banking mode, set bits 5 and 6 of ROM bank
                            self.rom_bank = (self.rom_bank & 0x1F) | ((value & 0x03) << 5u8);
                        } else {
                            self.ram_bank = value & 0x03;
                        }
                    },
                    0x6000..=0x7FFF => {
                        // banking mode select
                        self.banking_mode = value & 0x01;
                    },
                    _ => {},
                }
            },
            MBCType::MBC2 => {
                match addr {
                    0x0000..=0x3FFF => {
                        self.rom_bank = value & 0x0F;
                        if self.rom_bank == 0 {
                            self.rom_bank = 1;
                        }
                    },
                    _ => {},
                }
            },
            MBCType::MBC3 => {
                match addr {
                    0x0000..=0x1FFF => {
                        // RAM and timer enable/disable
                    },
                    0x2000..=0x3FFF => {
                        // set ROM bank number (7 bits)
                        self.rom_bank = value & 0x7F;
                        if self.rom_bank == 0 {
                            self.rom_bank = 1;
                        }
                    },
                    0x4000..=0x5FFF => {
                        // set RAM bank number or RTC register select
                        self.ram_bank = value & 0x03;
                    },
                    0x6000..=0x7FFF => {
                        // latch clock data
                    },
                    _ => {},
                }
            },
        }
    }

    /// Appends the title of the game, 16 upper-case ASCII bytes, to `title`.
    fn get_title(&mut self)
        requires
            Cartridge::header_readable(old(self).data@),
        ensures
            final(self).title@ == old(self).title@ + title_chars(old(self).data@),
            final(self).data == old(self).data,
            final(self).mbc_type == old(self).mbc_type,
            final(self).rom_bank == old(self).rom_bank,
            final(self).ram_bank == old(self).ram_bank,
            final(self).banking_mode == old(self).banking_mode,
            final(self).ctype == old(self).ctype,
            final(self).rom_size == old(self).rom_size,
            final(self).ram_size == old(self).ram_size,
            final(self).rom_version == old(self).rom_version,
            final(self).checksum == old(self).checksum,
    {
        let mut addr: u16 = 0x134;
        while addr <= 0x143
            invariant
                0x134 <= addr <= 0x144,
                Cartridge::header_readable(self.data@),
                self.data == old(self).data,
                self.mbc_type == old(self).mbc_type,
                self.rom_bank == old(self).rom_bank,
                self.ram_bank == old(self).ram_bank,
                self.banking_mode == old(self).banking_mode,
                self.ctype == old(self).ctype,
                self.rom_size == old(self).rom_size,
                self.ram_size == old(self).ram_size,
                self.rom_version == old(self).rom_version,
                self.checksum == old(self).checksum,
                self.title@ == old(self).title@ + title_chars(self.data@).subrange(0, addr - 0x134),
            decreases 0x144 - addr,
        {
            let c = self.read_byte(addr) as char;
            push_char(&mut self.title, c);
            assert(title_chars(self.data@).subrange(0, addr + 1 - 0x134) =~= title_chars(
                self.data@,
            ).subrange(0, addr - 0x134).push(c));
            addr += 1;
        }
        assert(title_chars(self.data@).subrange(0, 16) =~= title_chars(self.data@));
    }

    /// Records which controller and extra hardware the cartridge type byte names.
    fn get_cartridge_type(&mut self)
        requires
            Cartridge::header_readable(old(self).data@),
        ensures
            *final(self) == (Cartridge { ctype: cartridge_type_name(old(self).data@[0x147]), ..*old(self) }),
    {
        self.ctype = match self.data[0x147] {
            0x00 => "ROM ONLY",
            0x01 => "MBC1",
            0x02 => "MBC1+RAM",
            0x03 => "MBC1+RAM+BATTERY",
            0x05 => "MBC2",
            0x06 => "MBC2+BATTERY",
            0x08 => "ROM+RAM",
            0x09 => "ROM+RAM+BATTERY",
            0x0B => "MMM01",
            0x0C => "MMM01+RAM",
            0x0D => "MMM01+RAM+BATTERY",
            0x0F => "MBC3+TIMER+BATTERY",
            0x10 => "MBC3+TIMER+RAM+BATTERY",
            0x11 => "MBC3",
            0x12 => "MBC3+RAM",
            0x13 => "MBC3+RAM+BATTERY",
            0x19 => "MBC5",
            0x1A => "MBC5+RAM",
            0x1B => "MBC5+RAM+BATTERY",
            0x1C => "MBC5+RUMBLE",
            0x1D => "MBC5+RUMBLE+RAM",
            0x1E => "MBC5+RUMBLE+RAM+BATTERY",
            0x20 => "MBC6",
            0x22 => "MBC7+SENSOR+RUMBLE+RAM+BATTERY",
            0xFC => "POCKET CAMERA",
            0xFD => "BANDAI TAMA5",
            0xFE => "HuC3",
            0xFF => "HuC1+RAM+BATTERY",
            _ => "",
        }
    }

    /// Records the ROM size the header gives.
    fn get_rom_size(&mut self)
        requires
            Cartridge::header_readable(old(self).data@),
        ensures
            *final(self) == (Cartridge { rom_size: rom_size_name(old(self).data@[0x148]), ..*old(self) }),
    {
        self.rom_size = match self.data[0x148] {
            0x00 => "32 KByte",
            0x01 => "64 KByte",
            0x02 => "128 KByte",
            0x03 => "256 KByte",
            0x04 => "512 KByte",
            0x05 => "1 MByte",
            0x06 => "2 MByte",
            0x07 => "4 MByte",
            0x08 => "8 MByte",
            0x52 => "1.1 MByte",
            0x53 => "1.2 MByte",
            0x54 => "1.5 MByte",
            _ => "0",
        }
    }

    /// Records the size of the external RAM the header gives.
    fn get_ram_size(&mut self)
        requires
            Cartridge::header_readable(old(self).data@),
        ensures
            *final(self) == (Cartridge { ram_size: ram_size_name(old(self).data@[0x149]), ..*old(self) }),
    {
        self.ram_size = match self.data[0x149] {
            0x00 => "0",
            0x01 => "-",
            0x02 => "8 KB",
            0x03 => "32 KB",
            0x04 => "128 KB",
            0x05 => "64 KB",
            _ => "0",
        }
    }

    /// Records the game's version number, in decimal.
    fn get_version(&mut self)
        requires
            Cartridge::header_readable(old(self).data@),
        ensures
            final(self).rom_version@ == decimal_digits(old(self).data@[0x14C] as nat),
            *final(self) == (Cartridge { rom_version: final(self).rom_version, ..*old(self) }),
    {
        self.rom_version = u8_to_decimal(self.data[0x14C]);
    }

    /// Computes the header checksum over bytes `0x134` to `0x14C`; the boot ROM
    /// locks up when header byte `0x14D` differs from it.
    fn calculate_and_check_checksum(&mut self)
        requires
            Cartridge::header_readable(old(self).data@),
        ensures
            *final(self) == (Cartridge { checksum: header_checksum(old(self).data@), ..*old(self) }),
    {
        let mut x: u8 = 0;
        let mut i: usize = 0x0134;
        while i <= 0x014C
            invariant
                0x134 <= i <= 0x14D,
                Cartridge::header_readable(self.data@),
                x == checksum_upto(self.data@, i as int),
            decreases 0x14D - i,
        {
            x = x.wrapping_sub(self.data[i]).wrapping_sub(1);
            i += 1;
        }
        self.checksum = x;
    }

    /// The verdict of the header check: `"PASSED"` when the computed checksum
    /// equals header byte `0x14D`, `"FAILED"` otherwise.
    pub fn checksum_status(&self) -> (status: &'static str)
        requires
            self.data.len() > 0x14D,
        ensures
            status == if self.checksum == self.data@[0x14D] {
                "PASSED"
            } else {
                "FAILED"
            },
    {
        if self.checksum == self.data[0x14D] {
            "PASSED"
        } else {
            "FAILED"
        }
    }
}

impl Default for Cartridge {
    fn default() -> (cartridge: Self)
        ensures
            cartridge.is_blank(),
    {
        Self::new()
    }
}

/// The sum of the header bytes from `0x134` up to (not including) `end`.
pub open spec fn header_sum(data: Seq<u8>, end: int) -> int
    decreases end - CHECKSUM_START,
{
    if end <= CHECKSUM_START {
        0
    } else {
        header_sum(data, end - 1) + data[end - 1]
    }
}

/// The checksum accumulated up to `end` is minus the sum of the bytes and of
/// their count, modulo 256.
proof fn lemma_checksum_upto_closed_form(data: Seq<u8>, end: int)
    requires
        CHECKSUM_START <= end <= data.len(),
    ensures
        checksum_upto(data, end) as int == (-(header_sum(data, end) + (end - CHECKSUM_START)))
            % 256,
    decreases end - CHECKSUM_START,
{
    if end > CHECKSUM_START {
        lemma_checksum_upto_closed_form(data, end - 1);
        let prev = checksum_upto(data, end - 1);
        let d = data[end - 1];
        let k = -(header_sum(data, end - 1) + (end - 1 - CHECKSUM_START));
        let step = prev.wrapping_sub(d);
        assert(step as int == (prev - d) % 256);
        assert(step.wrapping_sub(1) as int == (step - 1) % 256);
        vstd::arithmetic::div_mod::lemma_sub_mod_noop(prev as int, d as int, 256);
        vstd::arithmetic::div_mod::lemma_sub_mod_noop(k, d as int, 256);
        vstd::arithmetic::div_mod::lemma_sub_mod_noop(step as int, 1, 256);
        vstd::arithmetic::div_mod::lemma_sub_mod_noop(k - d, 1, 256);
        vstd::arithmetic::div_mod::lemma_small_mod(prev as nat, 256);
        vstd::arithmetic::div_mod::lemma_small_mod(d as nat, 256);
        vstd::arithmetic::div_mod::lemma_small_mod(1, 256);
        vstd::arithmetic::div_mod::lemma_mod_twice(k, 256);
        vstd::arithmetic::div_mod::lemma_mod_twice(k - d, 256);
    }
}

/// The header checksum is minus the sum of header bytes `0x134` to `0x14C`,
/// less 25 (their count), modulo 256.
pub proof fn lemma_header_checksum_closed_form(data: Seq<u8>)
    requires
        Cartridge::header_readable(data),
    ensures
        header_checksum(data) as int == (-(header_sum(data, CHECKSUM_END + 1) + 25)) % 256,
{
    lemma_checksum_upto_closed_form(data, CHECKSUM_END + 1);
}

/// Bank 0 is never selected for `0x4000-0x7FFF` by a write: on an MBC1
/// cartridge the low 5 bits of the ROM bank stay non-zero, and on MBC2 and MBC3
/// cartridges the ROM bank stays non-zero.
pub proof fn lemma_bank_zero_never_selected(cart: Cartridge, addr: u16, value: u8)
    ensures
        cart.mbc_type is MBC1 && cart.rom_bank & 0x1F != 0 ==> cart.written(addr, value).rom_bank
            & 0x1F != 0,
        (cart.mbc_type is MBC2 || cart.mbc_type is MBC3) && cart.rom_bank != 0 ==> cart.written(
            addr,
            value,
        ).rom_bank != 0,
{
    let r = cart.rom_bank;
    assert((r & 0x1F != 0 ==> ((r & 0x1F) | ((value & 0x03) << 5u8)) & 0x1F != 0) && ((((r & 0x60)
        | (value & 0x1F)) & 0xE0) | 1) & 0x1F != 0) by (bit_vector);
}

/// On an MBC1 cartridge in ROM banking mode whose upper bank bits are clear,
/// writing a bank number `n` (low 5 bits non-zero) to `0x2000-0x3FFF` makes
/// `0x4000 + k` read byte `n * 0x4000 + k` of the image, or `0xFF` past its end.
pub proof fn lemma_mbc1_select_then_read(cart: Cartridge, addr: u16, value: u8, k: u16)
    requires
        cart.mbc_type is MBC1,
        cart.rom_bank & 0x60 == 0,
        0x2000 <= addr <= 0x3FFF,
        value & 0x1F != 0,
        k < 0x4000,
    ensures
        cart.written(addr, value).byte((0x4000 + k) as u16) == if (value & 0x1F) * 0x4000 + k
            < cart.data.len() {
            cart.data@[(value & 0x1F) * 0x4000 + k]
        } else {
            0xFF
        },
{
    let r = cart.rom_bank;
    assert(r & 0x60 == 0 && value & 0x1F != 0 ==> ((r & 0x60) | (value & 0x1F)) & 0x1F == value
        & 0x1F) by (bit_vector);
}

/// On an MBC3 cartridge, writing `value` to `0x2000-0x3FFF` selects ROM bank
/// `n`, its low 7 bits (bank 1 for 0): `0x4000 + k` then reads byte
/// `n * 0x4000 + k` of the image, or `0xFF` past its end.
pub proof fn lemma_mbc3_select_then_read(cart: Cartridge, addr: u16, value: u8, k: u16)
    requires
        cart.mbc_type is MBC3,
        0x2000 <= addr <= 0x3FFF,
        k < 0x4000,
    ensures
        ({
            let n: int = if value & 0x7F == 0 { 1 } else { (value & 0x7F) as int };
            cart.written(addr, value).byte((0x4000 + k) as u16) == if n * 0x4000 + k
                < cart.data.len() {
                cart.data@[n * 0x4000 + k]
            } else {
                0xFF
            }
        }),
{
    lemma_bank_number_masks(value);
}

/// On an MBC2 cartridge, writing `value` anywhere in `0x0000-0x3FFF` selects
/// ROM bank `n`, its low 4 bits (bank 1 for 0): `0x4000 + k` then reads byte
/// `n * 0x4000 + k` of the image, or `0xFF` past its end.
pub proof fn lemma_mbc2_select_then_read(cart: Cartridge, addr: u16, value: u8, k: u16)
    requires
        cart.mbc_type is MBC2,
        addr <= 0x3FFF,
        k < 0x4000,
    ensures
        ({
            let n: int = if value & 0x0F == 0 { 1 } else { (value & 0x0F) as int };
            cart.written(addr, value).byte((0x4000 + k) as u16) == if n * 0x4000 + k
                < cart.data.len() {
                cart.data@[n * 0x4000 + k]
            } else {
                0xFF
            }
        }),
{
    lemma_bank_number_masks(value);
}

/// Bank numbers cut to 7 or 4 bits keep their value under the same mask.
proof fn lemma_bank_number_masks(value: u8)
    by (bit_vector)
    ensures
        (value & 0x7F) & 0x7F == value & 0x7F,
        1u8 & 0x7F == 1,
        (value & 0x0F) & 0x0F == value & 0x0F,
        1u8 & 0x0F == 1,
{
}

} // verus!
