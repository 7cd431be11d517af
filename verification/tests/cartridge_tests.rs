use rustyboy::cartridge::{Cartridge, MBCType};

fn rom_image(kind: u8, len: usize) -> Vec<u8> {
    let mut data = vec![0u8; len];
    for (i, b) in b"TETRIS".iter().enumerate() {
        data[0x134 + i] = *b;
    }
    data[0x147] = kind;
    data[0x148] = 0x01;
    data[0x149] = 0x02;
    data[0x14C] = 123;
    data
}

fn expected_checksum(data: &[u8]) -> u8 {
    let mut x: u8 = 0;
    for b in &data[0x134..=0x14C] {
        x = x.wrapping_sub(*b).wrapping_sub(1);
    }
    x
}

#[test]
fn blank_cartridge() {
    let cart = Cartridge::new();
    assert_eq!(cart.title, "");
    assert_eq!(cart.ctype, "UNKNOWN");
    assert_eq!(cart.rom_size, "UNKNOWN");
    assert_eq!(cart.ram_size, "UNKNOWN");
    assert_eq!(cart.rom_version, "");
    assert!(cart.data.is_empty());
    assert_eq!(cart.checksum, 0);
    assert!(matches!(cart.mbc_type, MBCType::RomOnly));
    assert_eq!(cart.rom_bank, 1);
    assert_eq!(cart.ram_bank, 0);
    assert_eq!(cart.banking_mode, 0);
    let default = Cartridge::default();
    assert_eq!(default.ctype, "UNKNOWN");
}

#[test]
fn load_reads_header() {
    let data = rom_image(0x01, 0x8000);
    let checksum = expected_checksum(&data);
    let mut cart = Cartridge::new();
    cart.load_bytes(data);
    let mut title = String::from("TETRIS");
    for _ in 0..10 {
        title.push('\0');
    }
    assert_eq!(cart.title, title);
    assert_eq!(cart.ctype, "MBC1");
    assert_eq!(cart.rom_size, "64 KByte");
    assert_eq!(cart.ram_size, "8 KB");
    assert_eq!(cart.rom_version, "123");
    assert_eq!(cart.checksum, checksum);
    assert!(matches!(cart.mbc_type, MBCType::MBC1));
}

#[test]
fn load_version_and_unknown_codes() {
    let mut data = rom_image(0x04, 0x150);
    data[0x148] = 0x99;
    data[0x149] = 0x99;
    data[0x14C] = 7;
    let mut cart = Cartridge::new();
    cart.load_bytes(data);
    assert_eq!(cart.ctype, "");
    assert_eq!(cart.rom_size, "0");
    assert_eq!(cart.ram_size, "0");
    assert_eq!(cart.rom_version, "7");
    assert!(matches!(cart.mbc_type, MBCType::RomOnly));
}

#[test]
fn header_checksum_example() {
    // all header bytes zero: 25 subtractions of 1
    let data = vec![0u8; 0x150];
    let mut cart = Cartridge::new();
    cart.load_bytes(data);
    assert_eq!(cart.checksum, 0u8.wrapping_sub(25));
    assert_eq!(cart.rom_version, "0");
    assert_eq!(cart.ctype, "ROM ONLY");
}

#[test]
fn rom_only_reads_image_and_ignores_writes() {
    let mut data = rom_image(0x00, 0x8000);
    data[0x4123] = 0x5A;
    let mut cart = Cartridge::new();
    cart.load_bytes(data);
    assert_eq!(cart.read_byte(0x4123), 0x5A);
    cart.write_byte(0x2000, 0x05);
    assert_eq!(cart.rom_bank, 1);
    assert_eq!(cart.read_byte(0x4123), 0x5A);
}

#[test]
fn mbc1_select_then_read() {
    let mut data = rom_image(0x01, 0x4000 * 4);
    data[0x4000 * 3 + 0x10] = 0x33;
    data[0x4000 + 0x10] = 0x11;
    let mut cart = Cartridge::new();
    cart.load_bytes(data);
    assert_eq!(cart.read_byte(0x4010), 0x11);
    cart.write_byte(0x2000, 0x03);
    assert_eq!(cart.rom_bank, 3);
    assert_eq!(cart.read_byte(0x4010), 0x33);
    // bank 0 selects bank 1
    cart.write_byte(0x2000, 0x00);
    assert_eq!(cart.rom_bank, 1);
    assert_eq!(cart.read_byte(0x4010), 0x11);
    // a bank past the image reads 0xFF
    cart.write_byte(0x3FFF, 0x1F);
    assert_eq!(cart.read_byte(0x4010), 0xFF);
    // above the ROM area
    assert_eq!(cart.read_byte(0xA000), 0xFF);
}

#[test]
fn mbc1_upper_bits_and_mode() {
    let mut cart = Cartridge::new();
    cart.load_bytes(rom_image(0x01, 0x8000));
    cart.write_byte(0x4000, 0x02);
    assert_eq!(cart.rom_bank, 0x41);
    cart.write_byte(0x6000, 0x01);
    assert_eq!(cart.banking_mode, 1);
    cart.write_byte(0x4000, 0x03);
    assert_eq!(cart.ram_bank, 0x03);
    assert_eq!(cart.rom_bank, 0x41);
    cart.write_byte(0x2000, 0x20);
    // low 5 bits zero: becomes 1, upper bits kept
    assert_eq!(cart.rom_bank, 0x41);
}

#[test]
fn mbc2_and_mbc3_banks() {
    let mut cart = Cartridge::new();
    cart.load_bytes(rom_image(0x05, 0x8000));
    cart.write_byte(0x1000, 0xF3);
    assert_eq!(cart.rom_bank, 0x03);
    cart.write_byte(0x0000, 0x10);
    assert_eq!(cart.rom_bank, 1);

    let mut cart = Cartridge::new();
    cart.load_bytes(rom_image(0x11, 0x8000));
    assert!(matches!(cart.mbc_type, MBCType::MBC3));
    cart.write_byte(0x2000, 0xFF);
    assert_eq!(cart.rom_bank, 0x7F);
    cart.write_byte(0x2000, 0x80);
    assert_eq!(cart.rom_bank, 1);
    cart.write_byte(0x4000, 0x0E);
    assert_eq!(cart.ram_bank, 0x02);
}

#[test]
fn checksum_status_compares_header_byte() {
    let mut data = rom_image(0x00, 0x8000);
    data[0x14D] = expected_checksum(&data);
    let mut cart = Cartridge::new();
    cart.load_bytes(data.clone());
    assert_eq!(cart.checksum_status(), "PASSED");
    data[0x14D] = data[0x14D].wrapping_add(1);
    let mut cart = Cartridge::new();
    cart.load_bytes(data);
    assert_eq!(cart.checksum_status(), "FAILED");
}
