use rustyboy::bus::Bus;
use rustyboy::cartridge::Cartridge;

fn bus_with_rom() -> Bus {
    let mut data = vec![0u8; 0x8000];
    data[0x0100] = 0x12;
    data[0x4000] = 0x34;
    let mut cart = Cartridge::new();
    cart.load_bytes(data);
    Bus::new(cart, 44100)
}

#[test]
fn bus_power_up() {
    let bus = bus_with_rom();
    assert_eq!(bus.read_byte(0x0100), 0x12);
    assert_eq!(bus.read_byte(0x4000), 0x34);
    assert_eq!(bus.read_byte(0xC000), 0xFF);
    assert_eq!(bus.read_byte(0xFF80), 0xFF);
    assert_eq!(bus.read_byte(0xFFFF), 0);
    assert_eq!(bus.read_byte(0xFF0F), 0);
    assert_eq!(bus.read_byte(0xFF00), 0xFF);
    assert_eq!(bus.read_byte(0xFEA0), 0);
    assert_eq!(bus.read_byte(0xFF40), 0x91);
    assert!(bus.serial_output.is_empty());
}

#[test]
fn bus_echo_ram() {
    let mut bus = bus_with_rom();
    bus.write_byte(0xC123, 0x5A);
    assert_eq!(bus.read_byte(0xC123), 0x5A);
    assert_eq!(bus.read_byte(0xE123), 0x5A);
    bus.write_byte(0xE200, 0xA5);
    assert_eq!(bus.read_byte(0xC200), 0xA5);
    assert_eq!(bus.read_byte(0xE200), 0xA5);
    // beyond the echo area: the last mirrored byte
    bus.write_byte(0xDDFF, 0x77);
    assert_eq!(bus.read_byte(0xFDFF), 0x77);
}

#[test]
fn bus_high_ram_and_interrupt_registers() {
    let mut bus = bus_with_rom();
    bus.write_byte(0xFF80, 0x11);
    bus.write_byte(0xFFFE, 0x22);
    assert_eq!(bus.read_byte(0xFF80), 0x11);
    assert_eq!(bus.read_byte(0xFFFE), 0x22);
    bus.write_byte(0xFFFF, 0xFF);
    assert_eq!(bus.read_byte(0xFFFF), 0x1F);
    bus.write_byte(0xFF0F, 0xE3);
    assert_eq!(bus.read_byte(0xFF0F), 0x03);
}

#[test]
fn bus_word_is_little_endian() {
    let mut bus = bus_with_rom();
    bus.write_word(0xC000, 0x1234);
    assert_eq!(bus.read_byte(0xC000), 0x34);
    assert_eq!(bus.read_byte(0xC001), 0x12);
    assert_eq!(bus.read_word(0xC000), 0x1234);
    bus.write_word(0xFF90, 0xBEEF);
    assert_eq!(bus.read_word(0xFF90), 0xBEEF);
    assert_eq!(bus.read_word(0x00FF), 0x1200);
}

#[test]
fn bus_oam_dma() {
    let mut bus = bus_with_rom();
    for i in 0..160u16 {
        bus.write_byte(0xC000 + i, (i as u8).wrapping_mul(3));
    }
    bus.write_byte(0xFF46, 0xC0);
    for i in 0..160usize {
        assert_eq!(bus.ppu.oam[i], (i as u8).wrapping_mul(3));
    }
    assert_eq!(bus.read_byte(0xFE05), 15);
}

#[test]
fn bus_serial_output() {
    let mut bus = bus_with_rom();
    bus.write_byte(0xFF01, b'O');
    bus.write_byte(0xFF02, 0x81);
    bus.write_byte(0xFF01, b'K');
    bus.write_byte(0xFF02, 0x81);
    assert_eq!(bus.serial_output, b"OK".to_vec());
    assert_eq!(bus.read_byte(0xFF02), 0x01);
    bus.serial_mut().data = 0x99;
    assert_eq!(bus.read_byte(0xFF01), 0x99);
}

#[test]
fn bus_routes_units() {
    let mut bus = bus_with_rom();
    bus.write_byte(0xFF06, 0x42);
    assert_eq!(bus.read_byte(0xFF06), 0x42);
    bus.write_byte(0xFF26, 0x80);
    assert_eq!(bus.read_byte(0xFF26) & 0x80, 0x80);
    bus.write_byte(0xFF24, 0x77);
    assert_eq!(bus.read_byte(0xFF24), 0x77);
    bus.write_byte(0xFF42, 0x05);
    assert_eq!(bus.read_byte(0xFF42), 0x05);
    bus.write_byte(0x8010, 0x66);
    assert_eq!(bus.read_byte(0x8010), 0x66);
    // the ROM ignores writes on a ROM-only cartridge
    bus.write_byte(0x2000, 0x05);
    assert_eq!(bus.read_byte(0x4000), 0x34);
}
