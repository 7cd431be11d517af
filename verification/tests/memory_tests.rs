use rustyboy::joypad::Joypad;
use rustyboy::mmu::Mmu;
use rustyboy::serial::Serial;
use rustyboy::timer::Timer;

#[test]
fn mmu_starts_zeroed() {
    let mmu = Mmu::new();
    assert_eq!(mmu.read_byte(0), 0);
    assert_eq!(mmu.read_byte(0x7FFF), 0);
    assert_eq!(mmu.read_word(0x1234), 0);
}

#[test]
fn mmu_word_is_big_endian() {
    let mut mmu = Mmu::new();
    mmu.working_ram[0x100] = 0x12;
    mmu.working_ram[0x101] = 0x34;
    assert_eq!(mmu.read_word(0x100), 0x1234);
}

#[test]
fn mmu_write_then_read() {
    let mut mmu = Mmu::new();
    mmu.write_byte(0x7FFF, 0xAB);
    assert_eq!(mmu.read_byte(0x7FFF), 0xAB);
    assert_eq!(mmu.read_byte(0x7FFE), 0);
    mmu.write_word(0x2000, 0xCAFE);
    assert_eq!(mmu.read_word(0x2000), 0xCAFE);
    assert_eq!(mmu.read_byte(0x2000), 0xCA);
    assert_eq!(mmu.read_byte(0x2001), 0xFE);
}

#[test]
fn timer_power_up() {
    let timer = Timer::new();
    assert_eq!(timer.read_byte(0xFF04), 0);
    assert_eq!(timer.read_byte(0xFF05), 0);
    assert_eq!(timer.read_byte(0xFF06), 0);
    assert_eq!(timer.read_byte(0xFF07), 0);
    assert!(!timer.interrupt);
}

#[test]
fn timer_div_counts_machine_cycles() {
    let mut timer = Timer::new();
    // 64 machine cycles are 256 clock cycles: DIV moves by one.
    timer.update(64);
    assert_eq!(timer.div_counter, 256);
    assert_eq!(timer.read_byte(0xFF04), 1);
    assert_eq!(timer.read_byte(0xFF05), 0);
}

#[test]
fn timer_fast_rate_counts_every_four_cycles() {
    let mut timer = Timer::new();
    // enabled, bit 3 of the counter: 16 clock cycles per increment
    timer.write_byte(0xFF07, 0x05);
    timer.update(40);
    assert_eq!(timer.read_byte(0xFF05), 10);
}

#[test]
fn timer_overflow_reloads_and_interrupts() {
    let mut timer = Timer::new();
    timer.write_byte(0xFF06, 0xAB);
    timer.write_byte(0xFF05, 0xFF);
    timer.write_byte(0xFF07, 0x05);
    timer.update(3);
    assert_eq!(timer.read_byte(0xFF05), 0xFF);
    assert!(!timer.interrupt);
    // the fourth cycle overflows; the reload 4 clock cycles later falls in the same cycle
    timer.update(1);
    assert_eq!(timer.read_byte(0xFF05), 0xAB);
    assert!(timer.interrupt);
    assert_eq!(timer.tima_reload_delay, None);
}

#[test]
fn timer_updates_compose() {
    let mut split = Timer::new();
    split.write_byte(0xFF07, 0x06);
    let mut whole = Timer::new();
    whole.write_byte(0xFF07, 0x06);
    split.update(100);
    split.update(155);
    whole.update(255);
    assert_eq!(split.div_counter, whole.div_counter);
    assert_eq!(split.tima, whole.tima);
    assert_eq!(split.div, whole.div);
}

#[test]
fn timer_write_then_read() {
    let mut timer = Timer::new();
    timer.update(200);
    timer.write_byte(0xFF04, 0x55);
    assert_eq!(timer.read_byte(0xFF04), 0);
    assert_eq!(timer.div_counter, 0);
    timer.write_byte(0xFF05, 0x42);
    assert_eq!(timer.read_byte(0xFF05), 0x42);
    timer.write_byte(0xFF06, 0x99);
    assert_eq!(timer.read_byte(0xFF06), 0x99);
    timer.write_byte(0xFF07, 0xFF);
    assert_eq!(timer.read_byte(0xFF07), 0x07);
}

#[test]
fn timer_div_reset_on_falling_edge_counts() {
    let mut timer = Timer::new();
    timer.write_byte(0xFF07, 0x05);
    // counter 8: bit 3 set
    timer.update(2);
    let tima = timer.read_byte(0xFF05);
    timer.write_byte(0xFF04, 0);
    assert_eq!(timer.read_byte(0xFF05), tima + 1);
}

#[test]
fn serial_write_and_send() {
    let mut serial = Serial::new();
    assert_eq!(serial.write_byte(0xFF01, b'A'), None);
    assert_eq!(serial.read_byte(0xFF01), b'A');
    assert_eq!(serial.write_byte(0xFF02, 0x81), Some(b'A'));
    assert_eq!(serial.read_byte(0xFF02), 0x01);
    assert_eq!(serial.write_byte(0xFF02, 0x80), None);
    assert_eq!(serial.read_byte(0xFF02), 0x80);
}

#[test]
fn serial_never_interrupts() {
    let mut serial = Serial::new();
    serial.write_byte(0xFF01, 0x12);
    serial.write_byte(0xFF02, 0x81);
    assert!(!serial.transfer_in_progress);
    assert!(!serial.step(255));
}

#[test]
fn serial_step_finishes_transfer() {
    let mut serial = Serial::new();
    serial.transfer_in_progress = true;
    serial.transfer_cycles = 10;
    serial.control = 0x81;
    assert!(!serial.step(4));
    assert_eq!(serial.transfer_cycles, 6);
    assert!(serial.step(8));
    assert!(!serial.transfer_in_progress);
    assert_eq!(serial.control, 0);
}

#[test]
fn joypad_reads() {
    let mut joypad = Joypad::new();
    assert_eq!(joypad.read_byte(0xFF01), 0xFF);
    // nothing selected: low nibble reads 0xF
    assert_eq!(joypad.read_byte(0xFF00), 0x3F);
    // select the action keys with A pressed
    joypad.action_state = 0x0E;
    joypad.write_byte(0xFF00, 0x10);
    assert_eq!(joypad.read_byte(0xFF00), 0x1E);
    // select the direction keys with down pressed
    joypad.direction_state = 0x07;
    joypad.write_byte(0xFF00, 0x20);
    assert_eq!(joypad.read_byte(0xFF00), 0x27);
    // both: ANDed
    joypad.write_byte(0xFF00, 0x00);
    assert_eq!(joypad.read_byte(0xFF00), 0x06);
}

#[test]
fn joypad_ignores_other_addresses() {
    let mut joypad = Joypad::new();
    joypad.write_byte(0xFF01, 0x00);
    assert_eq!(joypad.select, 0xFF);
}

#[test]
fn timer_rates_follow_tac() {
    // TAC 4: 4096 Hz, one increment per 256 machine cycles
    let mut timer = Timer::new();
    timer.write_byte(0xFF07, 0x04);
    timer.update(255);
    assert_eq!(timer.read_byte(0xFF05), 0);
    timer.update(1);
    assert_eq!(timer.read_byte(0xFF05), 1);
    // TAC 6: 65536 Hz, every 16 machine cycles
    let mut timer = Timer::new();
    timer.write_byte(0xFF07, 0x06);
    timer.update(160);
    assert_eq!(timer.read_byte(0xFF05), 10);
    // TAC 7: 16384 Hz, every 64 machine cycles
    let mut timer = Timer::new();
    timer.write_byte(0xFF07, 0x07);
    timer.update(200);
    assert_eq!(timer.read_byte(0xFF05), 3);
    // disabled: TIMA stays
    let mut timer = Timer::new();
    timer.write_byte(0xFF07, 0x03);
    timer.update(255);
    assert_eq!(timer.read_byte(0xFF05), 0);
}
