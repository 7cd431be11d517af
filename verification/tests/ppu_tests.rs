use rustyboy::ppu::{HBLANK, OAM_SCAN, PIXEL_TRANSFER, PPU, VBLANK};

#[test]
fn ppu_power_up_registers() {
    let ppu = PPU::new();
    assert_eq!(ppu.read_byte(0xFF40), 0x91);
    assert_eq!(ppu.read_byte(0xFF41), 0x85);
    assert_eq!(ppu.read_byte(0xFF44), 0);
    assert_eq!(ppu.read_byte(0xFF47), 0xFC);
    assert_eq!(ppu.read_byte(0xFF48), 0xFF);
    assert_eq!(ppu.read_byte(0x8000), 0xFF);
    assert_eq!(ppu.read_byte(0xFE00), 0xFF);
    assert_eq!(ppu.frame_buffer.len(), 160 * 144);
}

#[test]
fn ppu_write_then_read() {
    let mut ppu = PPU::new();
    ppu.write_byte(0x8123, 0x42);
    assert_eq!(ppu.read_byte(0x8123), 0x42);
    ppu.write_byte(0xFE10, 0x24);
    assert_eq!(ppu.read_byte(0xFE10), 0x24);
    ppu.write_byte(0xFF41, 0xFF);
    assert_eq!(ppu.read_byte(0xFF41), 0x7C | ppu.mode);
    ppu.write_byte(0xFF48, 0xFF);
    assert_eq!(ppu.read_byte(0xFF48), 0xFC);
    ppu.write_byte(0xFF49, 0x1B);
    assert_eq!(ppu.read_byte(0xFF49), 0x18);
    ppu.write_byte(0xFF42, 0x10);
    assert_eq!(ppu.read_byte(0xFF42), 0x10);
    ppu.write_byte(0xFF4B, 0x07);
    assert_eq!(ppu.read_byte(0xFF4B), 0x07);
}

#[test]
fn ppu_locks_memory_while_drawing() {
    let mut ppu = PPU::new();
    ppu.write_byte(0x8000, 0x11);
    ppu.mode = PIXEL_TRANSFER;
    assert_eq!(ppu.read_byte(0x8000), 0xFF);
    ppu.write_byte(0x8000, 0x22);
    ppu.mode = OAM_SCAN;
    // OAM is locked during OAM scan, video RAM is not
    assert_eq!(ppu.read_byte(0x8000), 0x11);
    ppu.write_byte(0xFE00, 0x33);
    assert_eq!(ppu.read_byte(0xFE00), 0xFF);
    ppu.mode = HBLANK;
    assert_eq!(ppu.read_byte(0xFE00), 0xFF);
    ppu.write_byte(0xFE00, 0x33);
    assert_eq!(ppu.read_byte(0xFE00), 0x33);
}

#[test]
fn ppu_modes_over_a_line() {
    let mut ppu = PPU::new();
    assert_eq!(ppu.update_ly(80), 0);
    assert_eq!(ppu.mode, OAM_SCAN);
    assert_eq!(ppu.ly_cycles, 80);
    ppu.update_ly(4);
    assert_eq!(ppu.mode, PIXEL_TRANSFER);
    ppu.update_ly(200);
    ppu.update_ly(4);
    assert_eq!(ppu.mode, HBLANK);
    // 80 + 4 + 200 + 4 = 288 cycles; 168 more end the line
    ppu.update_ly(168);
    assert_eq!(ppu.ly, 1);
    assert_eq!(ppu.ly_cycles, 0);
    assert_eq!(ppu.read_byte(0xFF44), 1);
}

#[test]
fn ppu_requests_vblank_once_per_frame() {
    let mut ppu = PPU::new();
    let mut vblanks = 0;
    let mut total: u32 = 0;
    while total < 154 * 456 {
        let requests = ppu.update_ly(228);
        if requests & 0x01 != 0 {
            vblanks += 1;
            assert_eq!(ppu.ly, 144);
        }
        total += 228;
    }
    assert_eq!(vblanks, 1);
    assert_eq!(ppu.ly, 0);
    ppu.update_ly(4);
    assert_eq!(ppu.mode, OAM_SCAN);
    let mut ppu = PPU::new();
    ppu.ly = 150;
    ppu.update_ly(4);
    assert_eq!(ppu.mode, VBLANK);
}

#[test]
fn ppu_coincidence_sets_stat_bit() {
    let mut ppu = PPU::new();
    ppu.write_byte(0xFF45, 1);
    ppu.write_byte(0xFF41, 0x40);
    let requests = ppu.update_ly(228) | ppu.update_ly(228);
    assert_eq!(ppu.ly, 1);
    assert_eq!(ppu.stat & 0x04, 0x04);
    assert_eq!(requests & 0x02, 0x02);
    ppu.update_ly(228);
    ppu.update_ly(228);
    assert_eq!(ppu.ly, 2);
    assert_eq!(ppu.stat & 0x04, 0);
}

#[test]
fn ppu_renders_background_tiles() {
    let mut ppu = PPU::new();
    // power-up video RAM: map entries 0xFF point at tile 255, all bits set:
    // colour 3, which palette 0xFC shows as black
    ppu.render_scanline();
    assert!(ppu.frame_buffer[..160].iter().all(|&p| p == 0xFF000000));
    assert_eq!(ppu.frame_buffer[160], 0x00FFFFFF);

    // clear video RAM: tile 0, colour 0, white
    for b in ppu.video_ram.iter_mut() {
        *b = 0;
    }
    ppu.render_scanline();
    assert!(ppu.frame_buffer[..160].iter().all(|&p| p == 0xFFFFFFFF));

    // one tile row: low byte 0xF0, high byte 0x0F gives colours 1,1,1,1,2,2,2,2
    ppu.video_ram[0] = 0xF0;
    ppu.video_ram[1] = 0x0F;
    ppu.write_byte(0xFF47, 0xE4);
    ppu.render_scanline();
    assert_eq!(ppu.frame_buffer[0], 0xFFAAAAAA);
    assert_eq!(ppu.frame_buffer[3], 0xFFAAAAAA);
    assert_eq!(ppu.frame_buffer[4], 0xFF555555);
    assert_eq!(ppu.frame_buffer[7], 0xFF555555);
}

#[test]
fn ppu_lcd_off_draws_white() {
    let mut ppu = PPU::new();
    ppu.write_byte(0xFF40, 0x00);
    ppu.render_scanline();
    assert!(ppu.frame_buffer[..160].iter().all(|&p| p == 0xFFFFFFFF));
}

#[test]
fn ppu_line_timing_wraps_after_line_153() {
    let mut ppu = PPU::new();
    ppu.ly = 153;
    ppu.ly_cycles = 400;
    ppu.update_ly(100);
    assert_eq!(ppu.ly, 0);
    assert_eq!(ppu.ly_cycles, 44);
    assert_eq!(ppu.window_line_counter, 0);
    ppu.update_ly(200);
    assert_eq!(ppu.ly, 0);
    assert_eq!(ppu.ly_cycles, 244);
}
