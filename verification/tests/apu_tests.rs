use blip_buf::BlipBuf;
use rustyboy::apu::{Apu, BlipEvent, CLOCKS_PER_SECOND, OUTPUT_SAMPLE_COUNT};

fn sample_buffer(sample_rate: u32) -> BlipBuf {
    let mut blip = BlipBuf::new(OUTPUT_SAMPLE_COUNT as u32 + 1);
    let _ = blip.set_rates(CLOCKS_PER_SECOND as f64, sample_rate as f64);
    blip
}

fn replay(events: &mut Vec<BlipEvent>, blip: &mut BlipBuf) {
    for event in events.drain(..) {
        match event {
            BlipEvent::Delta(time, delta) => {
                let _ = blip.add_delta(time, delta);
            }
            BlipEvent::EndFrame(time) => {
                let _ = blip.end_frame(time);
            }
        }
    }
}

/// Closes the frame and mixes the four channels into interleaved stereo
/// samples, as the emulator's audio output does.
fn end_frame(apu: &mut Apu, blips: &mut [BlipBuf; 4]) -> Vec<f32> {
    apu.finish_frame();
    replay(&mut apu.ch1_output, &mut blips[0]);
    replay(&mut apu.ch2_output, &mut blips[1]);
    replay(&mut apu.ch3_output, &mut blips[2]);
    replay(&mut apu.ch4_output, &mut blips[3]);

    let sample_count = blips[0].samples_avail() as usize;
    let left_vol = (apu.volume_left as f32 / 7.0) * (1.0 / 15.0) * 0.25;
    let right_vol = (apu.volume_right as f32 / 7.0) * (1.0 / 15.0) * 0.25;
    let mut left = vec![0f32; sample_count];
    let mut right = vec![0f32; sample_count];
    let mut buf = vec![0i16; sample_count];
    for channel in 1..=4u8 {
        let (to_left, to_right) = apu.output_routing(channel);
        let scale: f32 = if channel == 3 { 4.0 } else { 1.0 };
        let count = blips[channel as usize - 1].read_samples(&mut buf, false);
        for (i, &v) in buf[..count].iter().enumerate() {
            if to_left {
                left[i] += (v as f32 / scale) * left_vol;
            }
            if to_right {
                right[i] += (v as f32 / scale) * right_vol;
            }
        }
    }
    let mut interleaved = Vec::with_capacity(sample_count * 2);
    for i in 0..sample_count {
        interleaved.push(left[i]);
        interleaved.push(right[i]);
    }
    interleaved
}

#[test]
fn nr52_power_on_off() {
    let mut apu = Apu::new(256);

    // power on
    apu.write_byte(0xFF26, 0x80);
    assert_eq!(apu.read_byte(0xFF26) & 0x80, 0x80);

    // write nr50/nr51 while powered on
    apu.write_byte(0xFF24, 0x77);
    assert_eq!(apu.read_byte(0xFF24), 0x77);

    // power off should zero registers
    apu.write_byte(0xFF26, 0x00);
    assert_eq!(apu.read_byte(0xFF26) & 0x80, 0x00);
    assert_eq!(apu.read_byte(0xFF24), 0x00);
}

#[test]
fn ch2_trigger_enables_and_produces_output() {
    let mut apu = Apu::new(44100);

    // Power on APU
    apu.write_byte(0xFF26, 0x80);
    // Enable CH2 on both outputs, master volume max
    apu.write_byte(0xFF25, 0x22);
    apu.write_byte(0xFF24, 0x77);
    // NR21: duty 50%, length 0
    apu.write_byte(0xFF16, 0x80);
    // NR22: volume 15, no envelope
    apu.write_byte(0xFF17, 0xF0);
    // NR23: freq low = 0x00
    apu.write_byte(0xFF18, 0x00);
    // NR24: trigger + freq high = 7
    apu.write_byte(0xFF19, 0x87);

    assert!(apu.ch2.active);
}

#[test]
fn end_frame_produces_nonzero_samples() {
    let mut apu = Apu::new(44100);
    let mut blips = [sample_buffer(44100), sample_buffer(44100), sample_buffer(44100), sample_buffer(44100)];

    // Power on APU
    apu.write_byte(0xFF26, 0x80);
    // Enable CH2 on both outputs, master volume max
    apu.write_byte(0xFF25, 0x22);
    apu.write_byte(0xFF24, 0x77);
    // NR21: duty 50%, length 0
    apu.write_byte(0xFF16, 0x80);
    // NR22: volume 15, no envelope
    apu.write_byte(0xFF17, 0xF0);
    // NR23: freq low
    apu.write_byte(0xFF18, 0x00);
    // NR24: trigger + freq high = 6
    apu.write_byte(0xFF19, 0x86);

    // Run enough cycles for one frame
    for _ in 0..17556 {
        apu.step(1);
    }

    let samples = end_frame(&mut apu, &mut blips);
    assert!(!samples.is_empty(), "end_frame should produce samples");
    assert!(
        samples.iter().any(|&s| s != 0.0),
        "end_frame should produce non-zero samples when a channel is active"
    );
}

#[test]
fn blargg_01_register_roundtrip() {
    let masks: [(u16, u8); 22] = [
        (0xFF10, 0x80),
        (0xFF11, 0x3F),
        (0xFF12, 0x00),
        (0xFF13, 0xFF),
        (0xFF14, 0xBF),
        (0xFF15, 0xFF),
        (0xFF16, 0x3F),
        (0xFF17, 0x00),
        (0xFF18, 0xFF),
        (0xFF19, 0xBF),
        (0xFF1A, 0x7F),
        (0xFF1B, 0xFF),
        (0xFF1C, 0x9F),
        (0xFF1D, 0xFF),
        (0xFF1E, 0xBF),
        (0xFF1F, 0xFF),
        (0xFF20, 0xFF),
        (0xFF21, 0x00),
        (0xFF22, 0x00),
        (0xFF23, 0xBF),
        (0xFF24, 0x00),
        (0xFF25, 0x00),
    ];

    let mut apu = Apu::new(44100);
    apu.write_byte(0xFF26, 0x80); // power on

    for d in 0..=255u8 {
        for &(addr, mask) in &masks {
            apu.write_byte(addr, d);
            let expected = mask | d;
            let actual = apu.read_byte(addr);
            assert_eq!(
                actual, expected,
                "Register {:#06X} with d={:#04X}: expected {:#04X}, got {:#04X}",
                addr, d, expected, actual
            );
            // Mute and disable wave between each (like the test does)
            apu.write_byte(0xFF25, 0x00);
            apu.write_byte(0xFF1A, 0x00);
        }
    }
}

#[test]
fn blargg_01_wave_ram_roundtrip() {
    let mut apu = Apu::new(44100);
    apu.write_byte(0xFF26, 0x80);

    for d in 0..=255u8 {
        for addr in 0xFF30..=0xFF3Fu16 {
            apu.write_byte(addr, d);
            let actual = apu.read_byte(addr);
            assert_eq!(
                actual, d,
                "Wave RAM {:#06X} with d={:#04X}: expected {:#04X}, got {:#04X}",
                addr, d, d, actual
            );
        }
    }
}

#[test]
fn apu_powered_off_ignores_writes_and_time() {
    let mut apu = Apu::new(44100);
    apu.write_byte(0xFF24, 0x77);
    apu.write_byte(0xFF12, 0xF0);
    assert_eq!(apu.read_byte(0xFF24), 0x00);
    assert_eq!(apu.read_byte(0xFF12), 0x00);
    apu.step(100);
    assert_eq!(apu.time, 0);
    // wave RAM stays writable while off
    apu.write_byte(0xFF30, 0x12);
    assert_eq!(apu.read_byte(0xFF30), 0x12);
    assert_eq!(apu.read_byte(0xFF26) & 0x80, 0x00);
}

#[test]
fn apu_power_on_resets_sequencer() {
    let mut apu = Apu::new(44100);
    apu.frame_step = 5;
    apu.write_byte(0xFF26, 0x80);
    assert_eq!(apu.frame_step, 0);
    assert_eq!(apu.read_byte(0xFF26), 0xF0);
}

#[test]
fn apu_length_counter_silences_channel() {
    let mut apu = Apu::new(44100);
    apu.write_byte(0xFF26, 0x80);
    apu.write_byte(0xFF17, 0xF0);
    // length 64 - 62 = 2 steps of the 256 Hz length clock
    apu.write_byte(0xFF16, 62);
    apu.write_byte(0xFF19, 0xC0);
    assert!(apu.ch2.active);
    assert_eq!(apu.read_byte(0xFF26) & 0x02, 0x02);
    // three sequencer steps (each 8192 clocks, 2048 machine cycles) cover two length clocks
    for _ in 0..(3 * 2048 / 64) {
        apu.step(64);
    }
    apu.finish_frame();
    assert!(!apu.ch2.active);
    assert_eq!(apu.read_byte(0xFF26) & 0x02, 0x00);
}

#[test]
fn apu_channel_events_follow_the_wave() {
    let mut apu = Apu::new(44100);
    apu.write_byte(0xFF26, 0x80);
    apu.write_byte(0xFF17, 0xF0);
    apu.write_byte(0xFF16, 0x80);
    apu.write_byte(0xFF18, 0x00);
    apu.write_byte(0xFF19, 0x87);
    for _ in 0..100 {
        apu.step(10);
    }
    apu.finish_frame();
    let events = &apu.ch2_output;
    assert!(events.len() > 1);
    assert!(matches!(events.last(), Some(BlipEvent::EndFrame(4000))));
    // a silent channel sends no deltas
    assert_eq!(apu.ch1_output.len(), 1);
    let mut level: i32 = 0;
    for event in events.iter() {
        if let BlipEvent::Delta(_, delta) = event {
            level += delta;
            assert!(level == 15 || level == -15);
        }
    }
    assert_eq!(apu.time, 0);
}

#[test]
fn apu_output_routing_follows_nr51() {
    let mut apu = Apu::new(44100);
    apu.write_byte(0xFF26, 0x80);
    apu.write_byte(0xFF25, 0x21);
    assert_eq!(apu.output_routing(1), (false, true));
    assert_eq!(apu.output_routing(2), (true, false));
    assert_eq!(apu.output_routing(3), (false, false));
    apu.write_byte(0xFF25, 0xFF);
    assert_eq!(apu.output_routing(4), (true, true));
}
