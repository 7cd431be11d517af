use vstd::prelude::*;

verus! {

/// Clock cycles per second.
pub const CLOCKS_PER_SECOND: u32 = 4_194_304;
/// Clock cycles per step of the frame sequencer (512 Hz).
pub const CLOCKS_PER_FRAME: u32 = 8192;
/// Output samples gathered before the channels' time frame is closed.
pub const OUTPUT_SAMPLE_COUNT: u64 = 2000;
/// Largest period or pending delay, in clock cycles, that a channel can have.
pub const MAX_PERIOD: u32 = 0x40_0000;
/// Largest output period (clock cycles per output frame) the unit works with;
/// every sample rate from 1 Hz up gives one below it.
pub const MAX_OUTPUT_PERIOD: u32 = 0xFF00_0000;
/// Largest clock value a channel is run up to.
pub const MAX_CLOCK: u32 = 0xFF80_0000;

/// A change that a channel asks of its band-limited sample buffer.
#[derive(Clone, Copy, Debug)]
pub enum BlipEvent {
    /// The amplitude changes by `delta` at clock `time` of the current frame.
    Delta(u32, i32),
    /// The frame ends after the given number of clocks; a new one begins.
    EndFrame(u32),
}

/// The flush of a silent channel: one delta back to zero at `start`, unless
/// the amplitude is zero already.
pub open spec fn silence_events(last_amp: i32, start: u32) -> Seq<BlipEvent> {
    if last_amp != 0 {
        seq![BlipEvent::Delta(start, (-last_amp) as i32)]
    } else {
        Seq::empty()
    }
}

// ─── Volume Envelope ──────────────────────────────────────────────────────────

/// The volume envelope of a channel (registers `NRx2`).
pub struct VolumeEnvelope {
    pub period: u8,
    pub goes_up: bool,
    pub delay: u8,
    pub initial_volume: u8,
    pub volume: u8,
}

impl VolumeEnvelope {
    pub fn new() -> (envelope: Self)
        ensures
            envelope == (VolumeEnvelope {
                period: 0,
                goes_up: false,
                delay: 0,
                initial_volume: 0,
                volume: 0,
            }),
    {
        Self { period: 0, goes_up: false, delay: 0, initial_volume: 0, volume: 0 }
    }

    /// The value `NRx2` reads as: initial volume in bits 4-7, direction in
    /// bit 3, period in bits 0-2.
    pub open spec fn register(self) -> u8 {
        ((self.initial_volume & 0xF) << 4u8) | (if self.goes_up {
            0x08u8
        } else {
            0u8
        }) | (self.period & 0x07)
    }

    pub fn read(&self) -> (value: u8)
        ensures
            value == self.register(),
    {
        ((self.initial_volume & 0xF) << 4u8) | if self.goes_up {
            0x08
        } else {
            0
        } | (self.period & 0x07)
    }

    /// Takes an `NRx2` value: period from bits 0-2, direction from bit 3,
    /// initial and current volume from bits 4-7.
    pub fn write_nrx2(&mut self, v: u8)
        ensures
            *final(self) == (VolumeEnvelope {
                period: v & 0x07,
                goes_up: v & 0x08 != 0,
                initial_volume: v >> 4u8,
                volume: v >> 4u8,
                ..*old(self)
            }),
    {
        self.period = v & 0x07;
        self.goes_up = v & 0x08 != 0;
        self.initial_volume = v >> 4u8;
        self.volume = self.initial_volume;
    }

    /// Restarts the envelope: delay from the period, volume from the initial volume.
    pub fn trigger(&mut self)
        ensures
            *final(self) == (VolumeEnvelope {
                delay: old(self).period,
                volume: old(self).initial_volume,
                ..*old(self)
            }),
    {
        self.delay = self.period;
        self.volume = self.initial_volume;
    }

    /// One envelope clock: the delay counts down; when it reaches 1 it restarts
    /// from the period and the volume moves one step up (to 15 at most) or down
    /// (to 0 at least). A delay of 0 stops the envelope.
    pub open spec fn stepped(self) -> VolumeEnvelope {
        if self.delay > 1 {
            VolumeEnvelope { delay: (self.delay - 1) as u8, ..self }
        } else if self.delay == 1 {
            let volume = if self.goes_up && self.volume < 15 {
                (self.volume + 1) as u8
            } else if !self.goes_up && self.volume > 0 {
                (self.volume - 1) as u8
            } else {
                self.volume
            };
            VolumeEnvelope { delay: self.period, volume, ..self }
        } else {
            self
        }
    }

    pub fn step(&mut self)
        ensures
            *final(self) == old(self).stepped(),
    {
        if self.delay > 1 {
            self.delay -= 1;
        } else if self.delay == 1 {
            self.delay = self.period;
            if self.goes_up && self.volume < 15 {
                self.volume += 1;
            } else if !self.goes_up && self.volume > 0 {
                self.volume -= 1;
            }
        }
    }
}

// ─── Length Counter ───────────────────────────────────────────────────────────

/// The length counter of a channel: while enabled it counts down and silences
/// the channel at zero.
pub struct LengthCounter {
    pub enabled: bool,
    pub value: u16,
    pub max: u16,
}

impl LengthCounter {
    pub fn new(max: u16) -> (counter: Self)
        ensures
            counter == (LengthCounter { enabled: false, value: 0, max }),
    {
        Self { enabled: false, value: 0, max }
    }

    pub fn is_active(&self) -> (active: bool)
        ensures
            active == (self.value > 0),
    {
        self.value > 0
    }

    /// Whether the last frame-sequencer step was a length step: the step
    /// number is odd.
    pub open spec fn after_length_step(frame_step: u8) -> bool {
        frame_step % 2 == 1
    }

    pub fn extra_step(frame_step: u8) -> (extra: bool)
        ensures
            extra == LengthCounter::after_length_step(frame_step),
    {
        // True when the *last* step was a length step (odd frame_step means
        // the next step is not a length step, so we just did one).
        frame_step % 2 == 1
    }

    /// One length clock: an enabled counter above zero counts down.
    pub open spec fn stepped(self) -> LengthCounter {
        if self.enabled && self.value > 0 {
            LengthCounter { value: (self.value - 1) as u16, ..self }
        } else {
            self
        }
    }

    /// Enables or disables counting; enabling right after a length step
    /// clocks the counter once more.
    pub open spec fn enabled_with(self, enable: bool, frame_step: u8) -> LengthCounter {
        let counter = LengthCounter { enabled: enable, ..self };
        if !self.enabled && enable && LengthCounter::after_length_step(frame_step) {
            counter.stepped()
        } else {
            counter
        }
    }

    pub fn enable(&mut self, enable: bool, frame_step: u8)
        ensures
            *final(self) == old(self).enabled_with(enable, frame_step),
    {
        let was_enabled = self.enabled;
        self.enabled = enable;
        if !was_enabled && self.enabled && Self::extra_step(frame_step) {
            self.step();
        }
    }

    /// Loads the counter with its maximum less `minus_value`.
    pub fn set(&mut self, minus_value: u8)
        requires
            minus_value <= old(self).max,
        ensures
            *final(self) == (LengthCounter { value: (old(self).max - minus_value) as u16, ..*old(self) }),
    {
        self.value = self.max - minus_value as u16;
    }

    /// On a trigger, an expired counter reloads with its maximum (clocked once
    /// more right after a length step).
    pub open spec fn triggered(self, frame_step: u8) -> LengthCounter {
        if self.value == 0 {
            let counter = LengthCounter { value: self.max, ..self };
            if LengthCounter::after_length_step(frame_step) {
                counter.stepped()
            } else {
                counter
            }
        } else {
            self
        }
    }

    pub fn trigger(&mut self, frame_step: u8)
        ensures
            *final(self) == old(self).triggered(frame_step),
    {
        if self.value == 0 {
            self.value = self.max;
            if Self::extra_step(frame_step) {
                self.step();
            }
        }
    }

    pub fn step(&mut self)
        ensures
            *final(self) == old(self).stepped(),
    {
        if self.enabled && self.value > 0 {
            self.value -= 1;
        }
    }
}

// ─── Square Channel ───────────────────────────────────────────────────────────

/// The level (+1 or -1) of step `phase` (0-7) of duty pattern `duty`:
/// 12.5%, 25%, 50% and 75% high.
pub open spec fn duty_level(duty: u8, phase: u8) -> int {
    if duty == 0 {
        if phase == 4 { 1 } else { -1 }
    } else if duty == 1 {
        if phase == 4 || phase == 5 { 1 } else { -1 }
    } else if duty == 2 {
        if 2 <= phase <= 5 { 1 } else { -1 }
    } else {
        if phase == 4 || phase == 5 { -1 } else { 1 }
    }
}

fn duty_table_level(duty: u8, phase: u8) -> (level: i32)
    requires
        duty < 4,
        phase < 8,
    ensures
        level == duty_level(duty, phase),
{
    let pattern: [i32; 8] = match duty {
        0 => [-1, -1, -1, -1, 1, -1, -1, -1],  // 12.5%
        1 => [-1, -1, -1, -1, 1, 1, -1, -1],  // 25%
        2 => [-1, -1, 1, 1, 1, 1, -1, -1],  // 50%
        _ => [1, 1, 1, 1, -1, -1, 1, 1],  // 75%
    };
    pattern[phase as usize]
}

/// A square-wave channel (channels 1 and 2; only channel 1 has the sweep).
pub struct SquareChannel {
    pub active: bool,
    pub dac_enabled: bool,
    pub duty: u8,
    pub phase: u8,
    pub length: LengthCounter,
    pub frequency: u16,
    pub period: u32,
    pub last_amp: i32,
    pub delay: u32,
    pub has_sweep: bool,
    pub sweep_enabled: bool,
    pub sweep_frequency: u16,
    pub sweep_delay: u8,
    pub sweep_period: u8,
    pub sweep_shift: u8,
    pub sweep_negate: bool,
    pub sweep_did_negate: bool,
    pub envelope: VolumeEnvelope,
}

/// The period, in clock cycles, of one duty step for an 11-bit frequency
/// value; 0 (stopped) above 2047.
pub open spec fn square_period(frequency: u16) -> u32 {
    if frequency > 2047 {
        0
    } else {
        ((2048 - frequency) * 4) as u32
    }
}

impl SquareChannel {
    /// The bounds its fields keep: duty, phase, volume, sweep shift and
    /// amplitude in range, period and pending delay at most `MAX_PERIOD`.
    pub open spec fn wf(self) -> bool {
        &&& self.duty < 4
        &&& self.phase < 8
        &&& self.envelope.volume <= 15
        &&& self.envelope.initial_volume <= 15
        &&& self.sweep_shift <= 7
        &&& -15 <= self.last_amp <= 15
        &&& self.period <= MAX_PERIOD
        &&& self.delay <= MAX_PERIOD
    }

    pub open spec fn initial(has_sweep: bool) -> SquareChannel {
        SquareChannel {
            active: false,
            dac_enabled: false,
            duty: 0,
            phase: 0,
            length: LengthCounter { enabled: false, value: 0, max: 64 },
            frequency: 0,
            period: 2048,
            last_amp: 0,
            delay: 0,
            has_sweep,
            sweep_enabled: false,
            sweep_frequency: 0,
            sweep_delay: 0,
            sweep_period: 0,
            sweep_shift: 0,
            sweep_negate: false,
            sweep_did_negate: false,
            envelope: VolumeEnvelope {
                period: 0,
                goes_up: false,
                delay: 0,
                initial_volume: 0,
                volume: 0,
            },
        }
    }

    pub fn new(has_sweep: bool) -> (channel: Self)
        ensures
            channel == SquareChannel::initial(has_sweep),
    {
        Self {
            active: false,
            dac_enabled: false,
            duty: 0,
            phase: 0,
            length: LengthCounter::new(64),
            frequency: 0,
            period: 2048,
            last_amp: 0,
            delay: 0,
            has_sweep,
            sweep_enabled: false,
            sweep_frequency: 0,
            sweep_delay: 0,
            sweep_period: 0,
            sweep_shift: 0,
            sweep_negate: false,
            sweep_did_negate: false,
            envelope: VolumeEnvelope::new(),
        }
    }

    pub fn calculate_period(&mut self)
        ensures
            *final(self) == (SquareChannel { period: square_period(old(self).frequency), ..*old(self) }),
    {
        if self.frequency > 2047 {
            self.period = 0;
        } else {
            self.period = (2048 - self.frequency as u32) * 4;
        }
    }

    /// The duty steps from clock `time` up to `end`: at each step the
    /// amplitude (volume times the duty level) is emitted as a delta where it
    /// changes, the phase moves on and time advances by the period. Returns
    /// the channel, the clock after the last step and the deltas.
    pub open spec fn steps_from(self, time: int, end: int) -> (SquareChannel, int, Seq<BlipEvent>)
        decreases if time < end {
            end - time
        } else {
            0
        },
    {
        if time >= end || self.period == 0 {
            (self, time, Seq::empty())
        } else {
            let amp = self.envelope.volume * duty_level(self.duty, self.phase);
            let changed = amp != self.last_amp;
            let next = SquareChannel {
                last_amp: if changed { amp as i32 } else { self.last_amp },
                phase: ((self.phase + 1) as u8) & 7,
                ..self
            };
            let (last, t, rest) = next.steps_from(time + self.period, end);
            let events = if changed {
                seq![BlipEvent::Delta(time as u32, (amp - self.last_amp) as i32)]
            } else {
                Seq::empty()
            };
            (last, t, events + rest)
        }
    }

    /// The channel after running from clock `start` to `end`, and the deltas
    /// it emits. A silent channel (inactive, or with period 0) only flushes its
    /// amplitude to zero; a sounding one plays its duty steps, starting at
    /// `start` plus the pending delay, and keeps the overshoot past `end` as
    /// its new delay.
    pub open spec fn ran(self, start: u32, end: u32) -> (SquareChannel, Seq<BlipEvent>) {
        if !self.active || self.period == 0 {
            if self.last_amp != 0 {
                (SquareChannel { last_amp: 0, delay: 0, ..self }, silence_events(self.last_amp, start))
            } else {
                (self, Seq::empty())
            }
        } else {
            let (last, t, events) = self.steps_from(start + self.delay, end as int);
            (SquareChannel { delay: (t - end) as u32, ..last }, events)
        }
    }

    pub fn run(&mut self, start_time: u32, end_time: u32, out: &mut Vec<BlipEvent>)
        requires
            old(self).wf(),
            start_time <= end_time <= MAX_CLOCK,
        ensures
            *final(self) == old(self).ran(start_time, end_time).0,
            final(out)@ == old(out)@ + old(self).ran(start_time, end_time).1,
            final(self).wf(),
            final(self).length == old(self).length,
    {
        if !self.active || self.period == 0 {
            if self.last_amp != 0 {
                out.push(BlipEvent::Delta(start_time, -self.last_amp));
                self.last_amp = 0;
                self.delay = 0;
            }
            assert(out@ =~= old(out)@ + old(self).ran(start_time, end_time).1);
            return;
        }

        let mut time = start_time + self.delay;
        let vol = self.envelope.volume as i32;
        let ghost total = old(self).steps_from(time as int, end_time as int);

        while time < end_time
            invariant
                old(self).wf(),
                self.wf(),
                self.active && self.period > 0,
                *self == (SquareChannel { phase: self.phase, last_amp: self.last_amp, ..*old(self) }),
                vol == self.envelope.volume,
                time <= end_time + MAX_PERIOD,
                end_time <= MAX_CLOCK,
                self.steps_from(time as int, end_time as int).0 == total.0,
                self.steps_from(time as int, end_time as int).1 == total.1,
                out@ + self.steps_from(time as int, end_time as int).2 == old(out)@ + total.2,
            decreases if time < end_time {
                end_time - time
            } else {
                0
            },
        {
            let ghost before = *self;
            let ghost out_before = out@;
            let amp = vol * duty_table_level(self.duty, self.phase);
            if amp != self.last_amp {
                out.push(BlipEvent::Delta(time, amp - self.last_amp));
                self.last_amp = amp;
            }
            time += self.period;
            self.phase = (self.phase + 1) & 7;
            proof {
                let p = before.phase;
                lemma_counter_wraps(p);
                let step = before.steps_from((time - self.period) as int, end_time as int);
                assert(step.2 == (if before.envelope.volume * duty_level(before.duty, before.phase)
                    != before.last_amp {
                    seq![BlipEvent::Delta((time - self.period) as u32, (amp - before.last_amp) as i32)]
                } else {
                    Seq::empty()
                }) + self.steps_from(time as int, end_time as int).2);
                assert(out@ + self.steps_from(time as int, end_time as int).2 =~= out_before
                    + step.2);
            }
        }
        self.delay = time - end_time;
        assert(out@ =~= old(out)@ + total.2);
    }

    pub fn step_length(&mut self)
        ensures
            *final(self) == (SquareChannel {
                length: old(self).length.stepped(),
                active: old(self).active && old(self).length.stepped().value > 0,
                ..*old(self)
            }),
    {
        self.length.step();
        self.active = self.active && self.length.is_active();
    }

    pub fn step_envelope(&mut self)
        requires
            old(self).wf(),
        ensures
            *final(self) == (SquareChannel { envelope: old(self).envelope.stepped(), ..*old(self) }),
            final(self).wf(),
    {
        self.envelope.step();
    }

    /// The next sweep frequency: the shadow frequency plus (or, when negating,
    /// minus) itself shifted right by the sweep shift, wrapping.
    pub open spec fn swept_frequency(self) -> u16 {
        let offset = self.sweep_frequency >> self.sweep_shift;
        if self.sweep_negate {
            self.sweep_frequency.wrapping_sub(offset)
        } else {
            self.sweep_frequency.wrapping_add(offset)
        }
    }

    /// Computes the next sweep frequency; negating records that it negated, and
    /// a result above 2047 silences the channel.
    pub fn sweep_calculate_frequency(&mut self) -> (new_freq: u16)
        requires
            old(self).sweep_shift <= 7,
        ensures
            new_freq == old(self).swept_frequency(),
            *final(self) == (SquareChannel {
                sweep_did_negate: old(self).sweep_did_negate || old(self).sweep_negate,
                active: old(self).active && new_freq <= 2047,
                ..*old(self)
            }),
    {
        let offset = self.sweep_frequency >> self.sweep_shift;
        let new_freq = if self.sweep_negate {
            self.sweep_did_negate = true;
            self.sweep_frequency.wrapping_sub(offset)
        } else {
            self.sweep_frequency.wrapping_add(offset)
        };
        if new_freq > 2047 {
            self.active = false;
        }
        new_freq
    }

    /// One sweep clock: the delay counts down; when it runs out it restarts
    /// (at 8 when the sweep period is 0) and, with the sweep enabled and a
    /// non-zero period, a computed frequency of at most 2047 with a non-zero
    /// shift becomes the frequency, and the overflow check runs once more.
    pub open spec fn swept(self) -> SquareChannel {
        if !self.has_sweep {
            self
        } else if self.sweep_delay > 1 {
            SquareChannel { sweep_delay: (self.sweep_delay - 1) as u8, ..self }
        } else if self.sweep_period == 0 {
            SquareChannel { sweep_delay: 8, ..self }
        } else {
            let restarted = SquareChannel { sweep_delay: self.sweep_period, ..self };
            if self.sweep_enabled {
                let new_freq = restarted.swept_frequency();
                let first = SquareChannel {
                    sweep_did_negate: restarted.sweep_did_negate || restarted.sweep_negate,
                    active: restarted.active && new_freq <= 2047,
                    ..restarted
                };
                let applied = if new_freq <= 2047 && self.sweep_shift != 0 {
                    SquareChannel {
                        sweep_frequency: new_freq,
                        frequency: new_freq,
                        period: square_period(new_freq),
                        ..first
                    }
                } else {
                    first
                };
                let second = applied.swept_frequency();
                SquareChannel {
                    sweep_did_negate: applied.sweep_did_negate || applied.sweep_negate,
                    active: applied.active && second <= 2047,
                    ..applied
                }
            } else {
                restarted
            }
        }
    }

    pub fn step_sweep(&mut self)
        requires
            old(self).wf(),
        ensures
            *final(self) == old(self).swept(),
            final(self).wf(),
    {
        if !self.has_sweep {
            return;
        }
        if self.sweep_delay > 1 {
            self.sweep_delay -= 1;
        } else {
            if self.sweep_period == 0 {
                self.sweep_delay = 8;
            } else {
                self.sweep_delay = self.sweep_period;
                if self.sweep_enabled {
                    let new_freq = self.sweep_calculate_frequency();
                    if new_freq <= 2047 && self.sweep_shift != 0 {
                        self.sweep_frequency = new_freq;
                        self.frequency = new_freq;
                        self.calculate_period();
                    }
                    // Second overflow check
                    self.sweep_calculate_frequency();
                }
            }
        }
    }
}

// ─── Wave Channel ─────────────────────────────────────────────────────────────

/// The right shift that a wave volume code applies to a sample taken 4 times
/// larger: mute, 100%, 50%, 25%.
pub open spec fn wave_volume_shift(code: u8) -> u8 {
    if code == 1 {
        0
    } else if code == 2 {
        1
    } else if code == 3 {
        2
    } else {
        6
    }
}

/// The period, in clock cycles, of one wave sample for an 11-bit frequency
/// value; 0 (stopped) above 2048.
pub open spec fn wave_period(frequency: u16) -> u32 {
    if frequency > 2048 {
        0
    } else {
        ((2048 - frequency) * 2) as u32
    }
}

/// The wave channel (channel 3), playing 32 four-bit samples from wave RAM.
pub struct WaveChannel {
    pub active: bool,
    pub dac_enabled: bool,
    pub length: LengthCounter,
    pub frequency: u16,
    pub period: u32,
    pub last_amp: i32,
    pub delay: u32,
    pub volume_shift_code: u8,
    pub wave_ram: [u8; 16],
    pub current_wave: u8,
    pub sample_recently_accessed: bool,
}

impl WaveChannel {
    /// The bounds its fields keep.
    pub open spec fn wf(self) -> bool {
        &&& self.current_wave < 32
        &&& self.volume_shift_code <= 3
        &&& 0 <= self.last_amp <= 60
        &&& self.period <= MAX_PERIOD
        &&& self.delay <= MAX_PERIOD
    }

    /// The channel at power-up, holding `wave_ram`.
    pub open spec fn initial(wave_ram: [u8; 16]) -> WaveChannel {
        WaveChannel {
            active: false,
            dac_enabled: false,
            length: LengthCounter { enabled: false, value: 0, max: 256 },
            frequency: 0,
            period: 2048,
            last_amp: 0,
            delay: 0,
            volume_shift_code: 0,
            wave_ram,
            current_wave: 0,
            sample_recently_accessed: false,
        }
    }

    pub fn new() -> (channel: Self)
        ensures
            channel.wf(),
            channel == WaveChannel::initial(channel.wave_ram),
            forall|i: int| 0 <= i < 16 ==> channel.wave_ram[i] == 0,
    {
        Self {
            active: false,
            dac_enabled: false,
            length: LengthCounter::new(256),
            frequency: 0,
            period: 2048,
            last_amp: 0,
            delay: 0,
            volume_shift_code: 0,
            wave_ram: [0; 16],
            current_wave: 0,
            sample_recently_accessed: false,
        }
    }

    pub fn calculate_period(&mut self)
        ensures
            *final(self) == (WaveChannel { period: wave_period(old(self).frequency), ..*old(self) }),
    {
        if self.frequency > 2048 {
            self.period = 0;
        } else {
            self.period = (2048 - self.frequency as u32) * 2;
        }
    }

    /// The amplitude of the current sample: its 4 bits (upper nibble for even
    /// positions) times 4, shifted right by the volume shift.
    pub open spec fn amplitude(self) -> int {
        let wave_byte = self.wave_ram[(self.current_wave >> 1u8) as int];
        let sample = if self.current_wave % 2 == 0 {
            wave_byte >> 4u8
        } else {
            wave_byte & 0x0F
        };
        ((sample << 2u8) >> wave_volume_shift(self.volume_shift_code)) as int
    }

    /// The sample steps from clock `time` up to `end` (see
    /// `SquareChannel::steps_from`); a step within 2 clocks of `end` marks the
    /// sample as recently accessed.
    pub open spec fn steps_from(self, time: int, end: int) -> (WaveChannel, int, Seq<BlipEvent>)
        decreases if time < end {
            end - time
        } else {
            0
        },
    {
        if time >= end || self.period == 0 {
            (self, time, Seq::empty())
        } else {
            let amp = self.amplitude();
            let changed = amp != self.last_amp;
            let next = WaveChannel {
                last_amp: if changed { amp as i32 } else { self.last_amp },
                sample_recently_accessed: self.sample_recently_accessed || time >= end - 2,
                current_wave: ((self.current_wave + 1) as u8) & 31,
                ..self
            };
            let (last, t, rest) = next.steps_from(time + self.period, end);
            let events = if changed {
                seq![BlipEvent::Delta(time as u32, (amp - self.last_amp) as i32)]
            } else {
                Seq::empty()
            };
            (last, t, events + rest)
        }
    }

    /// The channel after running from `start` to `end` and the deltas it
    /// emits (see `SquareChannel::ran`); the recent-access mark is cleared first.
    pub open spec fn ran(self, start: u32, end: u32) -> (WaveChannel, Seq<BlipEvent>) {
        let cleared = WaveChannel { sample_recently_accessed: false, ..self };
        if !self.active || self.period == 0 {
            if self.last_amp != 0 {
                (WaveChannel { last_amp: 0, delay: 0, ..cleared }, silence_events(self.last_amp, start))
            } else {
                (cleared, Seq::empty())
            }
        } else {
            let (last, t, events) = cleared.steps_from(start + self.delay, end as int);
            (WaveChannel { delay: (t - end) as u32, ..last }, events)
        }
    }

    pub fn run(&mut self, start_time: u32, end_time: u32, out: &mut Vec<BlipEvent>)
        requires
            old(self).wf(),
            start_time <= end_time <= MAX_CLOCK,
        ensures
            *final(self) == old(self).ran(start_time, end_time).0,
            final(out)@ == old(out)@ + old(self).ran(start_time, end_time).1,
            final(self).wf(),
            final(self).length == old(self).length,
    {
        self.sample_recently_accessed = false;
        if !self.active || self.period == 0 {
            if self.last_amp != 0 {
                out.push(BlipEvent::Delta(start_time, -self.last_amp));
                self.last_amp = 0;
                self.delay = 0;
            }
            assert(out@ =~= old(out)@ + old(self).ran(start_time, end_time).1);
            return;
        }

        let mut time = start_time + self.delay;
        let ghost cleared = *self;
        let ghost total = cleared.steps_from(time as int, end_time as int);

        // The wave channel outputs at 4x amplitude to avoid precision loss on
        // the 25% volume shift; mixing accounts for it.
        let vol_shift: u8 = match self.volume_shift_code {
            0 => 4 + 2,  // mute: shift a 4-bit sample * 4 to zero
            1 => 0,  // 100%
            2 => 1,  // 50%
            3 => 2,  // 25%
            _ => 4 + 2,
        };

        while time < end_time
            invariant
                self.wf(),
                self.active && self.period > 0,
                *self == (WaveChannel {
                    current_wave: self.current_wave,
                    last_amp: self.last_amp,
                    sample_recently_accessed: self.sample_recently_accessed,
                    ..cleared
                }),
                vol_shift == wave_volume_shift(self.volume_shift_code),
                time <= end_time + MAX_PERIOD,
                end_time <= MAX_CLOCK,
                self.steps_from(time as int, end_time as int).0 == total.0,
                self.steps_from(time as int, end_time as int).1 == total.1,
                out@ + self.steps_from(time as int, end_time as int).2 == old(out)@ + total.2,
            decreases if time < end_time {
                end_time - time
            } else {
                0
            },
        {
            let ghost before = *self;
            let ghost out_before = out@;
            let cw = self.current_wave;
            proof {
                lemma_counter_wraps(cw);
            }
            let wave_byte = self.wave_ram[cw as usize >> 1];
            let sample = if self.current_wave % 2 == 0 {
                wave_byte >> 4u8
            } else {
                wave_byte & 0x0F
            };
            assert(wave_byte >> 4u8 <= 15 && wave_byte & 0x0F <= 15 && (sample <= 15 ==> (sample << 2u8)
                >> vol_shift <= 60)) by (bit_vector);

            // Shift left by 2 so 25% doesn't lose precision
            let amp = ((sample << 2u8) >> vol_shift) as i32;

            if amp != self.last_amp {
                out.push(BlipEvent::Delta(time, amp - self.last_amp));
                self.last_amp = amp;
            }

            if time >= end_time.saturating_sub(2) {
                self.sample_recently_accessed = true;
            }
            time += self.period;
            self.current_wave = (self.current_wave + 1) & 31;
            proof {
                lemma_counter_wraps(cw);
                let step = before.steps_from((time - self.period) as int, end_time as int);
                assert(out@ + self.steps_from(time as int, end_time as int).2 =~= out_before
                    + step.2);
            }
        }
        self.delay = time - end_time;
        assert(out@ =~= old(out)@ + total.2);
    }

    pub fn step_length(&mut self)
        ensures
            *final(self) == (WaveChannel {
                length: old(self).length.stepped(),
                active: old(self).active && old(self).length.stepped().value > 0,
                ..*old(self)
            }),
    {
        self.length.step();
        self.active = self.active && self.length.is_active();
    }
}

// ─── Noise Channel ────────────────────────────────────────────────────────────

/// The noise channel (channel 4): a linear-feedback shift register clocked
/// once per period.
pub struct NoiseChannel {
    pub active: bool,
    pub dac_enabled: bool,
    pub reg_ff22: u8,
    pub length: LengthCounter,
    pub envelope: VolumeEnvelope,
    pub period: u32,
    pub shift_width: u8,
    pub state: u16,
    pub delay: u32,
    pub last_amp: i32,
}

/// The period, in clock cycles, that an `NR43` value selects: divisor 8 for
/// code 0 and 16 times the code otherwise, shifted left by bits 4-7.
pub open spec fn noise_period(value: u8) -> u32 {
    let divisor: u32 = if value & 7 == 0 {
        8
    } else {
        ((value & 7) * 16) as u32
    };
    divisor << (value >> 4u8)
}

impl NoiseChannel {
    /// The bounds its fields keep: a non-zero period of at most `MAX_PERIOD`,
    /// a register width of 6 or 14 bits, volume and amplitude in range.
    pub open spec fn wf(self) -> bool {
        &&& 0 < self.period <= MAX_PERIOD
        &&& self.delay <= MAX_PERIOD
        &&& (self.shift_width == 6 || self.shift_width == 14)
        &&& self.envelope.volume <= 15
        &&& self.envelope.initial_volume <= 15
        &&& -15 <= self.last_amp <= 15
    }

    pub open spec fn initial() -> NoiseChannel {
        NoiseChannel {
            active: false,
            dac_enabled: false,
            reg_ff22: 0,
            length: LengthCounter { enabled: false, value: 0, max: 64 },
            envelope: VolumeEnvelope {
                period: 0,
                goes_up: false,
                delay: 0,
                initial_volume: 0,
                volume: 0,
            },
            period: 2048,
            shift_width: 14,
            state: 1,
            delay: 0,
            last_amp: 0,
        }
    }

    pub fn new() -> (channel: Self)
        ensures
            channel == NoiseChannel::initial(),
    {
        Self {
            active: false,
            dac_enabled: false,
            reg_ff22: 0,
            length: LengthCounter::new(64),
            envelope: VolumeEnvelope::new(),
            period: 2048,
            shift_width: 14,
            state: 1,
            delay: 0,
            last_amp: 0,
        }
    }

    /// One clock of the shift register: it shifts left and takes, as its new
    /// bit 0, the XOR of its bit at the register width before and after the shift.
    pub open spec fn shifted_state(self) -> u16 {
        let shifted = self.state << 1u16;
        let bit = ((self.state >> self.shift_width) ^ (shifted >> self.shift_width)) & 1;
        shifted | bit
    }

    /// The amplitude of the current step: the volume, negated when the
    /// register's bit at its width is clear.
    pub open spec fn amplitude(self) -> int {
        if (self.state >> self.shift_width) & 1 == 0 {
            -(self.envelope.volume as int)
        } else {
            self.envelope.volume as int
        }
    }

    /// The noise steps from clock `time` up to `end` (see `SquareChannel::steps_from`).
    pub open spec fn steps_from(self, time: int, end: int) -> (NoiseChannel, int, Seq<BlipEvent>)
        decreases if time < end {
            end - time
        } else {
            0
        },
    {
        if time >= end || self.period == 0 {
            (self, time, Seq::empty())
        } else {
            let amp = self.amplitude();
            let changed = amp != self.last_amp;
            let next = NoiseChannel {
                state: self.shifted_state(),
                last_amp: if changed { amp as i32 } else { self.last_amp },
                ..self
            };
            let (last, t, rest) = next.steps_from(time + self.period, end);
            let events = if changed {
                seq![BlipEvent::Delta(time as u32, (amp - self.last_amp) as i32)]
            } else {
                Seq::empty()
            };
            (last, t, events + rest)
        }
    }

    /// The channel after running from `start` to `end` and the deltas it
    /// emits (see `SquareChannel::ran`); only an inactive channel is silent.
    pub open spec fn ran(self, start: u32, end: u32) -> (NoiseChannel, Seq<BlipEvent>) {
        if !self.active {
            if self.last_amp != 0 {
                (NoiseChannel { last_amp: 0, delay: 0, ..self }, silence_events(self.last_amp, start))
            } else {
                (self, Seq::empty())
            }
        } else {
            let (last, t, events) = self.steps_from(start + self.delay, end as int);
            (NoiseChannel { delay: (t - end) as u32, ..last }, events)
        }
    }

    pub fn run(&mut self, start_time: u32, end_time: u32, out: &mut Vec<BlipEvent>)
        requires
            old(self).wf(),
            start_time <= end_time <= MAX_CLOCK,
        ensures
            *final(self) == old(self).ran(start_time, end_time).0,
            final(out)@ == old(out)@ + old(self).ran(start_time, end_time).1,
            final(self).wf(),
            final(self).length == old(self).length,
    {
        if !self.active {
            if self.last_amp != 0 {
                out.push(BlipEvent::Delta(start_time, -self.last_amp));
                self.last_amp = 0;
                self.delay = 0;
            }
            assert(out@ =~= old(out)@ + old(self).ran(start_time, end_time).1);
            return;
        }

        let mut time = start_time + self.delay;
        let ghost total = old(self).steps_from(time as int, end_time as int);
        while time < end_time
            invariant
                self.wf(),
                self.active,
                *self == (NoiseChannel { state: self.state, last_amp: self.last_amp, ..*old(self) }),
                time <= end_time + MAX_PERIOD,
                end_time <= MAX_CLOCK,
                self.steps_from(time as int, end_time as int).0 == total.0,
                self.steps_from(time as int, end_time as int).1 == total.1,
                out@ + self.steps_from(time as int, end_time as int).2 == old(out)@ + total.2,
            decreases if time < end_time {
                end_time - time
            } else {
                0
            },
        {
            let ghost before = *self;
            let ghost out_before = out@;
            let old_state = self.state;
            self.state <<= 1u16;
            let bit = ((old_state >> self.shift_width) ^ (self.state >> self.shift_width)) & 1;
            self.state |= bit;

            let amp = match (old_state >> self.shift_width) & 1 {
                0 => -(self.envelope.volume as i32),
                _ => self.envelope.volume as i32,
            };

            if self.last_amp != amp {
                out.push(BlipEvent::Delta(time, amp - self.last_amp));
                self.last_amp = amp;
            }

            time += self.period;
            proof {
                let step = before.steps_from((time - self.period) as int, end_time as int);
                assert(out@ + self.steps_from(time as int, end_time as int).2 =~= out_before
                    + step.2);
            }
        }
        self.delay = time - end_time;
        assert(out@ =~= old(out)@ + total.2);
    }

    pub fn step_envelope(&mut self)
        requires
            old(self).wf(),
        ensures
            *final(self) == (NoiseChannel { envelope: old(self).envelope.stepped(), ..*old(self) }),
            final(self).wf(),
    {
        self.envelope.step();
    }

    pub fn step_length(&mut self)
        ensures
            *final(self) == (NoiseChannel {
                length: old(self).length.stepped(),
                active: old(self).active && old(self).length.stepped().value > 0,
                ..*old(self)
            }),
    {
        self.length.step();
        self.active = self.active && self.length.is_active();
    }
}

// ─── Audio Processing Unit ────────────────────────────────────────────────────

/// The audio unit: four channels, the frame sequencer that clocks their
/// length counters, sweep and envelopes, and the events each channel leaves for
/// its band-limited sample buffer.
pub struct Apu {
    pub enabled: bool,
    pub nr50: u8,
    pub nr51: u8,
    pub volume_left: u8,
    pub volume_right: u8,
    pub ch1: SquareChannel,
    pub ch2: SquareChannel,
    pub ch3: WaveChannel,
    pub ch4: NoiseChannel,
    pub time: u32,
    pub prev_time: u32,
    pub next_frame_time: u32,
    pub frame_step: u8,
    pub output_period: u32,
    pub ch1_output: Vec<BlipEvent>,
    pub ch2_output: Vec<BlipEvent>,
    pub ch3_output: Vec<BlipEvent>,
    pub ch4_output: Vec<BlipEvent>,
}

/// The contents of the audio unit, the channels' event lists taken as sequences.
pub struct ApuView {
    pub enabled: bool,
    pub nr50: u8,
    pub nr51: u8,
    pub volume_left: u8,
    pub volume_right: u8,
    pub ch1: SquareChannel,
    pub ch2: SquareChannel,
    pub ch3: WaveChannel,
    pub ch4: NoiseChannel,
    pub time: u32,
    pub prev_time: u32,
    pub next_frame_time: u32,
    pub frame_step: u8,
    pub output_period: u32,
    pub out1: Seq<BlipEvent>,
    pub out2: Seq<BlipEvent>,
    pub out3: Seq<BlipEvent>,
    pub out4: Seq<BlipEvent>,
}

impl View for Apu {
    type V = ApuView;

    open spec fn view(&self) -> ApuView {
        ApuView {
            enabled: self.enabled,
            nr50: self.nr50,
            nr51: self.nr51,
            volume_left: self.volume_left,
            volume_right: self.volume_right,
            ch1: self.ch1,
            ch2: self.ch2,
            ch3: self.ch3,
            ch4: self.ch4,
            time: self.time,
            prev_time: self.prev_time,
            next_frame_time: self.next_frame_time,
            frame_step: self.frame_step,
            output_period: self.output_period,
            out1: self.ch1_output@,
            out2: self.ch2_output@,
            out3: self.ch3_output@,
            out4: self.ch4_output@,
        }
    }
}

/// `0` or `1` for a boolean.
pub open spec fn bit(b: bool) -> u8 {
    if b {
        1
    } else {
        0
    }
}

impl ApuView {
    /// The channels keep their bounds and length maxima.
    pub open spec fn channels_wf(self) -> bool {
        &&& self.ch1.wf() && self.ch2.wf() && self.ch3.wf() && self.ch4.wf()
        &&& self.ch1.length.max == 64 && self.ch2.length.max == 64
        &&& self.ch3.length.max == 256 && self.ch4.length.max == 64
    }

    /// The clocks are ordered (`prev_time <= time`, the next frame-sequencer
    /// step within one step of `prev_time`) and bounded, up to `extra` clocks
    /// past the output period.
    pub open spec fn clocks_ok(self, extra: int) -> bool {
        &&& self.prev_time <= self.time
        &&& self.prev_time < self.next_frame_time <= self.prev_time + CLOCKS_PER_FRAME
        &&& 0 < self.output_period <= MAX_OUTPUT_PERIOD
        &&& self.time < self.output_period + extra
    }

    /// The invariant between calls: channels in bounds, sequencer step below 8,
    /// clocks ordered and `time` below the output period.
    pub open spec fn wf(self) -> bool {
        &&& self.channels_wf()
        &&& self.frame_step < 8
        &&& self.clocks_ok(0)
    }

    /// All four channels run from `start` to `end`, their events appended.
    pub open spec fn channels_ran(self, start: u32, end: u32) -> ApuView {
        let (c1, e1) = self.ch1.ran(start, end);
        let (c2, e2) = self.ch2.ran(start, end);
        let (c3, e3) = self.ch3.ran(start, end);
        let (c4, e4) = self.ch4.ran(start, end);
        ApuView {
            ch1: c1,
            ch2: c2,
            ch3: c3,
            ch4: c4,
            out1: self.out1 + e1,
            out2: self.out2 + e2,
            out3: self.out3 + e3,
            out4: self.out4 + e4,
            ..self
        }
    }

    /// Each channel's length counter clocked once.
    pub open spec fn lengths_clocked(self) -> ApuView {
        ApuView {
            ch1: SquareChannel {
                length: self.ch1.length.stepped(),
                active: self.ch1.active && self.ch1.length.stepped().value > 0,
                ..self.ch1
            },
            ch2: SquareChannel {
                length: self.ch2.length.stepped(),
                active: self.ch2.active && self.ch2.length.stepped().value > 0,
                ..self.ch2
            },
            ch3: WaveChannel {
                length: self.ch3.length.stepped(),
                active: self.ch3.active && self.ch3.length.stepped().value > 0,
                ..self.ch3
            },
            ch4: NoiseChannel {
                length: self.ch4.length.stepped(),
                active: self.ch4.active && self.ch4.length.stepped().value > 0,
                ..self.ch4
            },
            ..self
        }
    }

    /// The envelopes of channels 1, 2 and 4 clocked once.
    pub open spec fn envelopes_clocked(self) -> ApuView {
        ApuView {
            ch1: SquareChannel { envelope: self.ch1.envelope.stepped(), ..self.ch1 },
            ch2: SquareChannel { envelope: self.ch2.envelope.stepped(), ..self.ch2 },
            ch4: NoiseChannel { envelope: self.ch4.envelope.stepped(), ..self.ch4 },
            ..self
        }
    }

    /// One frame-sequencer step: length counters on even steps, the sweep on
    /// steps 2 and 6, the envelopes on step 7; then the step number moves on.
    pub open spec fn sequenced(self) -> ApuView {
        let s1 = if self.frame_step % 2 == 0 {
            self.lengths_clocked()
        } else {
            self
        };
        let s2 = if self.frame_step % 4 == 2 {
            ApuView { ch1: s1.ch1.swept(), ..s1 }
        } else {
            s1
        };
        let s3 = if self.frame_step == 7 {
            s2.envelopes_clocked()
        } else {
            s2
        };
        ApuView { frame_step: ((self.frame_step + 1) as u8) & 7, ..s3 }
    }

    /// The channels and the frame sequencer run up to `time`: each whole
    /// sequencer step due runs the channels up to it and then clocks the
    /// sequencer; the rest of the way the channels just run.
    pub open spec fn caught_up(self) -> ApuView
        decreases self.time - self.prev_time,
    {
        if self.next_frame_time <= self.time && self.prev_time < self.next_frame_time {
            let stepped = self.channels_ran(self.prev_time, self.next_frame_time).sequenced();
            ApuView {
                prev_time: self.next_frame_time,
                next_frame_time: (self.next_frame_time + CLOCKS_PER_FRAME) as u32,
                ..stepped
            }.caught_up()
        } else if self.prev_time != self.time {
            ApuView { prev_time: self.time, ..self.channels_ran(self.prev_time, self.time) }
        } else {
            self
        }
    }

    /// The output frame closed: the channels catch up, each is told the frame
    /// ends at `time`, and the clocks restart from 0.
    pub open spec fn output_done(self) -> ApuView {
        let c = self.caught_up();
        let end = BlipEvent::EndFrame(c.time);
        ApuView {
            out1: c.out1.push(end),
            out2: c.out2.push(end),
            out3: c.out3.push(end),
            out4: c.out4.push(end),
            next_frame_time: (c.next_frame_time - c.time) as u32,
            time: 0,
            prev_time: 0,
            ..c
        }
    }

    /// The unit after `cycles` machine cycles: nothing while powered off;
    /// otherwise `time` advances by 4 clocks a cycle and, on reaching the
    /// output period, the output frame is closed.
    pub open spec fn stepped(self, cycles: u8) -> ApuView {
        if !self.enabled {
            self
        } else {
            let advanced = ApuView { time: (self.time + cycles * 4) as u32, ..self };
            if advanced.time >= self.output_period {
                advanced.output_done()
            } else {
                advanced
            }
        }
    }

    /// The value the sound register at `addr` reads as; unused bits read as 1
    /// and write-only registers as `0xFF`. Wave RAM reads directly while
    /// channel 3 is off, and while it plays reads the byte being played if it
    /// was just accessed, else `0xFF`.
    pub open spec fn register(self, addr: u16) -> u8 {
        if addr == 0xFF10 {
            0x80 | (self.ch1.sweep_period << 4u8) | (bit(self.ch1.sweep_negate) << 3u8)
                | self.ch1.sweep_shift
        } else if addr == 0xFF11 {
            (self.ch1.duty << 6u8) | 0x3F
        } else if addr == 0xFF12 {
            self.ch1.envelope.register()
        } else if addr == 0xFF14 {
            0xBF | (bit(self.ch1.length.enabled) << 6u8)
        } else if addr == 0xFF16 {
            (self.ch2.duty << 6u8) | 0x3F
        } else if addr == 0xFF17 {
            self.ch2.envelope.register()
        } else if addr == 0xFF19 {
            0xBF | (bit(self.ch2.length.enabled) << 6u8)
        } else if addr == 0xFF21 {
            self.ch4.envelope.register()
        } else if addr == 0xFF22 {
            self.ch4.reg_ff22
        } else if addr == 0xFF23 {
            0xBF | (bit(self.ch4.length.enabled) << 6u8)
        } else if addr == 0xFF24 {
            self.nr50
        } else if addr == 0xFF25 {
            self.nr51
        } else if addr == 0xFF26 {
            0x70 | (bit(self.enabled) << 7u8) | (bit(self.ch4.active) << 3u8) | (bit(
                self.ch3.active,
            ) << 2u8) | (bit(self.ch2.active) << 1u8) | bit(self.ch1.active)
        } else if addr == 0xFF1A {
            0x7F | (bit(self.ch3.dac_enabled) << 7u8)
        } else if addr == 0xFF1C {
            0x9F | (self.ch3.volume_shift_code << 5u8)
        } else if addr == 0xFF1E {
            0xBF | (bit(self.ch3.length.enabled) << 6u8)
        } else if 0xFF30 <= addr <= 0xFF3F {
            if !self.ch3.active {
                self.ch3.wave_ram[addr - 0xFF30]
            } else if self.ch3.sample_recently_accessed {
                self.ch3.wave_ram[(self.ch3.current_wave >> 1u8) as int]
            } else {
                0xFF
            }
        } else {
            0xFF
        }
    }
}

impl SquareChannel {
    /// The channel after `value` is written to its register `NRx<reg>`:
    /// 0 the sweep (period, direction, shift; turning negation off after a
    /// negated sweep silences the channel), 1 the duty and length load, 2 the
    /// DAC and envelope (a DAC turned off silences the channel), 3 the
    /// frequency's lower byte, 4 see `nrx4_written`.
    pub open spec fn register_written(self, reg: u16, value: u8, frame_step: u8) -> SquareChannel {
        if reg == 0 {
            let negate = value & 0x08 != 0;
            SquareChannel {
                sweep_period: (value >> 4u8) & 0x07,
                sweep_negate: negate,
                sweep_shift: value & 0x07,
                active: if self.sweep_negate && !negate && self.sweep_did_negate { false } else { self.active },
                sweep_did_negate: false,
                ..self
            }
        } else if reg == 1 {
            SquareChannel {
                duty: (value >> 6u8) & 0x03,
                length: LengthCounter { value: (self.length.max - (value & 0x3F)) as u16, ..self.length },
                ..self
            }
        } else if reg == 2 {
            let dac = value & 0xF8 != 0;
            SquareChannel {
                dac_enabled: dac,
                active: self.active && dac,
                envelope: VolumeEnvelope {
                    period: value & 0x07,
                    goes_up: value & 0x08 != 0,
                    initial_volume: value >> 4u8,
                    volume: value >> 4u8,
                    ..self.envelope
                },
                ..self
            }
        } else if reg == 3 {
            let frequency = (self.frequency & 0x0700) | value as u16;
            SquareChannel { frequency, period: square_period(frequency), ..self }
        } else {
            self.nrx4_written(value, frame_step)
        }
    }

    /// The channel after a write to its trigger register (`NRx4`): the
    /// frequency's upper bits from bits 0-2, the length counter enabled by
    /// bit 6, and on bit 7 a trigger that restarts the channel (when its DAC
    /// is on), its length, envelope and (with a non-zero shift) sweep check.
    pub open spec fn nrx4_written(self, value: u8, frame_step: u8) -> SquareChannel {
        let frequency = (self.frequency & 0x00FF) | (((value & 0x07) as u16) << 8u16);
        let c0 = SquareChannel { frequency, period: square_period(frequency), ..self };
        let length = c0.length.enabled_with(value & 0x40 != 0, frame_step);
        let c1 = SquareChannel { length, active: c0.active && length.value > 0, ..c0 };
        if value & 0x80 != 0 {
            let c2 = SquareChannel {
                active: if c1.dac_enabled { true } else { c1.active },
                length: c1.length.triggered(frame_step),
                envelope: VolumeEnvelope {
                    delay: c1.envelope.period,
                    volume: c1.envelope.initial_volume,
                    ..c1.envelope
                },
                sweep_frequency: c1.frequency,
                sweep_delay: if c1.sweep_period != 0 { c1.sweep_period } else { 8 },
                sweep_enabled: c1.sweep_period > 0 || c1.sweep_shift > 0,
                sweep_did_negate: false,
                ..c1
            };
            if c2.sweep_shift > 0 {
                let f = c2.swept_frequency();
                SquareChannel {
                    sweep_did_negate: c2.sweep_did_negate || c2.sweep_negate,
                    active: c2.active && f <= 2047,
                    ..c2
                }
            } else {
                c2
            }
        } else {
            c1
        }
    }
}


impl WaveChannel {
    /// The channel after `value` is written to its register `NR3<reg>`: 0 the
    /// DAC (turned off, it silences the channel), 1 the length load, 2 the
    /// volume code (bits 5-6), 3 the frequency's lower byte, 4 the frequency's
    /// upper bits, the length enable and, on bit 7, a trigger that restarts the
    /// length, the sample position and (with the DAC on) the channel, playing
    /// after one period and 4 clocks.
    pub open spec fn register_written(self, reg: u16, value: u8, frame_step: u8) -> WaveChannel {
        if reg == 0 {
            let dac = (value & 0x80) != 0;
            WaveChannel { dac_enabled: dac, active: self.active && dac, ..self }
        } else if reg == 1 {
            WaveChannel {
                length: LengthCounter { value: (self.length.max - value) as u16, ..self.length },
                ..self
            }
        } else if reg == 2 {
            WaveChannel { volume_shift_code: (value >> 5u8) & 0x03, ..self }
        } else if reg == 3 {
            let frequency = (self.frequency & 0x0700) | value as u16;
            WaveChannel { frequency, period: wave_period(frequency), ..self }
        } else {
            let frequency = (self.frequency & 0x00FF) | (((value & 0x07) as u16) << 8u16);
            let c0 = WaveChannel { frequency, period: wave_period(frequency), ..self };
            let length = c0.length.enabled_with(value & 0x40 != 0, frame_step);
            let c1 = WaveChannel { length, active: c0.active && length.value > 0, ..c0 };
            if value & 0x80 != 0 {
                WaveChannel {
                    length: c1.length.triggered(frame_step),
                    current_wave: 0,
                    delay: (c1.period + 4) as u32,
                    active: if c1.dac_enabled { true } else { c1.active },
                    ..c1
                }
            } else {
                c1
            }
        }
    }
}

impl NoiseChannel {
    /// The channel after `value` is written to its register `NR4<reg>`: 1 the
    /// length load, 2 the DAC and envelope, 3 the register width (7 bits when
    /// bit 3 is set, else 15) and the period, 4 the length enable and, on bit 7,
    /// a trigger that restarts the length, the shift register, the delay,
    /// (with the DAC on) the channel and the envelope.
    pub open spec fn register_written(self, reg: u16, value: u8, frame_step: u8) -> NoiseChannel {
        if reg == 1 {
            NoiseChannel {
                length: LengthCounter { value: (self.length.max - (value & 0x3F)) as u16, ..self.length },
                ..self
            }
        } else if reg == 2 {
            let dac = value & 0xF8 != 0;
            NoiseChannel {
                dac_enabled: dac,
                active: self.active && dac,
                envelope: VolumeEnvelope {
                    period: value & 0x07,
                    goes_up: value & 0x08 != 0,
                    initial_volume: value >> 4u8,
                    volume: value >> 4u8,
                    ..self.envelope
                },
                ..self
            }
        } else if reg == 3 {
            NoiseChannel {
                reg_ff22: value,
                shift_width: if value & 8 != 0 { 6 } else { 14 },
                period: noise_period(value),
                ..self
            }
        } else if reg == 4 {
            let length = self.length.enabled_with(value & 0x40 != 0, frame_step);
            let c1 = NoiseChannel { length, active: self.active && length.value > 0, ..self };
            if value & 0x80 != 0 {
                NoiseChannel {
                    length: c1.length.triggered(frame_step),
                    state: 0xFF,
                    delay: 0,
                    active: if c1.dac_enabled { true } else { c1.active },
                    envelope: VolumeEnvelope {
                        delay: c1.envelope.period,
                        volume: c1.envelope.initial_volume,
                        ..c1.envelope
                    },
                    ..c1
                }
            } else {
                c1
            }
        } else {
            self
        }
    }
}

impl ApuView {
    /// The unit after `value` is written to sound register `addr` (power
    /// control `0xFF26` aside): the channel registers go to their channel,
    /// `NR50` sets the master volumes, `NR51` the panning, and wave RAM takes
    /// the byte directly while channel 3 is off, or at the byte being played if
    /// it was just accessed.
    pub open spec fn register_written(self, addr: u16, value: u8) -> ApuView {
        let fs = self.frame_step;
        if 0xFF10 <= addr <= 0xFF14 {
            ApuView { ch1: self.ch1.register_written((addr - 0xFF10) as u16, value, fs), ..self }
        } else if 0xFF16 <= addr <= 0xFF19 {
            ApuView { ch2: self.ch2.register_written((addr - 0xFF15) as u16, value, fs), ..self }
        } else if 0xFF1A <= addr <= 0xFF1E {
            ApuView { ch3: self.ch3.register_written((addr - 0xFF1A) as u16, value, fs), ..self }
        } else if 0xFF20 <= addr <= 0xFF23 {
            ApuView { ch4: self.ch4.register_written((addr - 0xFF1F) as u16, value, fs), ..self }
        } else if addr == 0xFF24 {
            ApuView { nr50: value, volume_left: value & 0x07, volume_right: (value >> 4u8) & 0x07, ..self }
        } else if addr == 0xFF25 {
            ApuView { nr51: value, ..self }
        } else if 0xFF30 <= addr <= 0xFF3F {
            if !self.ch3.active {
                ApuView {
                    ch3: WaveChannel {
                        wave_ram: vstd::array::spec_array_update(self.ch3.wave_ram, addr - 0xFF30, value),
                        ..self.ch3
                    },
                    ..self
                }
            } else if self.ch3.sample_recently_accessed {
                ApuView {
                    ch3: WaveChannel {
                        wave_ram: vstd::array::spec_array_update(
                            self.ch3.wave_ram,
                            (self.ch3.current_wave >> 1u8) as int,
                            value,
                        ),
                        ..self.ch3
                    },
                    ..self
                }
            } else {
                self
            }
        } else {
            self
        }
    }

    /// Whether a write to `addr` takes effect while the unit is powered off:
    /// the power register, wave RAM and the length registers.
    pub open spec fn writable_when_off(addr: u16) -> bool {
        addr == 0xFF26 || (0xFF30 <= addr <= 0xFF3F) || addr == 0xFF11 || addr == 0xFF16 || addr
            == 0xFF1B || addr == 0xFF20
    }

    /// The unit after `value` is written to `addr` other than `0xFF26`:
    /// ignored while powered off unless the register takes writes then;
    /// while powered on the channels catch up first.
    pub open spec fn plain_written(self, addr: u16, value: u8) -> ApuView {
        if !self.enabled && !ApuView::writable_when_off(addr) {
            self
        } else {
            let caught = if self.enabled {
                self.caught_up()
            } else {
                self
            };
            caught.register_written(addr, value)
        }
    }

    /// The unit after zero is written to each register from `addr` to `0xFF25`.
    pub open spec fn zeroed_from(self, addr: u16) -> ApuView
        decreases 0xFF26 - addr,
    {
        if addr >= 0xFF26 {
            self
        } else {
            self.plain_written(addr, 0).zeroed_from((addr + 1) as u16)
        }
    }

    /// The unit after `value` is written to sound register `addr`. Writing the
    /// power register turns the unit on or off by bit 7: turning it off first
    /// writes zero to every register from `0xFF10` to `0xFF25`, turning it on
    /// restarts the frame sequencer at step 0.
    pub open spec fn written(self, addr: u16, value: u8) -> ApuView {
        if addr != 0xFF26 {
            self.plain_written(addr, value)
        } else {
            let caught = if self.enabled {
                self.caught_up()
            } else {
                self
            };
            let turn_on = value & 0x80 != 0;
            let cleared = if caught.enabled && !turn_on {
                ApuView { nr50: 0, nr51: 0, ..caught.zeroed_from(0xFF10) }
            } else {
                caught
            };
            let restarted = if !caught.enabled && turn_on {
                ApuView { frame_step: 0, ..cleared }
            } else {
                cleared
            };
            ApuView { enabled: turn_on, ..restarted }
        }
    }
}

/// The output period for a sample rate: clock cycles per 2000 output samples
/// (2000 times 4194304 is 8388608000), kept to 32 bits.
pub open spec fn output_period_for(sample_rate: u32) -> u32 {
    ((8388608000u64 / sample_rate as u64) as u64) as u32
}

proof fn lemma_output_period_bounds(sample_rate: u32)
    requires
        sample_rate > 0,
    ensures
        0 < output_period_for(sample_rate) <= MAX_OUTPUT_PERIOD,
{
    let q = (8388608000u64 / sample_rate as u64) as u64;
    if sample_rate == 1 {
        assert(8388608000int / (sample_rate as int) == 8388608000int) by (nonlinear_arith)
            requires
                sample_rate == 1,
        ;
        assert((8388608000u64 as u32) == 4093640704u32) by (bit_vector);
    } else {
        let d = sample_rate as int;
        assert(8388608000int / d <= 8388608000int / 2) by (nonlinear_arith)
            requires
                d >= 2,
        ;
        assert(8388608000int / d >= 1) by (nonlinear_arith)
            requires
                2 <= d <= 0xFFFF_FFFF,
        ;
    }
}

proof fn lemma_noise_period_bounds(value: u8)
    ensures
        0 < noise_period(value) <= MAX_PERIOD,
{
    let sel = value & 7;
    let shift = value >> 4u8;
    assert(value & 7 <= 7 && value >> 4u8 <= 15) by (bit_vector);
    let divisor: u32 = if sel == 0 {
        8
    } else {
        (sel * 16) as u32
    };
    assert(8 <= divisor <= 112);
    assert(8 <= divisor <= 112 && shift <= 15 ==> 0 < (divisor << shift) <= 0x40_0000) by (
    bit_vector);
}

/// The step counters wrap around inside their ranges, and half a wave
/// position indexes wave RAM.
proof fn lemma_counter_wraps(x: u8)
    by (bit_vector)
    ensures
        ((x + 1) as u8) & 7 < 8,
        ((x + 1) as u8) & 31 < 32,
        x < 32 ==> (x as usize) >> 1usize < 16 && (x as usize) >> 1usize == (x >> 1u8) as usize,
{
}

proof fn lemma_register_field_bounds(value: u8)
    ensures
        value & 0x07 <= 7,
        (value >> 6u8) & 0x03 < 4,
        value >> 4u8 <= 15,
        (value >> 5u8) & 0x03 <= 3,
        (value >> 4u8) & 0x07 <= 7,
        value & 0x3F <= 63,
{
    assert(value & 0x07 <= 7 && (value >> 6u8) & 0x03 < 4 && value >> 4u8 <= 15 && (value >> 5u8)
        & 0x03 <= 3 && (value >> 4u8) & 0x07 <= 7 && value & 0x3F <= 63) by (bit_vector);
}

impl Apu {
    /// The unit at power-up for a sample rate: powered off, registers and
    /// clocks at zero, the first sequencer step due after one step's clocks,
    /// the channels in their initial state and no events.
    pub open spec fn is_initial(self, sample_rate: u32) -> bool {
        &&& !self.enabled && self.nr50 == 0 && self.nr51 == 0
        &&& self.volume_left == 0 && self.volume_right == 0
        &&& self.ch1 == SquareChannel::initial(true)
        &&& self.ch2 == SquareChannel::initial(false)
        &&& self.ch3 == WaveChannel::initial(self.ch3.wave_ram)
        &&& forall|i: int| 0 <= i < 16 ==> self.ch3.wave_ram[i] == 0
        &&& self.ch4 == NoiseChannel::initial()
        &&& self.time == 0 && self.prev_time == 0
        &&& self.next_frame_time == CLOCKS_PER_FRAME
        &&& self.frame_step == 0
        &&& self.output_period == output_period_for(sample_rate)
        &&& self.ch1_output@.len() == 0 && self.ch2_output@.len() == 0
        &&& self.ch3_output@.len() == 0 && self.ch4_output@.len() == 0
    }

    pub fn new(sample_rate: u32) -> (apu: Self)
        requires
            sample_rate > 0,
        ensures
            apu.is_initial(sample_rate),
            apu@.wf(),
    {
        let output_period = (OUTPUT_SAMPLE_COUNT * CLOCKS_PER_SECOND as u64) / sample_rate as u64;
        proof {
            lemma_output_period_bounds(sample_rate);
        }
        Self {
            enabled: false,
            nr50: 0x00,
            nr51: 0x00,
            volume_left: 0,
            volume_right: 0,
            ch1: SquareChannel::new(true),
            ch2: SquareChannel::new(false),
            ch3: WaveChannel::new(),
            ch4: NoiseChannel::new(),
            time: 0,
            prev_time: 0,
            next_frame_time: CLOCKS_PER_FRAME,
            frame_step: 0,
            output_period: output_period as u32,
            ch1_output: Vec::new(),
            ch2_output: Vec::new(),
            ch3_output: Vec::new(),
            ch4_output: Vec::new(),
        }
    }

    pub fn read_byte(&self, addr: u16) -> (value: u8)
        requires
            self.ch3.wf(),
        ensures
            value == self@.register(addr),
    {
        match addr {
            0xFF10 => {
                0x80 | (self.ch1.sweep_period << 4u8) | ((self.ch1.sweep_negate as u8) << 3u8)
                    | self.ch1.sweep_shift
            },
            0xFF11 => (self.ch1.duty << 6u8) | 0x3F,
            0xFF12 => self.ch1.envelope.read(),
            0xFF13 => 0xFF,
            0xFF14 => 0xBF | ((self.ch1.length.enabled as u8) << 6u8),
            0xFF16 => (self.ch2.duty << 6u8) | 0x3F,
            0xFF17 => self.ch2.envelope.read(),
            0xFF18 => 0xFF,
            0xFF19 => 0xBF | ((self.ch2.length.enabled as u8) << 6u8),
            0xFF20 => 0xFF,
            0xFF21 => self.ch4.envelope.read(),
            0xFF22 => self.ch4.reg_ff22,
            0xFF23 => 0xBF | ((self.ch4.length.enabled as u8) << 6u8),
            0xFF24 => self.nr50,
            0xFF25 => self.nr51,
            0xFF26 => {
                0x70 | ((self.enabled as u8) << 7u8) | ((self.ch4.active as u8) << 3u8) | ((
                self.ch3.active as u8) << 2u8) | ((self.ch2.active as u8) << 1u8) | (
                self.ch1.active as u8)
            },
            0xFF1A => 0x7F | ((self.ch3.dac_enabled as u8) << 7u8),
            0xFF1B => 0xFF,
            0xFF1C => 0x9F | (self.ch3.volume_shift_code << 5u8),
            0xFF1D => 0xFF,
            0xFF1E => 0xBF | ((self.ch3.length.enabled as u8) << 6u8),
            0xFF30..=0xFF3F => {
                if !self.ch3.active {
                    self.ch3.wave_ram[(addr - 0xFF30) as usize]
                } else if self.ch3.sample_recently_accessed {
                    let cw = self.ch3.current_wave;
                    proof {
                        lemma_counter_wraps(cw);
                    }
                    self.ch3.wave_ram[cw as usize >> 1]
                } else {
                    0xFF
                }
            },
            _ => 0xFF,
        }
    }

    /// Runs all four channels from `start` to `end`.
    fn run_channels(&mut self, start: u32, end: u32)
        requires
            old(self)@.channels_wf(),
            start <= end <= MAX_CLOCK,
        ensures
            final(self)@ == old(self)@.channels_ran(start, end),
            final(self)@.channels_wf(),
    {
        self.ch1.run(start, end, &mut self.ch1_output);
        self.ch2.run(start, end, &mut self.ch2_output);
        self.ch3.run(start, end, &mut self.ch3_output);
        self.ch4.run(start, end, &mut self.ch4_output);
    }

    fn clock_lengths(&mut self)
        requires
            old(self)@.channels_wf(),
        ensures
            final(self)@ == old(self)@.lengths_clocked(),
            final(self)@.channels_wf(),
    {
        self.ch1.step_length();
        self.ch2.step_length();
        self.ch3.step_length();
        self.ch4.step_length();
    }

    fn clock_envelopes(&mut self)
        requires
            old(self)@.channels_wf(),
        ensures
            final(self)@ == old(self)@.envelopes_clocked(),
            final(self)@.channels_wf(),
    {
        self.ch1.step_envelope();
        self.ch2.step_envelope();
        self.ch4.step_envelope();
    }

    /// One frame-sequencer step (see `sequenced`).
    fn clock_sequencer(&mut self)
        requires
            old(self)@.channels_wf(),
            old(self).frame_step < 8,
        ensures
            final(self)@ == old(self)@.sequenced(),
            final(self)@.channels_wf(),
            final(self).frame_step < 8,
    {
        if self.frame_step % 2 == 0 {
            self.clock_lengths();
        }
        if self.frame_step % 4 == 2 {
            self.ch1.step_sweep();
        }
        if self.frame_step == 7 {
            self.clock_envelopes();
        }
        let fs = self.frame_step;
        proof {
            lemma_counter_wraps(fs);
        }
        self.frame_step = (self.frame_step + 1) & 7;
    }

    /// Runs the channels and the frame sequencer up to `time` (see `caught_up`).
    fn run(&mut self)
        requires
            old(self)@.channels_wf(),
            old(self).frame_step < 8,
            old(self)@.clocks_ok(1024),
        ensures
            final(self)@ == old(self)@.caught_up(),
            final(self)@.channels_wf(),
            final(self).frame_step < 8,
            final(self)@.clocks_ok(1024),
            final(self).prev_time == final(self).time,
            final(self).time == old(self).time,
            final(self).next_frame_time > final(self).time,
            final(self).output_period == old(self).output_period,
            final(self).enabled == old(self).enabled,
    {
        while self.next_frame_time <= self.time
            invariant
                self@.channels_wf(),
                self.frame_step < 8,
                self@.clocks_ok(1024),
                self.time == old(self).time,
                self.output_period == old(self).output_period,
                self.enabled == old(self).enabled,
                self@.caught_up() == old(self)@.caught_up(),
            decreases self.time - self.prev_time,
        {
            let prev = self.prev_time;
            let next = self.next_frame_time;
            self.run_channels(prev, next);
            self.clock_sequencer();
            self.prev_time = self.next_frame_time;
            self.next_frame_time += CLOCKS_PER_FRAME;
        }

        if self.prev_time != self.time {
            let prev = self.prev_time;
            let now = self.time;
            self.run_channels(prev, now);
            self.prev_time = self.time;
        }
    }

    /// Closes the current output frame (see `output_done`).
    fn do_output(&mut self)
        requires
            old(self)@.channels_wf(),
            old(self).frame_step < 8,
            old(self)@.clocks_ok(1024),
        ensures
            final(self)@ == old(self)@.output_done(),
            final(self)@.wf(),
    {
        self.run();
        let ghost caught = self@;
        self.ch1_output.push(BlipEvent::EndFrame(self.time));
        self.ch2_output.push(BlipEvent::EndFrame(self.time));
        self.ch3_output.push(BlipEvent::EndFrame(self.time));
        self.ch4_output.push(BlipEvent::EndFrame(self.time));

        self.next_frame_time -= self.time;
        self.time = 0;
        self.prev_time = 0;
    }

    /// Called after each instruction with the M-cycles it took (see `stepped`).
    pub fn step(&mut self, cycles: u8)
        requires
            old(self)@.wf(),
        ensures
            final(self)@ == old(self)@.stepped(cycles),
            final(self)@.wf(),
    {
        if !self.enabled {
            return;
        }

        let t_cycles = cycles as u32 * 4;
        self.time += t_cycles;

        if self.time >= self.output_period {
            self.do_output();
        }
    }

    /// Closes the output frame at the end of a video frame, while powered on,
    /// so that every sample up to now can be read.
    pub fn finish_frame(&mut self)
        requires
            old(self)@.wf(),
        ensures
            final(self)@ == if old(self).enabled {
                old(self)@.output_done()
            } else {
                old(self)@
            },
            final(self)@.wf(),
    {
        if self.enabled {
            self.do_output();
        }
    }

    /// Where channel `channel` (1 to 4) is heard: on the left when bit
    /// `channel + 3` of `NR51` is set, on the right when bit `channel - 1` is.
    pub fn output_routing(&self, channel: u8) -> (sides: (bool, bool))
        requires
            1 <= channel <= 4,
        ensures
            sides == (self.nr51 & left_select_bit(channel) != 0, self.nr51 & right_select_bit(channel)
                != 0),
    {
        match channel {
            1 => (self.nr51 & 0x10 != 0, self.nr51 & 0x01 != 0),
            2 => (self.nr51 & 0x20 != 0, self.nr51 & 0x02 != 0),
            3 => (self.nr51 & 0x40 != 0, self.nr51 & 0x04 != 0),
            _ => (self.nr51 & 0x80 != 0, self.nr51 & 0x08 != 0),
        }
    }
}

/// The `NR51` bit that sends channel `channel` (1 to 4) to the left output.
pub open spec fn left_select_bit(channel: u8) -> u8 {
    if channel == 1 {
        0x10
    } else if channel == 2 {
        0x20
    } else if channel == 3 {
        0x40
    } else {
        0x80
    }
}

/// The `NR51` bit that sends channel `channel` (1 to 4) to the right output.
pub open spec fn right_select_bit(channel: u8) -> u8 {
    if channel == 1 {
        0x01
    } else if channel == 2 {
        0x02
    } else if channel == 3 {
        0x04
    } else {
        0x08
    }
}

impl Apu {
    /// Writes sound register `addr` (see `ApuView::written`).
    pub fn write_byte(&mut self, addr: u16, value: u8)
        requires
            old(self)@.wf(),
        ensures
            final(self)@ == old(self)@.written(addr, value),
            final(self)@.wf(),
            addr != 0xFF26 ==> final(self).enabled == old(self).enabled,
        decreases
            if addr == 0xFF26 {
                1int
            } else {
                0int
            },
            1int,
    {
        let is_length_reg = matches!(addr, 0xFF11 | 0xFF16 | 0xFF1B | 0xFF20);
        if !self.enabled && addr != 0xFF26 && !(0xFF30 <= addr && addr <= 0xFF3F) && !is_length_reg {
            return;
        }
        // Run channels up to current time before modifying state
        if self.enabled {
            self.run();
        }
        let frame_step = self.frame_step;
        match addr {
            0xFF10..=0xFF14 => self.ch1.write_register(addr - 0xFF10, value, frame_step),
            0xFF16..=0xFF19 => self.ch2.write_register(addr - 0xFF15, value, frame_step),
            0xFF1A..=0xFF1E => self.ch3.write_register(addr - 0xFF1A, value, frame_step),
            0xFF20..=0xFF23 => self.ch4.write_register(addr - 0xFF1F, value, frame_step),
            0xFF24 => {
                self.nr50 = value;
                self.volume_left = value & 0x07;
                self.volume_right = (value >> 4u8) & 0x07;
            },
            0xFF25 => {
                self.nr51 = value;
            },
            0xFF26 => {
                self.write_power(value);
            },
            0xFF30..=0xFF3F => {
                if !self.ch3.active {
                    self.ch3.wave_ram[(addr - 0xFF30) as usize] = value;
                } else if self.ch3.sample_recently_accessed {
                    let cw = self.ch3.current_wave;
                    proof {
                        lemma_counter_wraps(cw);
                    }
                    self.ch3.wave_ram[cw as usize >> 1] = value;
                }
            },
            _ => {},
        }
    }

    /// Writes the power register, the channels having caught up: turning the
    /// unit off zeroes registers `0xFF10` to `0xFF25`, turning it on restarts
    /// the frame sequencer.
    fn write_power(&mut self, value: u8)
        requires
            old(self)@.wf(),
        ensures
            final(self)@ == {
                let turn_on = value & 0x80 != 0;
                let cleared = if old(self).enabled && !turn_on {
                    ApuView { nr50: 0, nr51: 0, ..old(self)@.zeroed_from(0xFF10) }
                } else {
                    old(self)@
                };
                let restarted = if !old(self).enabled && turn_on {
                    ApuView { frame_step: 0, ..cleared }
                } else {
                    cleared
                };
                ApuView { enabled: turn_on, ..restarted }
            },
            final(self)@.wf(),
        decreases 1int, 0int,
    {
        let turn_on = value & 0x80 != 0;
        if self.enabled && !turn_on {
            // Reset all registers to 0 when turning off
            let mut i: u16 = 0xFF10;
            while i <= 0xFF25
                invariant
                    0xFF10 <= i <= 0xFF26,
                    self@.wf(),
                    self.enabled,
                    self@.zeroed_from(i) == old(self)@.zeroed_from(0xFF10),
                decreases 0xFF26 - i,
            {
                self.write_byte(i, 0);
                i += 1;
            }
            self.nr50 = 0;
            self.nr51 = 0;
        }
        if !self.enabled && turn_on {
            self.frame_step = 0;
        }
        self.enabled = turn_on;
    }
}

impl SquareChannel {
    /// Writes the trigger register (`NRx4`; see `nrx4_written`).
    pub fn write_nrx4(&mut self, value: u8, frame_step: u8)
        requires
            old(self).wf(),
        ensures
            *final(self) == old(self).nrx4_written(value, frame_step),
            final(self).wf(),
    {
        self.frequency = (self.frequency & 0x00FF) | (((value & 0x07) as u16) << 8u16);
        self.calculate_period();

        self.length.enable(value & 0x40 != 0, frame_step);
        self.active = self.active && self.length.is_active();

        if value & 0x80 != 0 {
            if self.dac_enabled {
                self.active = true;
            }
            self.length.trigger(frame_step);
            self.envelope.trigger();

            self.sweep_frequency = self.frequency;
            self.sweep_delay = if self.sweep_period != 0 {
                self.sweep_period
            } else {
                8
            };
            self.sweep_enabled = self.sweep_period > 0 || self.sweep_shift > 0;
            self.sweep_did_negate = false;

            if self.sweep_shift > 0 {
                self.sweep_calculate_frequency();
            }
        }
    }
}

impl SquareChannel {
    /// Writes register `NRx<reg>` (see `register_written`).
    pub fn write_register(&mut self, reg: u16, value: u8, frame_step: u8)
        requires
            old(self).wf(),
            old(self).length.max == 64,
            reg <= 4,
        ensures
            *final(self) == old(self).register_written(reg, value, frame_step),
            final(self).wf(),
            final(self).length.max == 64,
    {
        proof {
            lemma_register_field_bounds(value);
        }
        match reg {
            0 => {
                let old_negate = self.sweep_negate;
                self.sweep_period = (value >> 4u8) & 0x07;
                self.sweep_negate = value & 0x08 != 0;
                self.sweep_shift = value & 0x07;
                if old_negate && !self.sweep_negate && self.sweep_did_negate {
                    self.active = false;
                }
                self.sweep_did_negate = false;
            },
            1 => {
                self.duty = (value >> 6u8) & 0x03;
                self.length.set(value & 0x3F);
            },
            2 => {
                self.dac_enabled = value & 0xF8 != 0;
                self.active = self.active && self.dac_enabled;
                self.envelope.write_nrx2(value);
            },
            3 => {
                self.frequency = (self.frequency & 0x0700) | value as u16;
                self.calculate_period();
            },
            _ => {
                self.write_nrx4(value, frame_step);
            },
        }
    }
}

impl WaveChannel {
    /// Writes register `NR3<reg>` (see `register_written`).
    pub fn write_register(&mut self, reg: u16, value: u8, frame_step: u8)
        requires
            old(self).wf(),
            old(self).length.max == 256,
            reg <= 4,
        ensures
            *final(self) == old(self).register_written(reg, value, frame_step),
            final(self).wf(),
            final(self).length.max == 256,
    {
        proof {
            lemma_register_field_bounds(value);
        }
        match reg {
            0 => {
                self.dac_enabled = (value & 0x80) != 0;
                self.active = self.active && self.dac_enabled;
            },
            1 => {
                self.length.set(value);
            },
            2 => {
                self.volume_shift_code = (value >> 5u8) & 0x03;
            },
            3 => {
                self.frequency = (self.frequency & 0x0700) | value as u16;
                self.calculate_period();
            },
            _ => {
                self.frequency = (self.frequency & 0x00FF) | (((value & 0x07) as u16) << 8u16);
                self.calculate_period();

                self.length.enable(value & 0x40 != 0, frame_step);
                self.active = self.active && self.length.is_active();

                if value & 0x80 != 0 {
                    self.length.trigger(frame_step);
                    self.current_wave = 0;
                    // Additional delay on trigger
                    self.delay = self.period + 4;

                    if self.dac_enabled {
                        self.active = true;
                    }
                }
            },
        }
    }
}

impl NoiseChannel {
    /// Writes register `NR4<reg>` (see `register_written`).
    pub fn write_register(&mut self, reg: u16, value: u8, frame_step: u8)
        requires
            old(self).wf(),
            old(self).length.max == 64,
            1 <= reg <= 4,
        ensures
            *final(self) == old(self).register_written(reg, value, frame_step),
            final(self).wf(),
            final(self).length.max == 64,
    {
        proof {
            lemma_register_field_bounds(value);
            lemma_noise_period_bounds(value);
        }
        match reg {
            1 => {
                self.length.set(value & 0x3F);
            },
            2 => {
                self.dac_enabled = value & 0xF8 != 0;
                self.active = self.active && self.dac_enabled;
                self.envelope.write_nrx2(value);
            },
            3 => {
                self.reg_ff22 = value;
                self.shift_width = if value & 8 != 0 {
                    6
                } else {
                    14
                };
                let freq_div: u32 = match value & 7 {
                    0 => 8u32,
                    n => n as u32 * 16,
                };
                self.period = freq_div << (value >> 4u8);
            },
            _ => {
                self.length.enable(value & 0x40 != 0, frame_step);
                self.active = self.active && self.length.is_active();

                if value & 0x80 != 0 {
                    self.length.trigger(frame_step);
                    self.state = 0xFF;
                    self.delay = 0;

                    if self.dac_enabled {
                        self.active = true;
                    }
                    self.envelope.trigger();
                }
            },
        }
    }
}

/// The bits of a sound register that always read as 1 (write-only and unused
/// bits), for the registers `0xFF10` to `0xFF25`.
pub open spec fn read_mask(addr: u16) -> u8 {
    if addr == 0xFF10 {
        0x80
    } else if addr == 0xFF11 || addr == 0xFF16 {
        0x3F
    } else if addr == 0xFF14 || addr == 0xFF19 || addr == 0xFF1E || addr == 0xFF23 {
        0xBF
    } else if addr == 0xFF1A {
        0x7F
    } else if addr == 0xFF1C {
        0x9F
    } else if addr == 0xFF12 || addr == 0xFF17 || addr == 0xFF21 || addr == 0xFF22 || addr
        == 0xFF24 || addr == 0xFF25 {
        0x00
    } else {
        0xFF
    }
}

proof fn lemma_envelope_roundtrip(e: VolumeEnvelope, d: u8)
    ensures
        (VolumeEnvelope {
            period: d & 0x07,
            goes_up: d & 0x08 != 0,
            initial_volume: d >> 4u8,
            volume: d >> 4u8,
            ..e
        }).register() == d,
{
    assert((((d >> 4u8) & 0xF) << 4u8) | (if d & 0x08 != 0 { 0x08u8 } else { 0u8 }) | ((d & 0x07)
        & 0x07) == d) by (bit_vector);
}

/// On a powered unit, reading a sound register from `0xFF10` to `0xFF25` right
/// after writing `d` to it gives `d` with the register's always-set bits set.
pub proof fn lemma_apu_register_roundtrip(apu: ApuView, addr: u16, d: u8)
    requires
        apu.wf(),
        apu.enabled,
        0xFF10 <= addr <= 0xFF25,
    ensures
        apu.written(addr, d).register(addr) == read_mask(addr) | d,
{
    let c = apu.caught_up();
    let w = apu.written(addr, d);
    assert(w == c.register_written(addr, d));
    let b6 = if d & 0x40 != 0 { 1u8 } else { 0u8 };
    assert(0xBFu8 | (b6 << 6u8) == 0xBFu8 | d) by (bit_vector)
        requires
            b6 == if d & 0x40 != 0 { 1u8 } else { 0u8 },
    ;
    assert(0xFFu8 | d == 0xFF && 0x00u8 | d == d) by (bit_vector);
    if addr == 0xFF10 {
        let b3 = if d & 0x08 != 0 { 1u8 } else { 0u8 };
        assert(0x80 | (((d >> 4u8) & 0x07) << 4u8) | (b3 << 3u8) | (d & 0x07) == 0x80u8 | d) by (
        bit_vector)
            requires
                b3 == if d & 0x08 != 0 { 1u8 } else { 0u8 },
        ;
    } else if addr == 0xFF11 || addr == 0xFF16 {
        assert((((d >> 6u8) & 0x03) << 6u8) | 0x3F == 0x3Fu8 | d) by (bit_vector);
    } else if addr == 0xFF12 {
        lemma_envelope_roundtrip(c.ch1.envelope, d);
    } else if addr == 0xFF17 {
        lemma_envelope_roundtrip(c.ch2.envelope, d);
    } else if addr == 0xFF21 {
        lemma_envelope_roundtrip(c.ch4.envelope, d);
    } else if addr == 0xFF1A {
        let b7 = if d & 0x80 != 0 { 1u8 } else { 0u8 };
        assert(0x7Fu8 | (b7 << 7u8) == 0x7Fu8 | d) by (bit_vector)
            requires
                b7 == if d & 0x80 != 0 { 1u8 } else { 0u8 },
        ;
    } else if addr == 0xFF1C {
        assert(0x9Fu8 | (((d >> 5u8) & 0x03) << 5u8) == 0x9Fu8 | d) by (bit_vector);
    }
}

/// While channel 3 is silent, reading a wave RAM byte right after writing
/// it gives back what was written, powered or not.
pub proof fn lemma_wave_ram_roundtrip(apu: ApuView, addr: u16, d: u8)
    requires
        apu.wf(),
        !apu.ch3.active,
        0xFF30 <= addr <= 0xFF3F,
    ensures
        apu.written(addr, d).register(addr) == d,
{
    if apu.enabled {
        lemma_caught_up_keeps_wave_silent(apu);
    }
}

/// Catching up leaves the power state as it was.
proof fn lemma_caught_up_keeps_enabled(apu: ApuView)
    ensures
        apu.caught_up().enabled == apu.enabled,
    decreases apu.time - apu.prev_time,
{
    if apu.next_frame_time <= apu.time && apu.prev_time < apu.next_frame_time {
        let stepped = apu.channels_ran(apu.prev_time, apu.next_frame_time).sequenced();
        lemma_caught_up_keeps_enabled(
            ApuView {
                prev_time: apu.next_frame_time,
                next_frame_time: (apu.next_frame_time + CLOCKS_PER_FRAME) as u32,
                ..stepped
            },
        );
    }
}

/// Catching up never starts channel 3.
proof fn lemma_caught_up_keeps_wave_silent(apu: ApuView)
    requires
        !apu.ch3.active,
    ensures
        !apu.caught_up().ch3.active,
    decreases apu.time - apu.prev_time,
{
    lemma_wave_steps_keep_active(apu.ch3, apu.prev_time as int, apu.next_frame_time as int);
    lemma_wave_steps_keep_active(apu.ch3, apu.prev_time as int, apu.time as int);
    if apu.next_frame_time <= apu.time && apu.prev_time < apu.next_frame_time {
        let stepped = apu.channels_ran(apu.prev_time, apu.next_frame_time).sequenced();
        lemma_caught_up_keeps_wave_silent(
            ApuView {
                prev_time: apu.next_frame_time,
                next_frame_time: (apu.next_frame_time + CLOCKS_PER_FRAME) as u32,
                ..stepped
            },
        );
    }
}

proof fn lemma_wave_steps_keep_active(ch: WaveChannel, time: int, end: int)
    ensures
        ch.steps_from(time, end).0.active == ch.active,
    decreases if time < end {
        end - time
    } else {
        0
    },
{
    if !(time >= end || ch.period == 0) {
        let amp = ch.amplitude();
        let changed = amp != ch.last_amp;
        let next = WaveChannel {
            last_amp: if changed { amp as i32 } else { ch.last_amp },
            sample_recently_accessed: ch.sample_recently_accessed || time >= end - 2,
            current_wave: ((ch.current_wave + 1) as u8) & 31,
            ..ch
        };
        lemma_wave_steps_keep_active(next, time + ch.period, end);
    }
}

/// Turning a powered unit off clears `NR50` and `NR51` and reads back as off;
/// turning an unpowered unit on reads back as on with the frame sequencer at step 0.
pub proof fn lemma_power_switch(apu: ApuView, value: u8)
    requires
        apu.wf(),
    ensures
        apu.enabled && value & 0x80 == 0 ==> {
            let off = apu.written(0xFF26, value);
            &&& off.register(0xFF24) == 0
            &&& off.register(0xFF25) == 0
            &&& off.register(0xFF26) & 0x80 == 0
        },
        !apu.enabled && value & 0x80 != 0 ==> {
            let on = apu.written(0xFF26, value);
            &&& on.register(0xFF26) & 0x80 == 0x80
            &&& on.frame_step == 0
        },
{
    lemma_caught_up_keeps_enabled(apu);
    let w = apu.written(0xFF26, value);
    let b4 = bit(w.ch4.active);
    let b3 = bit(w.ch3.active);
    let b2 = bit(w.ch2.active);
    let b1 = bit(w.ch1.active);
    assert(b1 <= 1 && b2 <= 1 && b3 <= 1 && b4 <= 1);
    assert(b1 <= 1 && b2 <= 1 && b3 <= 1 && b4 <= 1 ==> (0x70u8 | (0u8 << 7u8) | (b4 << 3u8) | (
    b3 << 2u8) | (b2 << 1u8) | b1) & 0x80 == 0 && (0x70u8 | (1u8 << 7u8) | (b4 << 3u8) | (b3
        << 2u8) | (b2 << 1u8) | b1) & 0x80 == 0x80) by (bit_vector);
}

/// While the unit is powered off, time does not advance and writes to any
/// register other than the power register, wave RAM and the length registers
/// are ignored.
pub proof fn lemma_powered_off_ignores(apu: ApuView, cycles: u8, addr: u16, value: u8)
    requires
        !apu.enabled,
        !ApuView::writable_when_off(addr),
    ensures
        apu.stepped(cycles) == apu,
        apu.written(addr, value) == apu,
{
}

/// A sweep step moves the shadow frequency `f` by `f >> shift`: up to
/// `f + (f >> shift)` when the negate bit is clear (wrapping only when `f` is
/// above `0x7FFF`, far beyond the 11-bit frequencies) and down to
/// `f - (f >> shift)`, never below 0, when it is set.
pub proof fn lemma_sweep_direction(ch: SquareChannel)
    ensures
        ({
            let f = ch.sweep_frequency;
            let step = f >> ch.sweep_shift;
            &&& ch.sweep_negate ==> ch.swept_frequency() == f - step
            &&& ch.sweep_negate ==> ch.swept_frequency() <= f
            &&& !ch.sweep_negate ==> ch.swept_frequency() == (f + step) % 0x10000
            &&& !ch.sweep_negate && f <= 0x7FFF ==> ch.swept_frequency() == f + step
            &&& !ch.sweep_negate && f <= 0x7FFF ==> ch.swept_frequency() >= f
        }),
{
    let f = ch.sweep_frequency;
    let s = ch.sweep_shift;
    let step = f >> s;
    assert(f >> s <= f) by (bit_vector);
    if !ch.sweep_negate {
        if f + step > 0xFFFF {
            vstd::arithmetic::div_mod::lemma_fundamental_div_mod_converse(
                f + step,
                0x10000,
                1,
                f + step - 0x10000,
            );
        } else {
            vstd::arithmetic::div_mod::lemma_small_mod((f + step) as nat, 0x10000);
        }
    }
}

/// How many of the first `n` steps of duty pattern `duty` are high.
pub open spec fn high_steps(duty: u8, n: nat) -> nat
    decreases n,
{
    if n == 0 {
        0
    } else {
        high_steps(duty, (n - 1) as nat) + if duty_level(duty, (n - 1) as u8) == 1 {
            1nat
        } else {
            0nat
        }
    }
}

/// The four duty patterns are high for 1, 2, 4 and 6 of their 8 steps
/// (12.5%, 25%, 50% and 75%), every step being either high (+1) or low (-1).
pub proof fn lemma_duty_cycles()
    ensures
        high_steps(0, 8) == 1,
        high_steps(1, 8) == 2,
        high_steps(2, 8) == 4,
        high_steps(3, 8) == 6,
        forall|d: u8, p: u8| duty_level(d, p) == 1 || duty_level(d, p) == -1,
{
    reveal_with_fuel(high_steps, 9);
}

/// An envelope clock that completes a period (delay 1) moves the volume one
/// step towards 15 when the envelope goes up and towards 0 when it goes down,
/// staying within 0 to 15; other clocks only count the delay down, and a
/// stopped envelope (delay 0) keeps its volume.
pub proof fn lemma_envelope_direction(env: VolumeEnvelope)
    requires
        env.volume <= 15,
    ensures
        env.delay == 1 && env.goes_up ==> env.stepped().volume == if env.volume < 15 {
            env.volume + 1
        } else {
            15
        },
        env.delay == 1 && !env.goes_up ==> env.stepped().volume == if env.volume > 0 {
            env.volume - 1
        } else {
            0
        },
        env.delay == 1 ==> env.stepped().delay == env.period,
        env.delay != 1 ==> env.stepped().volume == env.volume,
        env.delay > 1 ==> env.stepped().delay == env.delay - 1,
        env.stepped().volume <= 15,
        env.goes_up ==> env.stepped().volume >= env.volume,
        !env.goes_up ==> env.stepped().volume <= env.volume,
{
}

/// The wave channel plays wave RAM as 4-bit samples, the high nibble of each
/// byte first (at even positions), at four times their value for full
/// volume (code 1), twice for half (code 2), once for a quarter (code 3), and
/// not at all for code 0.
pub proof fn lemma_wave_volume(ch: WaveChannel)
    requires
        ch.current_wave < 32,
        ch.volume_shift_code <= 3,
    ensures
        ({
            let byte = ch.wave_ram[(ch.current_wave / 2) as int];
            let sample: int = if ch.current_wave % 2 == 0 { (byte / 16) as int } else { (byte % 16) as int };
            ch.amplitude() == if ch.volume_shift_code == 0 {
                0
            } else if ch.volume_shift_code == 1 {
                4 * sample
            } else if ch.volume_shift_code == 2 {
                2 * sample
            } else {
                sample
            }
        }),
{
    let cw = ch.current_wave;
    let byte = ch.wave_ram[(cw >> 1u8) as int];
    let hi = byte >> 4u8;
    let lo = byte & 0x0F;
    assert(cw >> 1u8 == cw / 2 && hi == byte / 16 && lo == byte % 16 && (hi << 2u8) >> 0u8 == 4 * hi
        && (hi << 2u8) >> 1u8 == 2 * hi && (hi << 2u8) >> 2u8 == hi && (hi << 2u8) >> 6u8 == 0
        && (lo << 2u8) >> 0u8 == 4 * lo && (lo << 2u8) >> 1u8 == 2 * lo && (lo << 2u8) >> 2u8 == lo
        && (lo << 2u8) >> 6u8 == 0) by (bit_vector)
        requires
            hi == byte >> 4u8,
            lo == byte & 0x0F,
            cw < 32,
    ;
}

/// The `n`-th length clock of a counter.
pub open spec fn length_after(counter: LengthCounter, n: nat) -> LengthCounter
    decreases n,
{
    if n == 0 {
        counter
    } else {
        length_after(counter, (n - 1) as nat).stepped()
    }
}

/// An enabled length counter holding `v` runs out after exactly `v` length
/// clocks: after `n` clocks it holds `v - n`, down to 0 where it stays; a
/// disabled one never changes.
pub proof fn lemma_length_runs_out(counter: LengthCounter, n: nat)
    ensures
        counter.enabled ==> length_after(counter, n).value == if n <= counter.value {
            counter.value - n
        } else {
            0
        },
        !counter.enabled ==> length_after(counter, n) == counter,
        length_after(counter, n).enabled == counter.enabled,
    decreases n,
{
    if n > 0 {
        lemma_length_runs_out(counter, (n - 1) as nat);
    }
}

} // verus!
