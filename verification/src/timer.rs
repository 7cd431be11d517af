use vstd::prelude::*;

verus! {

/// The built-in timer.
///
/// `DIV` counts up with the internal counter; `TIMA` counts at the rate that
/// `TAC` selects, by watching one bit of the internal counter fall from 1 to 0,
/// and only while `TAC` enables it. When `TIMA` overflows it is reloaded from
/// `TMA` and an interrupt is requested. Time is counted in machine cycles, each
/// of them 4 clock cycles.
pub struct Timer {
    /// Divider register: the upper byte of the internal counter.
    pub div: u8,
    /// Timer counter.
    pub tima: u8,
    /// Timer modulo: the value `TIMA` is reloaded with after an overflow.
    pub tma: u8,
    /// Timer control: bit 2 enables `TIMA`, bits 0-1 select its rate.
    pub tac: u8,
    /// The internal 16-bit counter, advanced by 4 each machine cycle.
    pub div_counter: u16,
    /// Set when `TIMA` has overflowed and been reloaded.
    pub interrupt: bool,
    /// Clock cycles left before a pending reload of `TIMA` from `TMA`.
    pub tima_reload_delay: Option<u16>,
}

/// The bit of the internal counter whose falling edge advances `TIMA`, for a
/// `TAC` value: rates 4096, 262144, 65536 and 16384 Hz.
pub open spec fn div_bit(tac: u8) -> u16 {
    let sel = tac & 0x03;
    if sel == 0 {
        9
    } else if sel == 1 {
        3
    } else if sel == 2 {
        5
    } else {
        7
    }
}

/// Whether bit `bit` of `counter` is set.
pub open spec fn counter_bit(counter: u16, bit: u16) -> bool {
    (counter >> bit) & 1 != 0
}

impl Timer {
    /// `DIV` is the upper byte of the internal counter.
    pub open spec fn wf(self) -> bool {
        self.div == (self.div_counter >> 8u16) as u8
    }

    /// Whether `TAC` enables `TIMA`.
    pub open spec fn enabled(self) -> bool {
        self.tac & 0x04 != 0
    }

    /// One increment of `TIMA`: on overflow it wraps to 0 and a reload is
    /// scheduled 4 clock cycles later.
    pub open spec fn incremented(self) -> Timer {
        if self.tima == 0xFF {
            Timer { tima: 0, tima_reload_delay: Some(4u16), ..self }
        } else {
            Timer { tima: (self.tima + 1) as u8, ..self }
        }
    }

    /// A pending reload moves on by one machine cycle (up to 4 clock cycles);
    /// when it is due, `TIMA` takes the value of `TMA` and an interrupt is requested.
    pub open spec fn reload_advanced(self) -> Timer {
        match self.tima_reload_delay {
            Some(delay) => {
                let left = if delay < 4 { 0u16 } else { (delay - 4) as u16 };
                if left == 0 {
                    Timer { tima: self.tma, interrupt: true, tima_reload_delay: None, ..self }
                } else {
                    Timer { tima_reload_delay: Some(left), ..self }
                }
            },
            None => self,
        }
    }

    /// The timer after one machine cycle.
    pub open spec fn ticked(self) -> Timer {
        let counter = self.div_counter.wrapping_add(4);
        let bit = div_bit(self.tac);
        let moved = Timer { div_counter: counter, div: (counter >> 8u16) as u8, ..self };
        let counted = if self.enabled() && counter_bit(self.div_counter, bit) && !counter_bit(
            counter,
            bit,
        ) {
            moved.incremented()
        } else {
            moved
        };
        counted.reload_advanced()
    }

    /// The timer after `n` machine cycles.
    pub open spec fn ticked_n(self, n: nat) -> Timer
        decreases n,
    {
        if n == 0 {
            self
        } else {
            self.ticked_n((n - 1) as nat).ticked()
        }
    }

    /// The timer at power-up: every register and the counter at zero, no
    /// interrupt and no reload pending.
    pub open spec fn new_state() -> Timer {
        Timer {
            div: 0,
            tima: 0,
            tma: 0,
            tac: 0,
            div_counter: 0,
            interrupt: false,
            tima_reload_delay: None,
        }
    }

    pub fn new() -> (timer: Self)
        ensures
            timer == Timer::new_state(),
            timer.wf(),
    {
        let timer = Self {
            div: 0,
            tima: 0,
            tma: 0,
            tac: 0,
            div_counter: 0,
            interrupt: false,
            tima_reload_delay: None,
        };
        proof {
            lemma_zero_div();
        }
        timer
    }

    fn timer_enabled(&self) -> (enabled: bool)
        ensures
            enabled == self.enabled(),
    {
        self.tac & 0x04 != 0
    }

    fn get_div_bit(&self, tac: u8) -> (bit: u16)
        ensures
            bit == div_bit(tac),
    {
        assert(tac & 0x03 <= 3) by (bit_vector);
        match tac & 0x03 {
            0 => 9,  // 4096 Hz (1024 T-cycles)
            1 => 3,  // 262144 Hz (16 T-cycles)
            2 => 5,  // 65536 Hz (64 T-cycles)
            3 => 7,  // 16384 Hz (256 T-cycles)
            _ => 9,
        }
    }

    /// Increments `TIMA`, scheduling a reload when it overflows.
    fn increment_tima(&mut self)
        ensures
            *final(self) == old(self).incremented(),
    {
        if self.tima == 0xFF {
            self.tima = 0;
            self.tima_reload_delay = Some(4);
        } else {
            self.tima = self.tima.wrapping_add(1);
        }
    }

    /// Advances the timer by `m_cycles` machine cycles, one at a time so that no
    /// falling edge of the fastest rate (every 16 clock cycles) is missed.
    pub fn update(&mut self, m_cycles: u8)
        ensures
            *final(self) == old(self).ticked_n(m_cycles as nat),
    {
        let mut i: u8 = 0;
        while i < m_cycles
            invariant
                i <= m_cycles,
                *self == old(self).ticked_n(i as nat),
            decreases m_cycles - i,
        {
            let ghost before = *self;
            let old_div_counter = self.div_counter;
            self.div_counter = self.div_counter.wrapping_add(4);
            self.div = (self.div_counter >> 8u16) as u8;

            let bit = self.get_div_bit(self.tac);
            let old_bit = ((old_div_counter >> bit) & 1) != 0;
            let new_bit = ((self.div_counter >> bit) & 1) != 0;
            let timer_enabled = self.timer_enabled();

            if timer_enabled && old_bit && !new_bit {
                self.increment_tima();
            }

            if let Some(delay) = self.tima_reload_delay {
                let dec = if delay < 4 { delay } else { 4 };
                let left = delay - dec;
                if left == 0 {
                    self.tima = self.tma;
                    self.interrupt = true;
                    self.tima_reload_delay = None;
                } else {
                    self.tima_reload_delay = Some(left);
                }
            }
            assert(*self == before.ticked());
            i += 1;
        }
    }

    /// Whether `addr` is one of the timer's registers, `0xFF04` to `0xFF07`.
    pub open spec fn is_register(addr: u16) -> bool {
        0xFF04 <= addr <= 0xFF07
    }

    /// The value the timer register at `addr` reads as.
    pub open spec fn register(self, addr: u16) -> u8 {
        if addr == 0xFF04 {
            self.div
        } else if addr == 0xFF05 {
            self.tima
        } else if addr == 0xFF06 {
            self.tma
        } else {
            self.tac
        }
    }

    pub fn read_byte(&self, addr: u16) -> (value: u8)
        requires
            Timer::is_register(addr),
        ensures
            value == self.register(addr),
    {
        match addr {
            0xFF04 => self.div,
            0xFF05 => self.tima,
            0xFF06 => self.tma,
            _ => self.tac,
        }
    }

    /// The timer after `value` is written to the register at `addr`.
    ///
    /// - `DIV`: the internal counter and `DIV` reset to 0; if the selected bit was
    ///   set and the timer is enabled, that falling edge increments `TIMA`.
    /// - `TIMA`: takes `value`, cancelling a pending reload.
    /// - `TMA`: takes `value`.
    /// - `TAC`: takes the low 3 bits of `value`; if the timer was enabled with
    ///   its selected bit set, and the new setting disables it or selects a bit
    ///   that is clear, that falling edge increments `TIMA`.
    pub open spec fn written(self, addr: u16, value: u8) -> Timer {
        if addr == 0xFF04 {
            let reset = Timer { div_counter: 0, div: 0, ..self };
            if self.enabled() && counter_bit(self.div_counter, div_bit(self.tac)) {
                reset.incremented()
            } else {
                reset
            }
        } else if addr == 0xFF05 {
            Timer { tima: value, tima_reload_delay: None, ..self }
        } else if addr == 0xFF06 {
            Timer { tma: value, ..self }
        } else {
            let new_tac = value & 0x7;
            let falls = self.enabled() && counter_bit(self.div_counter, div_bit(self.tac)) && (
            new_tac & 0x4 == 0 || !counter_bit(self.div_counter, div_bit(new_tac)));
            let counted = if falls {
                self.incremented()
            } else {
                self
            };
            Timer { tac: new_tac, ..counted }
        }
    }

    pub fn write_byte(&mut self, addr: u16, value: u8)
        requires
            Timer::is_register(addr),
        ensures
            *final(self) == old(self).written(addr, value),
    {
        match addr {
            0xFF04 => {
                let bit = self.get_div_bit(self.tac);
                let old_bit = ((self.div_counter >> bit) & 1) != 0;
                self.div_counter = 0;
                self.div = 0;
                let new_bit = false;
                if self.timer_enabled() && old_bit && !new_bit {
                    self.increment_tima();
                }
            },
            0xFF05 => {
                self.tima = value;
                if self.tima_reload_delay.is_some() {
                    self.tima_reload_delay = None;
                }
            },
            0xFF06 => {
                self.tma = value;
            },
            _ => {
                let old_bit = ((self.div_counter >> self.get_div_bit(self.tac)) & 1) != 0;
                let old_enabled = self.timer_enabled();
                let new_tac = value & 0x7;
                let new_bit = ((self.div_counter >> self.get_div_bit(new_tac)) & 1) != 0;
                let new_enabled = new_tac & 0x4 != 0;
                if old_enabled && old_bit && (!new_enabled || !new_bit) {
                    self.increment_tima();
                }
                self.tac = new_tac;
            },
        }
    }
}

/// Every operation of the timer keeps `DIV` equal to the upper byte of the
/// internal counter.
pub proof fn lemma_timer_keeps_div(timer: Timer, n: nat, addr: u16, value: u8)
    requires
        timer.wf(),
    ensures
        timer.ticked_n(n).wf(),
        Timer::is_register(addr) ==> timer.written(addr, value).wf(),
    decreases n,
{
    if n > 0 {
        lemma_timer_keeps_div(timer, (n - 1) as nat, addr, value);
    }
    lemma_zero_div();
}

proof fn lemma_zero_div()
    by (bit_vector)
    ensures
        (0u16 >> 8u16) as u8 == 0,
{
}

/// Reading a timer register right after writing it gives back: 0 for `DIV`,
/// the value written for `TIMA` and `TMA`, its low 3 bits for `TAC`.
pub proof fn lemma_timer_write_then_read(timer: Timer, value: u8)
    ensures
        timer.written(0xFF04, value).register(0xFF04) == 0,
        timer.written(0xFF05, value).register(0xFF05) == value,
        timer.written(0xFF06, value).register(0xFF06) == value,
        timer.written(0xFF07, value).register(0xFF07) == value & 0x7,
{
}

/// Advancing the timer by `a` machine cycles and then by `b` is the same as
/// advancing it by `a + b` at once.
pub proof fn lemma_timer_updates_compose(timer: Timer, a: nat, b: nat)
    ensures
        timer.ticked_n(a).ticked_n(b) == timer.ticked_n(a + b),
    decreases b,
{
    if b > 0 {
        lemma_timer_updates_compose(timer, a, (b - 1) as nat);
    }
}

/// Machine cycles between two increments of `TIMA` at the rate that `TAC`
/// selects: 256, 4, 16 or 64 (4096, 262144, 65536 or 16384 Hz).
pub open spec fn rate_cycles(tac: u8) -> nat {
    let sel = tac & 0x03;
    if sel == 0 {
        256
    } else if sel == 1 {
        4
    } else if sel == 2 {
        16
    } else {
        64
    }
}

/// Between a multiple of 4 and the next one (`y`, `x + 4` wrapped to 16
/// bits), each watched bit of the counter falls exactly when `y` is a
/// multiple of twice that bit.
proof fn lemma_falling_edge(x: u16, y: u16)
    by (bit_vector)
    requires
        x % 4 == 0,
        x + 4 <= 0xFFFF ==> y == x + 4,
        x + 4 > 0xFFFF ==> y == x + 4 - 0x10000,
    ensures
        ((x >> 3u16) & 1 != 0 && (y >> 3u16) & 1 == 0) == (y % 16 == 0),
        ((x >> 5u16) & 1 != 0 && (y >> 5u16) & 1 == 0) == (y % 64 == 0),
        ((x >> 7u16) & 1 != 0 && (y >> 7u16) & 1 == 0) == (y % 256 == 0),
        ((x >> 9u16) & 1 != 0 && (y >> 9u16) & 1 == 0) == (y % 1024 == 0),
{
}

/// An enabled timer whose counter starts on a boundary of its rate, with no
/// reload pending, advances `TIMA` once every `rate_cycles(TAC)` machine
/// cycles, as long as `TIMA` does not overflow; the counter moves 4 clock
/// cycles per machine cycle.
pub proof fn lemma_timer_rate(timer: Timer, n: nat)
    requires
        timer.enabled(),
        timer.tima_reload_delay is None,
        (timer.div_counter as nat) % (4 * rate_cycles(timer.tac)) == 0,
        timer.tima + n / rate_cycles(timer.tac) <= 0xFF,
    ensures
        timer.ticked_n(n).tima == timer.tima + n / rate_cycles(timer.tac),
        timer.ticked_n(n).div_counter == (timer.div_counter + 4 * n) % 0x10000,
        timer.ticked_n(n).tac == timer.tac,
        timer.ticked_n(n).tima_reload_delay is None,
        timer.ticked_n(n).interrupt == timer.interrupt,
    decreases n,
{
    if n > 0 {
        let p = rate_cycles(timer.tac);
        let m = (n - 1) as nat;
        let c0 = timer.div_counter as int;
        lemma_rate_step(c0, m as int, p as int);
        lemma_timer_rate(timer, m);
        let s = timer.ticked_n(m);
        let next = s.div_counter.wrapping_add(4);
        lemma_falling_edge(s.div_counter, next);
        if p == 4 {
            assert(div_bit(timer.tac) == 3);
        } else if p == 16 {
            assert(div_bit(timer.tac) == 5);
        } else if p == 64 {
            assert(div_bit(timer.tac) == 7);
        } else {
            assert(div_bit(timer.tac) == 9);
        }
    }
}

/// The counter arithmetic behind `lemma_timer_rate`, for a rate of `p`
/// machine cycles (`4 * p` clock cycles) and a counter `c0` on a boundary.
proof fn lemma_rate_step(c0: int, m: int, p: int)
    requires
        0 <= c0 < 0x10000,
        m >= 0,
        p == 4 || p == 16 || p == 64 || p == 256,
        c0 % (4 * p) == 0,
    ensures
        ((c0 + 4 * m) % 0x10000) % 4 == 0,
        (((c0 + 4 * m) % 0x10000 + 4) % 0x10000 == (c0 + 4 * (m + 1)) % 0x10000),
        (c0 + 4 * m) % 0x10000 + 4 <= 0xFFFF ==> ((c0 + 4 * m) % 0x10000 + 4) % 0x10000 == (c0 + 4
            * m) % 0x10000 + 4,
        (c0 + 4 * m) % 0x10000 + 4 > 0xFFFF ==> ((c0 + 4 * m) % 0x10000 + 4) % 0x10000 == (c0 + 4
            * m) % 0x10000 + 4 - 0x10000,
        ((c0 + 4 * (m + 1)) % 0x10000) % (4 * p) == 0 <==> (m + 1) % p == 0,
        (m + 1) / p == m / p + if (m + 1) % p == 0 {
            1int
        } else {
            0int
        },
        m / p <= (m + 1) / p,
{
    let big: int = 0x10000;
    let mm: int = 4 * p;
    let k: int = if p == 4 {
        4096
    } else if p == 16 {
        1024
    } else if p == 64 {
        256
    } else {
        64
    };
    assert(mm * k == big);
    let t = c0 + 4 * m;
    let u = t + 4;
    // the counter stays a multiple of 4
    vstd::arithmetic::div_mod::lemma_mod_mod(c0, 4, p);
    vstd::arithmetic::div_mod::lemma_fundamental_div_mod(c0, 4);
    vstd::arithmetic::div_mod::lemma_mod_multiples_vanish(c0 / 4 + m, 0, 4);
    assert(t == 4 * (c0 / 4 + m) + 0);
    vstd::arithmetic::div_mod::lemma_mod_mod(t, 4, 0x4000);
    // wrapping the counter commutes with adding 4
    vstd::arithmetic::div_mod::lemma_small_mod(4, 0x10000);
    vstd::arithmetic::div_mod::lemma_add_mod_noop(t, 4, 0x10000);
    let w = t % 0x10000;
    vstd::arithmetic::div_mod::lemma_mod_bound(t, 0x10000);
    if w + 4 <= 0xFFFF {
        vstd::arithmetic::div_mod::lemma_small_mod((w + 4) as nat, 0x10000);
    } else {
        vstd::arithmetic::div_mod::lemma_fundamental_div_mod_converse(w + 4, 0x10000, 1, w + 4 - 0x10000);
    }
    // the new counter is on a boundary exactly when m + 1 is a multiple of p
    vstd::arithmetic::div_mod::lemma_mod_mod(u, mm, k);
    vstd::arithmetic::div_mod::lemma_fundamental_div_mod(c0, mm);
    vstd::arithmetic::div_mod::lemma_mod_multiples_vanish(c0 / mm, 4 * (m + 1), mm);
    assert(u == mm * (c0 / mm) + 4 * (m + 1));
    vstd::arithmetic::div_mod::lemma_truncate_middle(m + 1, 4, p);
    // the quotient moves on by one exactly at a boundary
    vstd::arithmetic::div_mod::lemma_fundamental_div_mod(m, p);
    vstd::arithmetic::div_mod::lemma_mod_bound(m, p);
    let q = m / p;
    let r = m % p;
    if r + 1 < p {
        vstd::arithmetic::div_mod::lemma_fundamental_div_mod_converse(m + 1, p, q, r + 1);
    } else {
        assert(m + 1 == (q + 1) * p + 0) by (nonlinear_arith)
            requires
                m == p * q + r,
                r + 1 == p,
        ;
        vstd::arithmetic::div_mod::lemma_fundamental_div_mod_converse(m + 1, p, q + 1, 0);
    }
}

/// When `TIMA` overflows on a falling edge of the selected counter bit, the
/// same machine cycle reloads it from `TMA` and requests the interrupt; `TIMA`
/// below `0xFF` just goes up by one on such an edge.
pub proof fn lemma_timer_overflow_reloads(timer: Timer)
    requires
        timer.enabled(),
        timer.tima_reload_delay is None,
        counter_bit(timer.div_counter, div_bit(timer.tac)),
        !counter_bit(timer.div_counter.wrapping_add(4), div_bit(timer.tac)),
    ensures
        timer.tima == 0xFF ==> timer.ticked().tima == timer.tma && timer.ticked().interrupt
            && timer.ticked().tima_reload_delay is None,
        timer.tima < 0xFF ==> timer.ticked().tima == timer.tima + 1 && timer.ticked().interrupt
            == timer.interrupt,
{
}

} // verus!
