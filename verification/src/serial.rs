use vstd::prelude::*;

verus! {

/// The serial port: a data register and a control register.
pub struct Serial {
    /// `SB`: the byte to send.
    pub data: u8,
    /// `SC`: bit 7 starts a transfer, bit 0 selects the internal clock.
    pub control: u8,
    pub transfer_in_progress: bool,
    pub transfer_cycles: u16,
}

impl Serial {
    /// The port at power-up: registers clear, no transfer in progress.
    pub open spec fn new_state() -> Serial {
        Serial { data: 0, control: 0, transfer_in_progress: false, transfer_cycles: 0 }
    }

    pub fn new() -> (serial: Self)
        ensures
            serial == Serial::new_state(),
    {
        Self { data: 0, control: 0, transfer_in_progress: false, transfer_cycles: 0 }
    }

    /// Whether `addr` is one of the serial registers, `0xFF01` or `0xFF02`.
    pub open spec fn is_register(addr: u16) -> bool {
        addr == 0xFF01 || addr == 0xFF02
    }

    pub fn read_byte(&self, addr: u16) -> (value: u8)
        requires
            Serial::is_register(addr),
        ensures
            value == if addr == 0xFF01 {
                self.data
            } else {
                self.control
            },
    {
        match addr {
            0xFF01 => self.data,
            _ => self.control,
        }
    }

    /// Whether writing `value` to the control register starts a transfer with
    /// the internal clock (bits 7 and 0 both set).
    pub open spec fn starts_transfer(value: u8) -> bool {
        value & 0x81 == 0x81
    }

    /// The port after `value` is written to a serial register, and the byte
    /// sent. A write to the control register that starts a transfer with the
    /// internal clock sends the data byte at once and clears bit 7 of the
    /// control register; any other write sends nothing.
    pub open spec fn written(self, addr: u16, value: u8) -> (Serial, Option<u8>) {
        if addr == 0xFF01 {
            (Serial { data: value, ..self }, None)
        } else if Serial::starts_transfer(value) {
            (Serial { control: value & !0x80u8, ..self }, Some(self.data))
        } else {
            (Serial { control: value, ..self }, None)
        }
    }

    /// Writes a serial register (see `written`); the byte sent is returned, to
    /// be printed.
    pub fn write_byte(&mut self, addr: u16, value: u8) -> (sent: Option<u8>)
        requires
            Serial::is_register(addr),
        ensures
            (*final(self), sent) == old(self).written(addr, value),
    {
        match addr {
            0xFF01 => {
                self.data = value;
                None
            },
            _ => {
                self.control = value;
                if value & 0x81 == 0x81 {
                    self.control &= !0x80;
                    Some(self.data)
                } else {
                    None
                }
            },
        }
    }

    /// Advances a transfer in progress by `cycles`; when it completes, clears
    /// the control register and returns `true` to request the serial interrupt.
    pub fn step(&mut self, cycles: u8) -> (done: bool)
        ensures
            !old(self).transfer_in_progress ==> *final(self) == *old(self) && !done,
            old(self).transfer_in_progress ==> {
                let left = if old(self).transfer_cycles >= cycles {
                    (old(self).transfer_cycles - cycles) as u16
                } else {
                    0u16
                };
                &&& done == (left == 0)
                &&& done ==> *final(self) == (Serial {
                    transfer_cycles: 0,
                    transfer_in_progress: false,
                    control: 0,
                    ..*old(self)
                })
                &&& !done ==> *final(self) == (Serial { transfer_cycles: left, ..*old(self) })
            },
    {
        if self.transfer_in_progress {
            self.transfer_cycles = self.transfer_cycles.saturating_sub(cycles as u16);
            if self.transfer_cycles == 0 {
                self.transfer_in_progress = false;
                self.control = 0;
                return true;  // Signal that interrupt should be set
            }
        }
        false
    }
}

impl Default for Serial {
    fn default() -> (serial: Self)
        ensures
            serial == Serial::new_state(),
    {
        Self::new()
    }
}

/// No write starts a timed transfer: a port with none in progress still has
/// none after any write, and then `step` never requests an interrupt.
pub proof fn lemma_serial_never_interrupts(serial: Serial, addr: u16, value: u8)
    requires
        !serial.transfer_in_progress,
        Serial::is_register(addr),
    ensures
        !serial.written(addr, value).0.transfer_in_progress,
{
}

/// Writing `SB` stores the byte to send and sends nothing; writing `SC` with
/// bits 7 and 0 set sends the stored byte, and any other `SC` value sends
/// nothing.
pub proof fn lemma_serial_sends_data(serial: Serial, value: u8)
    ensures
        serial.written(0xFF01, value).0.data == value,
        serial.written(0xFF01, value).1 == None::<u8>,
        value & 0x81 == 0x81 ==> serial.written(0xFF02, value).1 == Some(serial.data),
        value & 0x81 != 0x81 ==> serial.written(0xFF02, value).1 == None::<u8>,
        serial.written(0xFF02, value).0.data == serial.data,
{
}

} // verus!
