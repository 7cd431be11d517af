# rustyboy

A Game Boy emulator core written in Verus: every part of the machine that
computes (registers, CPU instruction set, memory map, timer, serial port,
joypad, cartridge header and bank controllers, picture unit and sound unit)
lives in `src/` with its behaviour stated as `requires`/`ensures` contracts
over mathematical models and proved by Verus.

Layout:

- `src/register.rs`, `src/mmu.rs`: register file and the CPU's memory.
- `src/cpu.rs`, `src/instructions.rs`: the processor, opcode dispatch and one
  verified function per instruction, each with a `pre_`/`post_` model.
- `src/timer.rs`, `src/serial.rs`, `src/joypad.rs`: I/O registers.
- `src/cartridge.rs`, `src/text.rs`: ROM header parsing and MBC1/2/3 banking.
- `src/ppu.rs`: scanline rendering and LCD mode/interrupt timing.
- `src/apu.rs`: the four sound channels, length/envelope/sweep units and the
  frame sequencer; each channel emits the exact stream of amplitude changes
  that the band-limited resampler consumes.
- `src/bus.rs`: the 16-bit address space, echo RAM and OAM DMA.
- `app/`: the program around the library: file loading, the window, audio
  output through `cpal`/`ringbuf`, resampling with `blip_buf` and float mixing.
- `tests/`: executable tests, including the laws proved in `src/` on
  concrete values.
