//! A Game Boy emulator core: registers, memory, the CPU instruction set,
//! timer, serial port, joypad, cartridge banking, picture and audio units.

pub mod register;
pub mod mmu;
pub mod cpu;
pub mod instructions;
pub mod timer;
pub mod serial;
pub mod joypad;
pub mod text;
pub mod cartridge;
pub mod ppu;
pub mod apu;
pub mod bus;
