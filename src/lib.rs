//! Core of a DMG-family handheld console emulator: interrupt latch,
//! cartridge bank controllers, timer, joypad, pixel and audio units, the
//! memory bus, the CPU and the frame scheduler, each stepped per T-cycle.

pub mod bits;
pub mod interrupts;
pub mod cartridge_header;
pub mod clock;
pub mod timer;
pub mod joypad;
pub mod cartridge;
pub mod apu;
pub mod ppu;
pub mod hardware;
pub mod registers;
pub mod cpu;
pub mod emulator;
