//! A verified core for a Nintendo Entertainment System emulator: the 6502 CPU, its memory
//! bus, the picture processing unit, the audio processing unit and the cartridge mappers.
pub mod apu;
pub mod cpu;
pub mod mapper;
pub mod menu;
pub mod ppu;
pub mod processor;
pub mod rom;
