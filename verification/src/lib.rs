//! A cycle-counting NES emulator core: the 6502 CPU, the picture processing
//! unit, cartridge mappers, the integer parts of the audio unit, and the
//! devices that sit on the CPU bus.

pub mod bus;
pub mod ram;
pub mod cpu6502;
pub mod processor;
pub mod cart;
pub mod mapper;
pub mod bus_device;
pub mod mirror;
pub mod peripherals;
pub mod nes;
pub mod ppu_regs;
pub mod palette;
pub mod ppu;
pub mod apu;
pub mod text;
pub mod trace;
pub mod debugger;
