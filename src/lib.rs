pub mod alu;
pub mod bus;
pub mod cartridge;
pub mod cpu;
pub mod cpu_spec;
pub mod dma;
pub mod frame;
pub mod interrupts;
pub mod joypad;
pub mod mmu;
pub mod ppu;
pub mod timer;
