//! Core of a cycle-driven emulator for the SM83-based handheld console:
//! CPU interpreter, memory bus, timer, interrupt controller, OAM-DMA and
//! the PPU mode state machine, with machine-checked contracts.

pub mod addresses;
pub mod bus;
pub mod cartridge;
pub mod cb;
pub mod color;
pub mod cpu;
pub mod cpu_fetch;
pub mod cpu_cb;
pub mod cpu_control;
pub mod cpu_flags;
pub mod cpu_interrupts;
pub mod cpu_loads;
pub mod cpu_processors;
pub mod cpu_stack;
pub mod cpu_step;
pub mod emu;
pub mod dma;
pub mod lcd;
pub mod ppu;
pub mod instruction_table;
pub mod interrupts;
pub mod io;
pub mod io_regions;
pub mod laws;
pub mod ram;
pub mod tick;
pub mod timer;
pub mod instructions;
pub mod util;

use vstd::prelude::*;

verus! {

} // verus!
