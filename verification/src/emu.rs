//! The emulator driver: owns the whole machine and runs the processor loop
//! until it is told to stop, a step budget runs out, or a fatal error
//! surfaces.

use vstd::prelude::*;
use crate::bus::BUS;
use crate::cartridge::Cartridge;
use crate::cpu::{CPU, CpuError};

verus! {

pub struct EMU {
    pub paused: bool,
    pub running: bool,
    pub die: bool,
    pub cpu: CPU,
}

impl EMU {
    /// A machine around the given cartridge, at power-on state.
    pub fn new(cartridge: Cartridge) -> (r: EMU)
        ensures
            !r.paused,
            !r.running,
            !r.die,
            r.cpu.wf(),
            r.cpu.registers.pc == 0x100,
    {
        EMU { paused: false, running: false, die: false, cpu: CPU::new(BUS::new(cartridge)) }
    }

    /// A machine around a blank cartridge image.
    pub fn default() -> (r: EMU)
        ensures
            !r.paused,
            !r.running,
            !r.die,
            r.cpu.wf(),
    {
        let rom = crate::ram::vec_zeroed(0x8000);
        let cartridge = match Cartridge::new(rom) {
            Ok(c) => c,
            Err(_) => Cartridge { rom_header: crate::cartridge::RomHeader::default(), rom_data: crate::ram::vec_zeroed(0x8000) },
        };
        EMU { paused: false, running: false, die: false, cpu: CPU::new(BUS::new(cartridge)) }
    }

    /// Asks the machine to stop: the processor loop exits at its next
    /// boundary.
    pub fn stop(&mut self)
        ensures
            final(self).die,
            !final(self).running,
            final(self).cpu.halted,
            final(self).cpu.bus == old(self).cpu.bus,
    {
        self.die = true;
        self.running = false;
        self.cpu.halted = true;
    }

    /// Steps the processor until a stop is requested, the step budget runs
    /// out, or a step fails; the error of a failed step surfaces.
    pub fn cpu_run(&mut self, max_steps: u64) -> (r: Result<(), CpuError>)
        requires
            old(self).cpu.wf(),
        ensures
            final(self).cpu.wf(),
            old(self).die || max_steps == 0 ==> (r is Ok && *final(self) == *old(self)),
    {
        if self.die || max_steps == 0 {
            return Ok(());
        }
        let mut steps: u64 = 0;
        while steps < max_steps && !self.die
            invariant
                self.cpu.wf(),
                !old(self).die,
                max_steps > 0,
            decreases max_steps - steps,
        {
            let r = self.cpu.step_cpu();
            match r {
                Ok(()) => {},
                Err(e) => return Err(e),
            }
            steps += 1;
        }
        Ok(())
    }
}

} // verus!
