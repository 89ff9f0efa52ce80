//! The T-cycle counter: every machine cycle advances it by four.

use vstd::prelude::*;

verus! {

#[derive(Debug)]
pub enum TickError {
    GetTicksError,
}

pub struct TickManager {
    pub ticks: u64,
}

impl TickManager {
    pub fn new() -> (r: TickManager)
        ensures
            r.ticks == 0,
    {
        TickManager { ticks: 0 }
    }

    /// Counts `cycles` machine cycles: four T-cycles each.
    pub fn cycle(&mut self, cycles: u32)
        ensures
            final(self).ticks == (old(self).ticks + 4 * cycles) % 0x1_0000_0000_0000_0000,
    {
        let mut i: u32 = 0;
        while i < cycles
            invariant
                i <= cycles,
                self.ticks == (old(self).ticks + 4 * i) % 0x1_0000_0000_0000_0000,
            decreases cycles - i,
        {
            self.ticks = self.ticks.wrapping_add(4);
            i += 1;
        }
    }

    pub fn increment_ticks(&mut self) -> (r: Result<(), TickError>)
        ensures
            r is Ok,
            final(self).ticks == (old(self).ticks + 1) % 0x1_0000_0000_0000_0000,
    {
        self.ticks = self.ticks.wrapping_add(1);
        Ok(())
    }

    pub fn get_ticks(&self) -> (r: Result<u64, TickError>)
        ensures
            r == Ok::<u64, TickError>(self.ticks),
    {
        Ok(self.ticks)
    }

    pub fn set_ticks(&mut self, new_ticks: u64) -> (r: Result<(), TickError>)
        ensures
            r is Ok,
            final(self).ticks == new_ticks,
    {
        self.ticks = new_ticks;
        Ok(())
    }
}

} // verus!
