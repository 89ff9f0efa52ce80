//! The processor stack: `SP` grows downward, pushes store high byte first,
//! pops read little-endian.

use vstd::prelude::*;
use crate::bus::{spec_bus_read, spec_bus_read_ok, spec_bus_write_rel, BUS};
use crate::cpu::{cpu_aux_eq, CPU, CpuError};

verus! {

impl CPU {
    /// Decrements `SP`, then stores the byte there.
    pub fn stack_push(&mut self, data: u8) -> (r: Result<(), CpuError>)
        requires
            old(self).wf(),
        ensures
            r is Ok,
            final(self).wf(),
            cpu_aux_eq(*old(self), *final(self)),
            final(self).registers == (crate::cpu::CpuRegisters {
                sp: ((old(self).registers.sp - 1) % 0x10000) as u16,
                ..old(self).registers
            }),
            spec_bus_write_rel(
                old(self).bus,
                final(self).bus,
                ((old(self).registers.sp - 1) % 0x10000) as u16,
                data,
            ),
    {
        self.registers.sp = self.registers.sp.wrapping_sub(1);
        let r = self.bus.write(self.registers.sp, data);
        match r {
            Ok(()) => Ok(()),
            Err(e) => Err(CpuError::BusError(e)),
        }
    }

    /// Loads the byte at `SP`, then increments `SP`. Only a pop whose stack
    /// pointer sits in an unreadable cartridge hole fails.
    pub fn stack_pop(&mut self) -> (r: Result<u8, CpuError>)
        requires
            old(self).wf(),
        ensures
            final(self).wf(),
            cpu_aux_eq(*old(self), *final(self)),
            final(self).bus == old(self).bus,
            spec_bus_read_ok(old(self).bus, old(self).registers.sp) ==> {
                &&& r == Ok::<u8, CpuError>(spec_bus_read(old(self).bus, old(self).registers.sp))
                &&& final(self).registers == (crate::cpu::CpuRegisters {
                    sp: ((old(self).registers.sp + 1) % 0x10000) as u16,
                    ..old(self).registers
                })
            },
            !spec_bus_read_ok(old(self).bus, old(self).registers.sp) ==> (r is Err
                && final(self).registers == old(self).registers),
    {
        let data = match self.bus.read(self.registers.sp) {
            Ok(v) => v,
            Err(e) => return Err(CpuError::BusError(e)),
        };
        self.registers.sp = self.registers.sp.wrapping_add(1);
        Ok(data)
    }

    /// Pushes a 16-bit value: high byte first, then low, so the value sits
    /// little-endian at the new `SP`.
    pub fn stack_push_16(&mut self, data: u16) -> (r: Result<(), CpuError>)
        requires
            old(self).wf(),
        ensures
            r is Ok,
            final(self).wf(),
            cpu_aux_eq(*old(self), *final(self)),
            final(self).registers == (crate::cpu::CpuRegisters {
                sp: ((old(self).registers.sp - 2) % 0x10000) as u16,
                ..old(self).registers
            }),
            exists|mid: BUS|
                #[trigger] spec_bus_write_rel(
                    old(self).bus,
                    mid,
                    ((old(self).registers.sp - 1) % 0x10000) as u16,
                    ((data >> 8) & 0xFF) as u8,
                ) && spec_bus_write_rel(
                    mid,
                    final(self).bus,
                    ((old(self).registers.sp - 2) % 0x10000) as u16,
                    (data & 0xFF) as u8,
                ),
    {
        let r1 = self.stack_push(((data >> 8) & 0xFF) as u8);
        let ghost mid = self.bus;
        let r2 = self.stack_push((data & 0xFF) as u8);
        proof {
            assert(spec_bus_write_rel(
                old(self).bus,
                mid,
                ((old(self).registers.sp - 1) % 0x10000) as u16,
                ((data >> 8) & 0xFF) as u8,
            ) && spec_bus_write_rel(
                mid,
                final(self).bus,
                ((old(self).registers.sp - 2) % 0x10000) as u16,
                (data & 0xFF) as u8,
            ));
        }
        Ok(())
    }

    /// Pops a 16-bit little-endian value.
    pub fn stack_pop_16(&mut self) -> (r: Result<u16, CpuError>)
        requires
            old(self).wf(),
        ensures
            final(self).wf(),
            cpu_aux_eq(*old(self), *final(self)),
            final(self).bus == old(self).bus,
            spec_bus_read_ok(old(self).bus, old(self).registers.sp) && spec_bus_read_ok(
                old(self).bus,
                ((old(self).registers.sp + 1) % 0x10000) as u16,
            ) ==> {
                &&& r == Ok::<u16, CpuError>(
                    ((spec_bus_read(
                        old(self).bus,
                        ((old(self).registers.sp + 1) % 0x10000) as u16,
                    ) as u16) * 0x100 + spec_bus_read(old(self).bus, old(self).registers.sp))
                        as u16,
                )
                &&& final(self).registers == (crate::cpu::CpuRegisters {
                    sp: ((old(self).registers.sp + 2) % 0x10000) as u16,
                    ..old(self).registers
                })
            },
    {
        let low = match self.stack_pop() {
            Ok(v) => v as u16,
            Err(e) => return Err(e),
        };
        let high = match self.stack_pop() {
            Ok(v) => v as u16,
            Err(e) => return Err(e),
        };
        Ok(high * 0x100 + low)
    }
}

} // verus!
