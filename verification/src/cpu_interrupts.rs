//! Interrupt servicing: when the master enable is set and a source is both
//! requested in `IF` and enabled in `IE`, the processor pushes `PC`, jumps
//! to the source's vector and acknowledges it — the lowest set bit first.

use vstd::prelude::*;
use crate::bus::{
    bus_clock_frame_eq,
    spec_bus_write_rel,
    spec_clock_view,
    spec_machine_cycles,
    BUS,
};
use crate::cpu::{cpu_aux_eq, CPU, CpuError};
use crate::interrupts::{spec_interrupt_mask, spec_interrupt_vector, IFlagsRegister, InterruptType};

verus! {

/// The highest-priority pending interrupt: the lowest bit set in both `IE`
/// and `IF`, none when no enabled source is requested.
pub open spec fn spec_lowest_pending(ie: u8, iflags: u8) -> Option<InterruptType> {
    if ie & iflags & 0x01 != 0 {
        Some(InterruptType::VBlank)
    } else if ie & iflags & 0x02 != 0 {
        Some(InterruptType::LcdStat)
    } else if ie & iflags & 0x04 != 0 {
        Some(InterruptType::Timer)
    } else if ie & iflags & 0x08 != 0 {
        Some(InterruptType::Serial)
    } else if ie & iflags & 0x10 != 0 {
        Some(InterruptType::JoyPad)
    } else {
        None
    }
}

/// Among the pending interrupts, none has a lower flag bit than the one
/// `spec_lowest_pending` picks.
pub proof fn lemma_lowest_pending_wins(ie: u8, iflags: u8, t: InterruptType)
    requires
        ie & iflags & (spec_interrupt_mask(t) as u8) != 0,
    ensures
        spec_lowest_pending(ie, iflags) matches Some(w) && spec_interrupt_mask(w)
            <= spec_interrupt_mask(t),
{
}

/// What servicing one interrupt promises: five machine cycles pass, the
/// return address's bytes are pushed at `SP-1` and `SP-2`, the vector is in
/// `PC`, the master enable and the halt state are down, and the machine
/// afterwards is exactly the pushed state with the source's request bit
/// acknowledged in `IF`.
pub open spec fn spec_serviced(pre: CPU, post: CPU, t: InterruptType) -> bool {
    &&& post.registers.pc == spec_interrupt_vector(t)
    &&& post.registers.sp == ((pre.registers.sp - 2) % 0x10000) as u16
    &&& !post.interrupt_master_enable
    &&& !post.halted
    &&& post.bus.int_flags.int_flags & (spec_interrupt_mask(t) as u8) == 0
    &&& post.fetch_data == pre.fetch_data
    &&& post.current_instruction == pre.current_instruction
    &&& post.enable_ime == pre.enable_ime
    &&& post.stopped == pre.stopped
    &&& exists|b1: BUS, m1: BUS, b2: BUS|
        {
            &&& spec_clock_view(b1) == spec_machine_cycles(spec_clock_view(pre.bus), pre.bus, 5)
            &&& bus_clock_frame_eq(pre.bus, b1)
            &&& #[trigger] spec_bus_write_rel(
                b1,
                m1,
                ((pre.registers.sp - 1) % 0x10000) as u16,
                ((pre.registers.pc >> 8) & 0xFF) as u8,
            )
            &&& #[trigger] spec_bus_write_rel(
                m1,
                b2,
                ((pre.registers.sp - 2) % 0x10000) as u16,
                (pre.registers.pc & 0xFF) as u8,
            )
            &&& post.bus == (BUS {
                int_flags: IFlagsRegister {
                    int_flags: b2.int_flags.int_flags & !(spec_interrupt_mask(t) as u8),
                },
                ..b2
            })
        }
}

impl CPU {
    /// Pushes the return address and jumps to an interrupt vector.
    pub fn interrupt_handler(&mut self, addr: u16) -> (r: Result<(), CpuError>)
        requires
            old(self).wf(),
        ensures
            r is Ok,
            final(self).wf(),
            cpu_aux_eq(*old(self), *final(self)),
            final(self).registers == (crate::cpu::CpuRegisters {
                sp: ((old(self).registers.sp - 2) % 0x10000) as u16,
                pc: addr,
                ..old(self).registers
            }),
            exists|mid: BUS|
                #[trigger] spec_bus_write_rel(
                    old(self).bus,
                    mid,
                    ((old(self).registers.sp - 1) % 0x10000) as u16,
                    ((old(self).registers.pc >> 8) & 0xFF) as u8,
                ) && spec_bus_write_rel(
                    mid,
                    final(self).bus,
                    ((old(self).registers.sp - 2) % 0x10000) as u16,
                    (old(self).registers.pc & 0xFF) as u8,
                ),
    {
        let pc = self.registers.pc;
        let r = self.stack_push_16(pc);
        self.registers.pc = addr;
        Ok(())
    }

    /// Services one source if it is both requested and enabled: five machine
    /// cycles pass, the return address is pushed, `PC` takes the vector, and
    /// the request bit is acknowledged. Without a request nothing happens.
    pub fn interruption_check(&mut self, addr: u16, interrupt_type: InterruptType) -> (r: Result<
        bool,
        CpuError,
    >)
        requires
            old(self).wf(),
            addr == spec_interrupt_vector(interrupt_type),
        ensures
            final(self).wf(),
            r is Ok,
            r matches Ok(taken) ==> taken == (old(self).bus.int_flags.int_flags
                & (spec_interrupt_mask(interrupt_type) as u8) != 0
                && old(self).bus.ie_register.int_flags & (spec_interrupt_mask(interrupt_type)
                as u8) != 0),
            r == Ok::<bool, CpuError>(false) ==> *final(self) == *old(self),
            r == Ok::<bool, CpuError>(true) ==> spec_serviced(
                *old(self),
                *final(self),
                interrupt_type,
            ),
    {
        let requested = self.bus.int_flags.has_interrupt(interrupt_type);
        let enabled = self.bus.ie_register.has_interrupt(interrupt_type);

        if requested && enabled {
            self.cycle(5);
            let ghost b1 = self.bus;
            let r = self.interrupt_handler(addr);
            match r {
                Ok(()) => {},
                Err(e) => return Err(e),
            }
            let ghost b2 = self.bus;
            proof {
                let sp1 = ((old(self).registers.sp - 1) % 0x10000) as u16;
                let sp2 = ((old(self).registers.sp - 2) % 0x10000) as u16;
                let hi = ((old(self).registers.pc >> 8) & 0xFF) as u8;
                let lo = (old(self).registers.pc & 0xFF) as u8;
                let m1 = choose|m1: BUS|
                    #[trigger] spec_bus_write_rel(b1, m1, sp1, hi) && spec_bus_write_rel(
                        m1,
                        b2,
                        sp2,
                        lo,
                    );
                assert(spec_bus_write_rel(b1, m1, sp1, hi) && spec_bus_write_rel(m1, b2, sp2, lo));
            }
            let ghost before = self.bus.int_flags.int_flags;
            self.bus.int_flags.remove_interrupt(interrupt_type);
            proof {
                let x = before;
                assert((x & !0x01u8) & 0x01u8 == 0 && (x & !0x02u8) & 0x02u8 == 0 && (x & !0x04u8)
                    & 0x04u8 == 0 && (x & !0x08u8) & 0x08u8 == 0 && (x & !0x10u8) & 0x10u8 == 0)
                    by (bit_vector);
            }
            self.interrupt_master_enable = false;
            self.halted = false;
            return Ok(true);
        }

        Ok(false)
    }

    /// Scans the five sources in priority order and services the first that
    /// is requested and enabled: the lowest set bit of `IE & IF` wins, and
    /// exactly one source is serviced.
    pub fn handler_interrupts(&mut self) -> (r: Result<(), CpuError>)
        requires
            old(self).wf(),
        ensures
            final(self).wf(),
            r is Ok,
            match spec_lowest_pending(
                old(self).bus.ie_register.int_flags,
                old(self).bus.int_flags.int_flags,
            ) {
                Some(t) => spec_serviced(*old(self), *final(self), t),
                None => *final(self) == *old(self),
            },
    {
        proof {
            let ie = old(self).bus.ie_register.int_flags;
            let fl = old(self).bus.int_flags.int_flags;
            assert((ie & fl & 0x01 != 0) == (fl & 0x01 != 0 && ie & 0x01 != 0)
                && (ie & fl & 0x02 != 0) == (fl & 0x02 != 0 && ie & 0x02 != 0)
                && (ie & fl & 0x04 != 0) == (fl & 0x04 != 0 && ie & 0x04 != 0)
                && (ie & fl & 0x08 != 0) == (fl & 0x08 != 0 && ie & 0x08 != 0)
                && (ie & fl & 0x10 != 0) == (fl & 0x10 != 0 && ie & 0x10 != 0)) by (bit_vector);
        }
        if match self.interruption_check(0x40, InterruptType::VBlank) {
            Ok(t) => t,
            Err(e) => return Err(e),
        } {
            return Ok(());
        }
        if match self.interruption_check(0x48, InterruptType::LcdStat) {
            Ok(t) => t,
            Err(e) => return Err(e),
        } {
            return Ok(());
        }
        if match self.interruption_check(0x50, InterruptType::Timer) {
            Ok(t) => t,
            Err(e) => return Err(e),
        } {
            return Ok(());
        }
        if match self.interruption_check(0x58, InterruptType::Serial) {
            Ok(t) => t,
            Err(e) => return Err(e),
        } {
            return Ok(());
        }
        if match self.interruption_check(0x60, InterruptType::JoyPad) {
            Ok(t) => t,
            Err(e) => return Err(e),
        } {
            return Ok(());
        }
        Ok(())
    }
}

} // verus!
