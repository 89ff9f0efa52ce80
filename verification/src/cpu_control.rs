//! Execution of loads, stacks, jumps, calls, returns and the 8/16-bit
//! increment, decrement and add instructions. A taken conditional branch
//! pays one extra machine cycle; calls and restarts pay for the push.

use vstd::prelude::*;
use crate::bus::{bus_clock_frame_eq, spec_bus_read, spec_bus_read_ok, spec_bus_write_rel, BUS};
use crate::cpu::{cpu_aux_eq, CPU, CpuError, spec_read_register, spec_write_register};
use crate::cpu_flags::{lemma_set_flags_bits, FlagMode};
use crate::cpu_processors::spec_check_condition;
use crate::instructions::{spec_is_16_bit, AddrMode, RegType};
use crate::util::spec_check_bit;

verus! {

/// The signed value of a relative-jump byte.
pub open spec fn spec_signed8(b: u8) -> int {
    if b < 0x80 {
        b as int
    } else {
        b - 0x100
    }
}

impl CPU {
    /// Branches to `addr` when the current condition holds, pushing the
    /// return address for calls and restarts. A taken branch costs one
    /// machine cycle, a taken push three.
    pub fn goto_addr(&mut self, addr: u16, push_pc: bool) -> (r: Result<u32, CpuError>)
        requires
            old(self).wf(),
        ensures
            final(self).wf(),
            cpu_aux_eq(*old(self), *final(self)),
            !spec_check_condition(old(self).current_instruction.cond, old(self).registers.f)
                ==> (r == Ok::<u32, CpuError>(0) && *final(self) == *old(self)),
            spec_check_condition(old(self).current_instruction.cond, old(self).registers.f) ==> {
                &&& r == Ok::<u32, CpuError>(
                    if push_pc {
                        3u32
                    } else {
                        1u32
                    },
                )
                &&& final(self).registers.pc == addr
                &&& final(self).registers.sp == if push_pc {
                    (((old(self).registers.sp - 2) % 0x10000) as u16)
                } else {
                    old(self).registers.sp
                }
                &&& final(self).registers.a == old(self).registers.a
                &&& final(self).registers.f == old(self).registers.f
                &&& final(self).registers.b == old(self).registers.b
                &&& final(self).registers.c == old(self).registers.c
                &&& final(self).registers.d == old(self).registers.d
                &&& final(self).registers.e == old(self).registers.e
                &&& final(self).registers.h == old(self).registers.h
                &&& final(self).registers.l == old(self).registers.l
                &&& (push_pc ==> exists|m1: BUS, m2: BUS|
                    #[trigger] spec_bus_write_rel(
                        old(self).bus,
                        m1,
                        ((old(self).registers.sp - 1) % 0x10000) as u16,
                        ((old(self).registers.pc >> 8) & 0xFF) as u8,
                    ) && #[trigger] spec_bus_write_rel(
                        m1,
                        m2,
                        ((old(self).registers.sp - 2) % 0x10000) as u16,
                        (old(self).registers.pc & 0xFF) as u8,
                    ) && bus_clock_frame_eq(m2, final(self).bus))
                &&& (!push_pc ==> bus_clock_frame_eq(old(self).bus, final(self).bus))
            },
    {
        if !self.check_condition() {
            return Ok(0);
        }

        if push_pc {
            let pc = self.registers.pc;
            let r = self.stack_push_16(pc);
            let ghost m2 = self.bus;
            self.pay_cycles(3);
            proof {
                assert(exists|m1: BUS|
                    #[trigger] spec_bus_write_rel(
                        old(self).bus,
                        m1,
                        ((old(self).registers.sp - 1) % 0x10000) as u16,
                        ((old(self).registers.pc >> 8) & 0xFF) as u8,
                    ) && #[trigger] spec_bus_write_rel(
                        m1,
                        m2,
                        ((old(self).registers.sp - 2) % 0x10000) as u16,
                        (old(self).registers.pc & 0xFF) as u8,
                    ));
            }
            self.registers.pc = addr;
            return Ok(3);
        }

        self.registers.pc = addr;
        self.pay_cycles(1);
        Ok(1)
    }

    /// `JP`: jumps to the fetched address when the condition holds.
    pub fn process_jp(&mut self) -> (r: Result<u32, CpuError>)
        requires
            old(self).wf(),
        ensures
            final(self).wf(),
            cpu_aux_eq(*old(self), *final(self)),
            !spec_check_condition(old(self).current_instruction.cond, old(self).registers.f)
                ==> (r == Ok::<u32, CpuError>(0) && *final(self) == *old(self)),
            spec_check_condition(old(self).current_instruction.cond, old(self).registers.f) ==> (r
                == Ok::<u32, CpuError>(1) && final(self).registers.pc == old(self).fetch_data
                && final(self).registers.sp == old(self).registers.sp),
    {
        let addr = self.fetch_data;
        self.goto_addr(addr, false)
    }

    /// `CALL`: pushes the return address and jumps when the condition
    /// holds.
    pub fn process_call(&mut self) -> (r: Result<u32, CpuError>)
        requires
            old(self).wf(),
        ensures
            final(self).wf(),
            cpu_aux_eq(*old(self), *final(self)),
            !spec_check_condition(old(self).current_instruction.cond, old(self).registers.f)
                ==> (r == Ok::<u32, CpuError>(0) && *final(self) == *old(self)),
            spec_check_condition(old(self).current_instruction.cond, old(self).registers.f) ==> (r
                == Ok::<u32, CpuError>(3) && final(self).registers.pc == old(self).fetch_data
                && final(self).registers.sp == ((old(self).registers.sp - 2) % 0x10000) as u16),
    {
        let addr = self.fetch_data;
        self.goto_addr(addr, true)
    }

    /// `RST`: pushes the return address and jumps to the instruction's
    /// restart vector.
    pub fn process_rst(&mut self) -> (r: Result<u32, CpuError>)
        requires
            old(self).wf(),
        ensures
            final(self).wf(),
            cpu_aux_eq(*old(self), *final(self)),
            !spec_check_condition(old(self).current_instruction.cond, old(self).registers.f)
                ==> (r == Ok::<u32, CpuError>(0) && *final(self) == *old(self)),
            spec_check_condition(old(self).current_instruction.cond, old(self).registers.f) ==> (r
                == Ok::<u32, CpuError>(3) && final(self).registers.pc == old(
                self,
            ).current_instruction.param as u16 && final(self).registers.sp == ((
            old(self).registers.sp - 2) % 0x10000) as u16),
    {
        let addr = self.current_instruction.param as u16;
        self.goto_addr(addr, true)
    }

    /// `JR`: a relative jump; the operand byte is sign-extended and added
    /// to the address of the next instruction. Taken: one extra machine
    /// cycle; not taken: none.
    pub fn process_jr(&mut self) -> (r: Result<u32, CpuError>)
        requires
            old(self).wf(),
        ensures
            final(self).wf(),
            cpu_aux_eq(*old(self), *final(self)),
            !spec_check_condition(old(self).current_instruction.cond, old(self).registers.f)
                ==> (r == Ok::<u32, CpuError>(0) && *final(self) == *old(self)),
            spec_check_condition(old(self).current_instruction.cond, old(self).registers.f) ==> (r
                == Ok::<u32, CpuError>(1) && final(self).registers.pc == ((old(self).registers.pc
                + spec_signed8((old(self).fetch_data & 0xFF) as u8) + 0x10000) % 0x10000) as u16
                && final(self).registers.sp == old(self).registers.sp),
    {
        let b: u8 = (self.fetch_data & 0xFF) as u8;
        let next_pc: u16 = if b < 0x80 {
            self.registers.pc.wrapping_add(b as u16)
        } else {
            self.registers.pc.wrapping_add(b as u16).wrapping_sub(0x100)
        };
        self.goto_addr(next_pc, false)
    }

    /// `RET`: pops the return address when the condition holds. A
    /// conditional return pays one extra cycle for the condition test.
    pub fn process_ret(&mut self) -> (r: Result<u32, CpuError>)
        requires
            old(self).wf(),
        ensures
            final(self).wf(),
            cpu_aux_eq(*old(self), *final(self)),
            ({
                let cost: u32 = if old(self).current_instruction.cond is Some {
                    1u32
                } else {
                    0u32
                };
                &&& (!spec_check_condition(
                    old(self).current_instruction.cond,
                    old(self).registers.f,
                ) ==> (r == Ok::<u32, CpuError>(cost) && final(self).registers == old(
                    self,
                ).registers))
                &&& (spec_check_condition(
                    old(self).current_instruction.cond,
                    old(self).registers.f,
                ) && spec_bus_read_ok(old(self).bus, old(self).registers.sp) && spec_bus_read_ok(
                    old(self).bus,
                    ((old(self).registers.sp + 1) % 0x10000) as u16,
                ) ==> (r == Ok::<u32, CpuError>((cost + 3) as u32) && final(self).registers.pc == ((
                spec_bus_read(
                    old(self).bus,
                    ((old(self).registers.sp + 1) % 0x10000) as u16,
                ) as u16) * 0x100 + spec_bus_read(old(self).bus, old(self).registers.sp)) as u16
                    && final(self).registers.sp == ((old(self).registers.sp + 2) % 0x10000) as u16))
            }),
    {
        let mut cycles: u32 = 0;
        if self.current_instruction.cond.is_some() {
            cycles += 1;
        }

        if !self.check_condition() {
            if cycles > 0 {
                self.pay_cycles(1);
            }
            return Ok(cycles);
        }

        let addr = match self.stack_pop_16() {
            Ok(v) => v,
            Err(e) => return Err(e),
        };
        self.registers.pc = addr;
        self.pay_cycles(cycles + 3);
        Ok(cycles + 3)
    }

    /// `RETI`: a return that raises the master enable at once.
    pub fn process_reti(&mut self) -> (r: Result<u32, CpuError>)
        requires
            old(self).wf(),
        ensures
            final(self).wf(),
            final(self).interrupt_master_enable,
            spec_bus_read_ok(old(self).bus, old(self).registers.sp) && spec_bus_read_ok(
                old(self).bus,
                ((old(self).registers.sp + 1) % 0x10000) as u16,
            ) && old(self).current_instruction.cond is None ==> (r == Ok::<u32, CpuError>(3)
                && final(self).registers.pc == ((spec_bus_read(
                old(self).bus,
                ((old(self).registers.sp + 1) % 0x10000) as u16,
            ) as u16) * 0x100 + spec_bus_read(old(self).bus, old(self).registers.sp)) as u16
                && final(self).registers.sp == ((old(self).registers.sp + 2) % 0x10000) as u16),
    {
        self.interrupt_master_enable = true;
        self.process_ret()
    }

    /// `POP`: pops two bytes into a register pair; popping into `AF`
    /// clears the low nibble of `F`.
    pub fn process_pop(&mut self) -> (r: Result<u32, CpuError>)
        requires
            old(self).wf(),
        ensures
            final(self).wf(),
            cpu_aux_eq(*old(self), *final(self)),
            bus_clock_frame_eq(old(self).bus, final(self).bus),
            old(self).current_instruction.reg_1 matches Some(rt) ==> ({
                let lo = spec_bus_read(old(self).bus, old(self).registers.sp);
                let hi = spec_bus_read(
                    old(self).bus,
                    ((old(self).registers.sp + 1) % 0x10000) as u16,
                );
                spec_bus_read_ok(old(self).bus, old(self).registers.sp) && spec_bus_read_ok(
                    old(self).bus,
                    ((old(self).registers.sp + 1) % 0x10000) as u16,
                ) ==> (r == Ok::<u32, CpuError>(2) && final(self).registers == spec_write_register(
                    (crate::cpu::CpuRegisters {
                        sp: ((old(self).registers.sp + 2) % 0x10000) as u16,
                        ..old(self).registers
                    }),
                    rt,
                    ((hi as u16) * 0x100 + lo) as u16,
                ))
            }),
    {
        let data_lo = match self.stack_pop() {
            Ok(v) => v as u16,
            Err(e) => return Err(e),
        };
        let data_hi = match self.stack_pop() {
            Ok(v) => v as u16,
            Err(e) => return Err(e),
        };
        self.pay_cycles(2);
        let data = data_hi * 0x100 + data_lo;
        let r = self.write_register(self.current_instruction.reg_1, data);
        match r {
            Ok(()) => Ok(2),
            Err(e) => Err(e),
        }
    }

    /// `PUSH`: pushes a register pair, high byte first; three machine
    /// cycles beyond the opcode fetch.
    pub fn process_push(&mut self) -> (r: Result<u32, CpuError>)
        requires
            old(self).wf(),
        ensures
            final(self).wf(),
            cpu_aux_eq(*old(self), *final(self)),
            old(self).current_instruction.reg_1 matches Some(rt) ==> {
                let v = spec_read_register(old(self).registers, rt);
                &&& r == Ok::<u32, CpuError>(3)
                &&& final(self).registers == (crate::cpu::CpuRegisters {
                    sp: ((old(self).registers.sp - 2) % 0x10000) as u16,
                    ..old(self).registers
                })
                &&& exists|m1: BUS, m2: BUS|
                    #[trigger] spec_bus_write_rel(
                        old(self).bus,
                        m1,
                        ((old(self).registers.sp - 1) % 0x10000) as u16,
                        ((v >> 8) & 0xFF) as u8,
                    ) && #[trigger] spec_bus_write_rel(
                        m1,
                        m2,
                        ((old(self).registers.sp - 2) % 0x10000) as u16,
                        (v & 0xFF) as u8,
                    ) && bus_clock_frame_eq(m2, final(self).bus)
            },
            old(self).current_instruction.reg_1 is None ==> r is Err,
    {
        let data = match self.read_register_r1() {
            Ok(v) => v,
            Err(e) => return Err(e),
        };
        let r1 = self.stack_push_16(data);
        let ghost m2 = self.bus;
        self.pay_cycles(3);
        proof {
            assert(exists|m1: BUS|
                #[trigger] spec_bus_write_rel(
                    old(self).bus,
                    m1,
                    ((old(self).registers.sp - 1) % 0x10000) as u16,
                    ((spec_read_register(
                        old(self).registers,
                        old(self).current_instruction.reg_1->Some_0,
                    ) >> 8) & 0xFF) as u8,
                ) && spec_bus_write_rel(
                    m1,
                    m2,
                    ((old(self).registers.sp - 2) % 0x10000) as u16,
                    (spec_read_register(
                        old(self).registers,
                        old(self).current_instruction.reg_1->Some_0,
                    ) & 0xFF) as u8,
                ));
        }
        Ok(3)
    }
}

} // verus!
