//! Instruction fetch: reading and decoding the opcode at `PC`, then
//! gathering the operands its addressing mode names. Every immediate byte
//! read costs one machine cycle.

use vstd::prelude::*;
use crate::bus::{
    bus_clock_frame_eq,
    lemma_clock_stable_read,
    lemma_clock_stable_read_ok,
    spec_bus_read,
    spec_bus_read_ok,
    spec_clock_stable_addr,
    BUS,
};
use crate::cpu::{CPU, CpuError, spec_read_register};
use crate::instruction_table::spec_decode;
use crate::instructions::{AddrMode, RegType};

verus! {

/// How many bytes of immediate data a mode takes from the program counter.
pub open spec fn spec_mode_pc_adv(mode: AddrMode) -> u16 {
    match mode {
        AddrMode::AmRD8 | AddrMode::AmRA8 | AddrMode::AmA8R | AddrMode::AmHlSpr | AddrMode::AmD8
        | AddrMode::AmMrD8 => 1,
        AddrMode::AmD16 | AddrMode::AmRD16 | AddrMode::AmA16R | AddrMode::AmD16R
        | AddrMode::AmRA16 => 2,
        _ => 0,
    }
}

/// How many machine cycles the operand fetch of a mode consumes.
pub open spec fn spec_mode_fetch_cycles(mode: AddrMode) -> u32 {
    match mode {
        AddrMode::AmRD8 | AddrMode::AmRA8 | AddrMode::AmA8R | AddrMode::AmHlSpr | AddrMode::AmD8
        | AddrMode::AmMrD8 | AddrMode::AmRMR | AddrMode::AmRHli | AddrMode::AmRHld
        | AddrMode::AmMr => 1,
        AddrMode::AmD16 | AddrMode::AmRD16 | AddrMode::AmA16R | AddrMode::AmD16R => 2,
        AddrMode::AmRA16 => 3,
        _ => 0,
    }
}

/// Whether the mode leaves a memory destination for the execute stage.
pub open spec fn spec_mode_dest_is_mem(mode: AddrMode) -> bool {
    match mode {
        AddrMode::AmMRR | AddrMode::AmHliR | AddrMode::AmHldR | AddrMode::AmA8R
        | AddrMode::AmA16R | AddrMode::AmD16R | AddrMode::AmMrD8 | AddrMode::AmMr => true,
        _ => false,
    }
}

/// How the mode moves `HL`: the post-increment and post-decrement forms.
pub open spec fn spec_mode_hl_delta(mode: AddrMode) -> int {
    match mode {
        AddrMode::AmRHli | AddrMode::AmHliR => 1,
        AddrMode::AmRHld | AddrMode::AmHldR => -1,
        _ => 0,
    }
}

/// Whether the operand fetch of the mode touches the bus or the clock at
/// all.
pub open spec fn spec_mode_pure(mode: AddrMode) -> bool {
    match mode {
        AddrMode::AmImp | AddrMode::AmR | AddrMode::AmRR | AddrMode::AmMRR | AddrMode::AmHliR
        | AddrMode::AmHldR => true,
        _ => false,
    }
}

/// The 16-bit little-endian value at two consecutive bus addresses.
pub open spec fn spec_le16(b: BUS, addr: u16) -> u16 {
    ((spec_bus_read(b, ((addr + 1) % 0x10000) as u16) as u16) * 0x100 + spec_bus_read(b, addr))
        as u16
}

/// The address a register-indirect read uses: the register pair's value,
/// or the zero page at `$FF00 + C` for the `(C)` form.
pub open spec fn spec_rmr_addr(regs: crate::cpu::CpuRegisters, r2: RegType) -> u16 {
    if r2 == RegType::RtC {
        spec_read_register(regs, r2) | 0xFF00
    } else {
        spec_read_register(regs, r2)
    }
}

/// The fetch stage leaves the decoded instruction and the interrupt state
/// alone.
pub open spec fn cpu_fetch_frame(a: CPU, b: CPU) -> bool {
    &&& b.current_opcode == a.current_opcode
    &&& b.current_instruction == a.current_instruction
    &&& b.halted == a.halted
    &&& b.stepping == a.stepping
    &&& b.enable_ime == a.enable_ime
    &&& b.interrupt_master_enable == a.interrupt_master_enable
    &&& b.stopped == a.stopped
    &&& b.previous_pc == a.previous_pc
}


impl CPU {


    /// Reads one byte through the bus and pays the access's machine cycle.
    fn read_mem_cycle(&mut self, addr: u16) -> (r: Result<u8, CpuError>)
        requires
            old(self).wf(),
        ensures
            final(self).wf(),
            cpu_fetch_frame(*old(self), *final(self)),
            final(self).fetch_data == old(self).fetch_data,
            final(self).mem_dest == old(self).mem_dest,
            final(self).dest_is_mem == old(self).dest_is_mem,
            final(self).registers == old(self).registers,
            bus_clock_frame_eq(old(self).bus, final(self).bus),
            spec_bus_read_ok(old(self).bus, addr) ==> r == Ok::<u8, CpuError>(spec_bus_read(
                old(self).bus,
                addr,
            )),
            !spec_bus_read_ok(old(self).bus, addr) ==> r is Err,
    {
        let v = match self.bus.read(addr) {
            Ok(v) => v,
            Err(e) => return Err(CpuError::BusError(e)),
        };
        self.cycle(1);
        Ok(v)
    }

    /// Stores a 16-bit value into the `HL` pair.
    pub(crate) fn set_hl(&mut self, v: u16)
        ensures
            final(self).registers == (crate::cpu::CpuRegisters {
                h: (((v >> 8) & 0xFF) as u8),
                l: ((v & 0xFF) as u8),
                ..old(self).registers
            }),
            spec_read_register(final(self).registers, RegType::RtHl) == v,
            final(self).bus == old(self).bus,
            crate::cpu::cpu_aux_eq(*old(self), *final(self)),
            old(self).wf() ==> final(self).wf(),
    {
        proof {
            crate::cpu::lemma_u16_recombine(v);
        }
        self.registers.h = ((v >> 8) & 0xFF) as u8;
        self.registers.l = (v & 0xFF) as u8;
    }

    /// Reads one immediate byte at `PC`, pays its machine cycle and
    /// advances `PC`.
    fn read_imm8(&mut self) -> (r: Result<u8, CpuError>)
        requires
            old(self).wf(),
        ensures
            final(self).wf(),
            cpu_fetch_frame(*old(self), *final(self)),
            final(self).fetch_data == old(self).fetch_data,
            final(self).mem_dest == old(self).mem_dest,
            final(self).dest_is_mem == old(self).dest_is_mem,
            final(self).registers.a == old(self).registers.a,
            final(self).registers.f == old(self).registers.f,
            final(self).registers.b == old(self).registers.b,
            final(self).registers.c == old(self).registers.c,
            final(self).registers.d == old(self).registers.d,
            final(self).registers.e == old(self).registers.e,
            final(self).registers.h == old(self).registers.h,
            final(self).registers.l == old(self).registers.l,
            final(self).registers.sp == old(self).registers.sp,
            bus_clock_frame_eq(old(self).bus, final(self).bus),
            spec_bus_read_ok(old(self).bus, old(self).registers.pc) ==> r == Ok::<u8, CpuError>(
                spec_bus_read(old(self).bus, old(self).registers.pc),
            ),
            !spec_bus_read_ok(old(self).bus, old(self).registers.pc) ==> r is Err,
            r is Ok ==> final(self).registers.pc == ((old(self).registers.pc + 1) % 0x10000)
                as u16,
            r is Err ==> final(self).registers.pc == old(self).registers.pc,
    {
        let v = match self.bus.read(self.registers.pc) {
            Ok(v) => v,
            Err(e) => return Err(CpuError::BusError(e)),
        };
        self.cycle(1);
        self.registers.pc = self.registers.pc.wrapping_add(1);
        Ok(v)
    }

    /// Reads a little-endian 16-bit immediate at `PC`: two bytes, two
    /// machine cycles.
    fn read_imm16(&mut self) -> (r: Result<u16, CpuError>)
        requires
            old(self).wf(),
        ensures
            final(self).wf(),
            cpu_fetch_frame(*old(self), *final(self)),
            final(self).fetch_data == old(self).fetch_data,
            final(self).mem_dest == old(self).mem_dest,
            final(self).dest_is_mem == old(self).dest_is_mem,
            final(self).registers.a == old(self).registers.a,
            final(self).registers.f == old(self).registers.f,
            final(self).registers.b == old(self).registers.b,
            final(self).registers.c == old(self).registers.c,
            final(self).registers.d == old(self).registers.d,
            final(self).registers.e == old(self).registers.e,
            final(self).registers.h == old(self).registers.h,
            final(self).registers.l == old(self).registers.l,
            final(self).registers.sp == old(self).registers.sp,
            bus_clock_frame_eq(old(self).bus, final(self).bus),
            r is Ok ==> final(self).registers.pc == ((old(self).registers.pc + 2) % 0x10000)
                as u16,
            ({
                let pc = old(self).registers.pc;
                let pc1 = ((pc + 1) % 0x10000) as u16;
                &&& (spec_bus_read_ok(old(self).bus, pc) && spec_bus_read_ok(old(self).bus, pc1)
                    ==> r is Ok)
                &&& (!(spec_bus_read_ok(old(self).bus, pc) && spec_bus_read_ok(old(self).bus, pc1))
                    ==> r is Err)
                &&& (spec_bus_read_ok(old(self).bus, pc) && spec_bus_read_ok(old(self).bus, pc1)
                    && spec_clock_stable_addr(pc1) ==> r == Ok::<u16, CpuError>(
                    spec_le16(old(self).bus, pc),
                ))
            }),
    {
        let low = match self.read_imm8() {
            Ok(v) => v as u16,
            Err(e) => return Err(e),
        };
        let ghost mid = self.bus;
        let ghost pc1 = self.registers.pc;
        proof {
            lemma_clock_stable_read_ok(old(self).bus, mid, pc1);
            if spec_clock_stable_addr(pc1) {
                lemma_clock_stable_read(old(self).bus, mid, pc1);
            }
        }
        let high = match self.read_imm8() {
            Ok(v) => v as u16,
            Err(e) => return Err(e),
        };
        Ok(high * 0x100 + low)
    }
}

impl CPU {
    /// Reads the opcode at `PC`, decodes it and advances `PC`. An opcode
    /// outside the decode table is a fatal error; a `PC` in an unreadable
    /// cartridge hole fails the read.
    pub fn fetch_instruction(&mut self) -> (r: Result<(), CpuError>)
        requires
            old(self).wf(),
        ensures
            final(self).wf(),
            final(self).bus == old(self).bus,
            !spec_bus_read_ok(old(self).bus, old(self).registers.pc) ==> (r is Err && *final(self)
                == *old(self)),
            spec_bus_read_ok(old(self).bus, old(self).registers.pc) ==> {
                let opcode = spec_bus_read(old(self).bus, old(self).registers.pc);
                &&& final(self).current_opcode == opcode
                &&& (match spec_decode(opcode) {
                    Some(ins) => {
                        &&& r is Ok
                        &&& final(self).current_instruction == ins
                        &&& final(self).previous_pc == old(self).registers.pc
                        &&& final(self).registers == (crate::cpu::CpuRegisters {
                            pc: ((old(self).registers.pc + 1) % 0x10000) as u16,
                            ..old(self).registers
                        })
                        &&& final(self).fetch_data == old(self).fetch_data
                        &&& final(self).mem_dest == old(self).mem_dest
                        &&& final(self).dest_is_mem == old(self).dest_is_mem
                        &&& final(self).halted == old(self).halted
                        &&& final(self).enable_ime == old(self).enable_ime
                        &&& final(self).interrupt_master_enable == old(
                            self,
                        ).interrupt_master_enable
                        &&& final(self).stopped == old(self).stopped
                    },
                    None => {
                        &&& r == Err::<(), CpuError>(
                            CpuError::InvalidInstruction(opcode as u32),
                        )
                        &&& final(self).registers == old(self).registers
                    },
                })
            },
    {
        self.current_opcode = match self.bus.read(self.registers.pc) {
            Ok(v) => v,
            Err(e) => return Err(CpuError::BusError(e)),
        };
        self.current_instruction = match crate::instructions::Instruction::by_opcode(
            self.current_opcode,
        ) {
            Some(ins) => ins,
            None => return Err(CpuError::InvalidInstruction(self.current_opcode as u32)),
        };
        self.previous_pc = self.registers.pc;
        self.registers.pc = self.registers.pc.wrapping_add(1);
        Ok(())
    }

    /// Gathers the operands of the current instruction per its addressing
    /// mode: register values directly, immediates from `PC` (one machine
    /// cycle per byte), memory operands through the bus, and the
    /// post-increment and post-decrement of `HL`.
    #[verifier::rlimit(100)]
    pub fn fetch_data(&mut self) -> (r: Result<u32, CpuError>)
        requires
            old(self).wf(),
        ensures
            final(self).wf(),
            cpu_fetch_frame(*old(self), *final(self)),
            final(self).registers.a == old(self).registers.a,
            final(self).registers.f == old(self).registers.f,
            final(self).registers.b == old(self).registers.b,
            final(self).registers.c == old(self).registers.c,
            final(self).registers.d == old(self).registers.d,
            final(self).registers.e == old(self).registers.e,
            final(self).registers.sp == old(self).registers.sp,
            r matches Ok(n) ==> {
                let mode = old(self).current_instruction.mode;
                &&& n == spec_mode_fetch_cycles(mode)
                &&& final(self).dest_is_mem == spec_mode_dest_is_mem(mode)
                &&& final(self).registers.pc == ((old(self).registers.pc + spec_mode_pc_adv(mode))
                    % 0x10000) as u16
                &&& spec_read_register(final(self).registers, RegType::RtHl) == ((
                spec_read_register(old(self).registers, RegType::RtHl) + spec_mode_hl_delta(mode)
                    + 0x10000) % 0x10000) as u16
            },
            spec_mode_pure(old(self).current_instruction.mode) ==> final(self).bus == old(
                self,
            ).bus,
            ({
                let pre = *old(self);
                let b0 = pre.bus;
                let pc = pre.registers.pc;
                let pc1 = ((pc + 1) % 0x10000) as u16;
                let r1 = pre.current_instruction.reg_1;
                let r2 = pre.current_instruction.reg_2;
                match pre.current_instruction.mode {
                    AddrMode::AmImp => r is Ok && final(self).fetch_data == pre.fetch_data
                        && final(self).mem_dest == 0,
                    AddrMode::AmR => match r1 {
                        Some(rt) => r is Ok && final(self).fetch_data == spec_read_register(
                            pre.registers,
                            rt,
                        ),
                        None => r is Err,
                    },
                    AddrMode::AmRR => match r2 {
                        Some(rt) => r is Ok && final(self).fetch_data == spec_read_register(
                            pre.registers,
                            rt,
                        ),
                        None => r is Err,
                    },
                    AddrMode::AmRD8 | AddrMode::AmRA8 | AddrMode::AmHlSpr | AddrMode::AmD8 => {
                        &&& (spec_bus_read_ok(b0, pc) ==> (r is Ok && final(self).fetch_data
                            == spec_bus_read(b0, pc) as u16))
                        &&& (!spec_bus_read_ok(b0, pc) ==> r is Err)
                    },
                    AddrMode::AmD16 | AddrMode::AmRD16 => {
                        &&& (spec_bus_read_ok(b0, pc) && spec_bus_read_ok(b0, pc1) ==> r is Ok)
                        &&& (!(spec_bus_read_ok(b0, pc) && spec_bus_read_ok(b0, pc1))
                            ==> r is Err)
                        &&& (spec_bus_read_ok(b0, pc) && spec_bus_read_ok(b0, pc1)
                            && spec_clock_stable_addr(pc1) ==> final(self).fetch_data
                            == spec_le16(b0, pc))
                    },
                    AddrMode::AmMRR => match (r1, r2) {
                        (Some(d), Some(v)) => r is Ok && final(self).fetch_data
                            == spec_read_register(pre.registers, v) && final(self).mem_dest == (
                        if d == RegType::RtC {
                            (spec_read_register(pre.registers, d) | 0xFF00) as u16
                        } else {
                            spec_read_register(pre.registers, d)
                        }),
                        _ => r is Err,
                    },
                    AddrMode::AmRMR => match r2 {
                        Some(v) => {
                            let a = spec_rmr_addr(pre.registers, v);
                            &&& (spec_bus_read_ok(b0, a) ==> (r is Ok && final(self).fetch_data
                                == spec_bus_read(b0, a) as u16))
                            &&& (!spec_bus_read_ok(b0, a) ==> r is Err)
                        },
                        None => r is Err,
                    },
                    AddrMode::AmRHli | AddrMode::AmRHld => {
                        let hl = spec_read_register(pre.registers, RegType::RtHl);
                        &&& (spec_bus_read_ok(b0, hl) ==> (r is Ok && final(self).fetch_data
                            == spec_bus_read(b0, hl) as u16))
                        &&& (!spec_bus_read_ok(b0, hl) ==> r is Err)
                    },
                    AddrMode::AmHliR | AddrMode::AmHldR => match (r1, r2) {
                        (Some(d), Some(v)) => r is Ok && final(self).fetch_data
                            == spec_read_register(pre.registers, v) && final(self).mem_dest
                            == spec_read_register(pre.registers, d),
                        _ => r is Err,
                    },
                    AddrMode::AmA8R => {
                        &&& (spec_bus_read_ok(b0, pc) ==> (r is Ok && final(self).mem_dest
                            == spec_bus_read(b0, pc) as u16))
                        &&& (!spec_bus_read_ok(b0, pc) ==> r is Err)
                    },
                    AddrMode::AmA16R | AddrMode::AmD16R => {
                        &&& (spec_bus_read_ok(b0, pc) && spec_bus_read_ok(b0, pc1) ==> r is Ok)
                        &&& (!(spec_bus_read_ok(b0, pc) && spec_bus_read_ok(b0, pc1))
                            ==> r is Err)
                        &&& (spec_bus_read_ok(b0, pc) && spec_bus_read_ok(b0, pc1)
                            && spec_clock_stable_addr(pc1) ==> (final(self).mem_dest == spec_le16(
                            b0,
                            pc,
                        ) && match r2 {
                            Some(v) => v != RegType::RtPc ==> final(self).fetch_data
                                == spec_read_register(pre.registers, v),
                            None => final(self).fetch_data == 0,
                        }))
                    },
                    AddrMode::AmMrD8 => match r1 {
                        Some(d) => {
                            &&& (spec_bus_read_ok(b0, pc) ==> (r is Ok && final(self).fetch_data
                                == spec_bus_read(b0, pc) as u16))
                            &&& (spec_bus_read_ok(b0, pc) && d != RegType::RtPc
                                ==> final(self).mem_dest == spec_read_register(pre.registers, d))
                            &&& (!spec_bus_read_ok(b0, pc) ==> r is Err)
                        },
                        None => !spec_bus_read_ok(b0, pc) ==> r is Err,
                    },
                    AddrMode::AmMr => match r1 {
                        Some(d) => {
                            let a = spec_read_register(pre.registers, d);
                            &&& (spec_bus_read_ok(b0, a) ==> (r is Ok && final(self).fetch_data
                                == spec_bus_read(b0, a) as u16 && final(self).mem_dest == a))
                            &&& (!spec_bus_read_ok(b0, a) ==> r is Err)
                        },
                        None => r is Err,
                    },
                    AddrMode::AmRA16 => {
                        let a = spec_le16(b0, pc);
                        &&& (!(spec_bus_read_ok(b0, pc) && spec_bus_read_ok(b0, pc1))
                            ==> r is Err)
                        &&& (spec_bus_read_ok(b0, pc) && spec_bus_read_ok(b0, pc1)
                            && spec_clock_stable_addr(pc1) ==> {
                            &&& (spec_bus_read_ok(b0, a) ==> r is Ok)
                            &&& (!spec_bus_read_ok(b0, a) ==> r is Err)
                            &&& (spec_bus_read_ok(b0, a) && spec_clock_stable_addr(a)
                                ==> final(self).fetch_data == spec_bus_read(b0, a) as u16)
                        })
                    },
                }
            }),
    {
        self.mem_dest = 0;
        self.dest_is_mem = false;

        match self.current_instruction.mode {
            AddrMode::AmImp => Ok(0),
            AddrMode::AmR => {
                self.fetch_data = match self.read_register(self.current_instruction.reg_1) {
                    Ok(v) => v,
                    Err(e) => return Err(e),
                };
                Ok(0)
            },
            AddrMode::AmRR => {
                self.fetch_data = match self.read_register(self.current_instruction.reg_2) {
                    Ok(v) => v,
                    Err(e) => return Err(e),
                };
                Ok(0)
            },
            AddrMode::AmRD8 | AddrMode::AmRA8 | AddrMode::AmHlSpr | AddrMode::AmD8 => {
                self.fetch_data = match self.read_imm8() {
                    Ok(v) => v as u16,
                    Err(e) => return Err(e),
                };
                Ok(1)
            },
            AddrMode::AmD16 | AddrMode::AmRD16 => {
                self.fetch_data = match self.read_imm16() {
                    Ok(v) => v,
                    Err(e) => return Err(e),
                };
                Ok(2)
            },
            AddrMode::AmMRR => {
                self.fetch_data = match self.read_register(self.current_instruction.reg_2) {
                    Ok(v) => v,
                    Err(e) => return Err(e),
                };
                self.mem_dest = match self.read_register(self.current_instruction.reg_1) {
                    Ok(v) => v,
                    Err(e) => return Err(e),
                };
                self.dest_is_mem = true;

                if matches!(self.current_instruction.reg_1, Some(RegType::RtC)) {
                    self.mem_dest = self.mem_dest | 0xFF00;
                }
                Ok(0)
            },
            AddrMode::AmRMR => {
                let mut addr = match self.read_register(self.current_instruction.reg_2) {
                    Ok(v) => v,
                    Err(e) => return Err(e),
                };
                if matches!(self.current_instruction.reg_2, Some(RegType::RtC)) {
                    addr = addr | 0xFF00;
                }
                self.fetch_data = match self.read_mem_cycle(addr) {
                    Ok(v) => v as u16,
                    Err(e) => return Err(e),
                };
                Ok(1)
            },
            AddrMode::AmRHli => {
                let hl = match self.read_register(Some(RegType::RtHl)) {
                    Ok(v) => v,
                    Err(e) => return Err(e),
                };
                self.fetch_data = match self.read_mem_cycle(hl) {
                    Ok(v) => v as u16,
                    Err(e) => return Err(e),
                };
                self.set_hl(hl.wrapping_add(1));
                Ok(1)
            },
            AddrMode::AmRHld => {
                let hl = match self.read_register(Some(RegType::RtHl)) {
                    Ok(v) => v,
                    Err(e) => return Err(e),
                };
                self.fetch_data = match self.read_mem_cycle(hl) {
                    Ok(v) => v as u16,
                    Err(e) => return Err(e),
                };
                self.set_hl(hl.wrapping_sub(1));
                Ok(1)
            },
            AddrMode::AmHliR => {
                self.fetch_data = match self.read_register(self.current_instruction.reg_2) {
                    Ok(v) => v,
                    Err(e) => return Err(e),
                };
                let hl = match self.read_register(Some(RegType::RtHl)) {
                    Ok(v) => v,
                    Err(e) => return Err(e),
                };
                self.mem_dest = match self.read_register(self.current_instruction.reg_1) {
                    Ok(v) => v,
                    Err(e) => return Err(e),
                };
                self.dest_is_mem = true;
                self.set_hl(hl.wrapping_add(1));
                Ok(0)
            },
            AddrMode::AmHldR => {
                self.fetch_data = match self.read_register(self.current_instruction.reg_2) {
                    Ok(v) => v,
                    Err(e) => return Err(e),
                };
                let hl = match self.read_register(Some(RegType::RtHl)) {
                    Ok(v) => v,
                    Err(e) => return Err(e),
                };
                self.mem_dest = match self.read_register(self.current_instruction.reg_1) {
                    Ok(v) => v,
                    Err(e) => return Err(e),
                };
                self.dest_is_mem = true;
                self.set_hl(hl.wrapping_sub(1));
                Ok(0)
            },
            AddrMode::AmA8R => {
                self.mem_dest = match self.read_imm8() {
                    Ok(v) => v as u16,
                    Err(e) => return Err(e),
                };
                self.dest_is_mem = true;
                Ok(1)
            },
            AddrMode::AmA16R | AddrMode::AmD16R => {
                self.mem_dest = match self.read_imm16() {
                    Ok(v) => v,
                    Err(e) => return Err(e),
                };
                self.dest_is_mem = true;
                if self.current_instruction.reg_2.is_some() {
                    self.fetch_data = match self.read_register(self.current_instruction.reg_2) {
                        Ok(v) => v,
                        Err(e) => return Err(e),
                    };
                } else {
                    self.fetch_data = 0;
                }
                Ok(2)
            },
            AddrMode::AmMrD8 => {
                self.fetch_data = match self.read_imm8() {
                    Ok(v) => v as u16,
                    Err(e) => return Err(e),
                };
                self.mem_dest = match self.read_register(self.current_instruction.reg_1) {
                    Ok(v) => v,
                    Err(e) => return Err(e),
                };
                self.dest_is_mem = true;
                Ok(1)
            },
            AddrMode::AmMr => {
                self.mem_dest = match self.read_register(self.current_instruction.reg_1) {
                    Ok(v) => v,
                    Err(e) => return Err(e),
                };
                self.dest_is_mem = true;
                let addr = self.mem_dest;
                self.fetch_data = match self.read_mem_cycle(addr) {
                    Ok(v) => v as u16,
                    Err(e) => return Err(e),
                };
                Ok(1)
            },
            AddrMode::AmRA16 => {
                let addr = match self.read_imm16() {
                    Ok(v) => v,
                    Err(e) => return Err(e),
                };
                let ghost mid = self.bus;
                proof {
                    lemma_clock_stable_read_ok(old(self).bus, mid, addr);
                    if spec_clock_stable_addr(addr) {
                        lemma_clock_stable_read(old(self).bus, mid, addr);
                    }
                }
                self.fetch_data = match self.read_mem_cycle(addr) {
                    Ok(v) => v as u16,
                    Err(e) => return Err(e),
                };
                Ok(3)
            },
        }
    }
}

} // verus!
