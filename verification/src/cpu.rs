//! The SM83 processor core: the register file, the fetch/decode/execute
//! state, and register access. The low nibble of `F` is zero after every
//! mutation of the register file.

use vstd::prelude::*;
use crate::bus::{BUS, BusError, bus_clock_frame_eq, spec_bus_read, spec_bus_read_ok, spec_clock_view, spec_machine_cycles, spec_bus_write_rel};
use crate::instructions::{Instruction, InType, RegType};
use crate::tick::TickError;

verus! {

#[derive(Debug)]
pub enum CpuError {
    BusError(BusError),
    InvalidInstruction(u32),
    InvalidRegister,
    InvalidCb(u8),
    TickError(TickError),
}

/// The eight 8-bit registers and the two 16-bit ones.
pub struct CpuRegisters {
    pub a: u8,
    pub f: u8,
    pub b: u8,
    pub c: u8,
    pub d: u8,
    pub e: u8,
    pub h: u8,
    pub l: u8,
    pub pc: u16,
    pub sp: u16,
}

/// The processor: registers, decode state, interrupt latches, and the bus
/// it drives.
pub struct CPU {
    pub registers: CpuRegisters,
    pub fetch_data: u16,
    pub mem_dest: u16,
    pub current_opcode: u8,
    pub halted: bool,
    pub stepping: bool,
    pub dest_is_mem: bool,
    pub current_instruction: Instruction,
    pub enable_ime: bool,
    pub interrupt_master_enable: bool,
    pub stopped: bool,
    pub bus: BUS,
    pub previous_pc: u16,
}

/// The value a register or pair holds; pairs read big-endian.
pub open spec fn spec_read_register(regs: CpuRegisters, rt: RegType) -> u16 {
    match rt {
        RegType::RtA => regs.a as u16,
        RegType::RtF => regs.f as u16,
        RegType::RtB => regs.b as u16,
        RegType::RtC => regs.c as u16,
        RegType::RtD => regs.d as u16,
        RegType::RtE => regs.e as u16,
        RegType::RtH => regs.h as u16,
        RegType::RtL => regs.l as u16,
        RegType::RtAf => ((regs.a as u16) * 0x100 + (regs.f as u16)) as u16,
        RegType::RtBc => ((regs.b as u16) * 0x100 + (regs.c as u16)) as u16,
        RegType::RtDe => ((regs.d as u16) * 0x100 + (regs.e as u16)) as u16,
        RegType::RtHl => ((regs.h as u16) * 0x100 + (regs.l as u16)) as u16,
        RegType::RtSp => regs.sp,
        RegType::RtPc => regs.pc,
    }
}

/// The register file after writing a register or pair. Every write into
/// `F` keeps only its flag nibble: the low four bits stay zero.
pub open spec fn spec_write_register(regs: CpuRegisters, rt: RegType, value: u16) -> CpuRegisters {
    let lo = (value & 0xFF) as u8;
    let hi = ((value >> 8) & 0xFF) as u8;
    match rt {
        RegType::RtA => CpuRegisters { a: lo, ..regs },
        RegType::RtF => CpuRegisters { f: lo & 0xF0, ..regs },
        RegType::RtB => CpuRegisters { b: lo, ..regs },
        RegType::RtC => CpuRegisters { c: lo, ..regs },
        RegType::RtD => CpuRegisters { d: lo, ..regs },
        RegType::RtE => CpuRegisters { e: lo, ..regs },
        RegType::RtH => CpuRegisters { h: lo, ..regs },
        RegType::RtL => CpuRegisters { l: lo, ..regs },
        RegType::RtAf => CpuRegisters { a: hi, f: lo & 0xF0, ..regs },
        RegType::RtBc => CpuRegisters { b: hi, c: lo, ..regs },
        RegType::RtDe => CpuRegisters { d: hi, e: lo, ..regs },
        RegType::RtHl => CpuRegisters { h: hi, l: lo, ..regs },
        RegType::RtSp => CpuRegisters { sp: value, ..regs },
        RegType::RtPc => CpuRegisters { pc: value, ..regs },
    }
}

/// A write into `F` leaves its low nibble zero; writes elsewhere leave `F`
/// alone.
pub broadcast proof fn lemma_write_register_f(regs: CpuRegisters, rt: RegType, value: u16)
    ensures
        regs.f & 0x0F == 0 ==> (#[trigger] spec_write_register(regs, rt, value)).f & 0x0F == 0,
{
    let v = value;
    assert((((v & 0xFF) as u8) & 0xF0) & 0x0F == 0) by (bit_vector);
}


/// Splitting a 16-bit value into its bytes and recombining them gives the
/// value back.
pub broadcast proof fn lemma_u16_recombine(v: u16)
    by (bit_vector)
    ensures
        ((((#[trigger] (v >> 8)) & 0xFF) as u8) as u16) * 0x100 + (((v & 0xFF) as u8) as u16)
            == v,
{
}

/// An 8-bit register write succeeded: the named register took the value and
/// the bus did not move.
pub open spec fn reg_write_r8_ok(
    r: Result<(), CpuError>,
    pre: CPU,
    post: CPU,
    rt: RegType,
    value: u8,
) -> bool {
    &&& r is Ok
    &&& post.registers == spec_write_register(pre.registers, rt, value as u16)
    &&& post.bus == pre.bus
}

/// The decode and execution state of the processor agrees between two
/// states: everything but the registers and the bus.
pub open spec fn cpu_aux_eq(a: CPU, b: CPU) -> bool {
    &&& b.fetch_data == a.fetch_data
    &&& b.mem_dest == a.mem_dest
    &&& b.current_opcode == a.current_opcode
    &&& b.halted == a.halted
    &&& b.stepping == a.stepping
    &&& b.dest_is_mem == a.dest_is_mem
    &&& b.current_instruction == a.current_instruction
    &&& b.enable_ime == a.enable_ime
    &&& b.interrupt_master_enable == a.interrupt_master_enable
    &&& b.stopped == a.stopped
    &&& b.previous_pc == a.previous_pc
}

impl CPU {
    /// The bus is consistent and the low nibble of `F` is zero.
    pub open spec fn wf(self) -> bool {
        &&& self.bus.wf()
        &&& self.registers.f & 0x0F == 0
    }

    /// The post-boot register values, the machine attached.
    pub fn new(bus: BUS) -> (r: CPU)
        ensures
            r.bus == bus,
            r.registers.a == 0x01,
            r.registers.f == 0xB0,
            r.registers.b == 0,
            r.registers.c == 0x13,
            r.registers.d == 0,
            r.registers.e == 0xD8,
            r.registers.h == 0x01,
            r.registers.l == 0x4D,
            r.registers.pc == 0x100,
            r.registers.sp == 0xFFFE,
            r.fetch_data == 0,
            r.mem_dest == 0,
            r.current_opcode == 0,
            !r.halted,
            !r.stepping,
            !r.dest_is_mem,
            !r.enable_ime,
            !r.interrupt_master_enable,
            !r.stopped,
            r.previous_pc == 0x100,
            r.current_instruction.type_ == InType::InNop,
            bus.wf() ==> r.wf(),
    {
        proof {
            assert(0xB0u8 & 0x0F == 0) by (bit_vector);
        }
        CPU {
            registers: CpuRegisters {
                a: 0x01,
                f: 0xB0,
                b: 0,
                c: 0x13,
                d: 0,
                e: 0xD8,
                h: 0x01,
                l: 0x4D,
                pc: 0x100,
                sp: 0xFFFE,
            },
            fetch_data: 0,
            mem_dest: 0,
            current_opcode: 0,
            halted: false,
            stepping: false,
            dest_is_mem: false,
            current_instruction: Instruction::new(),
            enable_ime: false,
            interrupt_master_enable: false,
            stopped: false,
            previous_pc: 0x100,
            bus,
        }
    }

    /// Returns the processor to its post-boot state; the machine behind the
    /// bus keeps its contents.
    pub fn reset(&mut self)
        ensures
            final(self).bus == old(self).bus,
            final(self).registers.a == 0x01,
            final(self).registers.f == 0xB0,
            final(self).registers.b == 0,
            final(self).registers.c == 0x13,
            final(self).registers.d == 0,
            final(self).registers.e == 0xD8,
            final(self).registers.h == 0x01,
            final(self).registers.l == 0x4D,
            final(self).registers.pc == 0x100,
            final(self).registers.sp == 0xFFFE,
            !final(self).halted,
            !final(self).interrupt_master_enable,
            !final(self).enable_ime,
            !final(self).stopped,
    {
        self.registers = CpuRegisters {
            a: 0x01,
            f: 0xB0,
            b: 0,
            c: 0x13,
            d: 0,
            e: 0xD8,
            h: 0x01,
            l: 0x4D,
            pc: 0x100,
            sp: 0xFFFE,
        };
        self.fetch_data = 0;
        self.mem_dest = 0;
        self.current_opcode = 0;
        self.halted = false;
        self.stepping = false;
        self.dest_is_mem = false;
        self.current_instruction = Instruction::new();
        self.enable_ime = false;
        self.interrupt_master_enable = false;
        self.stopped = false;
        self.previous_pc = 0x100;
    }

    /// Advances the machine clock: the registers and decode state of the
    /// processor do not move, the peripherals do.
    pub fn cycle(&mut self, cycles: u32)
        requires
            old(self).wf(),
        ensures
            final(self).wf(),
            final(self).registers == old(self).registers,
            cpu_aux_eq(*old(self), *final(self)),
            bus_clock_frame_eq(old(self).bus, final(self).bus),
            spec_clock_view(final(self).bus) == spec_machine_cycles(
                spec_clock_view(old(self).bus),
                old(self).bus,
                cycles as nat,
            ),
    {
        self.bus.cycle(cycles);
    }

    /// Pays idle machine cycles: the peripherals advance, the processor
    /// stands still.
    pub(crate) fn pay_cycles(&mut self, n: u32)
        requires
            old(self).wf(),
        ensures
            final(self).wf(),
            final(self).registers == old(self).registers,
            cpu_aux_eq(*old(self), *final(self)),
            bus_clock_frame_eq(old(self).bus, final(self).bus),
    {
        self.bus.cycle(n);
    }

    /// Writes one byte through the bus, then pays the access's machine
    /// cycle.
    pub(crate) fn write_mem_cycle(&mut self, addr: u16, data: u8)
        requires
            old(self).wf(),
        ensures
            final(self).wf(),
            final(self).registers == old(self).registers,
            cpu_aux_eq(*old(self), *final(self)),
            exists|mid: BUS|
                #[trigger] spec_bus_write_rel(old(self).bus, mid, addr, data)
                    && bus_clock_frame_eq(mid, final(self).bus),
    {
        let r = self.bus.write(addr, data);
        let ghost mid = self.bus;
        self.bus.cycle(1);
        proof {
            assert(spec_bus_write_rel(old(self).bus, mid, addr, data) && bus_clock_frame_eq(
                mid,
                final(self).bus,
            ));
        }
    }

    /// Reads a register or pair; asking for no register is refused.
    pub fn read_register(&self, reg_type: Option<RegType>) -> (r: Result<u16, CpuError>)
        ensures
            reg_type matches Some(rt) ==> r == Ok::<u16, CpuError>(spec_read_register(
                self.registers,
                rt,
            )),
            reg_type is None ==> r is Err,
    {
        let reg_type = match reg_type {
            None => return Err(CpuError::InvalidRegister),
            Some(r) => r,
        };

        let value = match reg_type {
            RegType::RtA => self.registers.a as u16,
            RegType::RtF => self.registers.f as u16,
            RegType::RtB => self.registers.b as u16,
            RegType::RtC => self.registers.c as u16,
            RegType::RtD => self.registers.d as u16,
            RegType::RtE => self.registers.e as u16,
            RegType::RtH => self.registers.h as u16,
            RegType::RtL => self.registers.l as u16,
            RegType::RtAf => (self.registers.a as u16) * 0x100 + (self.registers.f as u16),
            RegType::RtBc => (self.registers.b as u16) * 0x100 + (self.registers.c as u16),
            RegType::RtDe => (self.registers.d as u16) * 0x100 + (self.registers.e as u16),
            RegType::RtHl => (self.registers.h as u16) * 0x100 + (self.registers.l as u16),
            RegType::RtSp => self.registers.sp,
            RegType::RtPc => self.registers.pc,
        };

        Ok(value)
    }

    /// Writes a register or pair; asking for no register is refused and
    /// changes nothing.
    pub fn write_register(&mut self, reg_type: Option<RegType>, value: u16) -> (r: Result<
        (),
        CpuError,
    >)
        ensures
            reg_type matches Some(rt) ==> (r is Ok && final(self).registers
                == spec_write_register(old(self).registers, rt, value)),
            reg_type is None ==> (r is Err && final(self).registers == old(self).registers),
            final(self).bus == old(self).bus,
            cpu_aux_eq(*old(self), *final(self)),
            old(self).wf() ==> final(self).wf(),
    {
        proof {
            broadcast use lemma_write_register_f;

        }
        let reg_type = match reg_type {
            None => return Err(CpuError::InvalidRegister),
            Some(r) => r,
        };

        let lo = (value & 0xFF) as u8;
        let hi = ((value >> 8) & 0xFF) as u8;
        proof {
            let l = lo;
            assert((l & 0xF0) & 0x0F == 0) by (bit_vector);
        }
        match reg_type {
            RegType::RtA => self.registers.a = lo,
            RegType::RtF => self.registers.f = lo & 0xF0,
            RegType::RtB => self.registers.b = lo,
            RegType::RtC => self.registers.c = lo,
            RegType::RtD => self.registers.d = lo,
            RegType::RtE => self.registers.e = lo,
            RegType::RtH => self.registers.h = lo,
            RegType::RtL => self.registers.l = lo,
            RegType::RtAf => {
                self.registers.a = hi;
                self.registers.f = lo & 0xF0;
            },
            RegType::RtBc => {
                self.registers.b = hi;
                self.registers.c = lo;
            },
            RegType::RtDe => {
                self.registers.d = hi;
                self.registers.e = lo;
            },
            RegType::RtHl => {
                self.registers.h = hi;
                self.registers.l = lo;
            },
            RegType::RtSp => self.registers.sp = value,
            RegType::RtPc => self.registers.pc = value,
        };

        Ok(())
    }

    /// Reads the first operand register of the current instruction.
    pub fn read_register_r1(&self) -> (r: Result<u16, CpuError>)
        ensures
            self.current_instruction.reg_1 matches Some(rt) ==> r == Ok::<u16, CpuError>(
                spec_read_register(self.registers, rt),
            ),
            self.current_instruction.reg_1 is None ==> r is Err,
    {
        self.read_register(self.current_instruction.reg_1)
    }

    /// Writes the first operand register of the current instruction.
    pub fn write_register_r1(&mut self, value: u16) -> (r: Result<(), CpuError>)
        ensures
            old(self).current_instruction.reg_1 matches Some(rt) ==> (r is Ok
                && final(self).registers == spec_write_register(old(self).registers, rt, value)),
            old(self).current_instruction.reg_1 is None ==> (r is Err && final(self).registers
                == old(self).registers),
            final(self).bus == old(self).bus,
            cpu_aux_eq(*old(self), *final(self)),
            old(self).wf() ==> final(self).wf(),
    {
        self.write_register(self.current_instruction.reg_1, value)
    }

    /// Reads the second operand register of the current instruction.
    pub fn read_register_r2(&self) -> (r: Result<u16, CpuError>)
        ensures
            self.current_instruction.reg_2 matches Some(rt) ==> r == Ok::<u16, CpuError>(
                spec_read_register(self.registers, rt),
            ),
            self.current_instruction.reg_2 is None ==> r is Err,
    {
        self.read_register(self.current_instruction.reg_2)
    }

    /// Writes the second operand register of the current instruction.
    pub fn write_register_r2(&mut self, value: u16) -> (r: Result<(), CpuError>)
        ensures
            old(self).current_instruction.reg_2 matches Some(rt) ==> (r is Ok
                && final(self).registers == spec_write_register(old(self).registers, rt, value)),
            old(self).current_instruction.reg_2 is None ==> (r is Err && final(self).registers
                == old(self).registers),
            final(self).bus == old(self).bus,
            cpu_aux_eq(*old(self), *final(self)),
            old(self).wf() ==> final(self).wf(),
    {
        self.write_register(self.current_instruction.reg_2, value)
    }

    /// Reads an 8-bit register, or the byte at `HL` for the memory operand;
    /// 16-bit pairs other than the `HL` memory form are refused.
    pub fn cpu_read_r8(&mut self, reg: Option<RegType>) -> (r: Result<u8, CpuError>)
        requires
            old(self).wf(),
        ensures
            *final(self) == *old(self),
            match reg {
                Some(RegType::RtA) => r == Ok::<u8, CpuError>(old(self).registers.a),
                Some(RegType::RtF) => r == Ok::<u8, CpuError>(old(self).registers.f),
                Some(RegType::RtB) => r == Ok::<u8, CpuError>(old(self).registers.b),
                Some(RegType::RtC) => r == Ok::<u8, CpuError>(old(self).registers.c),
                Some(RegType::RtD) => r == Ok::<u8, CpuError>(old(self).registers.d),
                Some(RegType::RtE) => r == Ok::<u8, CpuError>(old(self).registers.e),
                Some(RegType::RtH) => r == Ok::<u8, CpuError>(old(self).registers.h),
                Some(RegType::RtL) => r == Ok::<u8, CpuError>(old(self).registers.l),
                Some(RegType::RtHl) => {
                    let hl = spec_read_register(old(self).registers, RegType::RtHl);
                    &&& spec_bus_read_ok(old(self).bus, hl) ==> r == Ok::<u8, CpuError>(
                        spec_bus_read(old(self).bus, hl),
                    )
                    &&& !spec_bus_read_ok(old(self).bus, hl) ==> r is Err
                },
                _ => r is Err,
            },
    {
        let reg = match reg {
            None => return Err(CpuError::InvalidRegister),
            Some(r) => r,
        };

        let val = match reg {
            RegType::RtA => self.registers.a,
            RegType::RtF => self.registers.f,
            RegType::RtB => self.registers.b,
            RegType::RtC => self.registers.c,
            RegType::RtD => self.registers.d,
            RegType::RtE => self.registers.e,
            RegType::RtH => self.registers.h,
            RegType::RtL => self.registers.l,
            RegType::RtHl => {
                let addr = (self.registers.h as u16) * 0x100 + (self.registers.l as u16);
                return match self.bus.read(addr) {
                    Ok(v) => Ok(v),
                    Err(e) => Err(CpuError::BusError(e)),
                };
            },
            _ => return Err(CpuError::InvalidRegister),
        };

        Ok(val)
    }

    /// Writes an 8-bit register, or the byte at `HL` for the memory operand.
    pub fn cpu_write_r8(&mut self, reg: Option<RegType>, value: u8) -> (r: Result<(), CpuError>)
        requires
            old(self).wf(),
        ensures
            final(self).wf(),
            cpu_aux_eq(*old(self), *final(self)),
            match reg {
                Some(RegType::RtA) => reg_write_r8_ok(r, *old(self), *final(self), RegType::RtA, value),
                Some(RegType::RtF) => reg_write_r8_ok(r, *old(self), *final(self), RegType::RtF, value),
                Some(RegType::RtB) => reg_write_r8_ok(r, *old(self), *final(self), RegType::RtB, value),
                Some(RegType::RtC) => reg_write_r8_ok(r, *old(self), *final(self), RegType::RtC, value),
                Some(RegType::RtD) => reg_write_r8_ok(r, *old(self), *final(self), RegType::RtD, value),
                Some(RegType::RtE) => reg_write_r8_ok(r, *old(self), *final(self), RegType::RtE, value),
                Some(RegType::RtH) => reg_write_r8_ok(r, *old(self), *final(self), RegType::RtH, value),
                Some(RegType::RtL) => reg_write_r8_ok(r, *old(self), *final(self), RegType::RtL, value),
                Some(RegType::RtHl) => {
                    &&& r is Ok
                    &&& final(self).registers == old(self).registers
                    &&& spec_bus_write_rel(
                        old(self).bus,
                        final(self).bus,
                        spec_read_register(old(self).registers, RegType::RtHl),
                        value,
                    )
                },
                _ => r is Err && *final(self) == *old(self),
            },
    {
        proof {
            let v = value;
            assert(((v as u16) & 0xFF) as u8 == v && ((v & 0xF0) & 0x0F) == 0) by (bit_vector);
        }
        let reg = match reg {
            None => return Err(CpuError::InvalidRegister),
            Some(r) => r,
        };

        match reg {
            RegType::RtA => self.registers.a = value,
            RegType::RtF => self.registers.f = value & 0xF0,
            RegType::RtB => self.registers.b = value,
            RegType::RtC => self.registers.c = value,
            RegType::RtD => self.registers.d = value,
            RegType::RtE => self.registers.e = value,
            RegType::RtH => self.registers.h = value,
            RegType::RtL => self.registers.l = value,
            RegType::RtHl => {
                let addr = (self.registers.h as u16) * 0x100 + (self.registers.l as u16);
                return match self.bus.write(addr, value) {
                    Ok(()) => Ok(()),
                    Err(e) => Err(CpuError::BusError(e)),
                };
            },
            _ => return Err(CpuError::InvalidRegister),
        };

        Ok(())
    }
}

} // verus!
