//! Execution of the load family and the 8/16-bit increment, decrement and
//! add instructions.

use vstd::prelude::*;
use crate::bus::{bus_clock_frame_eq, spec_bus_read, spec_bus_read_ok, spec_bus_write_rel, BUS};
use crate::cpu::{cpu_aux_eq, CPU, CpuError, spec_read_register, spec_write_register};
use crate::cpu_flags::{lemma_set_flags_bits, FlagMode};
use crate::cpu_cb::spec_r8;
use crate::cpu_control::spec_signed8;
use crate::instructions::{spec_is_16_bit, AddrMode, RegType};
use crate::util::spec_check_bit;

verus! {

impl CPU {
    /// `LD`: moves the fetched operand to its destination — a register, or
    /// the memory cell the addressing mode picked (one cycle per byte
    /// stored). The `HL,SP+r8` form adds a signed offset to `SP` with the
    /// nibble and byte carry flags.
    pub fn process_ld(&mut self) -> (r: Result<u32, CpuError>)
        requires
            old(self).wf(),
        ensures
            final(self).wf(),
            cpu_aux_eq(*old(self), *final(self)),
            old(self).dest_is_mem ==> final(self).registers == old(self).registers,
            old(self).dest_is_mem && !crate::instructions::spec_is_some_16_bit(old(self).current_instruction.reg_2) ==> (r == Ok::<u32, CpuError>(1) && exists|mid: BUS|
                #[trigger] spec_bus_write_rel(
                    old(self).bus,
                    mid,
                    old(self).mem_dest,
                    (old(self).fetch_data & 0xFF) as u8,
                ) && bus_clock_frame_eq(mid, final(self).bus)),
            !old(self).dest_is_mem && old(self).current_instruction.mode != AddrMode::AmHlSpr ==> {
                &&& final(self).bus == old(self).bus
                &&& (old(self).current_instruction.reg_1 matches Some(rt) ==> (r == Ok::<
                    u32,
                    CpuError,
                >(0) && final(self).registers == spec_write_register(
                    old(self).registers,
                    rt,
                    old(self).fetch_data,
                )))
                &&& (old(self).current_instruction.reg_1 is None ==> r is Err)
            },
            old(self).dest_is_mem && crate::instructions::spec_is_some_16_bit(
                old(self).current_instruction.reg_2,
            ) && 0xC000 <= old(self).mem_dest && old(self).mem_dest + 1 < 0xE000 ==> (r == Ok::<
                u32,
                CpuError,
            >(2) && spec_bus_read(final(self).bus, old(self).mem_dest) == (old(self).fetch_data
                & 0xFF) as u8 && spec_bus_read(final(self).bus, (old(self).mem_dest + 1) as u16)
                == ((old(self).fetch_data >> 8) & 0xFF) as u8),
            (!old(self).dest_is_mem && old(self).current_instruction.mode == AddrMode::AmHlSpr
                && old(self).current_instruction.reg_1 == Some(RegType::RtHl) && old(
                self,
            ).current_instruction.reg_2 == Some(RegType::RtSp)) ==> ({
                let sp = old(self).registers.sp;
                let e = old(self).fetch_data & 0xFF;
                &&& r == Ok::<u32, CpuError>(0)
                &&& final(self).bus == old(self).bus
                &&& spec_read_register(final(self).registers, RegType::RtHl) == ((sp
                    + spec_signed8(e as u8) + 0x10000) % 0x10000) as u16
                &&& spec_check_bit(final(self).registers.f, 7) == false
                &&& spec_check_bit(final(self).registers.f, 6) == false
                &&& spec_check_bit(final(self).registers.f, 5) == ((sp & 0xF) + (e & 0xF) >= 0x10)
                &&& spec_check_bit(final(self).registers.f, 4) == ((sp & 0xFF) + (e & 0xFF)
                    >= 0x100)
                &&& final(self).registers.a == old(self).registers.a
                &&& final(self).registers.sp == old(self).registers.sp
                &&& final(self).registers.pc == old(self).registers.pc
            }),
    {
        broadcast use crate::util::lemma_mask_nibble_u16;
        broadcast use crate::util::lemma_mask_nibble_u8;
        broadcast use crate::util::lemma_mask_byte_u16;
        broadcast use crate::util::lemma_mask_12_u16;
        broadcast use crate::cpu::lemma_u16_recombine;

        if self.dest_is_mem {
            if RegType::is_some_16_bit(self.current_instruction.reg_2) {
                self.pay_cycles(1);
                let dest = self.mem_dest;
                let data = self.fetch_data;
                let ghost c1 = self.bus;
                self.write_mem_cycle(dest, (data & 0xFF) as u8);
                let ghost c2 = self.bus;
                self.write_mem_cycle(dest.wrapping_add(1), ((data >> 8) & 0xFF) as u8);
                proof {
                    if 0xC000 <= dest && dest + 1 < 0xE000 {
                        let lo = (data & 0xFF) as u8;
                        let hi = ((data >> 8) & 0xFF) as u8;
                        let m1 = choose|mid: BUS|
                            #[trigger] spec_bus_write_rel(c1, mid, dest, lo)
                                && bus_clock_frame_eq(mid, c2);
                        let m2 = choose|mid: BUS|
                            #[trigger] spec_bus_write_rel(c2, mid, (dest + 1) as u16, hi)
                                && bus_clock_frame_eq(mid, self.bus);
                        assert(m1.ram.wram@ == c1.ram.wram@.update(dest - 0xC000, lo));
                        assert(m2.ram.wram@ == c2.ram.wram@.update(dest + 1 - 0xC000, hi));
                        assert(spec_bus_read(final(self).bus, dest) == lo);
                        assert(spec_bus_read(final(self).bus, (dest + 1) as u16) == hi);
                    }
                }
                return Ok(2);
            }
            let dest = self.mem_dest;
            let data = (self.fetch_data & 0xFF) as u8;
            self.write_mem_cycle(dest, data);
            return Ok(1);
        }

        if matches!(self.current_instruction.mode, AddrMode::AmHlSpr) {
            let sp = match self.read_register_r2() {
                Ok(v) => v,
                Err(e) => return Err(e),
            };
            let e: u16 = self.fetch_data & 0xFF;
            let hflag = (sp & 0xF) + (e & 0xF) >= 0x10;
            let cflag = (sp & 0xFF) + (e & 0xFF) >= 0x100;

            let ghost f0 = self.registers.f;
            let h = FlagMode::from_bool(hflag);
            let c = FlagMode::from_bool(cflag);
            self.cpu_set_flags(FlagMode::Clear, FlagMode::Clear, h, c);
            proof {
                lemma_set_flags_bits(f0, FlagMode::Clear, FlagMode::Clear, h, c);
            }

            let val: u16 = if e < 0x80 {
                sp.wrapping_add(e)
            } else {
                sp.wrapping_add(e).wrapping_sub(0x100)
            };
            let r = self.write_register_r1(val);
            return match r {
                Ok(()) => Ok(0),
                Err(e) => Err(e),
            };
        }

        let data = self.fetch_data;
        let r = self.write_register(self.current_instruction.reg_1, data);
        match r {
            Ok(()) => Ok(0),
            Err(e) => Err(e),
        }
    }

    /// `LDH`: the zero-page loads. `LDH A,(a8)` reads `$FF00+a8` into `A`;
    /// the store form writes `A` to `$FF00` plus the fetched offset.
    pub fn process_ldh(&mut self) -> (r: Result<u32, CpuError>)
        requires
            old(self).wf(),
        ensures
            final(self).wf(),
            cpu_aux_eq(*old(self), *final(self)),
            old(self).current_instruction.reg_1 == Some(RegType::RtA) ==> {
                let addr = (0xFF00u16 | old(self).fetch_data) as u16;
                &&& (spec_bus_read_ok(old(self).bus, addr) ==> (r == Ok::<u32, CpuError>(1)
                    && final(self).registers == spec_write_register(
                    old(self).registers,
                    RegType::RtA,
                    spec_bus_read(old(self).bus, addr) as u16,
                )))
                &&& (!spec_bus_read_ok(old(self).bus, addr) ==> r is Err)
            },
            old(self).current_instruction.reg_1 != Some(RegType::RtA) ==> (r == Ok::<
                u32,
                CpuError,
            >(1) && final(self).registers == old(self).registers && exists|mid: BUS|
                #[trigger] spec_bus_write_rel(
                    old(self).bus,
                    mid,
                    (0xFF00u16 | old(self).mem_dest) as u16,
                    old(self).registers.a,
                ) && bus_clock_frame_eq(mid, final(self).bus)),
    {
        if matches!(self.current_instruction.reg_1, Some(RegType::RtA)) {
            let addr = 0xFF00u16 | self.fetch_data;
            let v = match self.bus.read(addr) {
                Ok(v) => v,
                Err(e) => return Err(CpuError::BusError(e)),
            };
            let r = self.write_register(self.current_instruction.reg_1, v as u16);
            self.pay_cycles(1);
            Ok(1)
        } else {
            let addr = 0xFF00u16 | self.mem_dest;
            let a = self.registers.a;
            self.write_mem_cycle(addr, a);
            Ok(1)
        }
    }

    /// `INC`: adds one. The 16-bit pair form pays one idle cycle and
    /// touches no flags; the 8-bit forms set `Z` and `H` from the result
    /// and clear `N`, leaving `C`.
    #[verifier::rlimit(60)]
    #[verifier::spinoff_prover]
    pub fn process_inc(&mut self) -> (r: Result<u32, CpuError>)
        requires
            old(self).wf(),
        ensures
            final(self).wf(),
            cpu_aux_eq(*old(self), *final(self)),
            match old(self).current_instruction.reg_1 {
                Some(rt) => (old(self).current_opcode & 0x03 == 0x03
                    && crate::instructions::spec_is_16_bit(rt) && old(
                    self,
                ).current_instruction.mode != AddrMode::AmMr) ==> (r == Ok::<u32, CpuError>(1)
                    && final(self).registers == spec_write_register(
                    old(self).registers,
                    rt,
                    ((spec_read_register(old(self).registers, rt) + 1) % 0x10000) as u16,
                )),
                None => true,
            },
            match old(self).current_instruction.reg_1 {
                Some(rt) => (!spec_is_16_bit(rt) && rt != RegType::RtF && old(
                    self,
                ).current_instruction.mode != AddrMode::AmMr && old(self).current_opcode & 0x03
                    != 0x03) ==> {
                    let v2 = ((spec_r8(old(self).registers, rt) + 1) % 0x100) as u8;
                    &&& r == Ok::<u32, CpuError>(0)
                    &&& final(self).bus == old(self).bus
                    &&& spec_r8(final(self).registers, rt) == v2
                    &&& spec_check_bit(final(self).registers.f, 7) == (v2 == 0)
                    &&& spec_check_bit(final(self).registers.f, 6) == false
                    &&& spec_check_bit(final(self).registers.f, 5) == (v2 & 0xF == 0)
                    &&& spec_check_bit(final(self).registers.f, 4) == spec_check_bit(
                        old(self).registers.f,
                        4,
                    )
                    &&& final(self).registers.pc == old(self).registers.pc
                    &&& final(self).registers.sp == old(self).registers.sp
                },
                None => r is Err,
            },
            old(self).current_instruction.reg_1 == Some(RegType::RtHl) && old(
                self,
            ).current_instruction.mode == AddrMode::AmMr ==> {
                let v2 = (((old(self).fetch_data & 0xFF) + 1) % 0x100) as u8;
                &&& final(self).registers.a == old(self).registers.a
                &&& spec_check_bit(final(self).registers.f, 7) == (v2 == 0)
                &&& spec_check_bit(final(self).registers.f, 6) == false
                &&& spec_check_bit(final(self).registers.f, 5) == (v2 & 0xF == 0)
                &&& spec_check_bit(final(self).registers.f, 4) == spec_check_bit(
                    old(self).registers.f,
                    4,
                )
                &&& exists|mid: BUS|
                    #[trigger] spec_bus_write_rel(
                        old(self).bus,
                        mid,
                        spec_read_register(old(self).registers, RegType::RtHl),
                        v2,
                    ) && bus_clock_frame_eq(mid, final(self).bus)
            },
    {
        broadcast use crate::util::lemma_mask_nibble_u16;
        broadcast use crate::util::lemma_mask_nibble_u8;
        broadcast use crate::util::lemma_mask_byte_u16;
        broadcast use crate::util::lemma_mask_12_u16;

        if matches!(self.current_instruction.reg_1, Some(RegType::RtHl)) && matches!(
            self.current_instruction.mode,
            AddrMode::AmMr,
        ) {
            let v2: u8 = (((self.fetch_data & 0xFF) as u8)).wrapping_add(1);
            let hl = (self.registers.h as u16) * 0x100 + (self.registers.l as u16);
            self.write_mem_cycle(hl, v2);
            let z = FlagMode::from_bool(v2 == 0);
            let h = FlagMode::from_bool(v2 & 0xF == 0);
            let ghost f0 = self.registers.f;
            self.cpu_set_flags(z, FlagMode::Clear, h, FlagMode::Keep);
            proof {
                lemma_set_flags_bits(f0, z, FlagMode::Clear, h, FlagMode::Keep);
            }
            proof {
                let mid = choose|mid: BUS|
                    #[trigger] spec_bus_write_rel(old(self).bus, mid, hl, v2)
                        && bus_clock_frame_eq(mid, self.bus);
                assert(spec_bus_write_rel(
                    old(self).bus,
                    mid,
                    spec_read_register(old(self).registers, RegType::RtHl),
                    v2,
                ) && bus_clock_frame_eq(mid, final(self).bus));
            }
            return Ok(1);
        }

        let v = match self.read_register_r1() {
            Ok(v) => v,
            Err(e) => return Err(e),
        };
        let value = v.wrapping_add(1);
        let mut cycles: u32 = 0;
        if RegType::is_some_16_bit(self.current_instruction.reg_1) {
            cycles = 1;
            self.pay_cycles(1);
        }
        let r = self.write_register_r1(value);
        match r {
            Ok(()) => {},
            Err(e) => return Err(e),
        }

        if self.current_opcode & 0x03 == 0x03 {
            return Ok(cycles);
        }

        let value8 = match self.cpu_read_r8(self.current_instruction.reg_1) {
            Ok(v) => v,
            Err(e) => return Err(e),
        };
        let z = FlagMode::from_bool(value8 == 0);
        let h = FlagMode::from_bool(value8 & 0xF == 0);
        let ghost f0 = self.registers.f;
        self.cpu_set_flags(z, FlagMode::Clear, h, FlagMode::Keep);
        proof {
            lemma_set_flags_bits(f0, z, FlagMode::Clear, h, FlagMode::Keep);
        }
        Ok(cycles)
    }

    /// `DEC`: subtracts one. The 16-bit pair form pays one idle cycle and
    /// touches no flags; the 8-bit forms set `Z` and `H` from the result
    /// and set `N`, leaving `C`.
    #[verifier::rlimit(60)]
    #[verifier::spinoff_prover]
    pub fn process_dec(&mut self) -> (r: Result<u32, CpuError>)
        requires
            old(self).wf(),
        ensures
            final(self).wf(),
            cpu_aux_eq(*old(self), *final(self)),
            match old(self).current_instruction.reg_1 {
                Some(rt) => (old(self).current_opcode & 0x0B == 0x0B
                    && crate::instructions::spec_is_16_bit(rt) && old(
                    self,
                ).current_instruction.mode != AddrMode::AmMr) ==> (r == Ok::<u32, CpuError>(1)
                    && final(self).registers == spec_write_register(
                    old(self).registers,
                    rt,
                    ((spec_read_register(old(self).registers, rt) - 1 + 0x10000) % 0x10000) as u16,
                )),
                None => true,
            },
            match old(self).current_instruction.reg_1 {
                Some(rt) => (!spec_is_16_bit(rt) && rt != RegType::RtF && old(
                    self,
                ).current_instruction.mode != AddrMode::AmMr && old(self).current_opcode & 0x0B
                    != 0x0B) ==> {
                    let v2 = ((spec_r8(old(self).registers, rt) - 1 + 0x100) % 0x100) as u8;
                    &&& r == Ok::<u32, CpuError>(0)
                    &&& final(self).bus == old(self).bus
                    &&& spec_r8(final(self).registers, rt) == v2
                    &&& spec_check_bit(final(self).registers.f, 7) == (v2 == 0)
                    &&& spec_check_bit(final(self).registers.f, 6) == true
                    &&& spec_check_bit(final(self).registers.f, 5) == (v2 & 0xF == 0xF)
                    &&& spec_check_bit(final(self).registers.f, 4) == spec_check_bit(
                        old(self).registers.f,
                        4,
                    )
                    &&& final(self).registers.pc == old(self).registers.pc
                    &&& final(self).registers.sp == old(self).registers.sp
                },
                None => r is Err,
            },
            old(self).current_instruction.reg_1 == Some(RegType::RtHl) && old(
                self,
            ).current_instruction.mode == AddrMode::AmMr ==> {
                let v2 = (((old(self).fetch_data & 0xFF) - 1 + 0x100) % 0x100) as u8;
                &&& final(self).registers.a == old(self).registers.a
                &&& spec_check_bit(final(self).registers.f, 7) == (v2 == 0)
                &&& spec_check_bit(final(self).registers.f, 6) == true
                &&& spec_check_bit(final(self).registers.f, 5) == (v2 & 0xF == 0xF)
                &&& spec_check_bit(final(self).registers.f, 4) == spec_check_bit(
                    old(self).registers.f,
                    4,
                )
                &&& exists|mid: BUS|
                    #[trigger] spec_bus_write_rel(
                        old(self).bus,
                        mid,
                        spec_read_register(old(self).registers, RegType::RtHl),
                        v2,
                    ) && bus_clock_frame_eq(mid, final(self).bus)
            },
    {
        broadcast use crate::util::lemma_mask_nibble_u16;
        broadcast use crate::util::lemma_mask_nibble_u8;
        broadcast use crate::util::lemma_mask_byte_u16;
        broadcast use crate::util::lemma_mask_12_u16;

        if matches!(self.current_instruction.reg_1, Some(RegType::RtHl)) && matches!(
            self.current_instruction.mode,
            AddrMode::AmMr,
        ) {
            let v2: u8 = (((self.fetch_data & 0xFF) as u8)).wrapping_sub(1);
            proof {
                assert(v2 == (((old(self).fetch_data & 0xFF) - 1 + 0x100) % 0x100) as u8);
            }
            let hl = (self.registers.h as u16) * 0x100 + (self.registers.l as u16);
            self.write_mem_cycle(hl, v2);
            let z = FlagMode::from_bool(v2 == 0);
            let h = FlagMode::from_bool(v2 & 0xF == 0xF);
            let ghost f0 = self.registers.f;
            self.cpu_set_flags(z, FlagMode::Raise, h, FlagMode::Keep);
            proof {
                lemma_set_flags_bits(f0, z, FlagMode::Raise, h, FlagMode::Keep);
            }
            proof {
                let mid = choose|mid: BUS|
                    #[trigger] spec_bus_write_rel(old(self).bus, mid, hl, v2)
                        && bus_clock_frame_eq(mid, self.bus);
                assert(spec_bus_write_rel(
                    old(self).bus,
                    mid,
                    spec_read_register(old(self).registers, RegType::RtHl),
                    v2,
                ) && bus_clock_frame_eq(mid, final(self).bus));
            }
            return Ok(1);
        }

        let v = match self.read_register_r1() {
            Ok(v) => v,
            Err(e) => return Err(e),
        };
        let value = v.wrapping_sub(1);
        let mut cycles: u32 = 0;
        if RegType::is_some_16_bit(self.current_instruction.reg_1) {
            cycles = 1;
            self.pay_cycles(1);
        }
        let r = self.write_register_r1(value);
        match r {
            Ok(()) => {},
            Err(e) => return Err(e),
        }

        if self.current_opcode & 0x0B == 0x0B {
            return Ok(cycles);
        }

        let value8 = match self.cpu_read_r8(self.current_instruction.reg_1) {
            Ok(v) => v,
            Err(e) => return Err(e),
        };
        let z = FlagMode::from_bool(value8 == 0);
        let h = FlagMode::from_bool(value8 & 0xF == 0xF);
        let ghost f0 = self.registers.f;
        self.cpu_set_flags(z, FlagMode::Raise, h, FlagMode::Keep);
        proof {
            lemma_set_flags_bits(f0, z, FlagMode::Raise, h, FlagMode::Keep);
        }
        Ok(cycles)
    }

    /// `ADD`: the byte form adds the operand into `A` with `Z`, `H`, `C`
    /// from the result and `N` clear. `ADD HL,rr` pays one idle cycle,
    /// keeps `Z` and carries at the 12th and 16th bit. `ADD SP,r8` adds a
    /// signed byte with the nibble and byte carries, `Z` and `N` clear.
    pub fn process_add(&mut self) -> (r: Result<u32, CpuError>)
        requires
            old(self).wf(),
        ensures
            final(self).wf(),
            cpu_aux_eq(*old(self), *final(self)),
            old(self).current_instruction.reg_1 == Some(RegType::RtA) ==> ({
                let a = old(self).registers.a;
                let u = (old(self).fetch_data & 0xFF) as u8;
                &&& r == Ok::<u32, CpuError>(0)
                &&& final(self).registers.a == ((a + u) % 0x100) as u8
                &&& spec_check_bit(final(self).registers.f, 7) == ((a + u) % 0x100 == 0)
                &&& spec_check_bit(final(self).registers.f, 6) == false
                &&& spec_check_bit(final(self).registers.f, 5) == ((a & 0xF) + (u & 0xF) > 0xF)
                &&& spec_check_bit(final(self).registers.f, 4) == (a + u > 0xFF)
                &&& final(self).bus == old(self).bus
                &&& final(self).registers.pc == old(self).registers.pc
                &&& final(self).registers.sp == old(self).registers.sp
            }),
            old(self).current_instruction.reg_1 == Some(RegType::RtHl) ==> ({
                let hl = spec_read_register(old(self).registers, RegType::RtHl);
                let u = old(self).fetch_data;
                &&& r == Ok::<u32, CpuError>(1)
                &&& spec_read_register(final(self).registers, RegType::RtHl) == ((hl + u)
                    % 0x10000) as u16
                &&& spec_check_bit(final(self).registers.f, 7) == spec_check_bit(
                    old(self).registers.f,
                    7,
                )
                &&& spec_check_bit(final(self).registers.f, 6) == false
                &&& spec_check_bit(final(self).registers.f, 5) == ((hl & 0xFFF) + (u & 0xFFF)
                    > 0xFFF)
                &&& spec_check_bit(final(self).registers.f, 4) == (hl + u > 0xFFFF)
                &&& final(self).registers.a == old(self).registers.a
                &&& final(self).registers.pc == old(self).registers.pc
                &&& final(self).registers.sp == old(self).registers.sp
            }),
            old(self).current_instruction.reg_1 == Some(RegType::RtSp) ==> ({
                let sp = old(self).registers.sp;
                let u = old(self).fetch_data;
                &&& r == Ok::<u32, CpuError>(1)
                &&& final(self).registers.sp == ((sp + crate::cpu_control::spec_signed8(
                    (u & 0xFF) as u8,
                ) + 0x10000) % 0x10000) as u16
                &&& spec_check_bit(final(self).registers.f, 7) == false
                &&& spec_check_bit(final(self).registers.f, 6) == false
                &&& spec_check_bit(final(self).registers.f, 5) == ((sp & 0xF) + (u & 0xF) >= 0x10)
                &&& spec_check_bit(final(self).registers.f, 4) == ((sp & 0xFF) + (u & 0xFF)
                    >= 0x100)
                &&& final(self).registers.a == old(self).registers.a
                &&& final(self).registers.pc == old(self).registers.pc
            }),
    {
        broadcast use crate::util::lemma_mask_nibble_u16;
        broadcast use crate::util::lemma_mask_nibble_u8;
        broadcast use crate::util::lemma_mask_byte_u16;
        broadcast use crate::util::lemma_mask_12_u16;

        if matches!(self.current_instruction.reg_1, Some(RegType::RtSp)) {
            let sp = self.registers.sp;
            let u = self.fetch_data;
            let e: u16 = u & 0xFF;
            let h = FlagMode::from_bool((sp & 0xF) + (e & 0xF) >= 0x10);
            let c = FlagMode::from_bool((sp & 0xFF) + (e & 0xFF) >= 0x100);
            let val: u16 = if e < 0x80 {
                sp.wrapping_add(e)
            } else {
                sp.wrapping_add(e).wrapping_sub(0x100)
            };
            self.pay_cycles(1);
            self.registers.sp = val;
            let ghost f0 = self.registers.f;
            self.cpu_set_flags(FlagMode::Clear, FlagMode::Clear, h, c);
            proof {
                lemma_set_flags_bits(f0, FlagMode::Clear, FlagMode::Clear, h, c);
                let x = u;
                assert(x & 0xF == (x & 0xFF) & 0xF && (x & 0xFF) & 0xFF == x & 0xFF && x & 0xFF
                    < 0x100) by (bit_vector);
            }
            return Ok(1);
        }

        if matches!(self.current_instruction.reg_1, Some(RegType::RtHl)) {
            let hl = (self.registers.h as u16) * 0x100 + (self.registers.l as u16);
            let u = self.fetch_data;
            let val: u32 = hl as u32 + u as u32;
            let h = FlagMode::from_bool((hl & 0xFFF) + (u & 0xFFF) > 0xFFF);
            let c = FlagMode::from_bool(val > 0xFFFF);
            self.pay_cycles(1);
            self.set_hl((val % 0x10000) as u16);
            let ghost f0 = self.registers.f;
            self.cpu_set_flags(FlagMode::Keep, FlagMode::Clear, h, c);
            proof {
                lemma_set_flags_bits(f0, FlagMode::Keep, FlagMode::Clear, h, c);
            }
            return Ok(1);
        }

        let a = self.registers.a;
        let u: u8 = (self.fetch_data & 0xFF) as u8;
        let result: u16 = a as u16 + u as u16;
        let z = FlagMode::from_bool(result % 0x100 == 0);
        let h = FlagMode::from_bool((a & 0xF) + (u & 0xF) > 0xF);
        let c = FlagMode::from_bool(result > 0xFF);
        let r = self.write_register(self.current_instruction.reg_1, result % 0x100);
        match r {
            Ok(()) => {},
            Err(e) => return Err(e),
        }
        let ghost f0 = self.registers.f;
        self.cpu_set_flags(z, FlagMode::Clear, h, c);
        proof {
            lemma_set_flags_bits(f0, z, FlagMode::Clear, h, c);
        }
        Ok(0)
    }
}

} // verus!
