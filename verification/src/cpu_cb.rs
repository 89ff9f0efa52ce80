//! Execution of the `$CB` prefix page: rotates, shifts, swap, and the
//! single-bit test, reset and set operations.

use vstd::prelude::*;
use crate::bus::{bus_clock_frame_eq, spec_bus_read, spec_bus_read_ok, spec_bus_write_rel, BUS};
use crate::cb::{CbBitOps, CbOperation, CbOps, spec_cb_bit_ops, spec_cb_ops, spec_reg_from_cb};
use crate::cpu::{cpu_aux_eq, CPU, CpuError, CpuRegisters};
use crate::cpu_flags::{lemma_set_flags_bits, FlagMode};
use crate::instructions::RegType;
use crate::util::{spec_check_bit, spec_modify_bit};

verus! {

/// The byte an 8-bit register holds.
pub open spec fn spec_r8(regs: CpuRegisters, rt: RegType) -> u8 {
    match rt {
        RegType::RtA => regs.a,
        RegType::RtF => regs.f,
        RegType::RtB => regs.b,
        RegType::RtC => regs.c,
        RegType::RtD => regs.d,
        RegType::RtE => regs.e,
        RegType::RtH => regs.h,
        RegType::RtL => regs.l,
        _ => 0,
    }
}

/// Two nibbles exchanged.
pub open spec fn spec_swap(v: u8) -> u8 {
    ((v & 0xF) << 4) | (v >> 4)
}

/// Swapping the nibbles twice gives the byte back.
pub proof fn lemma_swap_involution(v: u8)
    by (bit_vector)
    ensures
        spec_swap(spec_swap(v)) == v,
{
}

/// The result of a prefix-page rotate or shift, with `cin` the incoming
/// carry for the through-carry rotates.
pub open spec fn spec_cb_rot_result(op: CbOps, v: u8, cin: bool) -> u8 {
    let ci: u8 = if cin {
        1u8
    } else {
        0u8
    };
    match op {
        CbOps::RLC => ((v << 1) & 0xFF) | (v >> 7),
        CbOps::RRC => (v >> 1) | ((v & 1) << 7),
        CbOps::RL => ((v << 1) & 0xFF) | ci,
        CbOps::RR => (v >> 1) | (ci << 7),
        CbOps::SLA => (v << 1) & 0xFF,
        CbOps::SRA => (v >> 1) | (v & 0x80),
        CbOps::SWAP => spec_swap(v),
        CbOps::SRL => v >> 1,
    }
}

/// The bit a prefix-page rotate or shift pushes into the carry.
pub open spec fn spec_cb_rot_carry(op: CbOps, v: u8) -> bool {
    match op {
        CbOps::RLC | CbOps::RL | CbOps::SLA => v >> 7 == 1,
        CbOps::RRC | CbOps::RR | CbOps::SRA | CbOps::SRL => v & 1 == 1,
        CbOps::SWAP => false,
    }
}

impl CPU {
    /// Executes the prefix-page instruction held in the fetched operand
    /// byte. On a plain register: one machine cycle; the bit operations set
    /// their documented flags, the rotates and shifts take `Z` from the
    /// result, clear `N` and `H`, and push the shifted-out bit into `C`.
    #[verifier::rlimit(100)]
    #[verifier::spinoff_prover]
    pub fn process_cb(&mut self) -> (r: Result<u32, CpuError>)
        requires
            old(self).wf(),
        ensures
            final(self).wf(),
            cpu_aux_eq(*old(self), *final(self)),
            ({
                let op = (old(self).fetch_data & 0xFF) as u8;
                let bit = (op >> 3) & 0x7;
                match spec_reg_from_cb(op & 0x7) {
                    Some(rt) => rt != RegType::RtHl ==> {
                        let v = spec_r8(old(self).registers, rt);
                        &&& crate::bus::bus_clock_frame_eq(old(self).bus, final(self).bus)
                        &&& match spec_cb_bit_ops((op >> 6) & 0x3) {
                            Some(CbBitOps::BIT) => {
                                &&& r == Ok::<u32, CpuError>(1)
                                &&& spec_r8(final(self).registers, rt) == v
                                &&& spec_check_bit(final(self).registers.f, 7) == !spec_check_bit(
                                    v,
                                    bit,
                                )
                                &&& spec_check_bit(final(self).registers.f, 6) == false
                                &&& spec_check_bit(final(self).registers.f, 5) == true
                                &&& spec_check_bit(final(self).registers.f, 4) == spec_check_bit(
                                    old(self).registers.f,
                                    4,
                                )
                            },
                            Some(CbBitOps::RST) => {
                                &&& r == Ok::<u32, CpuError>(1)
                                &&& spec_r8(final(self).registers, rt) == spec_modify_bit(
                                    v,
                                    bit,
                                    false,
                                )
                                &&& final(self).registers.f == old(self).registers.f
                                &&& final(self).registers.pc == old(self).registers.pc
                            },
                            Some(CbBitOps::SET) => {
                                &&& r == Ok::<u32, CpuError>(1)
                                &&& spec_r8(final(self).registers, rt) == spec_modify_bit(
                                    v,
                                    bit,
                                    true,
                                )
                                &&& final(self).registers.f == old(self).registers.f
                                &&& final(self).registers.pc == old(self).registers.pc
                            },
                            None => match spec_cb_ops(bit) {
                                Some(rot) => {
                                    let v2 = spec_cb_rot_result(
                                        rot,
                                        v,
                                        spec_check_bit(old(self).registers.f, 4),
                                    );
                                    &&& r == Ok::<u32, CpuError>(1)
                                    &&& spec_r8(final(self).registers, rt) == v2
                                    &&& spec_check_bit(final(self).registers.f, 7) == (v2 == 0)
                                    &&& spec_check_bit(final(self).registers.f, 6) == false
                                    &&& spec_check_bit(final(self).registers.f, 5) == false
                                    &&& spec_check_bit(final(self).registers.f, 4)
                                        == spec_cb_rot_carry(rot, v)
                                },
                                None => true,
                            },
                        }
                    },
                    None => true,
                }
            }),
            ({
                let op = (old(self).fetch_data & 0xFF) as u8;
                let bit = (op >> 3) & 0x7;
                let hl = crate::cpu::spec_read_register(old(self).registers, RegType::RtHl);
                spec_reg_from_cb(op & 0x7) == Some(RegType::RtHl) ==> {
                    &&& (!spec_bus_read_ok(old(self).bus, hl) ==> r is Err)
                    &&& (spec_bus_read_ok(old(self).bus, hl) ==> {
                        let v = spec_bus_read(old(self).bus, hl);
                        &&& r == Ok::<u32, CpuError>(3)
                        &&& final(self).registers.pc == old(self).registers.pc
                        &&& final(self).registers.sp == old(self).registers.sp
                        &&& match spec_cb_bit_ops((op >> 6) & 0x3) {
                            Some(CbBitOps::BIT) => {
                                &&& bus_clock_frame_eq(old(self).bus, final(self).bus)
                                &&& spec_check_bit(final(self).registers.f, 7) == !spec_check_bit(
                                    v,
                                    bit,
                                )
                                &&& spec_check_bit(final(self).registers.f, 6) == false
                                &&& spec_check_bit(final(self).registers.f, 5) == true
                                &&& spec_check_bit(final(self).registers.f, 4) == spec_check_bit(
                                    old(self).registers.f,
                                    4,
                                )
                            },
                            Some(CbBitOps::RST) => {
                                &&& final(self).registers == old(self).registers
                                &&& exists|b1: BUS|
                                    #[trigger] bus_clock_frame_eq(old(self).bus, b1)
                                        && spec_bus_write_rel(
                                        b1,
                                        final(self).bus,
                                        hl,
                                        spec_modify_bit(v, bit, false),
                                    )
                            },
                            Some(CbBitOps::SET) => {
                                &&& final(self).registers == old(self).registers
                                &&& exists|b1: BUS|
                                    #[trigger] bus_clock_frame_eq(old(self).bus, b1)
                                        && spec_bus_write_rel(
                                        b1,
                                        final(self).bus,
                                        hl,
                                        spec_modify_bit(v, bit, true),
                                    )
                            },
                            None => match spec_cb_ops(bit) {
                                Some(rot) => {
                                    let v2 = spec_cb_rot_result(
                                        rot,
                                        v,
                                        spec_check_bit(old(self).registers.f, 4),
                                    );
                                    &&& spec_check_bit(final(self).registers.f, 7) == (v2 == 0)
                                    &&& spec_check_bit(final(self).registers.f, 6) == false
                                    &&& spec_check_bit(final(self).registers.f, 5) == false
                                    &&& spec_check_bit(final(self).registers.f, 4)
                                        == spec_cb_rot_carry(rot, v)
                                    &&& exists|b1: BUS|
                                        #[trigger] bus_clock_frame_eq(old(self).bus, b1)
                                            && spec_bus_write_rel(b1, final(self).bus, hl, v2)
                                },
                                None => true,
                            },
                        }
                    })
                }
            }),
    {
        broadcast use crate::util::lemma_modify_bit;
        broadcast use crate::util::lemma_u8_cast_roundtrip;

        let op: u8 = (self.fetch_data & 0xFF) as u8;
        let cb_op = match CbOperation::from_byte(op) {
            Some(c) => c,
            None => return Err(CpuError::InvalidCb(op)),
        };
        let reg_value = match self.cpu_read_r8(Some(cb_op.reg)) {
            Ok(v) => v,
            Err(e) => return Err(e),
        };

        let mut cycles: u32 = 1;
        self.pay_cycles(1);
        if matches!(cb_op.reg, RegType::RtHl) {
            cycles += 2;
            self.pay_cycles(2);
        }
        let ghost b1 = self.bus;

        proof {
            let o = op;
            assert((o >> 3) & 0x7 < 8 && (o >> 6) & 0x3 < 4) by (bit_vector);
        }

        match cb_op.cb_bit_ops {
            Some(CbBitOps::BIT) => {
                let z = FlagMode::from_bool(!crate::util::check_bit(reg_value, cb_op.bit));
                let ghost f0 = self.registers.f;
                self.cpu_set_flags(z, FlagMode::Clear, FlagMode::Raise, FlagMode::Keep);
                proof {
                    lemma_set_flags_bits(f0, z, FlagMode::Clear, FlagMode::Raise, FlagMode::Keep);
                }
                return Ok(cycles);
            },
            Some(CbBitOps::RST) => {
                let new_value = crate::util::clear_bit(reg_value, cb_op.bit);
                let r = self.cpu_write_r8(Some(cb_op.reg), new_value);
                match r {
                    Ok(()) => {},
                    Err(e) => return Err(e),
                }
                proof {
                    if cb_op.reg == RegType::RtHl {
                        assert(bus_clock_frame_eq(old(self).bus, b1) && spec_bus_write_rel(
                            b1,
                            final(self).bus,
                            crate::cpu::spec_read_register(old(self).registers, RegType::RtHl),
                            new_value,
                        ));
                    }
                }
                return Ok(cycles);
            },
            Some(CbBitOps::SET) => {
                let new_value = crate::util::set_bit(reg_value, cb_op.bit);
                let r = self.cpu_write_r8(Some(cb_op.reg), new_value);
                match r {
                    Ok(()) => {},
                    Err(e) => return Err(e),
                }
                proof {
                    if cb_op.reg == RegType::RtHl {
                        assert(bus_clock_frame_eq(old(self).bus, b1) && spec_bus_write_rel(
                            b1,
                            final(self).bus,
                            crate::cpu::spec_read_register(old(self).registers, RegType::RtHl),
                            new_value,
                        ));
                    }
                }
                return Ok(cycles);
            },
            None => {},
        }

        let cb_ops = match cb_op.cb_ops {
            Some(o) => o,
            None => return Err(CpuError::InvalidCb(op)),
        };

        let v = reg_value;
        let cin: u8 = if self.get_c_flag() {
            1
        } else {
            0
        };
        proof {
            let x = v;
            let ci = cin;
            assert(((x << 1) & 0xFF) < 0x100 && (x >> 1) < 0x80 && (x >> 7) < 2 && ((x & 1) << 7)
                < 0x100 && (x & 0x80) < 0x100 && ((x & 0xF) << 4) < 0x100 && (x >> 4) < 0x10 && (ci
                < 2 ==> (ci << 7) < 0x100)) by (bit_vector);
        }
        let (result, carry): (u8, bool) = match cb_ops {
            CbOps::RLC => (((v << 1) & 0xFF) | (v >> 7), v >> 7 == 1),
            CbOps::RRC => ((v >> 1) | ((v & 1) << 7), v & 1 == 1),
            CbOps::RL => (((v << 1) & 0xFF) | cin, v >> 7 == 1),
            CbOps::RR => ((v >> 1) | (cin << 7), v & 1 == 1),
            CbOps::SLA => ((v << 1) & 0xFF, v >> 7 == 1),
            CbOps::SRA => ((v >> 1) | (v & 0x80), v & 1 == 1),
            CbOps::SWAP => (((v & 0xF) << 4) | (v >> 4), false),
            CbOps::SRL => (v >> 1, v & 1 == 1),
        };

        let r = self.cpu_write_r8(Some(cb_op.reg), result);
        match r {
            Ok(()) => {},
            Err(e) => return Err(e),
        }
        let z = FlagMode::from_bool(result == 0);
        let c = FlagMode::from_bool(carry);
        let ghost f0 = self.registers.f;
        self.cpu_set_flags(z, FlagMode::Clear, FlagMode::Clear, c);
        proof {
            lemma_set_flags_bits(f0, z, FlagMode::Clear, FlagMode::Clear, c);
            if cb_op.reg == RegType::RtHl {
                assert(bus_clock_frame_eq(old(self).bus, b1) && spec_bus_write_rel(
                    b1,
                    final(self).bus,
                    crate::cpu::spec_read_register(old(self).registers, RegType::RtHl),
                    result,
                ));
            }
        }
        Ok(cycles)
    }
}

} // verus!
