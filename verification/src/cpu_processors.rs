//! Execution of the arithmetic and logic instructions: each states exactly
//! what lands in `A` and in the four flags, following the processor's flag
//! rules.

use vstd::prelude::*;
use crate::cpu::{cpu_aux_eq, CPU, CpuError};
use crate::cpu_flags::{lemma_set_flags_bits, FlagMode};
use crate::instructions::CondType;
use crate::util::spec_check_bit;

verus! {

/// An accumulator instruction finished: `A` holds `a2`, the four flags hold
/// the given values, the low nibble of `F` and everything else stand still.
pub open spec fn spec_alu_a_flags(
    pre: CPU,
    post: CPU,
    a2: u8,
    z: bool,
    n: bool,
    h: bool,
    c: bool,
) -> bool {
    &&& post.registers.a == a2
    &&& spec_check_bit(post.registers.f, 7) == z
    &&& spec_check_bit(post.registers.f, 6) == n
    &&& spec_check_bit(post.registers.f, 5) == h
    &&& spec_check_bit(post.registers.f, 4) == c
    &&& post.registers.f & 0x0F == pre.registers.f & 0x0F
    &&& post.registers.b == pre.registers.b
    &&& post.registers.c == pre.registers.c
    &&& post.registers.d == pre.registers.d
    &&& post.registers.e == pre.registers.e
    &&& post.registers.h == pre.registers.h
    &&& post.registers.l == pre.registers.l
    &&& post.registers.pc == pre.registers.pc
    &&& post.registers.sp == pre.registers.sp
    &&& post.bus == pre.bus
    &&& cpu_aux_eq(pre, post)
}

/// Whether the current condition code lets a branch go: no condition always
/// does, the others test the zero and carry flags.
pub open spec fn spec_check_condition(cond: Option<CondType>, f: u8) -> bool {
    match cond {
        None => true,
        Some(CondType::CtNz) => !spec_check_bit(f, 7),
        Some(CondType::CtZ) => spec_check_bit(f, 7),
        Some(CondType::CtNc) => !spec_check_bit(f, 4),
        Some(CondType::CtC) => spec_check_bit(f, 4),
    }
}

impl CPU {
    /// Evaluates the branch condition of the current instruction.
    pub fn check_condition(&self) -> (r: bool)
        ensures
            r == spec_check_condition(self.current_instruction.cond, self.registers.f),
    {
        let condition = match self.current_instruction.cond {
            None => {
                return true;
            },
            Some(c) => c,
        };

        let z = self.get_z_flag();
        let c = self.get_c_flag();

        match condition {
            CondType::CtNz => !z,
            CondType::CtZ => z,
            CondType::CtNc => !c,
            CondType::CtC => c,
        }
    }

    /// `ADC A,n`: adds operand and carry into `A`. `Z` from the result,
    /// `N` clear, `H` and `C` from the nibble and byte carries.
    pub fn process_adc(&mut self) -> (r: Result<u32, CpuError>)
        requires
            old(self).wf(),
        ensures
            r == Ok::<u32, CpuError>(0),
            final(self).wf(),
            ({
                let a = old(self).registers.a;
                let u = (old(self).fetch_data & 0xFF) as u8;
                let cin: u8 = if spec_check_bit(old(self).registers.f, 4) {
                    1u8
                } else {
                    0u8
                };
                spec_alu_a_flags(
                    *old(self),
                    *final(self),
                    ((a + u + cin) % 0x100) as u8,
                    (a + u + cin) % 0x100 == 0,
                    false,
                    (a & 0xF) + (u & 0xF) + cin > 0xF,
                    a + u + cin > 0xFF,
                )
            }),
    {
        let u: u8 = (self.fetch_data & 0xFF) as u8;
        let a = self.registers.a;
        let cin: u8 = if self.get_c_flag() {
            1
        } else {
            0
        };

        let result: u16 = a as u16 + u as u16 + cin as u16;
        self.registers.a = (result % 0x100) as u8;
        let z = FlagMode::from_bool(self.registers.a == 0);
        let h = FlagMode::from_bool((a & 0xF) as u16 + (u & 0xF) as u16 + cin as u16 > 0xF);
        let c = FlagMode::from_bool(result > 0xFF);
        let ghost f0 = self.registers.f;

        self.cpu_set_flags(z, FlagMode::Clear, h, c);
        proof {
            lemma_set_flags_bits(f0, z, FlagMode::Clear, h, c);
        }
        Ok(0)
    }

    /// `ADD`-family byte form used for `A`: see `process_add` for the
    /// 16-bit forms. `SUB n`: subtracts the operand from `A`. `Z` from the
    /// result, `N` set, `H` and `C` are the borrow conditions.
    pub fn process_sub(&mut self) -> (r: Result<u32, CpuError>)
        requires
            old(self).wf(),
        ensures
            r == Ok::<u32, CpuError>(0),
            final(self).wf(),
            ({
                let a = old(self).registers.a;
                let u = (old(self).fetch_data & 0xFF) as u8;
                spec_alu_a_flags(
                    *old(self),
                    *final(self),
                    ((a - u + 0x100) % 0x100) as u8,
                    (a - u + 0x100) % 0x100 == 0,
                    true,
                    (a & 0xF) < (u & 0xF),
                    u > a,
                )
            }),
    {
        let u: u8 = (self.fetch_data & 0xFF) as u8;
        let a = self.registers.a;
        let val = a.wrapping_sub(u);

        let z = FlagMode::from_bool(val == 0);
        let h = FlagMode::from_bool((a & 0xF) < (u & 0xF));
        let c = FlagMode::from_bool(u > a);

        self.registers.a = val;
        let ghost f0 = self.registers.f;
        self.cpu_set_flags(z, FlagMode::Raise, h, c);
        proof {
            lemma_set_flags_bits(f0, z, FlagMode::Raise, h, c);
        }
        Ok(0)
    }

    /// `SBC A,n`: subtracts operand and carry from `A`. `Z` from the
    /// result, `N` set, `H` and `C` are the borrow conditions.
    pub fn process_sbc(&mut self) -> (r: Result<u32, CpuError>)
        requires
            old(self).wf(),
        ensures
            r == Ok::<u32, CpuError>(0),
            final(self).wf(),
            ({
                let a = old(self).registers.a;
                let u = (old(self).fetch_data & 0xFF) as u8;
                let cin: u8 = if spec_check_bit(old(self).registers.f, 4) {
                    1u8
                } else {
                    0u8
                };
                spec_alu_a_flags(
                    *old(self),
                    *final(self),
                    ((a - u - cin + 0x200) % 0x100) as u8,
                    (a - u - cin + 0x200) % 0x100 == 0,
                    true,
                    (a & 0xF) < (u & 0xF) + cin,
                    (u + cin) > a,
                )
            }),
    {
        let u: u8 = (self.fetch_data & 0xFF) as u8;
        let a = self.registers.a;
        let cin: u8 = if self.get_c_flag() {
            1
        } else {
            0
        };

        let val = a.wrapping_sub(u).wrapping_sub(cin);
        let z = FlagMode::from_bool(val == 0);
        let h = FlagMode::from_bool(((a & 0xF) as u16) < ((u & 0xF) as u16) + (cin as u16));
        let c = FlagMode::from_bool((u as u16) + (cin as u16) > (a as u16));

        self.registers.a = val;
        let ghost f0 = self.registers.f;
        self.cpu_set_flags(z, FlagMode::Raise, h, c);
        proof {
            lemma_set_flags_bits(f0, z, FlagMode::Raise, h, c);
        }
        Ok(0)
    }

    /// `AND n`: `Z` from the result, `N` clear, `H` set, `C` clear.
    pub fn process_and(&mut self) -> (r: Result<u32, CpuError>)
        requires
            old(self).wf(),
        ensures
            r == Ok::<u32, CpuError>(0),
            final(self).wf(),
            spec_alu_a_flags(
                *old(self),
                *final(self),
                old(self).registers.a & ((old(self).fetch_data & 0xFF) as u8),
                old(self).registers.a & ((old(self).fetch_data & 0xFF) as u8) == 0,
                false,
                true,
                false,
            ),
    {
        self.registers.a = self.registers.a & ((self.fetch_data & 0xFF) as u8);
        let z = FlagMode::from_bool(self.registers.a == 0);
        let ghost f0 = self.registers.f;
        self.cpu_set_flags(z, FlagMode::Clear, FlagMode::Raise, FlagMode::Clear);
        proof {
            lemma_set_flags_bits(f0, z, FlagMode::Clear, FlagMode::Raise, FlagMode::Clear);
        }
        Ok(0)
    }

    /// `XOR n`: `Z` from the result, the other flags clear.
    pub fn process_xor(&mut self) -> (r: Result<u32, CpuError>)
        requires
            old(self).wf(),
        ensures
            r == Ok::<u32, CpuError>(0),
            final(self).wf(),
            spec_alu_a_flags(
                *old(self),
                *final(self),
                old(self).registers.a ^ ((old(self).fetch_data & 0xFF) as u8),
                old(self).registers.a ^ ((old(self).fetch_data & 0xFF) as u8) == 0,
                false,
                false,
                false,
            ),
    {
        self.registers.a = self.registers.a ^ ((self.fetch_data & 0xFF) as u8);
        let z = FlagMode::from_bool(self.registers.a == 0);
        let ghost f0 = self.registers.f;
        self.cpu_set_flags(z, FlagMode::Clear, FlagMode::Clear, FlagMode::Clear);
        proof {
            lemma_set_flags_bits(f0, z, FlagMode::Clear, FlagMode::Clear, FlagMode::Clear);
        }
        Ok(0)
    }

    /// `OR n`: `Z` from the result, the other flags clear.
    pub fn process_or(&mut self) -> (r: Result<u32, CpuError>)
        requires
            old(self).wf(),
        ensures
            r == Ok::<u32, CpuError>(0),
            final(self).wf(),
            spec_alu_a_flags(
                *old(self),
                *final(self),
                old(self).registers.a | ((old(self).fetch_data & 0xFF) as u8),
                old(self).registers.a | ((old(self).fetch_data & 0xFF) as u8) == 0,
                false,
                false,
                false,
            ),
    {
        self.registers.a = self.registers.a | ((self.fetch_data & 0xFF) as u8);
        let z = FlagMode::from_bool(self.registers.a == 0);
        let ghost f0 = self.registers.f;
        self.cpu_set_flags(z, FlagMode::Clear, FlagMode::Clear, FlagMode::Clear);
        proof {
            lemma_set_flags_bits(f0, z, FlagMode::Clear, FlagMode::Clear, FlagMode::Clear);
        }
        Ok(0)
    }

    /// `CP n`: compares the operand against `A` like a subtraction whose
    /// result is dropped; `A` keeps its value.
    pub fn process_cp(&mut self) -> (r: Result<u32, CpuError>)
        requires
            old(self).wf(),
        ensures
            r == Ok::<u32, CpuError>(0),
            final(self).wf(),
            ({
                let a = old(self).registers.a;
                let u = (old(self).fetch_data & 0xFF) as u8;
                spec_alu_a_flags(
                    *old(self),
                    *final(self),
                    a,
                    a == u,
                    true,
                    (a & 0xF) < (u & 0xF),
                    a < u,
                )
            }),
    {
        let u: u8 = (self.fetch_data & 0xFF) as u8;
        let a = self.registers.a;
        let z = FlagMode::from_bool(a == u);
        let h = FlagMode::from_bool((a & 0xF) < (u & 0xF));
        let c = FlagMode::from_bool(a < u);
        let ghost f0 = self.registers.f;
        self.cpu_set_flags(z, FlagMode::Raise, h, c);
        proof {
            lemma_set_flags_bits(f0, z, FlagMode::Raise, h, c);
        }
        Ok(0)
    }

    /// `RLCA`: rotates `A` left; the old bit 7 lands in both bit 0 and `C`.
    /// The flags other than `C` clear.
    pub fn process_rlca(&mut self) -> (r: Result<u32, CpuError>)
        requires
            old(self).wf(),
        ensures
            r == Ok::<u32, CpuError>(0),
            final(self).wf(),
            ({
                let a = old(self).registers.a;
                spec_alu_a_flags(
                    *old(self),
                    *final(self),
                    ((a << 1) & 0xFF) | (a >> 7),
                    false,
                    false,
                    false,
                    a >> 7 == 1,
                )
            }),
    {
        let a = self.registers.a;
        proof {
            let v = a;
            assert(((v << 1) & 0xFF) < 0x100 && (v >> 7) < 2 && ((v >> 7 == 1) == (v & 0x80
                != 0))) by (bit_vector);
        }
        let result = ((a << 1) & 0xFF) | (a >> 7);
        self.registers.a = result;
        let c = FlagMode::from_bool(a >> 7 == 1);
        let ghost f0 = self.registers.f;
        self.cpu_set_flags(FlagMode::Clear, FlagMode::Clear, FlagMode::Clear, c);
        proof {
            lemma_set_flags_bits(f0, FlagMode::Clear, FlagMode::Clear, FlagMode::Clear, c);
        }
        Ok(0)
    }

    /// `RRCA`: rotates `A` right; the old bit 0 lands in both bit 7 and
    /// `C`. The flags other than `C` clear.
    pub fn process_rrca(&mut self) -> (r: Result<u32, CpuError>)
        requires
            old(self).wf(),
        ensures
            r == Ok::<u32, CpuError>(0),
            final(self).wf(),
            ({
                let a = old(self).registers.a;
                spec_alu_a_flags(
                    *old(self),
                    *final(self),
                    (a >> 1) | ((a & 1) << 7),
                    false,
                    false,
                    false,
                    a & 1 == 1,
                )
            }),
    {
        let a = self.registers.a;
        proof {
            let v = a;
            assert((v >> 1) < 0x80 && ((v & 1) << 7) < 0x100) by (bit_vector);
        }
        let result = (a >> 1) | ((a & 1) << 7);
        self.registers.a = result;
        let c = FlagMode::from_bool(a & 1 == 1);
        let ghost f0 = self.registers.f;
        self.cpu_set_flags(FlagMode::Clear, FlagMode::Clear, FlagMode::Clear, c);
        proof {
            lemma_set_flags_bits(f0, FlagMode::Clear, FlagMode::Clear, FlagMode::Clear, c);
        }
        Ok(0)
    }

    /// `RLA`: rotates `A` left through the carry: `C` enters bit 0, the old
    /// bit 7 becomes the new `C`.
    pub fn process_rla(&mut self) -> (r: Result<u32, CpuError>)
        requires
            old(self).wf(),
        ensures
            r == Ok::<u32, CpuError>(0),
            final(self).wf(),
            ({
                let a = old(self).registers.a;
                let cin: u8 = if spec_check_bit(old(self).registers.f, 4) {
                    1u8
                } else {
                    0u8
                };
                spec_alu_a_flags(
                    *old(self),
                    *final(self),
                    ((a << 1) & 0xFF) | cin,
                    false,
                    false,
                    false,
                    a >> 7 == 1,
                )
            }),
    {
        let a = self.registers.a;
        let cin: u8 = if self.get_c_flag() {
            1
        } else {
            0
        };
        proof {
            let v = a;
            assert(((v << 1) & 0xFF) < 0x100 && (v >> 7) < 2) by (bit_vector);
        }
        let result = ((a << 1) & 0xFF) | cin;
        self.registers.a = result;
        let c = FlagMode::from_bool(a >> 7 == 1);
        let ghost f0 = self.registers.f;
        self.cpu_set_flags(FlagMode::Clear, FlagMode::Clear, FlagMode::Clear, c);
        proof {
            lemma_set_flags_bits(f0, FlagMode::Clear, FlagMode::Clear, FlagMode::Clear, c);
        }
        Ok(0)
    }

    /// `RRA`: rotates `A` right through the carry: `C` enters bit 7, the
    /// old bit 0 becomes the new `C`.
    pub fn process_rra(&mut self) -> (r: Result<u32, CpuError>)
        requires
            old(self).wf(),
        ensures
            r == Ok::<u32, CpuError>(0),
            final(self).wf(),
            ({
                let a = old(self).registers.a;
                let cin: u8 = if spec_check_bit(old(self).registers.f, 4) {
                    1u8
                } else {
                    0u8
                };
                spec_alu_a_flags(
                    *old(self),
                    *final(self),
                    (a >> 1) | ((cin as u8) << 7),
                    false,
                    false,
                    false,
                    a & 1 == 1,
                )
            }),
    {
        let a = self.registers.a;
        let cin: u8 = if self.get_c_flag() {
            1
        } else {
            0
        };
        proof {
            let v = a;
            let ci = cin;
            assert((v >> 1) < 0x80 && ci < 2 ==> ((ci << 7) < 0x100)) by (bit_vector);
        }
        let result = (a >> 1) | (cin << 7);
        self.registers.a = result;
        let c = FlagMode::from_bool(a & 1 == 1);
        let ghost f0 = self.registers.f;
        self.cpu_set_flags(FlagMode::Clear, FlagMode::Clear, FlagMode::Clear, c);
        proof {
            lemma_set_flags_bits(f0, FlagMode::Clear, FlagMode::Clear, FlagMode::Clear, c);
        }
        Ok(0)
    }

    /// `DAA`: decimal-adjusts `A` after a BCD addition or subtraction,
    /// driven by the prior `N`, `H` and `C` flags. `Z` from the result, `H`
    /// clears, `C` reports the high-digit correction.
    pub fn process_dda(&mut self) -> (r: Result<u32, CpuError>)
        requires
            old(self).wf(),
        ensures
            r == Ok::<u32, CpuError>(0),
            final(self).wf(),
            ({
                let a = old(self).registers.a;
                let f = old(self).registers.f;
                let low_adj: u8 = if spec_check_bit(f, 5) || (!spec_check_bit(f, 6) && (a & 0xF)
                    > 9) {
                    0x06u8
                } else {
                    0u8
                };
                let fc = spec_check_bit(f, 4) || (!spec_check_bit(f, 6) && a > 0x99);
                let u: u8 = if fc {
                    (low_adj | 0x60) as u8
                } else {
                    low_adj
                };
                let a2: u8 = if spec_check_bit(f, 6) {
                    ((a - u + 0x100) % 0x100) as u8
                } else {
                    ((a + u) % 0x100) as u8
                };
                spec_alu_a_flags(
                    *old(self),
                    *final(self),
                    a2,
                    a2 == 0,
                    spec_check_bit(f, 6),
                    false,
                    fc,
                )
            }),
    {
        let a = self.registers.a;
        let n = self.get_n_flag();
        let hf = self.get_h_flag();
        let cf = self.get_c_flag();

        let low_adj: u8 = if hf || (!n && (a & 0xF) > 9) {
            0x06
        } else {
            0
        };
        let fc = cf || (!n && a > 0x99);
        let u: u8 = if fc {
            low_adj | 0x60
        } else {
            low_adj
        };
        proof {
            let la = low_adj;
            assert(la <= 6 ==> (la | 0x60) == la + 0x60) by (bit_vector);
        }

        if n {
            self.registers.a = a.wrapping_sub(u);
        } else {
            self.registers.a = a.wrapping_add(u);
        }

        let z = FlagMode::from_bool(self.registers.a == 0);
        let c = FlagMode::from_bool(fc);
        let ghost f0 = self.registers.f;
        self.cpu_set_flags(z, FlagMode::Keep, FlagMode::Clear, c);
        proof {
            lemma_set_flags_bits(f0, z, FlagMode::Keep, FlagMode::Clear, c);
        }
        Ok(0)
    }

    /// `CPL`: complements `A`; `N` and `H` set, `Z` and `C` keep.
    pub fn process_cpl(&mut self) -> (r: Result<u32, CpuError>)
        requires
            old(self).wf(),
        ensures
            r == Ok::<u32, CpuError>(0),
            final(self).wf(),
            spec_alu_a_flags(
                *old(self),
                *final(self),
                !old(self).registers.a,
                spec_check_bit(old(self).registers.f, 7),
                true,
                true,
                spec_check_bit(old(self).registers.f, 4),
            ),
    {
        self.registers.a = !self.registers.a;
        let ghost f0 = self.registers.f;
        self.cpu_set_flags(FlagMode::Keep, FlagMode::Raise, FlagMode::Raise, FlagMode::Keep);
        proof {
            lemma_set_flags_bits(f0, FlagMode::Keep, FlagMode::Raise, FlagMode::Raise, FlagMode::Keep);
        }
        Ok(0)
    }

    /// `SCF`: sets the carry; `N` and `H` clear, `Z` keeps.
    pub fn process_scf(&mut self) -> (r: Result<u32, CpuError>)
        requires
            old(self).wf(),
        ensures
            r == Ok::<u32, CpuError>(0),
            final(self).wf(),
            spec_alu_a_flags(
                *old(self),
                *final(self),
                old(self).registers.a,
                spec_check_bit(old(self).registers.f, 7),
                false,
                false,
                true,
            ),
    {
        let ghost f0 = self.registers.f;
        self.cpu_set_flags(FlagMode::Keep, FlagMode::Clear, FlagMode::Clear, FlagMode::Raise);
        proof {
            lemma_set_flags_bits(f0, FlagMode::Keep, FlagMode::Clear, FlagMode::Clear, FlagMode::Raise);
        }
        Ok(0)
    }

    /// `CCF`: toggles the carry; `N` and `H` clear, `Z` keeps.
    pub fn process_ccf(&mut self) -> (r: Result<u32, CpuError>)
        requires
            old(self).wf(),
        ensures
            r == Ok::<u32, CpuError>(0),
            final(self).wf(),
            spec_alu_a_flags(
                *old(self),
                *final(self),
                old(self).registers.a,
                spec_check_bit(old(self).registers.f, 7),
                false,
                false,
                !spec_check_bit(old(self).registers.f, 4),
            ),
    {
        let c = FlagMode::from_bool(!self.get_c_flag());
        let ghost f0 = self.registers.f;
        self.cpu_set_flags(FlagMode::Keep, FlagMode::Clear, FlagMode::Clear, c);
        proof {
            lemma_set_flags_bits(f0, FlagMode::Keep, FlagMode::Clear, FlagMode::Clear, c);
        }
        Ok(0)
    }

    /// `DI`: the master enable falls at once.
    pub fn process_di(&mut self) -> (r: Result<u32, CpuError>)
        ensures
            r == Ok::<u32, CpuError>(0),
            *final(self) == (CPU { interrupt_master_enable: false, ..*old(self) }),
    {
        self.interrupt_master_enable = false;
        Ok(0)
    }

    /// `EI`: arms the enable latch; the master enable rises only after the
    /// next instruction completes.
    pub fn process_ei(&mut self) -> (r: Result<u32, CpuError>)
        ensures
            r == Ok::<u32, CpuError>(0),
            *final(self) == (CPU { enable_ime: true, ..*old(self) }),
    {
        self.enable_ime = true;
        Ok(0)
    }

    /// `HALT`: parks the processor until an interrupt is pending.
    pub fn process_halt(&mut self) -> (r: Result<u32, CpuError>)
        ensures
            r == Ok::<u32, CpuError>(0),
            *final(self) == (CPU { halted: true, ..*old(self) }),
    {
        self.halted = true;
        Ok(0)
    }

    /// `STOP`: parks the processor; the full low-power semantics are out of
    /// scope.
    pub fn process_stop(&mut self) -> (r: Result<u32, CpuError>)
        ensures
            r == Ok::<u32, CpuError>(0),
            *final(self) == (CPU { stopped: true, ..*old(self) }),
    {
        self.stopped = true;
        Ok(0)
    }
}

} // verus!
