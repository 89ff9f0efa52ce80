//! The flag nibble of `F`: Z at bit 7, N at bit 6, H at bit 5, C at bit 4.
//! Setting flags never touches the always-zero low nibble.

use vstd::prelude::*;
use crate::cpu::{CPU, cpu_aux_eq};
use crate::util::{check_bit, modify_bit, spec_check_bit, spec_modify_bit};

verus! {

/// What an instruction does to one flag: leave it, set it, or clear it.
pub enum FlagMode {
    Keep,
    Raise,
    Clear,
}

impl FlagMode {
    /// `Raise` for true, `Clear` for false.
    pub fn from_bool(value: bool) -> (r: FlagMode)
        ensures
            value ==> r is Raise,
            !value ==> r is Clear,
    {
        if value {
            FlagMode::Raise
        } else {
            FlagMode::Clear
        }
    }
}

/// `F` with one flag bit left, set or cleared.
pub open spec fn spec_apply_flag(f: u8, bit: u8, m: FlagMode) -> u8 {
    match m {
        FlagMode::Keep => f,
        FlagMode::Raise => spec_modify_bit(f, bit, true),
        FlagMode::Clear => spec_modify_bit(f, bit, false),
    }
}

/// `F` after applying all four flag changes: Z, N, H, then C.
pub open spec fn spec_set_flags(f: u8, z: FlagMode, n: FlagMode, h: FlagMode, c: FlagMode) -> u8 {
    spec_apply_flag(spec_apply_flag(spec_apply_flag(spec_apply_flag(f, 7, z), 6, n), 5, h), 4, c)
}

/// Forcing a flag bit leaves the low nibble of `F` alone.
pub broadcast proof fn lemma_flag_keeps_low(f: u8, bit: u8, v: bool)
    by (bit_vector)
    requires
        4 <= bit < 8,
    ensures
        (#[trigger] spec_modify_bit(f, bit, v)) & 0x0F == f & 0x0F,
{
}

/// Applying flag changes leaves the low nibble of `F` alone.
pub proof fn lemma_set_flags_low(f: u8, z: FlagMode, n: FlagMode, h: FlagMode, c: FlagMode)
    ensures
        spec_set_flags(f, z, n, h, c) & 0x0F == f & 0x0F,
{
    broadcast use lemma_flag_keeps_low;

}

/// The value a flag bit takes under one change.
pub open spec fn spec_flag_bit(m: FlagMode, old: bool) -> bool {
    match m {
        FlagMode::Keep => old,
        FlagMode::Raise => true,
        FlagMode::Clear => false,
    }
}

/// After applying the four flag changes, each flag bit reads its requested
/// value, and a kept flag reads what it held before.
pub proof fn lemma_set_flags_bits(f: u8, z: FlagMode, n: FlagMode, h: FlagMode, c: FlagMode)
    ensures
        spec_check_bit(spec_set_flags(f, z, n, h, c), 7) == spec_flag_bit(z, spec_check_bit(f, 7)),
        spec_check_bit(spec_set_flags(f, z, n, h, c), 6) == spec_flag_bit(n, spec_check_bit(f, 6)),
        spec_check_bit(spec_set_flags(f, z, n, h, c), 5) == spec_flag_bit(h, spec_check_bit(f, 5)),
        spec_check_bit(spec_set_flags(f, z, n, h, c), 4) == spec_flag_bit(c, spec_check_bit(f, 4)),
        spec_set_flags(f, z, n, h, c) & 0x0F == f & 0x0F,
{
    broadcast use crate::util::lemma_modify_bit;
    broadcast use lemma_flag_keeps_low;

}

impl CPU {
    /// The zero flag, bit 7 of `F`.
    pub fn get_z_flag(&self) -> (r: bool)
        ensures
            r == spec_check_bit(self.registers.f, 7),
    {
        check_bit(self.registers.f, 7)
    }

    /// The carry flag, bit 4 of `F`.
    pub fn get_c_flag(&self) -> (r: bool)
        ensures
            r == spec_check_bit(self.registers.f, 4),
    {
        check_bit(self.registers.f, 4)
    }

    /// The subtraction flag, bit 6 of `F`.
    pub fn get_n_flag(&self) -> (r: bool)
        ensures
            r == spec_check_bit(self.registers.f, 6),
    {
        check_bit(self.registers.f, 6)
    }

    /// The half-carry flag, bit 5 of `F`.
    pub fn get_h_flag(&self) -> (r: bool)
        ensures
            r == spec_check_bit(self.registers.f, 5),
    {
        check_bit(self.registers.f, 5)
    }

    /// Applies one change to each flag. The low nibble of `F` stays as it
    /// was; nothing else of the processor moves.
    pub fn cpu_set_flags(&mut self, z: FlagMode, n: FlagMode, h: FlagMode, c: FlagMode)
        ensures
            final(self).registers.f == spec_set_flags(old(self).registers.f, z, n, h, c),
            final(self).registers.f & 0x0F == old(self).registers.f & 0x0F,
            final(self).registers.a == old(self).registers.a,
            final(self).registers.b == old(self).registers.b,
            final(self).registers.c == old(self).registers.c,
            final(self).registers.d == old(self).registers.d,
            final(self).registers.e == old(self).registers.e,
            final(self).registers.h == old(self).registers.h,
            final(self).registers.l == old(self).registers.l,
            final(self).registers.pc == old(self).registers.pc,
            final(self).registers.sp == old(self).registers.sp,
            final(self).bus == old(self).bus,
            cpu_aux_eq(*old(self), *final(self)),
            old(self).wf() ==> final(self).wf(),
    {
        proof {
            lemma_set_flags_low(self.registers.f, z, n, h, c);
        }
        match z {
            FlagMode::Raise => self.registers.f = modify_bit(self.registers.f, 7, true),
            FlagMode::Clear => self.registers.f = modify_bit(self.registers.f, 7, false),
            FlagMode::Keep => {},
        }
        match n {
            FlagMode::Raise => self.registers.f = modify_bit(self.registers.f, 6, true),
            FlagMode::Clear => self.registers.f = modify_bit(self.registers.f, 6, false),
            FlagMode::Keep => {},
        }
        match h {
            FlagMode::Raise => self.registers.f = modify_bit(self.registers.f, 5, true),
            FlagMode::Clear => self.registers.f = modify_bit(self.registers.f, 5, false),
            FlagMode::Keep => {},
        }
        match c {
            FlagMode::Raise => self.registers.f = modify_bit(self.registers.f, 4, true),
            FlagMode::Clear => self.registers.f = modify_bit(self.registers.f, 4, false),
            FlagMode::Keep => {},
        }
    }
}

} // verus!
