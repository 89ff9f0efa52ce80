//! The divider/timer peripheral: a free-running 16-bit divider `DIV` and
//! the programmable counter `TIMA` with modulo `TMA` and control `TAC`.
//!
//! One call of `tick` is one T-cycle. `TIMA` increments on a falling edge
//! of the `DIV` bit selected by `TAC`, and reloads from `TMA`, raising the
//! Timer interrupt, exactly when it wraps from `$FF` to `$00`.

use vstd::prelude::*;
use crate::interrupts::{IFlagsRegister, InterruptType, spec_interrupt_mask};

verus! {

pub struct Timer {
    pub div: u16,
    pub tima: u8,
    pub tma: u8,
    pub tac: u8,
}

/// Bit 2 of `TAC` enables the programmable counter.
pub open spec fn spec_tac_enabled(tac: u8) -> bool {
    tac & 0x04 != 0
}

/// The `DIV` bit that gates `TIMA`, selected by the low two bits of `TAC`.
pub open spec fn spec_tac_sel_bit(tac: u8) -> u16 {
    match tac & 0x3 {
        0u8 => 9,
        1u8 => 3,
        2u8 => 5,
        _ => 7,
    }
}

/// Whether bit `bit` of the divider is set.
pub open spec fn spec_div_bit(div: u16, bit: u16) -> bool {
    div & (1u16 << bit) != 0
}

/// The divider after one T-cycle.
pub open spec fn spec_tick_div(div: u16) -> u16 {
    ((div + 1) % 0x10000) as u16
}

/// A falling edge on the selected `DIV` bit between two divider values.
pub open spec fn spec_timer_edge(tac: u8, prev: u16, cur: u16) -> bool {
    spec_div_bit(prev, spec_tac_sel_bit(tac)) && !spec_div_bit(cur, spec_tac_sel_bit(tac))
}

/// Whether this T-cycle increments `TIMA`.
pub open spec fn spec_timer_inc(tac: u8, prev: u16) -> bool {
    spec_tac_enabled(tac) && spec_timer_edge(tac, prev, spec_tick_div(prev))
}

/// The divider after `n` T-cycles.
pub open spec fn spec_div_after(div: u16, n: nat) -> u16
    decreases n,
{
    if n == 0 {
        div
    } else {
        spec_tick_div(spec_div_after(div, (n - 1) as nat))
    }
}

proof fn lemma_div_after_mod(div: u16, n: nat)
    ensures
        spec_div_after(div, n) == (div + n) % 0x10000,
    decreases n,
{
    if n > 0 {
        lemma_div_after_mod(div, (n - 1) as nat);
    }
}

/// One full wrap of the free-running divider takes exactly 65536 T-cycles:
/// after 65536 ticks `DIV` is back at its old value, and at no earlier tick.
pub proof fn lemma_div_wrap_period(div: u16)
    ensures
        spec_div_after(div, 65536) == div,
        forall|n: nat| 0 < n < 65536 ==> spec_div_after(div, n) != div,
{
    lemma_div_after_mod(div, 65536);
    assert forall|n: nat| 0 < n < 65536 implies spec_div_after(div, n) != div by {
        lemma_div_after_mod(div, n);
    }
}

impl Timer {
    pub fn new() -> (r: Timer)
        ensures
            r.div == 0xAC00,
            r.tima == 0,
            r.tma == 0,
            r.tac == 0,
    {
        Timer { div: 0xAC00, tima: 0, tma: 0, tac: 0 }
    }

    pub fn reset(&mut self)
        ensures
            *final(self) == (Timer { div: 0xAC00, tima: 0, tma: 0, tac: 0 }),
    {
        let mut new_timer = Timer::new();
        core::mem::swap(self, &mut new_timer);
    }

    /// Advances the divider by one T-cycle. `TIMA` increments exactly on an
    /// enabled falling edge of the selected `DIV` bit; it reloads from `TMA`
    /// and raises the Timer interrupt exactly when that increment wraps it
    /// from `$FF` to `$00`.
    pub fn tick(&mut self, int_flags: &mut IFlagsRegister)
        ensures
            final(self).div == spec_tick_div(old(self).div),
            final(self).tma == old(self).tma,
            final(self).tac == old(self).tac,
            !spec_timer_inc(old(self).tac, old(self).div) ==> {
                &&& final(self).tima == old(self).tima
                &&& *final(int_flags) == *old(int_flags)
            },
            spec_timer_inc(old(self).tac, old(self).div) && old(self).tima == 0xFF ==> {
                &&& final(self).tima == old(self).tma
                &&& final(int_flags).int_flags == (old(int_flags).int_flags
                    | spec_interrupt_mask(InterruptType::Timer) as u8)
            },
            spec_timer_inc(old(self).tac, old(self).div) && old(self).tima != 0xFF ==> {
                &&& final(self).tima == old(self).tima + 1
                &&& *final(int_flags) == *old(int_flags)
            },
    {
        let prev_div = self.div;
        self.div = self.div.wrapping_add(1);

        proof {
            let t = self.tac;
            assert(t & 0x3 < 4) by (bit_vector);
        }
        let sel: u16 = match self.tac & 0x3 {
            0u8 => 9,
            1u8 => 3,
            2u8 => 5,
            _ => 7,
        };

        let timer_update = (prev_div & (1u16 << sel)) != 0 && (self.div & (1u16 << sel)) == 0;

        if timer_update && (self.tac & 0x04) != 0 {
            self.tima = self.tima.wrapping_add(1);
            if self.tima == 0 {
                self.tima = self.tma;
                int_flags.add_interrupt(InterruptType::Timer);
            }
        }
    }

    pub fn clear_divider(&mut self)
        ensures
            *final(self) == (Timer { div: 0, ..*old(self) }),
    {
        self.div = 0;
    }

    pub fn set_tima(&mut self, data: u8)
        ensures
            *final(self) == (Timer { tima: data, ..*old(self) }),
    {
        self.tima = data;
    }

    pub fn set_tma(&mut self, data: u8)
        ensures
            *final(self) == (Timer { tma: data, ..*old(self) }),
    {
        self.tma = data;
    }

    pub fn set_tac(&mut self, data: u8)
        ensures
            *final(self) == (Timer { tac: data, ..*old(self) }),
    {
        self.tac = data;
    }

    pub fn get_divider(&self) -> (r: u16)
        ensures
            r == self.div,
    {
        self.div
    }

    pub fn get_tima(&self) -> (r: u8)
        ensures
            r == self.tima,
    {
        self.tima
    }

    pub fn get_tma(&self) -> (r: u8)
        ensures
            r == self.tma,
    {
        self.tma
    }

    pub fn get_tac(&self) -> (r: u8)
        ensures
            r == self.tac,
    {
        self.tac
    }
}

} // verus!
