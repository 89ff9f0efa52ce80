//! The interrupt flag registers `IE` and `IF` and the five interrupt
//! sources, ordered by priority: the lowest set bit is serviced first.

use vstd::prelude::*;

verus! {

/// The five interrupt sources, in priority order.
#[derive(Debug, Clone, Copy, PartialEq, Eq, Structural)]
pub enum InterruptType {
    VBlank,
    LcdStat,
    Timer,
    Serial,
    JoyPad,
}

/// The flag bit of an interrupt source.
pub open spec fn spec_interrupt_mask(t: InterruptType) -> u32 {
    match t {
        InterruptType::VBlank => 0x01,
        InterruptType::LcdStat => 0x02,
        InterruptType::Timer => 0x04,
        InterruptType::Serial => 0x08,
        InterruptType::JoyPad => 0x10,
    }
}

/// The service vector of an interrupt source.
pub open spec fn spec_interrupt_vector(t: InterruptType) -> u16 {
    match t {
        InterruptType::VBlank => 0x40,
        InterruptType::LcdStat => 0x48,
        InterruptType::Timer => 0x50,
        InterruptType::Serial => 0x58,
        InterruptType::JoyPad => 0x60,
    }
}

impl InterruptType {
    pub fn value_has_interrupt(&self, value: u32) -> (r: bool)
        ensures
            r == ((value & spec_interrupt_mask(*self)) != 0),
    {
        match self {
            InterruptType::VBlank => (value & 0x01) != 0,
            InterruptType::LcdStat => (value & 0x02) != 0,
            InterruptType::Timer => (value & 0x04) != 0,
            InterruptType::Serial => (value & 0x08) != 0,
            InterruptType::JoyPad => (value & 0x10) != 0,
        }
    }

    pub fn value_add_interrupt(&self, value: u32) -> (r: u32)
        ensures
            r == (value | spec_interrupt_mask(*self)),
    {
        match self {
            InterruptType::VBlank => value | 0x01,
            InterruptType::LcdStat => value | 0x02,
            InterruptType::Timer => value | 0x04,
            InterruptType::Serial => value | 0x08,
            InterruptType::JoyPad => value | 0x10,
        }
    }

    pub fn value_remove_interrupt(&self, value: u32) -> (r: u32)
        ensures
            r == (value & !spec_interrupt_mask(*self)),
    {
        match self {
            InterruptType::VBlank => value & !0x01,
            InterruptType::LcdStat => value & !0x02,
            InterruptType::Timer => value & !0x04,
            InterruptType::Serial => value & !0x08,
            InterruptType::JoyPad => value & !0x10,
        }
    }
}

/// One 8-bit interrupt flag register: `IE` at `$FFFF` or `IF` at `$FF0F`.
pub struct IFlagsRegister {
    pub int_flags: u8,
}

impl IFlagsRegister {
    pub fn new() -> (r: IFlagsRegister)
        ensures
            r.int_flags == 0,
    {
        IFlagsRegister { int_flags: 0 }
    }

    pub fn has_interrupt(&self, interrupt_type: InterruptType) -> (r: bool)
        ensures
            r == ((self.int_flags & spec_interrupt_mask(interrupt_type) as u8) != 0),
    {
        let r = interrupt_type.value_has_interrupt(self.int_flags as u32);
        proof {
            let m = spec_interrupt_mask(interrupt_type);
            let f = self.int_flags;
            assert(m <= 0x10 ==> (((f as u32) & m != 0) == (f & (m as u8) != 0)))
                by (bit_vector);
        }
        r
    }

    pub fn add_interrupt(&mut self, interrupt_type: InterruptType)
        ensures
            final(self).int_flags == (old(self).int_flags
                | spec_interrupt_mask(interrupt_type) as u8),
    {
        let r = interrupt_type.value_add_interrupt(self.int_flags as u32);
        proof {
            let m = spec_interrupt_mask(interrupt_type);
            let f = self.int_flags;
            assert(m <= 0x10 ==> (((f as u32) | m) as u8 == (f | (m as u8))
                && ((f as u32) | m) <= 0xFF)) by (bit_vector);
        }
        self.int_flags = r as u8;
    }

    pub fn remove_interrupt(&mut self, interrupt_type: InterruptType)
        ensures
            final(self).int_flags == (old(self).int_flags
                & !(spec_interrupt_mask(interrupt_type) as u8)),
    {
        let r = interrupt_type.value_remove_interrupt(self.int_flags as u32);
        proof {
            let m = spec_interrupt_mask(interrupt_type);
            let f = self.int_flags;
            assert(m <= 0x10 ==> (((f as u32) & !m) as u8 == (f & !(m as u8))
                && ((f as u32) & !m) <= 0xFF)) by (bit_vector);
        }
        self.int_flags = r as u8;
    }
}

} // verus!
