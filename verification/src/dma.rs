//! The OAM-DMA controller: a write of `V` to `$FF46` arms a transfer that,
//! after a one-cycle start delay, copies one byte per machine cycle from
//! `V * $100 + i` into sprite memory at `$FE00 + i`, for `i` in `0 .. 160`.

use vstd::prelude::*;
use crate::cartridge::Cartridge;
use crate::ppu::{PPU, spec_oam_write};
use crate::ram::Ram;

verus! {

pub struct DMA {
    pub active: bool,
    pub byte: u8,
    pub value: u8,
    pub start_delay: u8,
}

/// The byte a transfer from page `value` copies at step `i`: the bus value
/// at `value * $100 + i`, read without side effects. Pages that map no
/// readable memory give `$FF`.
pub open spec fn spec_dma_source(
    cart: Cartridge,
    ram: Ram,
    ppu: PPU,
    value: u8,
    i: u8,
) -> u8 {
    let addr = value * 0x100 + i;
    if addr < 0x8000 {
        if addr < cart.rom_data@.len() {
            cart.rom_data@[addr as int]
        } else {
            0xFF
        }
    } else if addr < 0xA000 {
        ppu.vram@[addr - 0x8000]
    } else if addr < 0xC000 {
        if addr < cart.rom_data@.len() {
            cart.rom_data@[addr as int]
        } else {
            0xFF
        }
    } else if addr < 0xE000 {
        ram.wram@[addr - 0xC000]
    } else if addr < 0xFE00 {
        ram.wram@[addr - 0xE000]
    } else {
        0xFF
    }
}

impl DMA {
    /// While a transfer runs, the next byte index stays inside sprite memory.
    pub open spec fn wf(self) -> bool {
        self.active ==> self.byte < 0xA0
    }

    pub fn new() -> (r: DMA)
        ensures
            r == (DMA { active: false, byte: 0, value: 0, start_delay: 0 }),
    {
        DMA { active: false, byte: 0, value: 0, start_delay: 0 }
    }

    /// Arms a transfer from page `value`, with a one-cycle start delay.
    pub fn dma_start(&mut self, value: u8)
        ensures
            *final(self) == (DMA { active: true, byte: 0, value, start_delay: 1 }),
    {
        self.active = true;
        self.value = value;
        self.byte = 0;
        self.start_delay = 1;
    }

    /// One machine cycle of the controller: burn the start delay, then copy
    /// one byte per cycle into sprite memory until 160 bytes are done.
    pub fn dma_tick(&mut self, cartridge: &Cartridge, ram: &Ram, ppu: &mut PPU)
        requires
            old(self).wf(),
            ram.wf(),
            old(ppu).wf(),
        ensures
            final(self).wf(),
            final(ppu).wf(),
            final(self).value == old(self).value,
            !old(self).active ==> *final(self) == *old(self) && *final(ppu) == *old(ppu),
            old(self).active && old(self).start_delay > 0 ==> {
                &&& *final(self) == (DMA { start_delay: (old(self).start_delay - 1) as u8, ..*old(self) })
                &&& *final(ppu) == *old(ppu)
            },
            old(self).active && old(self).start_delay == 0 ==> {
                &&& final(self).byte == old(self).byte + 1
                &&& final(self).active == (old(self).byte + 1 < 0xA0)
                &&& final(self).start_delay == 0
                &&& final(ppu).oam_ram@ == spec_oam_write(
                    old(ppu).oam_ram@,
                    old(self).byte as u16,
                    spec_dma_source(*cartridge, *ram, *old(ppu), old(self).value, old(self).byte),
                )
                &&& final(ppu).vram@ == old(ppu).vram@
                &&& final(ppu).current_frame == old(ppu).current_frame
                &&& final(ppu).line_ticks == old(ppu).line_ticks
            },
    {
        if !self.active {
            return ;
        }

        if self.start_delay > 0 {
            self.start_delay -= 1;
            return ;
        }

        let data = dma_read_source(cartridge, ram, ppu, self.value, self.byte);
        ppu.oam_write(self.byte as u16, data);
        self.byte += 1;
        self.active = self.byte < 0xA0;
    }

    pub fn dma_transferring(&self) -> (r: bool)
        ensures
            r == self.active,
    {
        self.active
    }
}

/// Reads the source byte of transfer step `i` from page `value`.
pub fn dma_read_source(cartridge: &Cartridge, ram: &Ram, ppu: &PPU, value: u8, i: u8) -> (r: u8)
    requires
        ram.wf(),
        ppu.wf(),
    ensures
        r == spec_dma_source(*cartridge, *ram, *ppu, value, i),
{
    let addr: u16 = (value as u16) * 0x100 + (i as u16);
    if addr < 0x8000 {
        if (addr as usize) < cartridge.rom_data.len() {
            cartridge.rom_data[addr as usize]
        } else {
            0xFF
        }
    } else if addr < 0xA000 {
        ppu.vram[(addr - 0x8000) as usize]
    } else if addr < 0xC000 {
        if (addr as usize) < cartridge.rom_data.len() {
            cartridge.rom_data[addr as usize]
        } else {
            0xFF
        }
    } else if addr < 0xE000 {
        ram.wram[(addr - 0xC000) as usize]
    } else if addr < 0xFE00 {
        ram.wram[(addr - 0xE000) as usize]
    } else {
        0xFF
    }
}

} // verus!
