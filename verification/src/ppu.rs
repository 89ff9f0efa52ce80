//! The picture processing unit: VRAM and sprite attribute storage, and the
//! mode state machine that paces each scanline — 80 dots of OAM scan,
//! 172 dots of transfer, HBlank up to dot 456, and ten VBlank lines —
//! raising the VBlank and LCD-STAT interrupts at its transitions.

use vstd::prelude::*;
use crate::interrupts::{IFlagsRegister, InterruptType};
use crate::lcd::{LCD, LCDMode, StatSrc, lcd_unchanged_but_lcds};
use crate::util::spec_modify_bit;

verus! {

pub const LINES_PER_FRAME: u8 = 154;

pub const TICKS_PER_LINE: u32 = 456;

pub const YRES: u8 = 144;

pub const XRES: u8 = 160;

/// One sprite attribute entry: position, tile index and flags.
#[derive(Debug, Clone, Copy)]
pub struct OAM {
    pub y: u8,
    pub x: u8,
    pub tile: u8,
    pub flags: u8,
}

impl OAM {
    pub fn default() -> (r: OAM)
        ensures
            r == (OAM { y: 0, x: 0, tile: 0, flags: 0 }),
    {
        OAM { y: 0, x: 0, tile: 0, flags: 0 }
    }

    pub fn get_bg_window_priority(&self) -> (r: bool)
        ensures
            r == ((self.flags & 0x80) != 0),
    {
        (self.flags & 0x80) != 0
    }

    pub fn get_y_flip(&self) -> (r: bool)
        ensures
            r == ((self.flags & 0x40) != 0),
    {
        (self.flags & 0x40) != 0
    }

    pub fn get_x_flip(&self) -> (r: bool)
        ensures
            r == ((self.flags & 0x20) != 0),
    {
        (self.flags & 0x20) != 0
    }

    pub fn get_palette_number(&self) -> (r: bool)
        ensures
            r == ((self.flags & 0x10) != 0),
    {
        (self.flags & 0x10) != 0
    }

    pub fn get_tile_vram_bank(&self) -> (r: bool)
        ensures
            r == ((self.flags & 0x08) != 0),
    {
        (self.flags & 0x08) != 0
    }

    pub fn get_cgb_palette_number(&self) -> (r: u8)
        ensures
            r == self.flags & 0x03,
    {
        self.flags & 0x03
    }
}

pub struct PPU {
    pub oam_ram: Vec<OAM>,
    pub vram: Vec<u8>,
    pub current_frame: u32,
    pub line_ticks: u32,
}

/// The byte a sprite-memory offset selects.
pub open spec fn spec_oam_byte(oam: Seq<OAM>, address: u16) -> u8 {
    let e = oam[address as int / 4];
    match address % 4 {
        0u16 => e.y,
        1u16 => e.x,
        2u16 => e.tile,
        _ => e.flags,
    }
}

/// Sprite memory after a byte write at `address`.
pub open spec fn spec_oam_write(oam: Seq<OAM>, address: u16, data: u8) -> Seq<OAM> {
    let e = oam[address as int / 4];
    let e2 = match address % 4 {
        0u16 => OAM { y: data, ..e },
        1u16 => OAM { x: data, ..e },
        2u16 => OAM { tile: data, ..e },
        _ => OAM { flags: data, ..e },
    };
    oam.update(address as int / 4, e2)
}

/// What `PPU::read` returns for a full bus address.
pub open spec fn spec_ppu_read(ppu: PPU, address: u16) -> u8 {
    if 0x8000 <= address < 0xA000 {
        ppu.vram@[address - 0x8000]
    } else if 0xFE00 <= address < 0xFEA0 {
        spec_oam_byte(ppu.oam_ram@, (address - 0xFE00) as u16)
    } else {
        0
    }
}

/// `STAT` with its mode bits forced to `m`.
pub open spec fn spec_with_mode(lcds: u8, m: u8) -> u8 {
    (lcds & !0b11) | m
}

/// `IF` after entering mode `m`: LCD-STAT is raised when the mode's
/// interrupt-source bit of `STAT` is enabled.
pub open spec fn spec_stat_on_mode(lcds: u8, m: u8, iflags: u8) -> u8 {
    let mask: u8 = if m == 0 {
        0x08u8
    } else if m == 1 {
        0x10u8
    } else if m == 2 {
        0x20u8
    } else {
        0x00u8
    };
    if lcds & mask != 0 {
        iflags | 0x02
    } else {
        iflags
    }
}

/// `LY` after moving to the next scanline.
pub open spec fn spec_ly_inc(ly: u8) -> u8 {
    ((ly + 1) % 0x100) as u8
}

/// `STAT` after the `LYC` comparison against the new `LY`.
pub open spec fn spec_lyc_lcds(lcds: u8, new_ly: u8, lyc: u8) -> u8 {
    spec_modify_bit(lcds, 2, new_ly == lyc)
}

/// `IF` after the `LYC` comparison: LCD-STAT is raised on a match when the
/// `LYC` source bit of `STAT` is enabled.
pub open spec fn spec_lyc_if(lcds: u8, new_ly: u8, lyc: u8, iflags: u8) -> u8 {
    if new_ly == lyc && (lcds & 0x40) != 0 {
        iflags | 0x02
    } else {
        iflags
    }
}

/// The machine-visible state one PPU dot changes: `STAT`, `LY`, the dot
/// counter of the line, `IF` and the frame counter.
pub struct PpuTickEffect {
    pub lcds: u8,
    pub ly: u8,
    pub line_ticks: u32,
    pub int_flags: u8,
    pub current_frame: u32,
}

/// An HBlank dot, with the dot counter already advanced to `lt`. At dot 456
/// the line ends: `LY` moves on, and the machine enters VBlank (raising the
/// VBlank interrupt) on reaching line 144, the next OAM scan otherwise. A
/// dot count below the canonical HBlank span restarts the OAM scan.
pub open spec fn spec_hblank_step(
    lcds: u8,
    ly: u8,
    lyc: u8,
    lt: u32,
    iflags: u8,
    frame: u32,
) -> PpuTickEffect {
    if lt >= 456 {
        let nly = spec_ly_inc(ly);
        let l1 = spec_lyc_lcds(lcds, nly, lyc);
        let i1 = spec_lyc_if(lcds, nly, lyc, iflags);
        if nly >= 144 {
            PpuTickEffect {
                lcds: spec_with_mode(l1, 1),
                ly: nly,
                line_ticks: 0,
                int_flags: spec_stat_on_mode(l1, 1, i1 | 0x01),
                current_frame: ((frame + 1) % 0x1_0000_0000) as u32,
            }
        } else {
            PpuTickEffect {
                lcds: spec_with_mode(l1, 2),
                ly: nly,
                line_ticks: 0,
                int_flags: spec_stat_on_mode(l1, 2, i1),
                current_frame: frame,
            }
        }
    } else if lt < 252 {
        PpuTickEffect {
            lcds: spec_with_mode(lcds, 2),
            ly,
            line_ticks: 0,
            int_flags: spec_stat_on_mode(lcds, 2, iflags),
            current_frame: frame,
        }
    } else {
        PpuTickEffect { lcds, ly, line_ticks: lt, int_flags: iflags, current_frame: frame }
    }
}

/// A VBlank dot, with the dot counter already advanced to `lt`. At dot 456
/// the line ends; after line 153 the frame restarts at the OAM scan of
/// line 0.
pub open spec fn spec_vblank_step(
    lcds: u8,
    ly: u8,
    lyc: u8,
    lt: u32,
    iflags: u8,
    frame: u32,
) -> PpuTickEffect {
    if lt >= 456 {
        let nly = spec_ly_inc(ly);
        let l1 = spec_lyc_lcds(lcds, nly, lyc);
        let i1 = spec_lyc_if(lcds, nly, lyc, iflags);
        if nly >= 154 {
            PpuTickEffect {
                lcds: spec_with_mode(l1, 2),
                ly: 0,
                line_ticks: 0,
                int_flags: spec_stat_on_mode(l1, 2, i1),
                current_frame: frame,
            }
        } else {
            PpuTickEffect { lcds: l1, ly: nly, line_ticks: 0, int_flags: i1, current_frame: frame }
        }
    } else {
        PpuTickEffect { lcds, ly, line_ticks: lt, int_flags: iflags, current_frame: frame }
    }
}

/// An OAM-scan dot: after 80 dots the transfer phase begins.
pub open spec fn spec_oam_step(
    lcds: u8,
    ly: u8,
    lt: u32,
    iflags: u8,
    frame: u32,
) -> PpuTickEffect {
    if lt >= 80 {
        PpuTickEffect {
            lcds: spec_with_mode(lcds, 3),
            ly,
            line_ticks: lt,
            int_flags: iflags,
            current_frame: frame,
        }
    } else {
        PpuTickEffect { lcds, ly, line_ticks: lt, int_flags: iflags, current_frame: frame }
    }
}

/// A transfer dot: after dot 252 of the line, HBlank begins.
pub open spec fn spec_transfer_step(
    lcds: u8,
    ly: u8,
    lt: u32,
    iflags: u8,
    frame: u32,
) -> PpuTickEffect {
    if lt >= 252 {
        PpuTickEffect {
            lcds: spec_with_mode(lcds, 0),
            ly,
            line_ticks: lt,
            int_flags: spec_stat_on_mode(lcds, 0, iflags),
            current_frame: frame,
        }
    } else {
        PpuTickEffect { lcds, ly, line_ticks: lt, int_flags: iflags, current_frame: frame }
    }
}

/// One dot of the state machine. With the display disabled the machine
/// parks: mode 0, line 0, dot counter 0, nothing raised.
pub open spec fn spec_ppu_tick(
    lcdc: u8,
    lcds: u8,
    ly: u8,
    lyc: u8,
    lt: u32,
    iflags: u8,
    frame: u32,
) -> PpuTickEffect {
    if !crate::util::spec_check_bit(lcdc, 7) {
        PpuTickEffect {
            lcds: lcds & !0b11,
            ly: 0,
            line_ticks: 0,
            int_flags: iflags,
            current_frame: frame,
        }
    } else {
        let nlt = ((lt + 1) % 0x1_0000_0000) as u32;
        match lcds & 0b11 {
            0u8 => spec_hblank_step(lcds, ly, lyc, nlt, iflags, frame),
            1u8 => spec_vblank_step(lcds, ly, lyc, nlt, iflags, frame),
            2u8 => spec_oam_step(lcds, ly, nlt, iflags, frame),
            _ => spec_transfer_step(lcds, ly, nlt, iflags, frame),
        }
    }
}

impl PPU {
    /// Storage has its fixed sizes: 40 sprite entries and 8 KiB of VRAM.
    pub open spec fn wf(self) -> bool {
        &&& self.oam_ram@.len() == 40
        &&& self.vram@.len() == 0x2000
    }

    pub fn new() -> (r: PPU)
        ensures
            r.wf(),
            r.current_frame == 0,
            r.line_ticks == 0,
            forall|i: int| 0 <= i < 40 ==> r.oam_ram@[i] == (OAM { y: 0, x: 0, tile: 0, flags: 0 }),
            forall|i: int| 0 <= i < 0x2000 ==> r.vram@[i] == 0u8,
    {
        let mut oam_ram: Vec<OAM> = Vec::new();
        let mut i: usize = 0;
        while i < 40
            invariant
                i <= 40,
                oam_ram@.len() == i,
                forall|j: int| 0 <= j < i ==> oam_ram@[j] == (OAM { y: 0, x: 0, tile: 0, flags: 0 }),
            decreases 40 - i,
        {
            oam_ram.push(OAM::default());
            i += 1;
        }
        let vram = crate::ram::vec_zeroed(0x2000);
        PPU { oam_ram, vram, current_frame: 0, line_ticks: 0 }
    }

    /// Moves to the next scanline: advance `LY`, compare it with `LYC`, and
    /// raise LCD-STAT on a match when the `LYC` source is enabled.
    pub fn increment_ly(&mut self, lcd: &mut LCD, int_flags: &mut IFlagsRegister)
        ensures
            *final(self) == *old(self),
            final(lcd).register.ly == spec_ly_inc(old(lcd).register.ly),
            final(lcd).register.lcds == spec_lyc_lcds(
                old(lcd).register.lcds,
                spec_ly_inc(old(lcd).register.ly),
                old(lcd).register.ly_compare,
            ),
            final(int_flags).int_flags == spec_lyc_if(
                old(lcd).register.lcds,
                spec_ly_inc(old(lcd).register.ly),
                old(lcd).register.ly_compare,
                old(int_flags).int_flags,
            ),
            lcd_unchanged_but_ly_lcds(*old(lcd), *final(lcd)),
    {
        let stat_enabled = lcd.lcds_stat_int(StatSrc::LYC) != 0;
        lcd.register.ly = lcd.register.ly.wrapping_add(1);
        if lcd.register.ly == lcd.register.ly_compare {
            lcd.lcds_lyc_set(true);
            if stat_enabled {
                int_flags.add_interrupt(InterruptType::LcdStat);
            }
        } else {
            lcd.lcds_lyc_set(false);
        }
    }

    /// An OAM-scan dot.
    pub fn ppu_mode_oam(&mut self, lcd: &mut LCD, int_flags: &mut IFlagsRegister)
        ensures
            ppu_unchanged_but_line(*old(self), *final(self)),
            final(self).line_ticks == old(self).line_ticks,
            final(self).current_frame == old(self).current_frame,
            lcd_unchanged_but_ly_lcds(*old(lcd), *final(lcd)),
            ppu_effect_matches(
                spec_oam_step(
                    old(lcd).register.lcds,
                    old(lcd).register.ly,
                    old(self).line_ticks,
                    old(int_flags).int_flags,
                    old(self).current_frame,
                ),
                *final(lcd),
                *final(self),
                *final(int_flags),
            ),
    {
        if self.line_ticks >= 80 {
            lcd.lcds_mode_set(LCDMode::PixelTransfer);
        }
    }

    /// A transfer dot.
    pub fn ppu_mode_pixel_transfer(&mut self, lcd: &mut LCD, int_flags: &mut IFlagsRegister)
        ensures
            ppu_unchanged_but_line(*old(self), *final(self)),
            lcd_unchanged_but_ly_lcds(*old(lcd), *final(lcd)),
            ppu_effect_matches(
                spec_transfer_step(
                    old(lcd).register.lcds,
                    old(lcd).register.ly,
                    old(self).line_ticks,
                    old(int_flags).int_flags,
                    old(self).current_frame,
                ),
                *final(lcd),
                *final(self),
                *final(int_flags),
            ),
    {
        if self.line_ticks >= 252 {
            let src = lcd.lcds_stat_int(StatSrc::HBlank);
            lcd.lcds_mode_set(LCDMode::HBlank);
            if src != 0 {
                int_flags.add_interrupt(InterruptType::LcdStat);
            }
        }
    }

    /// An HBlank dot.
    pub fn ppu_mode_hblank(&mut self, lcd: &mut LCD, int_flags: &mut IFlagsRegister)
        ensures
            ppu_unchanged_but_line(*old(self), *final(self)),
            lcd_unchanged_but_ly_lcds(*old(lcd), *final(lcd)),
            ppu_effect_matches(
                spec_hblank_step(
                    old(lcd).register.lcds,
                    old(lcd).register.ly,
                    old(lcd).register.ly_compare,
                    old(self).line_ticks,
                    old(int_flags).int_flags,
                    old(self).current_frame,
                ),
                *final(lcd),
                *final(self),
                *final(int_flags),
            ),
    {
        if self.line_ticks >= 456 {
            self.increment_ly(lcd, int_flags);
            let vblank_src = lcd.lcds_stat_int(StatSrc::VBlank);
            let oam_src = lcd.lcds_stat_int(StatSrc::OAM);
            if lcd.register.ly >= 144 {
                lcd.lcds_mode_set(LCDMode::VBlank);
                int_flags.add_interrupt(InterruptType::VBlank);
                if vblank_src != 0 {
                    int_flags.add_interrupt(InterruptType::LcdStat);
                }
                self.current_frame = self.current_frame.wrapping_add(1);
            } else {
                lcd.lcds_mode_set(LCDMode::OAM);
                if oam_src != 0 {
                    int_flags.add_interrupt(InterruptType::LcdStat);
                }
            }
            self.line_ticks = 0;
        } else if self.line_ticks < 252 {
            let oam_src = lcd.lcds_stat_int(StatSrc::OAM);
            lcd.lcds_mode_set(LCDMode::OAM);
            if oam_src != 0 {
                int_flags.add_interrupt(InterruptType::LcdStat);
            }
            self.line_ticks = 0;
        }
    }

    /// A VBlank dot.
    pub fn ppu_mode_vblank(&mut self, lcd: &mut LCD, int_flags: &mut IFlagsRegister)
        ensures
            ppu_unchanged_but_line(*old(self), *final(self)),
            final(self).current_frame == old(self).current_frame,
            lcd_unchanged_but_ly_lcds(*old(lcd), *final(lcd)),
            ppu_effect_matches(
                spec_vblank_step(
                    old(lcd).register.lcds,
                    old(lcd).register.ly,
                    old(lcd).register.ly_compare,
                    old(self).line_ticks,
                    old(int_flags).int_flags,
                    old(self).current_frame,
                ),
                *final(lcd),
                *final(self),
                *final(int_flags),
            ),
    {
        if self.line_ticks >= 456 {
            self.increment_ly(lcd, int_flags);
            let oam_src = lcd.lcds_stat_int(StatSrc::OAM);
            if lcd.register.ly >= 154 {
                lcd.lcds_mode_set(LCDMode::OAM);
                if oam_src != 0 {
                    int_flags.add_interrupt(InterruptType::LcdStat);
                }
                lcd.register.ly = 0;
            }
            self.line_ticks = 0;
        }
    }

    /// One dot of the state machine.
    pub fn ppu_tick(&mut self, lcd: &mut LCD, int_flags: &mut IFlagsRegister)
        ensures
            ppu_unchanged_but_line(*old(self), *final(self)),
            lcd_unchanged_but_ly_lcds(*old(lcd), *final(lcd)),
            ppu_effect_matches(
                spec_ppu_tick(
                    old(lcd).register.lcdc,
                    old(lcd).register.lcds,
                    old(lcd).register.ly,
                    old(lcd).register.ly_compare,
                    old(self).line_ticks,
                    old(int_flags).int_flags,
                    old(self).current_frame,
                ),
                *final(lcd),
                *final(self),
                *final(int_flags),
            ),
    {
        if !lcd.lcdc_display_enabled() {
            self.line_ticks = 0;
            lcd.register.ly = 0;
            lcd.register.lcds = lcd.register.lcds & !0b11;
            return ;
        }
        self.line_ticks = self.line_ticks.wrapping_add(1);
        proof {
            let l = old(lcd).register.lcds;
            assert(l & 0b11 < 4) by (bit_vector);
        }
        let mode = lcd.lcds_mode_flag();
        match mode {
            LCDMode::HBlank => self.ppu_mode_hblank(lcd, int_flags),
            LCDMode::VBlank => self.ppu_mode_vblank(lcd, int_flags),
            LCDMode::OAM => self.ppu_mode_oam(lcd, int_flags),
            LCDMode::PixelTransfer => self.ppu_mode_pixel_transfer(lcd, int_flags),
        }
    }

    /// Reads a byte of VRAM or sprite memory by its full bus address;
    /// other addresses read 0.
    pub fn read(&self, address: u16) -> (r: u8)
        requires
            self.wf(),
        ensures
            r == spec_ppu_read(*self, address),
    {
        if 0x8000 <= address && address < 0xA000 {
            self.vram[(address - 0x8000) as usize]
        } else if 0xFE00 <= address && address < 0xFEA0 {
            self.oam_read(address - 0xFE00)
        } else {
            0
        }
    }

    /// Writes a byte of sprite memory by its offset within the region.
    pub fn oam_write(&mut self, address: u16, data: u8)
        requires
            old(self).wf(),
            address < 0xA0,
        ensures
            final(self).wf(),
            final(self).oam_ram@ == spec_oam_write(old(self).oam_ram@, address, data),
            final(self).vram@ == old(self).vram@,
            final(self).current_frame == old(self).current_frame,
            final(self).line_ticks == old(self).line_ticks,
    {
        let oam_index = (address as usize) / 4;
        let mut entry = self.oam_ram[oam_index];
        match address % 4 {
            0u16 => entry.y = data,
            1u16 => entry.x = data,
            2u16 => entry.tile = data,
            _ => entry.flags = data,
        }
        self.oam_ram.set(oam_index, entry);
    }

    /// Reads a byte of sprite memory by its offset within the region.
    pub fn oam_read(&self, address: u16) -> (r: u8)
        requires
            self.wf(),
            address < 0xA0,
        ensures
            r == spec_oam_byte(self.oam_ram@, address),
    {
        let oam_index = (address as usize) / 4;
        let entry = &self.oam_ram[oam_index];
        match address % 4 {
            0u16 => entry.y,
            1u16 => entry.x,
            2u16 => entry.tile,
            _ => entry.flags,
        }
    }

    /// Writes a byte of VRAM by its offset within the region.
    pub fn vram_write(&mut self, address: u16, data: u8)
        requires
            old(self).wf(),
            address < 0x2000,
        ensures
            final(self).wf(),
            final(self).vram@ == old(self).vram@.update(address as int, data),
            final(self).oam_ram@ == old(self).oam_ram@,
            final(self).current_frame == old(self).current_frame,
            final(self).line_ticks == old(self).line_ticks,
    {
        self.vram.set(address as usize, data);
    }

    /// Reads a byte of VRAM by its offset within the region.
    pub fn vram_read(&self, address: u16) -> (r: u8)
        requires
            self.wf(),
            address < 0x2000,
        ensures
            r == self.vram@[address as int],
    {
        self.vram[address as usize]
    }
}

/// The storage of the PPU agrees between two states: only the line/frame
/// counters may differ.
pub open spec fn ppu_unchanged_but_line(a: PPU, b: PPU) -> bool {
    &&& b.oam_ram@ == a.oam_ram@
    &&& b.vram@ == a.vram@
    &&& (b.wf() <==> a.wf())
}

/// Everything of the LCD register file but `STAT` and `LY` agrees.
pub open spec fn lcd_unchanged_but_ly_lcds(a: LCD, b: LCD) -> bool {
    &&& b.register.lcdc == a.register.lcdc
    &&& b.register.scroll_y == a.register.scroll_y
    &&& b.register.scroll_x == a.register.scroll_x
    &&& b.register.ly_compare == a.register.ly_compare
    &&& b.register.dma == a.register.dma
    &&& b.register.bg_palette == a.register.bg_palette
    &&& b.register.wy == a.register.wy
    &&& b.register.wx == a.register.wx
    &&& b.register.obj_palette@ == a.register.obj_palette@
    &&& b.register.bg_colors@ == a.register.bg_colors@
    &&& b.register.sp1_colors@ == a.register.sp1_colors@
    &&& b.register.sp2_colors@ == a.register.sp2_colors@
}

/// The machine-visible outcome of one dot matches a computed effect.
pub open spec fn ppu_effect_matches(
    e: PpuTickEffect,
    lcd: LCD,
    ppu: PPU,
    int_flags: IFlagsRegister,
) -> bool {
    &&& lcd.register.lcds == e.lcds
    &&& lcd.register.ly == e.ly
    &&& ppu.line_ticks == e.line_ticks
    &&& int_flags.int_flags == e.int_flags
    &&& ppu.current_frame == e.current_frame
}

} // verus!
