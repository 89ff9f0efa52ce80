//! The LCD register file at `$FF40–$FF4B`: control, status, scroll, line
//! compare, DMA source, palettes and window position, with the derived
//! palette color tables.

use vstd::prelude::*;
use crate::dma::DMA;
use crate::util::{spec_check_bit, spec_modify_bit, check_bit, modify_bit};

verus! {

/// The rendering phase held in the low two bits of `STAT`.
#[derive(Debug, Clone, Copy, PartialEq, Eq, Structural)]
pub enum LCDMode {
    HBlank,
    VBlank,
    OAM,
    PixelTransfer,
}

/// The mode's two-bit encoding.
pub open spec fn spec_mode_to_u8(mode: LCDMode) -> u8 {
    match mode {
        LCDMode::HBlank => 0,
        LCDMode::VBlank => 1,
        LCDMode::OAM => 2,
        LCDMode::PixelTransfer => 3,
    }
}

/// The mode encoded in the low two bits of a `STAT` value.
pub open spec fn spec_mode_from_u8(value: u8) -> LCDMode {
    match value & 0b11 {
        0u8 => LCDMode::HBlank,
        1u8 => LCDMode::VBlank,
        2u8 => LCDMode::OAM,
        _ => LCDMode::PixelTransfer,
    }
}

impl LCDMode {
    pub fn from_u8(value: u8) -> (r: LCDMode)
        ensures
            r == spec_mode_from_u8(value),
    {
        proof {
            let v = value;
            assert(v & 0b11 < 4) by (bit_vector);
        }
        match value & 0b11 {
            0u8 => LCDMode::HBlank,
            1u8 => LCDMode::VBlank,
            2u8 => LCDMode::OAM,
            _ => LCDMode::PixelTransfer,
        }
    }

    pub fn to_u8(&self) -> (r: u8)
        ensures
            r == spec_mode_to_u8(*self),
    {
        match self {
            LCDMode::HBlank => 0,
            LCDMode::VBlank => 1,
            LCDMode::OAM => 2,
            LCDMode::PixelTransfer => 3,
        }
    }
}

/// The four `STAT` interrupt-source enable bits.
#[derive(Debug, Clone, Copy, PartialEq, Eq, Structural)]
pub enum StatSrc {
    HBlank,
    VBlank,
    OAM,
    LYC,
}

/// The enable-bit mask of a `STAT` interrupt source: bits 3 to 6.
pub open spec fn spec_stat_src_mask(src: StatSrc) -> u8 {
    match src {
        StatSrc::HBlank => 0x08,
        StatSrc::VBlank => 0x10,
        StatSrc::OAM => 0x20,
        StatSrc::LYC => 0x40,
    }
}

impl StatSrc {
    pub fn from_u8(value: u8) -> (r: StatSrc)
        ensures
            value == 0x08 ==> r == StatSrc::HBlank,
            value == 0x10 ==> r == StatSrc::VBlank,
            value == 0x20 ==> r == StatSrc::OAM,
            value == 0x40 ==> r == StatSrc::LYC,
            !(value == 0x08 || value == 0x10 || value == 0x20 || value == 0x40) ==> r
                == StatSrc::HBlank,
    {
        match value {
            0x10u8 => StatSrc::VBlank,
            0x20u8 => StatSrc::OAM,
            0x40u8 => StatSrc::LYC,
            _ => StatSrc::HBlank,
        }
    }

    pub fn to_u8(&self) -> (r: u8)
        ensures
            r == spec_stat_src_mask(*self),
    {
        match self {
            StatSrc::HBlank => 0x08,
            StatSrc::VBlank => 0x10,
            StatSrc::OAM => 0x20,
            StatSrc::LYC => 0x40,
        }
    }
}

/// The memory-visible LCD registers and the palette color tables derived
/// from `BGP`, `OBP0` and `OBP1`.
pub struct LcdRegisters {
    pub lcdc: u8,
    pub lcds: u8,
    pub scroll_y: u8,
    pub scroll_x: u8,
    pub ly: u8,
    pub ly_compare: u8,
    pub dma: u8,
    pub bg_palette: u8,
    pub obj_palette: Vec<u8>,
    pub wy: u8,
    pub wx: u8,
    pub bg_colors: Vec<u32>,
    pub sp1_colors: Vec<u32>,
    pub sp2_colors: Vec<u32>,
}

pub struct LCD {
    pub register: LcdRegisters,
}

/// The fixed 4-color grayscale lookup, white to black.
pub open spec fn spec_default_color(idx: u8) -> u32 {
    match idx & 0b11 {
        0u8 => 0xFF_FF_FF_FFu32,
        1u8 => 0xFF_AA_AA_AAu32,
        2u8 => 0xFF_55_55_55u32,
        _ => 0xFF_00_00_00u32,
    }
}

/// The four colors a palette byte encodes: two bits per entry.
pub open spec fn spec_palette(data: u8) -> Seq<u32> {
    seq![
        spec_default_color(data & 0b11),
        spec_default_color((data >> 2) & 0b11),
        spec_default_color((data >> 4) & 0b11),
        spec_default_color((data >> 6) & 0b11),
    ]
}

/// The color table a palette index selects.
pub fn default_color(idx: u8) -> (r: u32)
    ensures
        r == spec_default_color(idx),
{
    proof {
        let v = idx;
        assert(v & 0b11 < 4) by (bit_vector);
    }
    match idx & 0b11 {
        0u8 => 0xFF_FF_FF_FFu32,
        1u8 => 0xFF_AA_AA_AAu32,
        2u8 => 0xFF_55_55_55u32,
        _ => 0xFF_00_00_00u32,
    }
}

/// The register a `$FF40`-page address or page offset selects.
pub open spec fn spec_lcd_offset(address: u16) -> u16 {
    let a = if address >= 0xFF40 {
        (address - 0xFF40) as u16
    } else {
        address
    };
    if a >= 0x40 {
        (a - 0x40) as u16
    } else {
        a
    }
}

/// Everything of the register file but `STAT` agrees between two states.
pub open spec fn lcd_unchanged_but_lcds(a: LCD, b: LCD) -> bool {
    &&& b.register.lcdc == a.register.lcdc
    &&& b.register.scroll_y == a.register.scroll_y
    &&& b.register.scroll_x == a.register.scroll_x
    &&& b.register.ly == a.register.ly
    &&& b.register.ly_compare == a.register.ly_compare
    &&& b.register.dma == a.register.dma
    &&& b.register.bg_palette == a.register.bg_palette
    &&& b.register.wy == a.register.wy
    &&& b.register.wx == a.register.wx
    &&& b.register.obj_palette@ == a.register.obj_palette@
    &&& b.register.bg_colors@ == a.register.bg_colors@
    &&& b.register.sp1_colors@ == a.register.sp1_colors@
    &&& b.register.sp2_colors@ == a.register.sp2_colors@
}

/// What a read of the register at page offset `off` returns.
pub open spec fn spec_lcd_read(regs: LcdRegisters, off: u16) -> u8 {
    match off {
        0u16 => regs.lcdc,
        1u16 => regs.lcds,
        2u16 => regs.scroll_y,
        3u16 => regs.scroll_x,
        4u16 => regs.ly,
        5u16 => regs.ly_compare,
        6u16 => regs.dma,
        7u16 => regs.bg_palette,
        8u16 => regs.obj_palette[0],
        9u16 => regs.obj_palette[1],
        10u16 => regs.wy,
        11u16 => regs.wx,
        _ => 0xFF,
    }
}

/// The scalar registers of the file, as one tuple-like view: `LCDC`,
/// `STAT`, `SCY`, `SCX`, `LY`, `LYC`, `DMA`, `BGP`, `WY`, `WX`.
pub open spec fn spec_lcd_scalars(regs: LcdRegisters) -> Seq<u8> {
    seq![
        regs.lcdc,
        regs.lcds,
        regs.scroll_y,
        regs.scroll_x,
        regs.ly,
        regs.ly_compare,
        regs.dma,
        regs.bg_palette,
        regs.wy,
        regs.wx,
    ]
}

/// The scalar registers after a write of `data` at page offset `off`.
/// `LY` is read-only; a `STAT` write leaves the mode and coincidence bits.
pub open spec fn spec_lcd_write_scalars(regs: LcdRegisters, off: u16, data: u8) -> Seq<u8> {
    let s = spec_lcd_scalars(regs);
    match off {
        0u16 => s.update(0, data),
        1u16 => s.update(1, (regs.lcds & 0x07) | (data & 0xF8)),
        2u16 => s.update(2, data),
        3u16 => s.update(3, data),
        5u16 => s.update(5, data),
        6u16 => s.update(6, data),
        7u16 => s.update(7, data),
        10u16 => s.update(8, data),
        11u16 => s.update(9, data),
        _ => s,
    }
}

/// The object palette bytes after a write at page offset `off`.
pub open spec fn spec_lcd_write_obj(obj: Seq<u8>, off: u16, data: u8) -> Seq<u8> {
    match off {
        8u16 => obj.update(0, data),
        9u16 => obj.update(1, data),
        _ => obj,
    }
}

impl LCD {
    /// Palette vectors have their fixed lengths.
    pub open spec fn wf(self) -> bool {
        &&& self.register.obj_palette@.len() == 2
        &&& self.register.bg_colors@.len() == 4
        &&& self.register.sp1_colors@.len() == 4
        &&& self.register.sp2_colors@.len() == 4
    }

    /// Power-on register values: display enabled, at the start of the OAM
    /// scan of line 0.
    pub fn new() -> (r: LCD)
        ensures
            r.wf(),
            r.register.lcdc == 0x91,
            r.register.lcds == 0x02,
            r.register.scroll_y == 0,
            r.register.scroll_x == 0,
            r.register.ly == 0,
            r.register.ly_compare == 0,
            r.register.dma == 0,
            r.register.bg_palette == 0xFC,
            r.register.obj_palette@ == seq![0xFFu8, 0xFFu8],
            r.register.wy == 0,
            r.register.wx == 0,
    {
        let mut obj_palette: Vec<u8> = Vec::new();
        obj_palette.push(0xFF);
        obj_palette.push(0xFF);
        proof {
            assert(obj_palette@ =~= seq![0xFFu8, 0xFFu8]);
        }
        let reg = LcdRegisters {
            lcdc: 0x91,
            lcds: 0x02,
            scroll_y: 0,
            scroll_x: 0,
            ly: 0,
            ly_compare: 0,
            dma: 0,
            bg_palette: 0xFC,
            obj_palette,
            wy: 0,
            wx: 0,
            bg_colors: palette_colors(0),
            sp1_colors: palette_colors(0),
            sp2_colors: palette_colors(0),
        };
        LCD { register: reg }
    }

    pub fn lcdc_bgw_enabled(&self) -> (r: bool)
        ensures
            r == spec_check_bit(self.register.lcdc, 0),
    {
        check_bit(self.register.lcdc, 0)
    }

    pub fn lcdc_obj_enabled(&self) -> (r: bool)
        ensures
            r == spec_check_bit(self.register.lcdc, 1),
    {
        check_bit(self.register.lcdc, 1)
    }

    pub fn lcdc_obj_height(&self) -> (r: u8)
        ensures
            r == if spec_check_bit(self.register.lcdc, 2) {
                16u8
            } else {
                8u8
            },
    {
        if check_bit(self.register.lcdc, 2) {
            16
        } else {
            8
        }
    }

    pub fn lcdc_bg_map_area(&self) -> (r: u16)
        ensures
            r == if spec_check_bit(self.register.lcdc, 3) {
                0x9C00u16
            } else {
                0x9800u16
            },
    {
        if check_bit(self.register.lcdc, 3) {
            0x9C00
        } else {
            0x9800
        }
    }

    pub fn lcdc_bgw_data_area(&self) -> (r: u16)
        ensures
            r == if spec_check_bit(self.register.lcdc, 4) {
                0x8000u16
            } else {
                0x8800u16
            },
    {
        if check_bit(self.register.lcdc, 4) {
            0x8000
        } else {
            0x8800
        }
    }

    pub fn lcdc_win_enabled(&self) -> (r: bool)
        ensures
            r == spec_check_bit(self.register.lcdc, 5),
    {
        check_bit(self.register.lcdc, 5)
    }

    pub fn lcdc_win_map_area(&self) -> (r: u16)
        ensures
            r == if spec_check_bit(self.register.lcdc, 6) {
                0x9C00u16
            } else {
                0x9800u16
            },
    {
        if check_bit(self.register.lcdc, 6) {
            0x9C00
        } else {
            0x9800
        }
    }

    pub fn lcdc_display_enabled(&self) -> (r: bool)
        ensures
            r == spec_check_bit(self.register.lcdc, 7),
    {
        check_bit(self.register.lcdc, 7)
    }

    pub fn lcds_mode_flag(&self) -> (r: LCDMode)
        ensures
            r == spec_mode_from_u8(self.register.lcds),
    {
        LCDMode::from_u8(self.register.lcds)
    }

    pub fn lcds_mode_set(&mut self, mode: LCDMode)
        ensures
            final(self).register.lcds == (old(self).register.lcds & !0b11) | spec_mode_to_u8(
                mode,
            ),
            lcd_unchanged_but_lcds(*old(self), *final(self)),
    {
        self.register.lcds = (self.register.lcds & !0b11) | mode.to_u8();
    }

    pub fn lcds_lyc_flag(&self) -> (r: bool)
        ensures
            r == spec_check_bit(self.register.lcds, 2),
    {
        check_bit(self.register.lcds, 2)
    }

    pub fn lcds_lyc_set(&mut self, value: bool)
        ensures
            final(self).register.lcds == spec_modify_bit(old(self).register.lcds, 2, value),
            lcd_unchanged_but_lcds(*old(self), *final(self)),
    {
        self.register.lcds = modify_bit(self.register.lcds, 2, value);
    }

    pub fn lcds_stat_int(&self, interrupt: StatSrc) -> (r: u8)
        ensures
            r == self.register.lcds & spec_stat_src_mask(interrupt),
    {
        self.register.lcds & interrupt.to_u8()
    }

    /// Reads the register the address selects; unmapped offsets read `$FF`.
    pub fn lcd_read(&self, address: u16) -> (r: u8)
        requires
            self.wf(),
        ensures
            r == spec_lcd_read(self.register, spec_lcd_offset(address)),
    {
        let mut address = address;
        if address >= 0xFF40 {
            address -= 0xFF40;
        }
        if address >= 0x40 {
            address -= 0x40;
        }

        match address {
            0u16 => self.register.lcdc,
            1u16 => self.register.lcds,
            2u16 => self.register.scroll_y,
            3u16 => self.register.scroll_x,
            4u16 => self.register.ly,
            5u16 => self.register.ly_compare,
            6u16 => self.register.dma,
            7u16 => self.register.bg_palette,
            8u16 => self.register.obj_palette[0],
            9u16 => self.register.obj_palette[1],
            10u16 => self.register.wy,
            11u16 => self.register.wx,
            _ => 0xFF,
        }
    }

    /// Rebuilds one color table from a palette byte: `pal` 0 is `BGP`,
    /// 1 and 2 the two object palettes.
    pub fn update_palette(&mut self, data: u8, pal: u8)
        requires
            old(self).wf(),
        ensures
            final(self).wf(),
            spec_lcd_scalars(final(self).register) == spec_lcd_scalars(old(self).register),
            final(self).register.obj_palette@ == old(self).register.obj_palette@,
            final(self).register.bg_colors@ == if pal == 0 {
                spec_palette(data)
            } else {
                old(self).register.bg_colors@
            },
            final(self).register.sp1_colors@ == if pal == 1 {
                spec_palette(data)
            } else {
                old(self).register.sp1_colors@
            },
            final(self).register.sp2_colors@ == if pal == 2 {
                spec_palette(data)
            } else {
                old(self).register.sp2_colors@
            },
    {
        if pal == 0 {
            self.register.bg_colors = palette_colors(data);
        } else if pal == 1 {
            self.register.sp1_colors = palette_colors(data);
        } else if pal == 2 {
            self.register.sp2_colors = palette_colors(data);
        }
    }

    /// Writes the register the address selects. A write of the DMA source
    /// register also arms the OAM-DMA controller; a palette write rebuilds
    /// its color table.
    pub fn lcd_write(&mut self, address: u16, data: u8, dma: &mut DMA)
        requires
            old(self).wf(),
        ensures
            final(self).wf(),
            spec_lcd_scalars(final(self).register) == spec_lcd_write_scalars(
                old(self).register,
                spec_lcd_offset(address),
                data,
            ),
            final(self).register.obj_palette@ == spec_lcd_write_obj(
                old(self).register.obj_palette@,
                spec_lcd_offset(address),
                data,
            ),
            final(self).register.bg_colors@ == if spec_lcd_offset(address) == 7 {
                spec_palette(data)
            } else {
                old(self).register.bg_colors@
            },
            final(self).register.sp1_colors@ == if spec_lcd_offset(address) == 8 {
                spec_palette(data & !0b11)
            } else {
                old(self).register.sp1_colors@
            },
            final(self).register.sp2_colors@ == if spec_lcd_offset(address) == 9 {
                spec_palette(data & !0b11)
            } else {
                old(self).register.sp2_colors@
            },
            spec_lcd_offset(address) == 6 ==> *final(dma) == (DMA {
                active: true,
                byte: 0,
                value: data,
                start_delay: 1,
            }),
            spec_lcd_offset(address) != 6 ==> *final(dma) == *old(dma),
    {
        let mut address = address;
        if address >= 0xFF40 {
            address -= 0xFF40;
        }
        if address >= 0x40 {
            address -= 0x40;
        }

        match address {
            0u16 => {
                self.register.lcdc = data;
            },
            1u16 => {
                self.register.lcds = (self.register.lcds & 0x07) | (data & 0xF8);
            },
            2u16 => {
                self.register.scroll_y = data;
            },
            3u16 => {
                self.register.scroll_x = data;
            },
            4u16 => {
                // LY is read-only from the bus.
            },
            5u16 => {
                self.register.ly_compare = data;
            },
            6u16 => {
                self.register.dma = data;
                dma.dma_start(data);
            },
            7u16 => {
                self.register.bg_palette = data;
                self.update_palette(data, 0);
            },
            8u16 => {
                self.register.obj_palette.set(0, data);
                self.update_palette(data & !0b11, 1);
            },
            9u16 => {
                self.register.obj_palette.set(1, data);
                self.update_palette(data & !0b11, 2);
            },
            10u16 => {
                self.register.wy = data;
            },
            11u16 => {
                self.register.wx = data;
            },
            _ => {},
        }
    }
}

/// The color table a palette byte encodes.
pub fn palette_colors(data: u8) -> (r: Vec<u32>)
    ensures
        r@ == spec_palette(data),
{
    let mut v: Vec<u32> = Vec::new();
    v.push(default_color(data & 0b11));
    v.push(default_color((data >> 2) & 0b11));
    v.push(default_color((data >> 4) & 0b11));
    v.push(default_color((data >> 6) & 0b11));
    proof {
        assert(v@ =~= spec_palette(data));
    }
    v
}

} // verus!
