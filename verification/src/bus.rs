//! The unified memory bus: routes each 16-bit address to its region —
//! cartridge, VRAM, work RAM, echo, sprite memory, I/O page, high RAM, `IE`
//! — and owns the clock coordinator that advances the timer, the OAM-DMA
//! controller and the PPU on every machine cycle.

use vstd::prelude::*;
use crate::addresses::AddrSpace;
use crate::cartridge::{Cartridge, CartridgeError};
use crate::dma::{DMA, spec_dma_source};
use crate::interrupts::IFlagsRegister;
use crate::io::{IO, IoError, spec_io_read, spec_io_write_rel};
use crate::ppu::{
    OAM,
    PPU,
    PpuTickEffect,
    spec_oam_byte,
    spec_oam_write,
    spec_ppu_tick,
};
use crate::ram::{Ram, RamError, HRAM_SIZE, WRAM_SIZE};
use crate::tick::TickManager;
use crate::timer::{Timer, spec_tick_div, spec_timer_inc};

verus! {

#[derive(Debug)]
pub enum BusError {
    NoCartridgeLoaded,
    CartridgeError(CartridgeError),
    InvalidAddress,
    RamError(RamError),
    IoError(IoError),
}

/// The whole memory-visible machine but the processor core: every
/// peripheral, both interrupt flag registers and the T-cycle counter.
pub struct BUS {
    pub cartridge: Cartridge,
    pub ram: Ram,
    pub ppu: PPU,
    pub dma: DMA,
    pub io: IO,
    pub int_flags: IFlagsRegister,
    pub ie_register: IFlagsRegister,
    pub tm: TickManager,
}

/// Whether a read at `address` succeeds: only a cartridge read beyond the
/// ROM image fails.
pub open spec fn spec_bus_read_ok(b: BUS, address: u16) -> bool {
    (address < 0x8000 || (0xA000 <= address && address < 0xC000)) ==> (address as int)
        < b.cartridge.rom_data@.len()
}

/// The byte a bus read returns: region routing over the component views.
/// Echo RAM mirrors work RAM; the prohibited range reads `$FF`; sprite
/// memory reads `$FF` while a DMA transfer runs.
pub open spec fn spec_bus_read(b: BUS, address: u16) -> u8 {
    if address < 0x8000 {
        b.cartridge.rom_data@[address as int]
    } else if address < 0xA000 {
        b.ppu.vram@[address - 0x8000]
    } else if address < 0xC000 {
        b.cartridge.rom_data@[address as int]
    } else if address < 0xE000 {
        b.ram.wram@[address - 0xC000]
    } else if address < 0xFE00 {
        b.ram.wram@[address - 0xE000]
    } else if address < 0xFEA0 {
        if b.dma.active {
            0xFF
        } else {
            spec_oam_byte(b.ppu.oam_ram@, (address - 0xFE00) as u16)
        }
    } else if address < 0xFF00 {
        0xFF
    } else if address < 0xFF80 {
        spec_io_read(b.io, b.int_flags.int_flags, (address - 0xFF00) as u8)
    } else if address < 0xFFFF {
        b.ram.hram@[address - 0xFF80]
    } else {
        b.ie_register.int_flags
    }
}

/// How a bus write relates the machine before and after: exactly the
/// addressed cell changes. Writes to the cartridge and the prohibited range
/// are dropped, echo RAM writes land in work RAM, sprite-memory writes are
/// dropped while a DMA transfer runs, and an I/O write follows the page's
/// own write relation.
pub open spec fn spec_bus_write_rel(pre: BUS, post: BUS, address: u16, data: u8) -> bool {
    let a = address;
    &&& post.cartridge == pre.cartridge
    &&& post.tm == pre.tm
    &&& if a < 0x8000 || (0xA000 <= a && a < 0xC000) || (0xFEA0 <= a && a < 0xFF00) {
        bus_state_eq(pre, post)
    } else if a < 0xA000 {
        &&& post.ppu.vram@ == pre.ppu.vram@.update(a - 0x8000, data)
        &&& post.ppu.oam_ram@ == pre.ppu.oam_ram@
        &&& post.ppu.current_frame == pre.ppu.current_frame
        &&& post.ppu.line_ticks == pre.ppu.line_ticks
        &&& post.ram == pre.ram
        &&& post.dma == pre.dma
        &&& post.io == pre.io
        &&& post.int_flags == pre.int_flags
        &&& post.ie_register == pre.ie_register
    } else if a < 0xFE00 {
        let off = if a < 0xE000 {
            a - 0xC000
        } else {
            a - 0xE000
        };
        &&& post.ram.wram@ == pre.ram.wram@.update(off, data)
        &&& post.ram.hram@ == pre.ram.hram@
        &&& post.ppu == pre.ppu
        &&& post.dma == pre.dma
        &&& post.io == pre.io
        &&& post.int_flags == pre.int_flags
        &&& post.ie_register == pre.ie_register
    } else if a < 0xFEA0 {
        &&& if pre.dma.active {
            post.ppu.oam_ram@ == pre.ppu.oam_ram@
        } else {
            post.ppu.oam_ram@ == spec_oam_write(pre.ppu.oam_ram@, (a - 0xFE00) as u16, data)
        }
        &&& post.ppu.vram@ == pre.ppu.vram@
        &&& post.ppu.current_frame == pre.ppu.current_frame
        &&& post.ppu.line_ticks == pre.ppu.line_ticks
        &&& post.ram == pre.ram
        &&& post.dma == pre.dma
        &&& post.io == pre.io
        &&& post.int_flags == pre.int_flags
        &&& post.ie_register == pre.ie_register
    } else if a < 0xFF80 {
        &&& spec_io_write_rel(
            pre.io,
            pre.int_flags.int_flags,
            pre.dma,
            post.io,
            post.int_flags.int_flags,
            post.dma,
            (a - 0xFF00) as u8,
            data,
        )
        &&& post.ram == pre.ram
        &&& post.ppu == pre.ppu
        &&& post.ie_register == pre.ie_register
    } else if a < 0xFFFF {
        &&& post.ram.hram@ == pre.ram.hram@.update(a - 0xFF80, data)
        &&& post.ram.wram@ == pre.ram.wram@
        &&& post.ppu == pre.ppu
        &&& post.dma == pre.dma
        &&& post.io == pre.io
        &&& post.int_flags == pre.int_flags
        &&& post.ie_register == pre.ie_register
    } else {
        &&& post.ie_register.int_flags == data
        &&& post.ram == pre.ram
        &&& post.ppu == pre.ppu
        &&& post.dma == pre.dma
        &&& post.io == pre.io
        &&& post.int_flags == pre.int_flags
    }
}

/// Everything of the machine but the cartridge and the T-cycle counter
/// agrees between two states.
pub open spec fn bus_state_eq(pre: BUS, post: BUS) -> bool {
    &&& post.ram == pre.ram
    &&& post.ppu == pre.ppu
    &&& post.dma == pre.dma
    &&& post.io == pre.io
    &&& post.int_flags == pre.int_flags
    &&& post.ie_register == pre.ie_register
}

/// Everything the clock coordinator may change, gathered as one value: the
/// timer, the interrupt flags, the PPU phase registers, the DMA controller,
/// sprite memory and the T-cycle count.
#[verifier::ext_equal]
pub struct ClockView {
    pub timer: Timer,
    pub int_flags: u8,
    pub lcds: u8,
    pub ly: u8,
    pub line_ticks: u32,
    pub frame: u32,
    pub dma: DMA,
    pub oam: Seq<OAM>,
    pub ticks: u64,
}

/// The clock-facing view of a machine state.
pub open spec fn spec_clock_view(b: BUS) -> ClockView {
    ClockView {
        timer: b.io.timer,
        int_flags: b.int_flags.int_flags,
        lcds: b.io.lcd.register.lcds,
        ly: b.io.lcd.register.ly,
        line_ticks: b.ppu.line_ticks,
        frame: b.ppu.current_frame,
        dma: b.dma,
        oam: b.ppu.oam_ram@,
        ticks: b.tm.ticks,
    }
}

/// One T-cycle of the timer, over the clock view.
pub open spec fn spec_timer_step(v: ClockView) -> ClockView {
    let t = v.timer;
    let ndiv = spec_tick_div(t.div);
    let ticks = ((v.ticks + 1) % 0x1_0000_0000_0000_0000) as u64;
    if spec_timer_inc(t.tac, t.div) {
        if t.tima == 0xFF {
            ClockView {
                timer: Timer { div: ndiv, tima: t.tma, ..t },
                int_flags: v.int_flags | 0x04,
                ticks,
                ..v
            }
        } else {
            ClockView {
                timer: Timer { div: ndiv, tima: (t.tima + 1) as u8, ..t },
                ticks,
                ..v
            }
        }
    } else {
        ClockView { timer: Timer { div: ndiv, ..t }, ticks, ..v }
    }
}

/// One machine cycle of the DMA controller, over the clock view; `b` only
/// supplies the memory the transfer reads from.
pub open spec fn spec_dma_step(v: ClockView, b: BUS) -> ClockView {
    let d = v.dma;
    if !d.active {
        v
    } else if d.start_delay > 0 {
        ClockView { dma: DMA { start_delay: (d.start_delay - 1) as u8, ..d }, ..v }
    } else {
        ClockView {
            dma: DMA { byte: ((d.byte + 1) % 0x100) as u8, active: d.byte + 1 < 0xA0, ..d },
            oam: spec_oam_write(v.oam, d.byte as u16, spec_dma_source(
                b.cartridge,
                b.ram,
                b.ppu,
                d.value,
                d.byte,
            )),
            ..v
        }
    }
}

/// One dot of the PPU, over the clock view; `lcdc` and `lyc` do not change
/// under the clock and come from the machine state.
pub open spec fn spec_ppu_step(v: ClockView, lcdc: u8, lyc: u8) -> ClockView {
    let e = spec_ppu_tick(lcdc, v.lcds, v.ly, lyc, v.line_ticks, v.int_flags, v.frame);
    ClockView {
        lcds: e.lcds,
        ly: e.ly,
        line_ticks: e.line_ticks,
        int_flags: e.int_flags,
        frame: e.current_frame,
        ..v
    }
}

/// One machine cycle of the whole clock: the timer ticks four times, the
/// DMA controller once, the PPU four dots, in that order.
pub open spec fn spec_machine_cycle(v: ClockView, b: BUS) -> ClockView {
    let lcdc = b.io.lcd.register.lcdc;
    let lyc = b.io.lcd.register.ly_compare;
    let v1 = spec_timer_step(spec_timer_step(spec_timer_step(spec_timer_step(v))));
    let v2 = spec_dma_step(v1, b);
    spec_ppu_step(spec_ppu_step(spec_ppu_step(spec_ppu_step(v2, lcdc, lyc), lcdc, lyc), lcdc, lyc), lcdc, lyc)
}

/// `n` machine cycles of the clock.
pub open spec fn spec_machine_cycles(v: ClockView, b: BUS, n: nat) -> ClockView
    decreases n,
{
    if n == 0 {
        v
    } else {
        spec_machine_cycle(spec_machine_cycles(v, b, (n - 1) as nat), b)
    }
}


/// Addresses whose bus value the machine clock cannot change: the
/// cartridge, VRAM, work and echo RAM, high RAM and `IE` — everything but
/// sprite memory (DMA), the prohibited range and the I/O page.
pub open spec fn spec_clock_stable_addr(addr: u16) -> bool {
    addr < 0xFE00 || addr >= 0xFF80
}

/// Whether a read succeeds depends only on the cartridge, which the clock
/// never touches.
pub proof fn lemma_clock_stable_read_ok(a: BUS, b: BUS, addr: u16)
    requires
        b.cartridge == a.cartridge,
    ensures
        spec_bus_read_ok(b, addr) == spec_bus_read_ok(a, addr),
{
}

/// At a clock-stable address, advancing the clock does not change the byte
/// a read returns.
pub proof fn lemma_clock_stable_read(a: BUS, b: BUS, addr: u16)
    requires
        bus_clock_frame_eq(a, b),
        spec_clock_stable_addr(addr),
    ensures
        spec_bus_read(b, addr) == spec_bus_read(a, addr),
        spec_bus_read_ok(b, addr) == spec_bus_read_ok(a, addr),
{
}

/// Everything outside the clock view agrees between two machine states.
pub open spec fn bus_clock_frame_eq(pre: BUS, post: BUS) -> bool {
    &&& post.cartridge == pre.cartridge
    &&& post.ram == pre.ram
    &&& post.ppu.vram@ == pre.ppu.vram@
    &&& post.io.serial_data == pre.io.serial_data
    &&& post.io.serial_control == pre.io.serial_control
    &&& post.io.serial_message@ == pre.io.serial_message@
    &&& post.io.lcd.register.lcdc == pre.io.lcd.register.lcdc
    &&& post.io.lcd.register.scroll_y == pre.io.lcd.register.scroll_y
    &&& post.io.lcd.register.scroll_x == pre.io.lcd.register.scroll_x
    &&& post.io.lcd.register.ly_compare == pre.io.lcd.register.ly_compare
    &&& post.io.lcd.register.dma == pre.io.lcd.register.dma
    &&& post.io.lcd.register.bg_palette == pre.io.lcd.register.bg_palette
    &&& post.io.lcd.register.wy == pre.io.lcd.register.wy
    &&& post.io.lcd.register.wx == pre.io.lcd.register.wx
    &&& post.io.lcd.register.obj_palette@ == pre.io.lcd.register.obj_palette@
    &&& post.io.lcd.register.bg_colors@ == pre.io.lcd.register.bg_colors@
    &&& post.io.lcd.register.sp1_colors@ == pre.io.lcd.register.sp1_colors@
    &&& post.io.lcd.register.sp2_colors@ == pre.io.lcd.register.sp2_colors@
    &&& post.ie_register == pre.ie_register
}

impl BUS {
    /// Every component sized and consistent.
    pub open spec fn wf(self) -> bool {
        &&& self.ram.wf()
        &&& self.ppu.wf()
        &&& self.io.wf()
        &&& self.dma.wf()
    }

    /// Assembles the machine around a cartridge, every peripheral at its
    /// power-on state.
    pub fn new(cartridge: Cartridge) -> (r: BUS)
        ensures
            r.wf(),
            r.cartridge == cartridge,
            r.int_flags.int_flags == 0,
            r.ie_register.int_flags == 0,
            r.tm.ticks == 0,
            !r.dma.active,
            r.io.lcd.register.lcdc == 0x91,
            r.io.lcd.register.lcds == 0x02,
            r.io.lcd.register.ly == 0,
            r.io.timer == (Timer { div: 0xAC00, tima: 0, tma: 0, tac: 0 }),
            r.ppu.line_ticks == 0,
            r.ppu.current_frame == 0,
    {
        BUS {
            cartridge,
            ram: Ram::new(),
            ppu: PPU::new(),
            dma: DMA::new(),
            io: IO::new(),
            int_flags: IFlagsRegister::new(),
            ie_register: IFlagsRegister::new(),
            tm: TickManager::new(),
        }
    }

    /// Reads one byte; only a cartridge read beyond the ROM image fails.
    pub fn read(&self, address: u16) -> (r: Result<u8, BusError>)
        requires
            self.wf(),
        ensures
            spec_bus_read_ok(*self, address) ==> r == Ok::<u8, BusError>(spec_bus_read(
                *self,
                address,
            )),
            !spec_bus_read_ok(*self, address) ==> r is Err,
    {
        let region = match AddrSpace::from_address(&address) {
            Ok(region) => region,
            Err(e) => return Err(e),
        };
        match region {
            AddrSpace::ROM0 | AddrSpace::ROM1 | AddrSpace::CRAM => self.read_from_cartridge(
                address,
            ),
            AddrSpace::VRAM | AddrSpace::BG1 | AddrSpace::BG2 => Ok(
                self.ppu.vram_read(address - 0x8000),
            ),
            AddrSpace::RAM0 | AddrSpace::RAM1 => match self.ram.read_wram(address - 0xC000) {
                Ok(v) => Ok(v),
                Err(e) => Err(BusError::RamError(e)),
            },
            AddrSpace::ECHO => match self.ram.read_wram(address - 0xE000) {
                Ok(v) => Ok(v),
                Err(e) => Err(BusError::RamError(e)),
            },
            AddrSpace::OAM => self.read_from_oam(address),
            AddrSpace::UNUSABLE => Ok(0xFF),
            AddrSpace::IO => self.read_from_io(address),
            AddrSpace::ZP => match self.ram.read_hram(address - 0xFF80) {
                Ok(v) => Ok(v),
                Err(e) => Err(BusError::RamError(e)),
            },
            AddrSpace::INTERRUPT => Ok(self.ie_register.int_flags),
        }
    }

    /// Writes one byte; no write fails. Read-only and prohibited regions
    /// drop the byte silently.
    pub fn write(&mut self, address: u16, data: u8) -> (r: Result<(), BusError>)
        requires
            old(self).wf(),
        ensures
            r is Ok,
            final(self).wf(),
            spec_bus_write_rel(*old(self), *final(self), address, data),
    {
        let region = match AddrSpace::from_address(&address) {
            Ok(region) => region,
            Err(e) => return Err(e),
        };
        match region {
            AddrSpace::ROM0 | AddrSpace::ROM1 | AddrSpace::CRAM => {
                let _ = self.cartridge.write(address, data);
            },
            AddrSpace::VRAM | AddrSpace::BG1 | AddrSpace::BG2 => {
                self.ppu.vram_write(address - 0x8000, data);
            },
            AddrSpace::RAM0 | AddrSpace::RAM1 => {
                let _ = self.ram.write_wram(address - 0xC000, data);
            },
            AddrSpace::ECHO => {
                let _ = self.ram.write_wram(address - 0xE000, data);
            },
            AddrSpace::OAM => {
                if !self.dma.dma_transferring() {
                    self.ppu.oam_write(address - 0xFE00, data);
                }
            },
            AddrSpace::UNUSABLE => {},
            AddrSpace::IO => {
                let _ = self.io.write(
                    (address - 0xFF00) as u8,
                    data,
                    &mut self.int_flags,
                    &mut self.dma,
                );
            },
            AddrSpace::ZP => {
                let _ = self.ram.write_hram(address - 0xFF80, data);
            },
            AddrSpace::INTERRUPT => {
                self.ie_register.int_flags = data;
            },
        }
        Ok(())
    }

    /// Reads a 16-bit little-endian value from two consecutive addresses.
    pub fn read_16(&self, address: u16) -> (r: Result<u16, BusError>)
        requires
            self.wf(),
            address < 0xFFFF,
        ensures
            spec_bus_read_ok(*self, address) && spec_bus_read_ok(*self, (address + 1) as u16)
                ==> r == Ok::<u16, BusError>(
                ((spec_bus_read(*self, (address + 1) as u16) as u16) * 0x100 + spec_bus_read(
                    *self,
                    address,
                )) as u16,
            ),
    {
        let low = match self.read(address) {
            Ok(v) => v as u16,
            Err(e) => return Err(e),
        };
        let high = match self.read(address + 1) {
            Ok(v) => v as u16,
            Err(e) => return Err(e),
        };
        Ok(high * 0x100 + low)
    }

    /// Writes a 16-bit value little-endian to two consecutive addresses.
    pub fn write_16(&mut self, address: u16, data: u16) -> (r: Result<(), BusError>)
        requires
            old(self).wf(),
            address < 0xFFFF,
        ensures
            r is Ok,
            final(self).wf(),
            exists|mid: BUS|
                #[trigger] spec_bus_write_rel(*old(self), mid, address, (data & 0xFF) as u8)
                    && spec_bus_write_rel(mid, *final(self), (address + 1) as u16, (data >> 8) as u8),
    {
        let r1 = self.write(address, (data & 0xFF) as u8);
        let ghost mid = *self;
        let r2 = self.write(address + 1, (data >> 8) as u8);
        proof {
            assert(spec_bus_write_rel(*old(self), mid, address, (data & 0xFF) as u8)
                && spec_bus_write_rel(mid, *final(self), (address + 1) as u16, (data >> 8) as u8));
        }
        Ok(())
    }

    /// Advances the machine by `cycles` machine cycles: per cycle the timer
    /// ticks four times, the DMA controller once and the PPU four dots.
    pub fn cycle(&mut self, cycles: u32)
        requires
            old(self).wf(),
        ensures
            final(self).wf(),
            bus_clock_frame_eq(*old(self), *final(self)),
            spec_clock_view(*final(self)) == spec_machine_cycles(
                spec_clock_view(*old(self)),
                *old(self),
                cycles as nat,
            ),
    {
        let mut i: u32 = 0;
        while i < cycles
            invariant
                self.wf(),
                i <= cycles,
                bus_clock_frame_eq(*old(self), *self),
                spec_clock_view(*self) == spec_machine_cycles(
                    spec_clock_view(*old(self)),
                    *old(self),
                    i as nat,
                ),
            decreases cycles - i,
        {
            let ghost pre = *self;
            self.cycle_one();
            proof {
                lemma_machine_cycle_static(spec_clock_view(pre), *old(self), pre);
            }
            i += 1;
        }
    }

    /// One machine cycle of the clock coordinator.
    #[verifier::rlimit(100)]
    #[verifier::spinoff_prover]
    fn cycle_one(&mut self)
        requires
            old(self).wf(),
        ensures
            final(self).wf(),
            bus_clock_frame_eq(*old(self), *final(self)),
            spec_clock_view(*final(self)) == spec_machine_cycle(
                spec_clock_view(*old(self)),
                *old(self),
            ),
    {
        let mut k: u32 = 0;
        while k < 4
            invariant
                self.wf(),
                k <= 4,
                bus_clock_frame_eq(*old(self), *self),
                spec_clock_view(*self) == spec_timer_steps(
                    spec_clock_view(*old(self)),
                    k as nat,
                ),
            decreases 4 - k,
        {
            let _ = self.tm.increment_ticks();
            self.io.timer.tick(&mut self.int_flags);
            proof {
                assert(spec_clock_view(*self) =~= spec_timer_steps(
                    spec_clock_view(*old(self)),
                    (k + 1) as nat,
                ));
            }
            k += 1;
        }
        self.dma.dma_tick(&self.cartridge, &self.ram, &mut self.ppu);
        proof {
            assert(spec_clock_view(*self) =~= spec_dma_step(
                spec_timer_steps(spec_clock_view(*old(self)), 4),
                *old(self),
            ));
        }
        let ghost mid = spec_dma_step(
            spec_timer_steps(spec_clock_view(*old(self)), 4),
            *old(self),
        );
        let mut k2: u32 = 0;
        while k2 < 4
            invariant
                self.wf(),
                k2 <= 4,
                bus_clock_frame_eq(*old(self), *self),
                spec_clock_view(*self) == spec_ppu_steps(
                    mid,
                    self.io.lcd.register.lcdc,
                    self.io.lcd.register.ly_compare,
                    k2 as nat,
                ),
            decreases 4 - k2,
        {
            let ghost lcdc = self.io.lcd.register.lcdc;
            let ghost lyc = self.io.lcd.register.ly_compare;
            self.ppu.ppu_tick(&mut self.io.lcd, &mut self.int_flags);
            proof {
                assert(spec_clock_view(*self) =~= spec_ppu_steps(
                    mid,
                    lcdc,
                    lyc,
                    (k2 + 1) as nat,
                ));
            }
            k2 += 1;
        }
        proof {
            lemma_cycle_unfold(spec_clock_view(*old(self)), *old(self));
            assert(spec_clock_view(*self) =~= spec_machine_cycle(
                spec_clock_view(*old(self)),
                *old(self),
            ));
        }
    }

    fn read_from_cartridge(&self, address: u16) -> (r: Result<u8, BusError>)
        ensures
            (address as int) < self.cartridge.rom_data@.len() ==> r == Ok::<u8, BusError>(
                self.cartridge.rom_data@[address as int],
            ),
            (address as int) >= self.cartridge.rom_data@.len() ==> r is Err,
    {
        match self.cartridge.read(address) {
            Ok(v) => Ok(v),
            Err(e) => Err(BusError::CartridgeError(e)),
        }
    }

    fn read_from_oam(&self, address: u16) -> (r: Result<u8, BusError>)
        requires
            self.wf(),
            0xFE00 <= address < 0xFEA0,
        ensures
            r == Ok::<u8, BusError>(
                if self.dma.active {
                    0xFFu8
                } else {
                    spec_oam_byte(self.ppu.oam_ram@, (address - 0xFE00) as u16)
                },
            ),
    {
        if self.dma.dma_transferring() {
            return Ok(0xFF);
        }
        Ok(self.ppu.oam_read(address - 0xFE00))
    }

    fn read_from_io(&self, address: u16) -> (r: Result<u8, BusError>)
        requires
            self.wf(),
            0xFF00 <= address < 0xFF80,
        ensures
            r == Ok::<u8, BusError>(
                spec_io_read(self.io, self.int_flags.int_flags, (address - 0xFF00) as u8),
            ),
    {
        match self.io.read((address - 0xFF00) as u8, &self.int_flags) {
            Ok(v) => Ok(v),
            Err(e) => Err(BusError::IoError(e)),
        }
    }
}

/// `n` T-cycles of the timer, over the clock view.
pub open spec fn spec_timer_steps(v: ClockView, n: nat) -> ClockView
    decreases n,
{
    if n == 0 {
        v
    } else {
        spec_timer_step(spec_timer_steps(v, (n - 1) as nat))
    }
}

/// `n` dots of the PPU, over the clock view.
pub open spec fn spec_ppu_steps(v: ClockView, lcdc: u8, lyc: u8, n: nat) -> ClockView
    decreases n,
{
    if n == 0 {
        v
    } else {
        spec_ppu_step(spec_ppu_steps(v, lcdc, lyc, (n - 1) as nat), lcdc, lyc)
    }
}

/// The clock only reads the machine's static parts — the cartridge, RAM,
/// VRAM, `LCDC` and `LYC` — so any clock-frame-equal state drives one
/// machine cycle to the same effect.
proof fn lemma_machine_cycle_static(v: ClockView, a: BUS, b: BUS)
    requires
        bus_clock_frame_eq(a, b),
    ensures
        spec_machine_cycle(v, b) == spec_machine_cycle(v, a),
{
    let v1 = spec_timer_steps(v, 4);
    reveal_with_fuel(spec_timer_steps, 5);
    assert(spec_dma_step(v1, b) =~= spec_dma_step(v1, a));
    assert(spec_machine_cycle(v, b) =~= spec_machine_cycle(v, a));
}

proof fn lemma_cycle_unfold(v: ClockView, b: BUS)
    ensures
        spec_machine_cycle(v, b) == spec_ppu_steps(
            spec_dma_step(spec_timer_steps(v, 4), b),
            b.io.lcd.register.lcdc,
            b.io.lcd.register.ly_compare,
            4,
        ),
{
    let lcdc = b.io.lcd.register.lcdc;
    let lyc = b.io.lcd.register.ly_compare;
    reveal_with_fuel(spec_timer_steps, 5);
    reveal_with_fuel(spec_ppu_steps, 5);
    assert(spec_timer_steps(v, 4) == spec_timer_step(spec_timer_step(spec_timer_step(
        spec_timer_step(spec_timer_steps(v, 0)),
    ))));
    let v2 = spec_dma_step(spec_timer_steps(v, 4), b);
    assert(spec_ppu_steps(v2, lcdc, lyc, 4) == spec_ppu_step(spec_ppu_step(spec_ppu_step(
        spec_ppu_step(spec_ppu_steps(v2, lcdc, lyc, 0), lcdc, lyc),
        lcdc,
        lyc,
    ), lcdc, lyc), lcdc, lyc));
}

} // verus!
