//! Machine-wide laws, stated over the spec-level models of the components
//! and proved once and for all: register-file bounds, the PPU phase
//! invariant and frame cadence, and the stack and memory round trips.

use vstd::prelude::*;
use crate::bus::{spec_bus_read, spec_bus_write_rel, BUS};
use crate::cpu::{spec_write_register, CPU, CpuRegisters};
use crate::instructions::RegType;
use crate::ppu::{spec_ppu_tick, PpuTickEffect};
use crate::util::{spec_check_bit, spec_modify_bit};

verus! {

/// The program counter and stack pointer always lie in the 16-bit address
/// space, and the low nibble of `F` is zero in every well-formed processor
/// state — every verified mutation of the register file preserves this.
pub proof fn lemma_cpu_state_bounds(cpu: CPU)
    requires
        cpu.wf(),
    ensures
        0 <= cpu.registers.pc <= 0xFFFF,
        0 <= cpu.registers.sp <= 0xFFFF,
        cpu.registers.f & 0x0F == 0,
{
}

/// The canonical PPU phase: the mode bits of `STAT` match the position of
/// the dot counter within the line, and `LY` lies in its phase's rows.
pub open spec fn spec_phase_wf(lcds: u8, ly: u8, lt: u32) -> bool {
    let m = lcds & 0b11;
    ||| (m == 2 && ly < 144 && lt < 80)
    ||| (m == 3 && ly < 144 && 80 <= lt < 252)
    ||| (m == 0 && ly < 144 && 252 <= lt < 456)
    ||| (m == 1 && 144 <= ly < 154 && lt < 456)
}

/// Every state the dot machine passes through: the canonical phase, or the
/// parked/restarted state at mode 0, line 0, dot 0.
pub open spec fn spec_ppu_sane(lcds: u8, ly: u8, lt: u32) -> bool {
    spec_phase_wf(lcds, ly, lt) || ((lcds & 0b11) == 0 && ly == 0 && lt == 0)
}

/// Forcing the mode bits of `STAT` stores exactly the mode and leaves the
/// upper bits.
pub broadcast proof fn lemma_with_mode(l: u8, m: u8)
    by (bit_vector)
    requires
        m < 4,
    ensures
        (#[trigger] crate::ppu::spec_with_mode(l, m)) & 0b11 == m,
        crate::ppu::spec_with_mode(l, m) & 0xF8 == l & 0xF8,
{
}

/// The coincidence-flag update leaves the mode bits of `STAT`.
pub broadcast proof fn lemma_lyc_keeps_mode(l: u8, v: bool)
    by (bit_vector)
    ensures
        (#[trigger] spec_modify_bit(l, 2, v)) & 0b11 == l & 0b11,
{
}

/// One dot of the PPU keeps the machine sane: `STAT`'s mode bits match the
/// rendering phase, `LY` stays in `0..=153` and the mode in `0..=3`. With
/// the display disabled the machine parks at mode 0, line 0.
pub proof fn lemma_ppu_phase_invariant(
    lcdc: u8,
    lcds: u8,
    ly: u8,
    lyc: u8,
    lt: u32,
    iflags: u8,
    frame: u32,
)
    requires
        spec_ppu_sane(lcds, ly, lt),
    ensures
        ({
            let e = spec_ppu_tick(lcdc, lcds, ly, lyc, lt, iflags, frame);
            &&& spec_ppu_sane(e.lcds, e.ly, e.line_ticks)
            &&& e.ly <= 153
            &&& e.lcds & 0b11 <= 3
        }),
{
    broadcast use lemma_with_mode;
    broadcast use lemma_lyc_keeps_mode;

    let e = spec_ppu_tick(lcdc, lcds, ly, lyc, lt, iflags, frame);
    let el = e.lcds;
    assert(lcds & 0b11 < 4 && (lcds & !0b11) & 0b11 == 0 && el & 0b11 < 4) by (bit_vector);
    if !spec_check_bit(lcdc, 7) {
        assert(spec_ppu_sane(e.lcds, e.ly, e.line_ticks));
    } else {
        assert(lt < 456 ==> ((lt + 1) % 0x1_0000_0000) == lt + 1);
    }
}

/// A frame is exactly `154 * 456 = 70224` dots: within the canonical
/// phase, each dot advances the frame-relative dot index by exactly one,
/// modulo the frame length.
pub proof fn lemma_frame_dot_cadence(
    lcdc: u8,
    lcds: u8,
    ly: u8,
    lyc: u8,
    lt: u32,
    iflags: u8,
    frame: u32,
)
    requires
        spec_check_bit(lcdc, 7),
        spec_phase_wf(lcds, ly, lt),
    ensures
        154 * 456 == 70224,
        ly * 456 + lt < 70224,
        ({
            let e = spec_ppu_tick(lcdc, lcds, ly, lyc, lt, iflags, frame);
            e.ly * 456 + e.line_ticks == (ly * 456 + lt + 1) % 70224
        }),
{
    broadcast use lemma_with_mode;
    broadcast use lemma_lyc_keeps_mode;

    let e = spec_ppu_tick(lcdc, lcds, ly, lyc, lt, iflags, frame);
    assert(lcds & 0b11 < 4) by (bit_vector);
    assert(lt < 456 ==> ((lt + 1) % 0x1_0000_0000) == lt + 1);
    if ly * 456 + lt + 1 < 70224 {
        assert((ly * 456 + lt + 1) % 70224 == ly * 456 + lt + 1);
    } else {
        assert(ly == 153 && lt == 455);
        assert((ly * 456 + lt + 1) % 70224 == 0);
    }
}

/// Pushing a 16-bit value onto a stack that lies in work RAM and popping it
/// back restores the value: the two stored bytes read back and recombine.
/// Popping into `AF` additionally clears the low nibble of `F`.
pub proof fn lemma_push_pop_roundtrip(b0: BUS, b1: BUS, b2: BUS, sp: u16, v: u16, regs: CpuRegisters)
    requires
        b0.ram.wf(),
        0xC000 <= sp - 2 && sp - 1 < 0xE000,
        spec_bus_write_rel(b0, b1, (sp - 1) as u16, ((v >> 8) & 0xFF) as u8),
        spec_bus_write_rel(b1, b2, (sp - 2) as u16, (v & 0xFF) as u8),
    ensures
        spec_bus_read(b2, (sp - 2) as u16) == (v & 0xFF) as u8,
        spec_bus_read(b2, (sp - 1) as u16) == ((v >> 8) & 0xFF) as u8,
        (spec_bus_read(b2, (sp - 1) as u16) as u16) * 0x100 + spec_bus_read(b2, (sp - 2) as u16)
            == v,
        spec_write_register(regs, RegType::RtAf, v).a == ((v >> 8) & 0xFF) as u8,
        spec_write_register(regs, RegType::RtAf, v).f == (((v & 0xFF) as u8) & 0xF0),
        spec_write_register(regs, RegType::RtAf, v).f & 0x0F == 0,
{
    crate::cpu::lemma_u16_recombine(v);
    let x = v;
    assert(((((x & 0xFF) as u8) & 0xF0) & 0x0F) == 0) by (bit_vector);
}

/// Reading a byte of work or high RAM and writing it straight back is the
/// identity on the whole machine: every memory and every register file is
/// unchanged.
pub proof fn lemma_read_write_identity(b0: BUS, b1: BUS, addr: u16)
    requires
        b0.ram.wf(),
        (0xC000 <= addr < 0xE000) || (0xFF80 <= addr < 0xFFFF),
        spec_bus_write_rel(b0, b1, addr, spec_bus_read(b0, addr)),
    ensures
        b1.ram.wram@ == b0.ram.wram@,
        b1.ram.hram@ == b0.ram.hram@,
        b1.ppu == b0.ppu,
        b1.io == b0.io,
        b1.cartridge == b0.cartridge,
        b1.int_flags == b0.int_flags,
        b1.ie_register == b0.ie_register,
        forall|a: u16| spec_bus_read(b1, a) == #[trigger] spec_bus_read(b0, a),
{
    if 0xC000 <= addr < 0xE000 {
        assert(b1.ram.wram@ =~= b0.ram.wram@);
    } else {
        assert(b1.ram.hram@ =~= b0.ram.hram@);
    }
}

} // verus!
