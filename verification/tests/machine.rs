//! Scenarios on the peripherals: the OAM-DMA transfer, the PPU's frame
//! cadence, the timer registers and the bus routing rules.

use gbcore::bus::BUS;
use gbcore::cartridge::Cartridge;
use gbcore::interrupts::IFlagsRegister;
use gbcore::lcd::LCDMode;
use gbcore::timer::Timer;

fn fresh_bus() -> BUS {
    let rom = vec![0u8; 0x8000];
    BUS::new(Cartridge::new(rom).unwrap())
}

#[test]
fn oam_dma_transfer() {
    // Bytes 0..159 at $C000; write $C0 to $FF46; after 162 machine cycles
    // sprite memory holds 0..159, and mid-transfer OAM reads gave $FF.
    let mut bus = fresh_bus();
    for i in 0..160u16 {
        bus.write(0xC000 + i, i as u8).unwrap();
    }
    bus.write(0xFF46, 0xC0).unwrap();
    assert!(bus.dma.dma_transferring());

    bus.cycle(1);
    // The start delay has passed; the transfer is under way and shields OAM.
    let mut saw_ff = true;
    for _ in 0..80 {
        bus.cycle(1);
        if bus.read(0xFE17).unwrap() != 0xFF {
            saw_ff = false;
        }
    }
    assert!(saw_ff);
    bus.cycle(81);
    assert!(!bus.dma.dma_transferring());
    for i in 0..160u16 {
        assert_eq!(bus.read(0xFE00 + i).unwrap(), i as u8);
    }
}

#[test]
fn oam_writes_dropped_during_dma() {
    let mut bus = fresh_bus();
    bus.write(0xFF46, 0xC0).unwrap();
    bus.write(0xFE00, 0x77).unwrap();
    bus.cycle(162);
    assert_eq!(bus.read(0xFE00).unwrap(), 0x00);
}

#[test]
fn ppu_vblank_cadence() {
    // From mode 2 of line 0: after 144*456 dots the machine is one dot into
    // VBlank with LY=144 and the VBlank interrupt raised; 10*456 dots later
    // it is back at the OAM scan of line 0.
    let mut bus = fresh_bus();
    assert_eq!(bus.io.lcd.lcds_mode_flag(), LCDMode::OAM);
    assert_eq!(bus.io.lcd.register.ly, 0);

    bus.cycle(144 * 456 / 4);
    assert_eq!(bus.io.lcd.lcds_mode_flag(), LCDMode::VBlank);
    assert_eq!(bus.io.lcd.register.ly, 144);
    assert_ne!(bus.int_flags.int_flags & 0x01, 0);

    bus.cycle(10 * 456 / 4);
    assert_eq!(bus.io.lcd.lcds_mode_flag(), LCDMode::OAM);
    assert_eq!(bus.io.lcd.register.ly, 0);
}

#[test]
fn ppu_frame_is_70224_dots() {
    // One whole frame returns the dot machine to its starting phase and
    // advances the frame counter once.
    let mut bus = fresh_bus();
    let frame0 = bus.ppu.current_frame;
    bus.cycle(70224 / 4);
    assert_eq!(bus.io.lcd.lcds_mode_flag(), LCDMode::OAM);
    assert_eq!(bus.io.lcd.register.ly, 0);
    assert_eq!(bus.ppu.line_ticks, 0);
    assert_eq!(bus.ppu.current_frame, frame0 + 1);
}

#[test]
fn lyc_match_sets_stat_flag_and_interrupt() {
    let mut bus = fresh_bus();
    bus.write(0xFF45, 1).unwrap();
    // Enable the LYC source (STAT bit 6).
    bus.write(0xFF41, 0x40).unwrap();
    bus.cycle(456 / 4);
    assert_eq!(bus.io.lcd.register.ly, 1);
    assert!(bus.io.lcd.lcds_lyc_flag());
    assert_ne!(bus.int_flags.int_flags & 0x02, 0);
}

#[test]
fn disabling_display_parks_ppu() {
    let mut bus = fresh_bus();
    bus.cycle(3000);
    assert_ne!(bus.io.lcd.register.ly, 0);
    bus.write(0xFF40, 0x11).unwrap();
    bus.cycle(1);
    assert_eq!(bus.io.lcd.register.ly, 0);
    assert_eq!(bus.io.lcd.register.lcds & 0b11, 0);
}

#[test]
fn div_wraps_after_65536_ticks() {
    let mut t = Timer::new();
    let mut flags = IFlagsRegister::new();
    t.clear_divider();
    for _ in 0..65536u32 {
        t.tick(&mut flags);
    }
    assert_eq!(t.get_divider(), 0);
    t.tick(&mut flags);
    assert_eq!(t.get_divider(), 1);
}

#[test]
fn tima_reloads_from_tma_on_wrap() {
    // A falling edge of DIV bit 3 with TIMA=$FF reloads from TMA and raises
    // the Timer interrupt.
    let mut t = Timer::new();
    let mut flags = IFlagsRegister::new();
    t.set_tac(0x05);
    t.set_tima(0xFF);
    t.set_tma(0x42);
    t.clear_divider();
    for _ in 0..16u32 {
        t.tick(&mut flags);
    }
    assert_eq!(t.get_tima(), 0x42);
    assert_ne!(flags.int_flags & 0x04, 0);
}

#[test]
fn tima_counts_without_reload_below_wrap() {
    let mut t = Timer::new();
    let mut flags = IFlagsRegister::new();
    t.set_tac(0x05);
    t.set_tima(0x10);
    t.clear_divider();
    for _ in 0..16u32 {
        t.tick(&mut flags);
    }
    assert_eq!(t.get_tima(), 0x11);
    assert_eq!(flags.int_flags, 0);
}

#[test]
fn div_write_clears_whole_counter() {
    let mut bus = fresh_bus();
    bus.cycle(100);
    assert_ne!(bus.io.timer.get_divider(), 0);
    bus.write(0xFF04, 0xAB).unwrap();
    assert_eq!(bus.io.timer.get_divider(), 0);
}

#[test]
fn echo_ram_mirrors_wram() {
    let mut bus = fresh_bus();
    bus.write(0xC010, 0x99).unwrap();
    assert_eq!(bus.read(0xE010).unwrap(), 0x99);
    bus.write(0xE011, 0x77).unwrap();
    assert_eq!(bus.read(0xC011).unwrap(), 0x77);
}

#[test]
fn prohibited_range_reads_ff() {
    let mut bus = fresh_bus();
    bus.write(0xFEA5, 0x12).unwrap();
    assert_eq!(bus.read(0xFEA5).unwrap(), 0xFF);
}

#[test]
fn ie_register_round_trip() {
    let mut bus = fresh_bus();
    bus.write(0xFFFF, 0x15).unwrap();
    assert_eq!(bus.read(0xFFFF).unwrap(), 0x15);
    assert_eq!(bus.ie_register.int_flags, 0x15);
}

#[test]
fn hram_round_trip() {
    let mut bus = fresh_bus();
    bus.write(0xFF85, 0x42).unwrap();
    assert_eq!(bus.read(0xFF85).unwrap(), 0x42);
}

#[test]
fn vram_round_trip_via_bus() {
    let mut bus = fresh_bus();
    bus.write(0x8123, 0x3C).unwrap();
    assert_eq!(bus.read(0x8123).unwrap(), 0x3C);
    assert_eq!(bus.ppu.vram_read(0x0123), 0x3C);
}

#[test]
fn serial_transmit_appends_to_log() {
    let mut bus = fresh_bus();
    for &b in b"hi" {
        bus.write(0xFF01, b).unwrap();
        bus.write(0xFF02, 0x81).unwrap();
    }
    assert_eq!(bus.io.serial_message, b"hi".to_vec());
    assert_eq!(bus.io.serial_control, 0);
}

#[test]
fn ly_is_read_only() {
    let mut bus = fresh_bus();
    bus.cycle(456 / 4);
    let ly = bus.read(0xFF44).unwrap();
    assert_eq!(ly, 1);
    bus.write(0xFF44, 0x55).unwrap();
    assert_eq!(bus.read(0xFF44).unwrap(), ly);
}

#[test]
fn unmapped_io_reads_ff() {
    let bus = fresh_bus();
    assert_eq!(bus.read(0xFF03).unwrap(), 0xFF);
    assert_eq!(bus.read(0xFF30).unwrap(), 0xFF);
}
