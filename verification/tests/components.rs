//! Unit checks on the leaf components: bit helpers, the decoders, the
//! cartridge header, colors and the address-space map.

use gbcore::addresses::AddrSpace;
use gbcore::cartridge::{Cartridge, CartridgeError, RomHeader};
use gbcore::cb::CbOperation;
use gbcore::color::Color;
use gbcore::instructions::{AddrMode, InType, Instruction, RegType};
use gbcore::bus::BUS;
use gbcore::emu::EMU;
use gbcore::interrupts::{IFlagsRegister, InterruptType};
use gbcore::lcd::LCD;
use gbcore::ppu::OAM;
use gbcore::ram::Ram;
use gbcore::util::{check_bit, clear_bit, modify_bit, set_bit};

#[test]
fn bit_helpers() {
    assert_eq!(set_bit(0b0000_0000, 3), 0b0000_1000);
    assert_eq!(clear_bit(0b1111_1111, 0), 0b1111_1110);
    assert_eq!(modify_bit(0b1010_1010, 0, true), 0b1010_1011);
    assert!(check_bit(0b0100_0000, 6));
    assert!(!check_bit(0b0100_0000, 5));
}

#[test]
fn decode_table_entries() {
    let nop = Instruction::by_opcode(0x00).unwrap();
    assert_eq!(nop.type_, InType::InNop);
    let jp = Instruction::by_opcode(0xC3).unwrap();
    assert_eq!(jp.type_, InType::InJp);
    assert_eq!(jp.mode, AddrMode::AmD16);
    let ld = Instruction::by_opcode(0x06).unwrap();
    assert_eq!(ld.type_, InType::InLd);
    assert_eq!(ld.reg_1, Some(RegType::RtB));
    assert!(Instruction::by_opcode(0xD3).is_none());
    let rst = Instruction::by_opcode(0xFF).unwrap();
    assert_eq!(rst.type_, InType::InRst);
    assert_eq!(rst.param, 0x38);
}

#[test]
fn cb_decode() {
    // $37 is SWAP A; $47 is BIT 0,A; $86 is RES 0,(HL).
    let swap = CbOperation::from_byte(0x37).unwrap();
    assert!(swap.cb_bit_ops.is_none());
    assert_eq!(swap.reg, RegType::RtA);
    let bit = CbOperation::from_byte(0x47).unwrap();
    assert!(bit.cb_bit_ops.is_some());
    assert_eq!(bit.bit, 0);
    let res = CbOperation::from_byte(0x86).unwrap();
    assert_eq!(res.reg, RegType::RtHl);
}

#[test]
fn register_width() {
    assert!(RegType::RtHl.is_16_bit());
    assert!(!RegType::RtA.is_16_bit());
    assert!(RegType::is_some_16_bit(Some(RegType::RtSp)));
    assert!(!RegType::is_some_16_bit(None));
}

fn rom_with_header() -> Vec<u8> {
    let mut rom = vec![0u8; 0x8000];
    let title = b"TESTCART";
    rom[0x134..0x134 + title.len()].copy_from_slice(title);
    rom[0x147] = 0x00;
    rom[0x148] = 0x01;
    // Header checksum over $0134..=$014C.
    let mut sum: u8 = 0;
    for i in 0x134..=0x14C {
        sum = sum.wrapping_sub(rom[i]).wrapping_sub(1);
    }
    rom[0x14D] = sum;
    rom
}

#[test]
fn cartridge_header_parse_and_title() {
    let cartridge = Cartridge::new(rom_with_header()).unwrap();
    assert_eq!(cartridge.read_title(), "TESTCART".to_string());
    assert_eq!(cartridge.rom_header.rom_size, 0x01);
    assert_eq!(cartridge.rom_header.cart_type, 0x00);
}

#[test]
fn cartridge_checksum_validates() {
    let cartridge = Cartridge::new(rom_with_header()).unwrap();
    assert!(cartridge.validate_checksum());
    let mut bad = rom_with_header();
    bad[0x14D] = bad[0x14D].wrapping_add(1);
    let cartridge = Cartridge::new(bad).unwrap();
    assert!(!cartridge.validate_checksum());
}

#[test]
fn cartridge_rejects_short_rom() {
    assert!(matches!(
        Cartridge::new(vec![0u8; 0x100]),
        Err(CartridgeError::InvalidRomData)
    ));
}

#[test]
fn cartridge_read_out_of_range() {
    let cartridge = Cartridge::new(vec![0u8; 0x150]).unwrap();
    assert!(matches!(
        cartridge.read(0x150),
        Err(CartridgeError::ReadFromInvalidAddress)
    ));
    assert_eq!(cartridge.read(0x14F).unwrap(), 0);
}

#[test]
fn rom_header_default_is_blank() {
    let h = RomHeader::default();
    assert_eq!(h.entry, vec![0u8; 4]);
    assert_eq!(h.title, vec![0u8; 16]);
    assert_eq!(h.checksum, 0);
}

#[test]
fn ram_bounds() {
    let mut ram = Ram::new();
    ram.write_wram(0x1FFF, 0xAA).unwrap();
    assert_eq!(ram.read_wram(0x1FFF).unwrap(), 0xAA);
    assert!(ram.write_wram(0x2000, 0).is_err());
    assert!(ram.read_hram(0x80).is_err());
    ram.write_hram(0x7F, 0x55).unwrap();
    assert_eq!(ram.read_hram(0x7F).unwrap(), 0x55);
}

#[test]
fn address_space_map() {
    assert_eq!(AddrSpace::from_address(&0x0000).unwrap(), AddrSpace::ROM0);
    assert_eq!(AddrSpace::from_address(&0x9900).unwrap(), AddrSpace::BG1);
    assert_eq!(AddrSpace::from_address(&0xE000).unwrap(), AddrSpace::ECHO);
    assert_eq!(AddrSpace::from_address(&0xFFFF).unwrap(), AddrSpace::INTERRUPT);
    assert_eq!(AddrSpace::get_region_offset(0xC123).unwrap(), 0x123);
    assert_eq!(AddrSpace::ROM1.get_region(), (0x4000, 0x7FFF));
}

#[test]
fn oam_entry_flags() {
    let e = OAM { y: 0, x: 0, tile: 0, flags: 0b1010_1010 };
    assert!(e.get_bg_window_priority());
    assert!(!e.get_y_flip());
    assert!(e.get_x_flip());
    assert!(!e.get_palette_number());
    assert!(e.get_tile_vram_bank());
    assert_eq!(e.get_cgb_palette_number(), 0b10);
}

#[test]
fn colors_from_hex() {
    let c = Color::from_hex(0x112233);
    assert_eq!((c.r, c.g, c.b), (0x11, 0x22, 0x33));
    let c = Color::from_hex_string("a1B2c3");
    assert_eq!((c.r, c.g, c.b), (0xA1, 0xB2, 0xC3));
    let c = Color::from_hex_string("7");
    assert_eq!((c.r, c.g, c.b), (0, 0, 7));
    assert_eq!(Color::new(1, 2, 3), Color { r: 1, g: 2, b: 3 });
}

#[test]
fn palette_write_builds_color_table() {
    let mut bus = BUS::new(Cartridge::new(vec![0u8; 0x8000]).unwrap());
    bus.write(0xFF47, 0b1110_0100).unwrap();
    assert_eq!(
        bus.io.lcd.register.bg_colors,
        vec![0xFF_FF_FF_FF, 0xFF_AA_AA_AA, 0xFF_55_55_55, 0xFF_00_00_00]
    );
}

#[test]
fn lcdc_decoders() {
    let mut lcd = LCD::new();
    lcd.register.lcdc = 0b1101_0110;
    assert!(!lcd.lcdc_bgw_enabled());
    assert!(lcd.lcdc_obj_enabled());
    assert_eq!(lcd.lcdc_obj_height(), 16);
    assert_eq!(lcd.lcdc_bg_map_area(), 0x9800);
    assert_eq!(lcd.lcdc_bgw_data_area(), 0x8000);
    assert!(!lcd.lcdc_win_enabled());
    assert_eq!(lcd.lcdc_win_map_area(), 0x9C00);
    assert!(lcd.lcdc_display_enabled());
}

#[test]
fn interrupt_flag_register_ops() {
    let mut f = IFlagsRegister::new();
    f.add_interrupt(InterruptType::Timer);
    f.add_interrupt(InterruptType::JoyPad);
    assert_eq!(f.int_flags, 0x14);
    assert!(f.has_interrupt(InterruptType::Timer));
    assert!(!f.has_interrupt(InterruptType::VBlank));
    f.remove_interrupt(InterruptType::Timer);
    assert_eq!(f.int_flags, 0x10);
}

#[test]
fn emulator_runs_and_stops() {
    let mut emu = EMU::new(Cartridge::new(vec![0u8; 0x8000]).unwrap());
    emu.cpu_run(100).unwrap();
    assert!(emu.cpu.bus.tm.get_ticks().unwrap() >= 400);
    emu.stop();
    assert!(emu.die);
    let before = emu.cpu.registers.pc;
    // A stopped machine makes no progress through the program.
    emu.cpu_run(10).unwrap();
    assert_eq!(emu.cpu.registers.pc, before);
}
