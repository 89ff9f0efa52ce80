//! End-to-end scenarios on the whole machine: boot, branches, BCD
//! adjustment, the stack and memory round trips, and the timer interrupt.

use gbcore::bus::BUS;
use gbcore::cartridge::Cartridge;
use gbcore::cpu::CPU;

fn machine_with_rom(program: &[(u16, u8)]) -> CPU {
    let mut rom = vec![0u8; 0x8000];
    for &(addr, byte) in program {
        rom[addr as usize] = byte;
    }
    let cartridge = Cartridge::new(rom).unwrap();
    CPU::new(BUS::new(cartridge))
}

fn ticks(cpu: &CPU) -> u64 {
    cpu.bus.tm.get_ticks().unwrap()
}

#[test]
fn boot_to_jump() {
    // Three NOPs at $0100, then JP $0150: 1+1+1+4 = 7 machine cycles.
    let mut cpu = machine_with_rom(&[
        (0x100, 0x00),
        (0x101, 0x00),
        (0x102, 0x00),
        (0x103, 0xC3),
        (0x104, 0x50),
        (0x105, 0x01),
    ]);
    assert_eq!(cpu.registers.pc, 0x100);
    let start = ticks(&cpu);
    for _ in 0..4 {
        cpu.step_cpu().unwrap();
    }
    assert_eq!(cpu.registers.pc, 0x0150);
    assert_eq!(ticks(&cpu) - start, 7 * 4);
}

#[test]
fn conditional_branch_cycles_taken() {
    // JR Z,+5 at $0200 with Z set: PC = $0207, 3 machine cycles.
    let mut cpu = machine_with_rom(&[(0x200, 0x28), (0x201, 0x05)]);
    cpu.registers.pc = 0x200;
    cpu.registers.f = 0x80;
    let start = ticks(&cpu);
    cpu.step_cpu().unwrap();
    assert_eq!(cpu.registers.pc, 0x0207);
    assert_eq!(ticks(&cpu) - start, 3 * 4);
}

#[test]
fn conditional_branch_cycles_not_taken() {
    // JR Z,+5 at $0200 with Z clear: PC = $0202, 2 machine cycles.
    let mut cpu = machine_with_rom(&[(0x200, 0x28), (0x201, 0x05)]);
    cpu.registers.pc = 0x200;
    cpu.registers.f = 0x00;
    let start = ticks(&cpu);
    cpu.step_cpu().unwrap();
    assert_eq!(cpu.registers.pc, 0x0202);
    assert_eq!(ticks(&cpu) - start, 2 * 4);
}

#[test]
fn daa_after_bcd_add() {
    // A=$45, B=$38; ADD A,B; DAA -> A=$83, Z=0, H=0, C=0.
    let mut cpu = machine_with_rom(&[(0x100, 0x80), (0x101, 0x27)]);
    cpu.registers.a = 0x45;
    cpu.registers.b = 0x38;
    cpu.registers.f = 0x00;
    cpu.step_cpu().unwrap();
    cpu.step_cpu().unwrap();
    assert_eq!(cpu.registers.a, 0x83);
    assert!(!cpu.get_z_flag());
    assert!(!cpu.get_h_flag());
    assert!(!cpu.get_c_flag());
}

#[test]
fn daa_after_bcd_add_with_carry() {
    // A=$45, B=$55; ADD A,B; DAA -> A=$00, Z=1, C=1.
    let mut cpu = machine_with_rom(&[(0x100, 0x80), (0x101, 0x27)]);
    cpu.registers.a = 0x45;
    cpu.registers.b = 0x55;
    cpu.registers.f = 0x00;
    cpu.step_cpu().unwrap();
    cpu.step_cpu().unwrap();
    assert_eq!(cpu.registers.a, 0x00);
    assert!(cpu.get_z_flag());
    assert!(cpu.get_c_flag());
}

#[test]
fn push_pop_restores_value() {
    // PUSH BC; POP DE restores the pushed pair.
    let mut cpu = machine_with_rom(&[(0x100, 0xC5), (0x101, 0xD1)]);
    cpu.registers.sp = 0xD000;
    cpu.registers.b = 0x12;
    cpu.registers.c = 0x34;
    cpu.step_cpu().unwrap();
    cpu.step_cpu().unwrap();
    assert_eq!(cpu.registers.d, 0x12);
    assert_eq!(cpu.registers.e, 0x34);
    assert_eq!(cpu.registers.sp, 0xD000);
}

#[test]
fn pop_af_clears_low_nibble() {
    // PUSH BC; POP AF: the value comes back with the low nibble of F zero.
    let mut cpu = machine_with_rom(&[(0x100, 0xC5), (0x101, 0xF1)]);
    cpu.registers.sp = 0xD000;
    cpu.registers.b = 0x12;
    cpu.registers.c = 0xFF;
    cpu.step_cpu().unwrap();
    cpu.step_cpu().unwrap();
    assert_eq!(cpu.registers.a, 0x12);
    assert_eq!(cpu.registers.f, 0xF0);
}

#[test]
fn load_store_identity_on_ram() {
    // LD A,(nn); LD (nn),A leaves the RAM cell as it was.
    let mut cpu = machine_with_rom(&[
        (0x100, 0xFA),
        (0x101, 0x23),
        (0x102, 0xC1),
        (0x103, 0xEA),
        (0x104, 0x23),
        (0x105, 0xC1),
    ]);
    cpu.bus.write(0xC123, 0x5A).unwrap();
    cpu.step_cpu().unwrap();
    cpu.step_cpu().unwrap();
    assert_eq!(cpu.registers.a, 0x5A);
    assert_eq!(cpu.bus.read(0xC123).unwrap(), 0x5A);
}

#[test]
fn swap_twice_is_identity() {
    // SWAP A twice gives A back.
    let mut cpu = machine_with_rom(&[(0x100, 0xCB), (0x101, 0x37), (0x102, 0xCB), (0x103, 0x37)]);
    cpu.registers.a = 0x3C;
    cpu.step_cpu().unwrap();
    assert_eq!(cpu.registers.a, 0xC3);
    cpu.step_cpu().unwrap();
    assert_eq!(cpu.registers.a, 0x3C);
}

#[test]
fn timer_interrupt_enters_vector() {
    // TMA=$FF, TIMA=$FF, TAC=$05, IE=$04, IME on: the processor ends up at
    // $0050 with the Timer request acknowledged and the return address on
    // the stack.
    let mut cpu = machine_with_rom(&[]);
    cpu.registers.sp = 0xD000;
    cpu.bus.io.timer.set_tma(0xFF);
    cpu.bus.io.timer.set_tima(0xFF);
    cpu.bus.io.timer.set_tac(0x05);
    cpu.bus.ie_register.int_flags = 0x04;
    cpu.interrupt_master_enable = true;

    let mut entered = false;
    let mut expected_ret: u16 = 0;
    for _ in 0..10_000 {
        let pc_before = cpu.registers.pc;
        cpu.step_cpu().unwrap();
        if cpu.registers.pc == 0x0050 {
            entered = true;
            expected_ret = pc_before.wrapping_add(1);
            break;
        }
    }
    assert!(entered);
    assert_eq!(cpu.bus.int_flags.int_flags & 0x04, 0);
    assert!(!cpu.interrupt_master_enable);
    assert_eq!(cpu.bus.read_16(cpu.registers.sp).unwrap(), expected_ret);
}

#[test]
fn unknown_opcode_is_fatal() {
    let mut cpu = machine_with_rom(&[(0x100, 0xD3)]);
    assert!(cpu.step_cpu().is_err());
}

#[test]
fn interrupt_priority_lowest_bit_wins() {
    let mut cpu = machine_with_rom(&[]);
    cpu.registers.sp = 0xD000;
    cpu.bus.int_flags.int_flags = 0x05;
    cpu.bus.ie_register.int_flags = 0x04;
    cpu.handler_interrupts().unwrap();
    // Only Timer is enabled: its vector, its bit acknowledged.
    assert_eq!(cpu.registers.pc, 0x0050);
    assert_eq!(cpu.bus.int_flags.int_flags & 0x04, 0);
    assert_ne!(cpu.bus.int_flags.int_flags & 0x01, 0);

    let mut cpu = machine_with_rom(&[]);
    cpu.registers.sp = 0xD000;
    cpu.bus.int_flags.int_flags = 0x05;
    cpu.bus.ie_register.int_flags = 0x05;
    cpu.handler_interrupts().unwrap();
    // Both pending: VBlank has the lowest bit and wins.
    assert_eq!(cpu.registers.pc, 0x0040);
    assert_eq!(cpu.bus.int_flags.int_flags & 0x01, 0);
}

#[test]
fn ei_takes_effect_after_next_instruction() {
    // EI; NOP: the master enable is down right after EI and up after the
    // following instruction.
    let mut cpu = machine_with_rom(&[(0x100, 0xFB), (0x101, 0x00)]);
    cpu.step_cpu().unwrap();
    assert!(cpu.interrupt_master_enable);
    // It was latched at the end of the EI step; no interrupt was pending,
    // so the NOP step keeps it up.
    cpu.step_cpu().unwrap();
    assert!(cpu.interrupt_master_enable);
}

#[test]
fn halt_wakes_on_pending_interrupt() {
    let mut cpu = machine_with_rom(&[(0x100, 0x76)]);
    cpu.step_cpu().unwrap();
    assert!(cpu.halted);
    cpu.step_cpu().unwrap();
    assert!(cpu.halted);
    cpu.bus.int_flags.int_flags = 0x04;
    cpu.bus.ie_register.int_flags = 0x04;
    cpu.step_cpu().unwrap();
    assert!(!cpu.halted);
}

#[test]
fn add_hl_sets_half_and_full_carry() {
    // ADD HL,BC with HL=$0FFF, BC=$0001: H set, C clear, Z untouched.
    let mut cpu = machine_with_rom(&[(0x100, 0x09)]);
    cpu.registers.h = 0x0F;
    cpu.registers.l = 0xFF;
    cpu.registers.b = 0x00;
    cpu.registers.c = 0x01;
    cpu.registers.f = 0x80;
    cpu.step_cpu().unwrap();
    assert_eq!(cpu.registers.h, 0x10);
    assert_eq!(cpu.registers.l, 0x00);
    assert!(cpu.get_h_flag());
    assert!(!cpu.get_c_flag());
    assert!(cpu.get_z_flag());
}

#[test]
fn zero_page_c_round_trip() {
    // LD (C),A then LD A,(C): both address $FF00+C, here a high-RAM cell.
    let mut cpu = machine_with_rom(&[(0x100, 0xE2), (0x101, 0xAF), (0x102, 0xF2)]);
    cpu.registers.c = 0x85;
    cpu.registers.a = 0x77;
    cpu.step_cpu().unwrap();
    assert_eq!(cpu.bus.read(0xFF85).unwrap(), 0x77);
    cpu.step_cpu().unwrap();
    assert_eq!(cpu.registers.a, 0x00);
    cpu.step_cpu().unwrap();
    assert_eq!(cpu.registers.a, 0x77);
}
