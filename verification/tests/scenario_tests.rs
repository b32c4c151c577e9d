use gb_core::cpu::CPU;
use gb_core::err::GbError;
use gb_core::events::{LogEvents, LoggableComponent};
use gb_core::mmu::VirtualMemory;
use gb_core::reg::{Flag, RegCode};

fn machine_with_program(at: u16, program: &[u8]) -> (CPU, VirtualMemory) {
    let mut cpu = CPU::new(false);
    let mut mmu = VirtualMemory::new();
    let mut addr = at;
    for &byte in program.iter() {
        mmu.save(addr, byte).expect("program fits");
        addr += 1;
    }
    let _ = mmu.drain_events();
    cpu.reg.set_pc(at);
    (cpu, mmu)
}

#[test]
fn s1_immediate_load() {
    let (mut cpu, mut mmu) = machine_with_program(0x0100, &[0x3E, 0x42]);
    assert_eq!(cpu.tick(&mut mmu), Ok(()));
    assert_eq!(cpu.reg.a, 0x42);
    assert_eq!(cpu.reg.pc, 0x0102);
}

#[test]
fn s2_pair_load_little_endian() {
    let (mut cpu, mut mmu) = machine_with_program(0x0100, &[0x21, 0x34, 0x12]);
    assert_eq!(cpu.tick(&mut mmu), Ok(()));
    assert_eq!(cpu.reg.h, 0x12);
    assert_eq!(cpu.reg.l, 0x34);
    assert_eq!(cpu.reg.get_16bit(RegCode::HL), Ok(0x1234));
    assert_eq!(cpu.reg.pc, 0x0103);
}

#[test]
fn s3_xor_a_zeroes_a_and_sets_z() {
    let (mut cpu, mut mmu) = machine_with_program(0x0100, &[0xAF]);
    cpu.reg.a = 0x5A;
    assert_eq!(cpu.tick(&mut mmu), Ok(()));
    assert_eq!(cpu.reg.a, 0x00);
    assert_eq!(cpu.reg.f, 0x80);
    assert_eq!(cpu.reg.pc, 0x0101);
}

#[test]
fn s4_conditional_jr_taken() {
    let (mut cpu, mut mmu) = machine_with_program(0x0100, &[0x20, 0x05]);
    cpu.reg.set_flag(Flag::Zero, false);
    assert_eq!(cpu.tick(&mut mmu), Ok(()));
    assert_eq!(cpu.reg.pc, 0x0107);
}

#[test]
fn s5_call_then_ret_round_trip() {
    let (mut cpu, mut mmu) = machine_with_program(0x0100, &[0xCD, 0x50, 0x00]);
    mmu.save(0x0050, 0xC9).unwrap();
    let _ = mmu.drain_events();
    assert_eq!(cpu.reg.sp, 0xFFFE);
    assert_eq!(cpu.tick(&mut mmu), Ok(()));
    assert_eq!(cpu.reg.pc, 0x0050);
    assert_eq!(cpu.reg.sp, 0xFFFC);
    assert_eq!(cpu.tick(&mut mmu), Ok(()));
    assert_eq!(cpu.reg.pc, 0x0103);
    assert_eq!(cpu.reg.sp, 0xFFFE);
    assert_eq!(mmu.data[0xFFFC], 0x03);
    assert_eq!(mmu.data[0xFFFD], 0x01);
}

#[test]
fn s6_ldd_hl_a_decrements_hl() {
    let (mut cpu, mut mmu) = machine_with_program(0x0100, &[0x32]);
    cpu.reg.a = 0x77;
    cpu.reg.set_16bit(RegCode::HL, 0x90, 0x00).unwrap();
    assert_eq!(cpu.tick(&mut mmu), Ok(()));
    assert_eq!(mmu.data[0x9000], 0x77);
    assert_eq!(cpu.reg.get_16bit(RegCode::HL), Ok(0x8FFF));
    assert_eq!(cpu.reg.pc, 0x0101);
    let events = mmu.drain_events();
    assert!(events
        .iter()
        .any(|e| e.kind == LogEvents::VramSave && e.addr == 0x9000 && e.value == 0x77));
}

#[test]
fn ld_sp_imm16() {
    let (mut cpu, mut mmu) = machine_with_program(0x0100, &[0x31, 0xFE, 0xDC]);
    assert_eq!(cpu.tick(&mut mmu), Ok(()));
    assert_eq!(cpu.reg.sp, 0xDCFE);
    assert_eq!(cpu.reg.pc, 0x0103);
}

#[test]
fn jr_negative_displacement_loops_back() {
    let (mut cpu, mut mmu) = machine_with_program(0x0100, &[0x18, 0xFE]);
    assert_eq!(cpu.tick(&mut mmu), Ok(()));
    // 0x0102 - 2: back onto the JR itself.
    assert_eq!(cpu.reg.pc, 0x0100);
}

#[test]
fn ld_grid_moves_between_registers() {
    // LD B, C then LD D, (HL).
    let (mut cpu, mut mmu) = machine_with_program(0x0100, &[0x41, 0x56]);
    cpu.reg.c = 0x9A;
    cpu.reg.set_16bit(RegCode::HL, 0x20, 0x00).unwrap();
    mmu.save(0x2000, 0x33).unwrap();
    assert_eq!(cpu.tick(&mut mmu), Ok(()));
    assert_eq!(cpu.reg.b, 0x9A);
    assert_eq!(cpu.tick(&mut mmu), Ok(()));
    assert_eq!(cpu.reg.d, 0x33);
    assert_eq!(cpu.reg.pc, 0x0102);
}

#[test]
fn halt_is_a_nop_here() {
    let (mut cpu, mut mmu) = machine_with_program(0x0100, &[0x76]);
    let before = cpu.reg;
    assert_eq!(cpu.tick(&mut mmu), Ok(()));
    assert_eq!(cpu.reg.a, before.a);
    assert_eq!(cpu.reg.pc, 0x0101);
}

#[test]
fn inc_mem_at_hl_wraps_and_flags() {
    let (mut cpu, mut mmu) = machine_with_program(0x0100, &[0x34]);
    cpu.reg.set_16bit(RegCode::HL, 0x30, 0x00).unwrap();
    mmu.save(0x3000, 0xFF).unwrap();
    assert_eq!(cpu.tick(&mut mmu), Ok(()));
    assert_eq!(mmu.data[0x3000], 0x00);
    assert!(cpu.reg.check_flag(Flag::Zero));
    assert!(cpu.reg.check_flag(Flag::HalfCarryFlagBCD));
    assert!(!cpu.reg.check_flag(Flag::AddSubBCD));
}

#[test]
fn cp_immediate_sets_compare_flags() {
    // CP 0x10 against A = 0x0F: A < operand, borrow on both nibble and byte.
    let (mut cpu, mut mmu) = machine_with_program(0x0100, &[0xFE, 0x10]);
    cpu.reg.a = 0x0F;
    assert_eq!(cpu.tick(&mut mmu), Ok(()));
    assert!(!cpu.reg.check_flag(Flag::Zero));
    assert!(cpu.reg.check_flag(Flag::AddSubBCD));
    assert!(!cpu.reg.check_flag(Flag::HalfCarryFlagBCD));
    assert!(cpu.reg.check_flag(Flag::CarryFlag));
    // Equal values: zero set, carry clear.
    let (mut cpu, mut mmu) = machine_with_program(0x0100, &[0xFE, 0x42]);
    cpu.reg.a = 0x42;
    assert_eq!(cpu.tick(&mut mmu), Ok(()));
    assert!(cpu.reg.check_flag(Flag::Zero));
    assert!(!cpu.reg.check_flag(Flag::CarryFlag));
}

#[test]
fn ldh_writes_and_reads_high_page() {
    let (mut cpu, mut mmu) = machine_with_program(0x0100, &[0xE0, 0x44, 0xF0, 0x44]);
    cpu.reg.a = 0x99;
    assert_eq!(cpu.tick(&mut mmu), Ok(()));
    assert_eq!(mmu.data[0xFF44], 0x99);
    cpu.reg.a = 0x00;
    assert_eq!(cpu.tick(&mut mmu), Ok(()));
    assert_eq!(cpu.reg.a, 0x99);
    assert_eq!(cpu.reg.pc, 0x0104);
}

#[test]
fn cb_bit_res_set() {
    // BIT 7, H with bit set: Z clear, H flag set, N clear.
    let (mut cpu, mut mmu) = machine_with_program(0x0100, &[0xCB, 0x7C]);
    cpu.reg.h = 0x80;
    assert_eq!(cpu.tick(&mut mmu), Ok(()));
    assert!(!cpu.reg.check_flag(Flag::Zero));
    assert!(cpu.reg.check_flag(Flag::HalfCarryFlagBCD));
    assert!(!cpu.reg.check_flag(Flag::AddSubBCD));

    // RES 0, A then SET 6, A.
    let (mut cpu, mut mmu) = machine_with_program(0x0100, &[0xCB, 0x87, 0xCB, 0xF7]);
    cpu.reg.a = 0xFF;
    assert_eq!(cpu.tick(&mut mmu), Ok(()));
    assert_eq!(cpu.reg.a, 0xFE);
    assert_eq!(cpu.tick(&mut mmu), Ok(()));
    assert_eq!(cpu.reg.a, 0xFE | 0x40);
}

#[test]
fn cb_rl_c_through_carry() {
    let (mut cpu, mut mmu) = machine_with_program(0x0100, &[0xCB, 0x11]);
    cpu.reg.c = 0x80;
    cpu.reg.set_flag(Flag::CarryFlag, false);
    assert_eq!(cpu.tick(&mut mmu), Ok(()));
    assert_eq!(cpu.reg.c, 0x00);
    assert!(cpu.reg.check_flag(Flag::CarryFlag));
    assert!(cpu.reg.check_flag(Flag::Zero));
}

#[test]
fn rlca_clears_zero_flag() {
    let (mut cpu, mut mmu) = machine_with_program(0x0100, &[0x07]);
    cpu.reg.a = 0x80;
    assert_eq!(cpu.tick(&mut mmu), Ok(()));
    assert_eq!(cpu.reg.a, 0x01);
    assert!(cpu.reg.check_flag(Flag::CarryFlag));
    assert!(!cpu.reg.check_flag(Flag::Zero));
}

#[test]
fn push_pop_identity_with_af_mask() {
    let mut cpu = CPU::new(false);
    let mut mmu = VirtualMemory::new();
    cpu.reg.b = 0x12;
    cpu.reg.c = 0x34;
    assert_eq!(cpu.push(&mut mmu, RegCode::BC), Ok(()));
    cpu.reg.b = 0;
    cpu.reg.c = 0;
    assert_eq!(cpu.pop(&mut mmu, RegCode::BC), Ok(()));
    assert_eq!(cpu.reg.get_16bit(RegCode::BC), Ok(0x1234));
    assert_eq!(cpu.reg.sp, 0xFFFE);

    // AF: the low nibble of F is forced to zero on the way back.
    cpu.reg.a = 0xAB;
    cpu.reg.set_8bit(RegCode::F, 0x85).unwrap();
    assert_eq!(cpu.push(&mut mmu, RegCode::AF), Ok(()));
    cpu.reg.a = 0;
    assert_eq!(cpu.pop(&mut mmu, RegCode::AF), Ok(()));
    assert_eq!(cpu.reg.a, 0xAB);
    assert_eq!(cpu.reg.f, 0x80);
}

#[test]
fn unknown_opcode_strict_and_permissive() {
    let (mut cpu, mut mmu) = machine_with_program(0x0100, &[0xD3]);
    assert!(cpu.strict);
    assert_eq!(cpu.tick(&mut mmu), Err(GbError::UnknownOpcode));
    let (mut cpu, mut mmu) = machine_with_program(0x0100, &[0xD3]);
    cpu.strict = false;
    assert_eq!(cpu.tick(&mut mmu), Ok(()));
    assert_eq!(cpu.reg.pc, 0x0101);
}

#[test]
fn fetch_at_end_of_space_is_a_bus_error() {
    let mut cpu = CPU::new(false);
    let mut mmu = VirtualMemory::new();
    cpu.reg.set_pc(0xFFFF);
    assert_eq!(cpu.tick(&mut mmu), Err(GbError::BusError));
}

#[test]
fn tick_event_buffer_restarts_each_tick() {
    let (mut cpu, mut mmu) = machine_with_program(0x0100, &[0x00, 0x00]);
    assert_eq!(cpu.tick(&mut mmu), Ok(()));
    assert_eq!(cpu.tick(&mut mmu), Ok(()));
    let events = cpu.dump_log_messages();
    assert_eq!(events.len(), 1);
    assert_eq!(events[0].kind, LogEvents::Tick);
    assert_eq!(events[0].addr, 0x0101);
}
