use gb_core::err::GbError;
use gb_core::reg::{Flag, RegCode, Registers};

#[test]
fn initialize_zero_flag_and_rest_null() {
    let reg = Registers::new();
    assert!(reg.check_flag(Flag::Zero));
    assert!(!reg.check_flag(Flag::AddSubBCD));
    assert!(!reg.check_flag(Flag::HalfCarryFlagBCD));
    assert!(!reg.check_flag(Flag::CarryFlag));
}

#[test]
fn boot_constants_match_architecture() {
    let reg = Registers::new();
    assert_eq!(reg.a, 0x11);
    assert_eq!(reg.f, 0x80);
    assert_eq!(reg.b, 0x00);
    assert_eq!(reg.c, 0x00);
    assert_eq!(reg.d, 0xFF);
    assert_eq!(reg.e, 0x56);
    assert_eq!(reg.h, 0x00);
    assert_eq!(reg.l, 0x7C);
    assert_eq!(reg.sp, 0xFFFE);
    assert_eq!(reg.pc, 0x0000);
}

#[test]
fn set8_then_get8_roundtrips_every_register() {
    let codes = [
        RegCode::A,
        RegCode::F,
        RegCode::B,
        RegCode::C,
        RegCode::D,
        RegCode::E,
        RegCode::H,
        RegCode::L,
    ];
    for &code in codes.iter() {
        for &byte in [0x00u8, 0x01, 0x42, 0x80, 0xFF].iter() {
            let mut reg = Registers::new();
            assert_eq!(reg.set_8bit(code, byte), Ok(()));
            assert_eq!(reg.get_8bit(code), Ok(byte));
        }
    }
}

#[test]
fn set16_then_get16_roundtrips_every_pair() {
    let codes = [RegCode::AF, RegCode::BC, RegCode::DE, RegCode::HL, RegCode::SP];
    for &code in codes.iter() {
        let mut reg = Registers::new();
        assert_eq!(reg.set_16bit(code, 0x12, 0x34), Ok(()));
        assert_eq!(reg.get_16bit(code), Ok(0x1234));
    }
}

#[test]
fn width_mismatch_is_rejected() {
    let mut reg = Registers::new();
    assert_eq!(reg.get_8bit(RegCode::HL), Err(GbError::InvalidRegisterWidth));
    assert_eq!(reg.set_8bit(RegCode::SP, 1), Err(GbError::InvalidRegisterWidth));
    assert_eq!(reg.get_16bit(RegCode::A), Err(GbError::InvalidRegisterWidth));
    assert_eq!(reg.set_16bit(RegCode::PC, 0, 0), Err(GbError::InvalidRegisterWidth));
    assert_eq!(reg.set_16bit(RegCode::B, 0, 0), Err(GbError::InvalidRegisterWidth));
}

#[test]
fn flag_mutation_keeps_low_nibble_zero() {
    let mut reg = Registers::new();
    // Plant garbage in F's low nibble through a raw register write.
    assert_eq!(reg.set_8bit(RegCode::F, 0xFF), Ok(()));
    reg.set_flag(Flag::Zero, true);
    assert_eq!(reg.f, 0xF0);
    reg.set_flag(Flag::CarryFlag, false);
    assert_eq!(reg.f, 0xE0);
    reg.set_flag(Flag::AddSubBCD, false);
    reg.set_flag(Flag::HalfCarryFlagBCD, false);
    assert_eq!(reg.f, 0x80);
    assert_eq!(reg.f & 0x0F, 0);
}

#[test]
fn inc8_wraps_and_sets_zero_and_half_carry() {
    let mut reg = Registers::new();
    assert_eq!(reg.set_8bit(RegCode::B, 0xFF), Ok(()));
    reg.set_flag(Flag::CarryFlag, true);
    assert_eq!(reg.inc_8bit(RegCode::B), Ok(()));
    assert_eq!(reg.get_8bit(RegCode::B), Ok(0));
    assert!(reg.check_flag(Flag::Zero));
    assert!(reg.check_flag(Flag::HalfCarryFlagBCD));
    assert!(!reg.check_flag(Flag::AddSubBCD));
    // Carry is untouched by the 8-bit increment.
    assert!(reg.check_flag(Flag::CarryFlag));
}

#[test]
fn dec8_edge_cases() {
    let mut reg = Registers::new();
    assert_eq!(reg.set_8bit(RegCode::C, 0x01), Ok(()));
    assert_eq!(reg.dec_8bit(RegCode::C), Ok(()));
    assert_eq!(reg.get_8bit(RegCode::C), Ok(0));
    assert!(reg.check_flag(Flag::Zero));
    assert!(reg.check_flag(Flag::AddSubBCD));

    let mut reg = Registers::new();
    assert_eq!(reg.set_8bit(RegCode::C, 0x00), Ok(()));
    assert_eq!(reg.dec_8bit(RegCode::C), Ok(()));
    assert_eq!(reg.get_8bit(RegCode::C), Ok(0xFF));
    assert!(!reg.check_flag(Flag::Zero));
    assert!(reg.check_flag(Flag::HalfCarryFlagBCD));
    assert!(reg.check_flag(Flag::AddSubBCD));
}

#[test]
fn hl_wraps_both_ways() {
    let mut reg = Registers::new();
    assert_eq!(reg.set_16bit(RegCode::HL, 0xFF, 0xFF), Ok(()));
    reg.inc_hl();
    assert_eq!(reg.get_16bit(RegCode::HL), Ok(0));
    reg.dec_hl();
    assert_eq!(reg.get_16bit(RegCode::HL), Ok(0xFFFF));
    // 16-bit increment and decrement of a pair touch no flags.
    assert_eq!(reg.f, 0x80);
}

#[test]
fn pc_increment_wraps() {
    let mut reg = Registers::new();
    reg.set_pc(0xFFFF);
    reg.inc_pc();
    assert_eq!(reg.pc, 0);
}

#[test]
fn print_registers_renders_hex_lines() {
    let reg = Registers::new();
    let lines = reg.print_registers();
    assert_eq!(lines.len(), 6);
    assert_eq!(lines[0], "AF 0x1180");
    assert_eq!(lines[1], "BC 0x0000");
    assert_eq!(lines[2], "DE 0xff56");
    assert_eq!(lines[3], "HL 0x007c");
    assert_eq!(lines[4], "SP 0xfffe");
    assert_eq!(lines[5], "PC 0x0000");
}
