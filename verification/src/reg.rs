//! The register file: eight byte-wide cells A, F, B, C, D, E, H, L, the wide
//! cells SP and PC, and the packed 16-bit pair views AF, BC, DE, HL.
//!
//! F is the flag byte: bit 7 = Zero, bit 6 = AddSub, bit 5 = HalfCarry,
//! bit 4 = Carry; its low nibble is kept at zero by every flag mutation.

use vstd::prelude::*;
use vstd::string::*;

use crate::err::GbError;
use crate::hexfmt::{hex_word, hex_word_seq};

verus! {

/// The four condition flags packed into the high nibble of F.
#[derive(Clone, Copy, PartialEq, Eq, Structural, Debug)]
pub enum Flag {
    Zero,
    AddSubBCD,
    HalfCarryFlagBCD,
    CarryFlag,
}

/// Names for the addressable register cells and pair views.
#[derive(Clone, Copy, PartialEq, Eq, Structural, Debug)]
pub enum RegCode {
    A,
    F,
    B,
    C,
    D,
    E,
    H,
    L,
    SP,
    PC,
    AF,
    BC,
    DE,
    HL,
}

/// The register file itself. Pairs are views: AF packs A as the high byte
/// and F as the low byte, and so on; SP and PC are native 16-bit cells.
#[derive(Clone, Copy, PartialEq, Eq, Structural, Debug)]
pub struct Registers {
    pub a: u8,
    pub f: u8,
    pub b: u8,
    pub c: u8,
    pub d: u8,
    pub e: u8,
    pub h: u8,
    pub l: u8,
    pub sp: u16,
    pub pc: u16,
}

/// True of the codes naming a single byte-wide cell.
pub open spec fn is_reg8(code: RegCode) -> bool {
    match code {
        RegCode::A | RegCode::F | RegCode::B | RegCode::C => true,
        RegCode::D | RegCode::E | RegCode::H | RegCode::L => true,
        _ => false,
    }
}

/// True of the codes a 16-bit read accepts: the four pairs, SP and PC.
pub open spec fn is_reg16_readable(code: RegCode) -> bool {
    match code {
        RegCode::AF | RegCode::BC | RegCode::DE | RegCode::HL => true,
        RegCode::SP | RegCode::PC => true,
        _ => false,
    }
}

/// True of the four packed pair views: the targets of PUSH and POP.
pub open spec fn is_pair(code: RegCode) -> bool {
    match code {
        RegCode::AF | RegCode::BC | RegCode::DE | RegCode::HL => true,
        _ => false,
    }
}

/// True of the codes a 16-bit split write accepts: the four pairs and SP.
pub open spec fn is_reg16_writable(code: RegCode) -> bool {
    match code {
        RegCode::AF | RegCode::BC | RegCode::DE | RegCode::HL | RegCode::SP => true,
        _ => false,
    }
}

/// The mask selecting a flag's bit inside F.
pub open spec fn flag_mask(flag: Flag) -> u8 {
    match flag {
        Flag::Zero => 0x80,
        Flag::AddSubBCD => 0x40,
        Flag::HalfCarryFlagBCD => 0x20,
        Flag::CarryFlag => 0x10,
    }
}

/// Whether a flag's bit is set inside the byte `f`.
pub open spec fn flag_on(f: u8, flag: Flag) -> bool {
    f & flag_mask(flag) == flag_mask(flag)
}

/// The flag byte holding exactly the given four flags; low nibble zero.
pub open spec fn mk_flags(z: bool, n: bool, h: bool, c: bool) -> u8 {
    (if z { 0x80u8 } else { 0u8 }) | (if n { 0x40u8 } else { 0u8 })
        | (if h { 0x20u8 } else { 0u8 }) | (if c { 0x10u8 } else { 0u8 })
}

/// Reading a flag back out of `mk_flags` gives the flag that was put in,
/// and the low nibble of `mk_flags` is always zero.
pub proof fn lemma_mk_flags(z: bool, n: bool, h: bool, c: bool)
    by (bit_vector)
    ensures
        mk_flags(z, n, h, c) & 0x80u8 == 0x80u8 <==> z,
        mk_flags(z, n, h, c) & 0x40u8 == 0x40u8 <==> n,
        mk_flags(z, n, h, c) & 0x20u8 == 0x20u8 <==> h,
        mk_flags(z, n, h, c) & 0x10u8 == 0x10u8 <==> c,
        mk_flags(z, n, h, c) & 0x0Fu8 == 0u8,
        mk_flags(z, n, h, c) as int % 16 == 0,
{
}

/// The flag byte after writing one flag: the three others keep their old
/// value, and the low nibble is forced to zero.
pub open spec fn spec_set_flag(f: u8, flag: Flag, on: bool) -> u8 {
    mk_flags(
        if flag == Flag::Zero { on } else { flag_on(f, Flag::Zero) },
        if flag == Flag::AddSubBCD { on } else { flag_on(f, Flag::AddSubBCD) },
        if flag == Flag::HalfCarryFlagBCD { on } else { flag_on(f, Flag::HalfCarryFlagBCD) },
        if flag == Flag::CarryFlag { on } else { flag_on(f, Flag::CarryFlag) },
    )
}

/// The value of a byte-wide cell. Meaningful only when `is_reg8(code)`.
pub open spec fn spec_get8(r: Registers, code: RegCode) -> u8 {
    match code {
        RegCode::A => r.a,
        RegCode::F => r.f,
        RegCode::B => r.b,
        RegCode::C => r.c,
        RegCode::D => r.d,
        RegCode::E => r.e,
        RegCode::H => r.h,
        RegCode::L => r.l,
        _ => 0,
    }
}

/// The register file after writing a byte-wide cell. Identity when
/// `code` does not name a byte-wide cell.
pub open spec fn spec_set8(r: Registers, code: RegCode, byte: u8) -> Registers {
    match code {
        RegCode::A => Registers { a: byte, ..r },
        RegCode::F => Registers { f: byte, ..r },
        RegCode::B => Registers { b: byte, ..r },
        RegCode::C => Registers { c: byte, ..r },
        RegCode::D => Registers { d: byte, ..r },
        RegCode::E => Registers { e: byte, ..r },
        RegCode::H => Registers { h: byte, ..r },
        RegCode::L => Registers { l: byte, ..r },
        _ => r,
    }
}

/// The packed value of a 16-bit view: `(high << 8) | low`.
pub open spec fn spec_get16(r: Registers, code: RegCode) -> u16 {
    match code {
        RegCode::AF => (r.a as u16 * 256 + r.f as u16) as u16,
        RegCode::BC => (r.b as u16 * 256 + r.c as u16) as u16,
        RegCode::DE => (r.d as u16 * 256 + r.e as u16) as u16,
        RegCode::HL => (r.h as u16 * 256 + r.l as u16) as u16,
        RegCode::SP => r.sp,
        RegCode::PC => r.pc,
        _ => 0,
    }
}

/// The register file after a split write of a 16-bit view: the first byte
/// lands in the high half, the second in the low half.
pub open spec fn spec_set16(r: Registers, code: RegCode, left: u8, right: u8) -> Registers {
    match code {
        RegCode::AF => Registers { a: left, f: right, ..r },
        RegCode::BC => Registers { b: left, c: right, ..r },
        RegCode::DE => Registers { d: left, e: right, ..r },
        RegCode::HL => Registers { h: left, l: right, ..r },
        RegCode::SP => Registers { sp: (left as u16 * 256 + right as u16) as u16, ..r },
        _ => r,
    }
}

/// 16-bit increment, wrapping modulo 2^16.
pub open spec fn wrap16_inc(w: u16) -> u16 {
    if w == 0xFFFF { 0 } else { (w + 1) as u16 }
}

/// 16-bit decrement, wrapping modulo 2^16.
pub open spec fn wrap16_dec(w: u16) -> u16 {
    if w == 0 { 0xFFFF } else { (w - 1) as u16 }
}

/// 8-bit increment, wrapping modulo 2^8.
pub open spec fn wrap8_inc(v: u8) -> u8 {
    if v == 0xFF { 0 } else { (v + 1) as u8 }
}

/// 8-bit decrement, wrapping modulo 2^8.
pub open spec fn wrap8_dec(v: u8) -> u8 {
    if v == 0 { 0xFF } else { (v - 1) as u8 }
}

/// The register file after a wrapping 16-bit increment of HL; no flags.
pub open spec fn spec_inc_hl(r: Registers) -> Registers {
    Registers {
        h: (wrap16_inc(spec_get16(r, RegCode::HL)) as int / 256) as u8,
        l: (wrap16_inc(spec_get16(r, RegCode::HL)) as int % 256) as u8,
        ..r
    }
}

/// The register file after a wrapping 16-bit decrement of HL; no flags.
pub open spec fn spec_dec_hl(r: Registers) -> Registers {
    Registers {
        h: (wrap16_dec(spec_get16(r, RegCode::HL)) as int / 256) as u8,
        l: (wrap16_dec(spec_get16(r, RegCode::HL)) as int % 256) as u8,
        ..r
    }
}

/// The register file with the four flags replaced; every other cell kept.
pub open spec fn spec_with_flags(r: Registers, z: bool, n: bool, h: bool, c: bool) -> Registers {
    Registers { f: mk_flags(z, n, h, c), ..r }
}

/// The register file after an 8-bit increment of a cell: the cell wraps,
/// Z and H follow the result, N is cleared, and Carry is untouched.
pub open spec fn spec_inc8(r: Registers, code: RegCode) -> Registers {
    let nv = wrap8_inc(spec_get8(r, code));
    let r1 = spec_with_flags(r, nv == 0, false, nv as int % 16 == 0, flag_on(r.f, Flag::CarryFlag));
    spec_set8(r1, code, nv)
}

/// The register file after an 8-bit decrement of a cell: the cell wraps,
/// Z follows the result, N is set, H holds when the low nibble wrapped,
/// and Carry is untouched.
pub open spec fn spec_dec8(r: Registers, code: RegCode) -> Registers {
    let nv = wrap8_dec(spec_get8(r, code));
    let r1 = spec_with_flags(
        r,
        nv == 0,
        true,
        nv as int % 16 == 0x0F,
        flag_on(r.f, Flag::CarryFlag),
    );
    spec_set8(r1, code, nv)
}

impl Registers {
    /// The architecture's post-boot register constants; PC starts at zero
    /// and is moved to 0x0100 by the cartridge loader when no boot image
    /// is in use.
    pub open spec fn spec_boot() -> Registers {
        Registers {
            a: 0x11,
            f: 0x80,
            b: 0x00,
            c: 0x00,
            d: 0xFF,
            e: 0x56,
            h: 0x00,
            l: 0x7C,
            sp: 0xFFFE,
            pc: 0x0000,
        }
    }

    /// The post-boot register state used when no boot image is loaded.
    pub fn new() -> (r: Self)
        ensures
            r == Registers::spec_boot(),
    {
        Registers {
            a: 0x11,
            f: 0x80,
            b: 0x00,
            c: 0x00,
            d: 0xFF,
            e: 0x56,
            h: 0x00,
            l: 0x7C,
            sp: 0xFFFE,
            pc: 0x0000,
        }
    }

    /// The six 16-bit views rendered as `NAME 0xVVVV` lines, for the
    /// debugger's register dump.
    pub fn print_registers(&self) -> (r: Vec<String>)
        ensures
            r@.len() == 6,
            r@[0]@ == "AF "@ + hex_word_seq(spec_get16(*self, RegCode::AF)),
            r@[1]@ == "BC "@ + hex_word_seq(spec_get16(*self, RegCode::BC)),
            r@[2]@ == "DE "@ + hex_word_seq(spec_get16(*self, RegCode::DE)),
            r@[3]@ == "HL "@ + hex_word_seq(spec_get16(*self, RegCode::HL)),
            r@[4]@ == "SP "@ + hex_word_seq(self.sp),
            r@[5]@ == "PC "@ + hex_word_seq(self.pc),
    {
        let mut out: Vec<String> = Vec::new();
        let mut line: String = String::from_str("AF ");
        line.append(hex_word(Registers::_8bit_to_16bit(self.a, self.f)).as_str());
        out.push(line);
        let mut line: String = String::from_str("BC ");
        line.append(hex_word(Registers::_8bit_to_16bit(self.b, self.c)).as_str());
        out.push(line);
        let mut line: String = String::from_str("DE ");
        line.append(hex_word(Registers::_8bit_to_16bit(self.d, self.e)).as_str());
        out.push(line);
        let mut line: String = String::from_str("HL ");
        line.append(hex_word(Registers::_8bit_to_16bit(self.h, self.l)).as_str());
        out.push(line);
        let mut line: String = String::from_str("SP ");
        line.append(hex_word(self.sp).as_str());
        out.push(line);
        let mut line: String = String::from_str("PC ");
        line.append(hex_word(self.pc).as_str());
        out.push(line);
        out
    }

    /// `(left << 8) | right`, the packing every pair view uses.
    pub fn _8bit_to_16bit(left: u8, right: u8) -> (r: u16)
        ensures
            r == left as int * 256 + right as int,
    {
        (left as u16) * 256 + (right as u16)
    }

    fn get_mask(&self, flag: Flag) -> (r: u8)
        ensures
            r == flag_mask(flag),
    {
        match flag {
            Flag::AddSubBCD => 0x40,
            Flag::CarryFlag => 0x10,
            Flag::HalfCarryFlagBCD => 0x20,
            Flag::Zero => 0x80,
        }
    }

    /// Whether a flag is currently set in F.
    pub fn check_flag(&self, flag: Flag) -> (r: bool)
        ensures
            r == flag_on(self.f, flag),
    {
        let mask: u8 = self.get_mask(flag);
        self.f & mask == mask
    }

    /// Replace all four flags at once; the low nibble of F becomes zero.
    pub(crate) fn set_flags(&mut self, z: bool, n: bool, h: bool, c: bool)
        ensures
            *final(self) == spec_with_flags(*old(self), z, n, h, c),
            final(self).f as int % 16 == 0,
    {
        proof {
            lemma_mk_flags(z, n, h, c);
        }
        self.f = (if z { 0x80u8 } else { 0u8 }) | (if n { 0x40u8 } else { 0u8 })
            | (if h { 0x20u8 } else { 0u8 }) | (if c { 0x10u8 } else { 0u8 });
    }

    /// Set or clear one flag; the other three keep their value and the low
    /// nibble of F becomes zero.
    pub fn set_flag(&mut self, flag: Flag, set: bool)
        ensures
            *final(self) == (Registers { f: spec_set_flag(old(self).f, flag, set), ..*old(self) }),
            final(self).f as int % 16 == 0,
    {
        let z: bool = if flag == Flag::Zero { set } else { self.check_flag(Flag::Zero) };
        let n: bool = if flag == Flag::AddSubBCD { set } else { self.check_flag(Flag::AddSubBCD) };
        let h: bool = if flag == Flag::HalfCarryFlagBCD {
            set
        } else {
            self.check_flag(Flag::HalfCarryFlagBCD)
        };
        let c: bool = if flag == Flag::CarryFlag { set } else { self.check_flag(Flag::CarryFlag) };
        self.set_flags(z, n, h, c);
    }

    /// Read a byte-wide cell; a pair code is rejected.
    pub fn get_8bit(&self, code: RegCode) -> (r: Result<u8, GbError>)
        ensures
            is_reg8(code) ==> r == Ok::<u8, GbError>(spec_get8(*self, code)),
            !is_reg8(code) ==> r == Err::<u8, GbError>(GbError::InvalidRegisterWidth),
    {
        match code {
            RegCode::A => Ok(self.a),
            RegCode::F => Ok(self.f),
            RegCode::B => Ok(self.b),
            RegCode::C => Ok(self.c),
            RegCode::D => Ok(self.d),
            RegCode::E => Ok(self.e),
            RegCode::H => Ok(self.h),
            RegCode::L => Ok(self.l),
            _ => Err(GbError::InvalidRegisterWidth),
        }
    }

    /// Write a byte-wide cell; a pair code is rejected.
    pub fn set_8bit(&mut self, code: RegCode, byte: u8) -> (r: Result<(), GbError>)
        ensures
            is_reg8(code) ==> r == Ok::<(), GbError>(())
                && *final(self) == spec_set8(*old(self), code, byte),
            !is_reg8(code) ==> r == Err::<(), GbError>(GbError::InvalidRegisterWidth)
                && *final(self) == *old(self),
    {
        match code {
            RegCode::A => {
                self.a = byte;
                Ok(())
            },
            RegCode::F => {
                self.f = byte;
                Ok(())
            },
            RegCode::B => {
                self.b = byte;
                Ok(())
            },
            RegCode::C => {
                self.c = byte;
                Ok(())
            },
            RegCode::D => {
                self.d = byte;
                Ok(())
            },
            RegCode::E => {
                self.e = byte;
                Ok(())
            },
            RegCode::H => {
                self.h = byte;
                Ok(())
            },
            RegCode::L => {
                self.l = byte;
                Ok(())
            },
            _ => Err(GbError::InvalidRegisterWidth),
        }
    }

    /// Read a 16-bit view: a pair packs as `(high << 8) | low`; SP and PC
    /// read natively; a byte-wide code is rejected.
    pub fn get_16bit(&self, code: RegCode) -> (r: Result<u16, GbError>)
        ensures
            is_reg16_readable(code) ==> r == Ok::<u16, GbError>(spec_get16(*self, code)),
            !is_reg16_readable(code) ==> r == Err::<u16, GbError>(GbError::InvalidRegisterWidth),
    {
        match code {
            RegCode::AF => Ok(Registers::_8bit_to_16bit(self.a, self.f)),
            RegCode::BC => Ok(Registers::_8bit_to_16bit(self.b, self.c)),
            RegCode::DE => Ok(Registers::_8bit_to_16bit(self.d, self.e)),
            RegCode::HL => Ok(Registers::_8bit_to_16bit(self.h, self.l)),
            RegCode::SP => Ok(self.sp),
            RegCode::PC => Ok(self.pc),
            _ => Err(GbError::InvalidRegisterWidth),
        }
    }

    /// Split write of a 16-bit view: `left_byte` lands in the high half and
    /// `right_byte` in the low half; a byte-wide code or PC is rejected.
    pub fn set_16bit(&mut self, code: RegCode, left_byte: u8, right_byte: u8) -> (r: Result<
        (),
        GbError,
    >)
        ensures
            is_reg16_writable(code) ==> r == Ok::<(), GbError>(())
                && *final(self) == spec_set16(*old(self), code, left_byte, right_byte),
            !is_reg16_writable(code) ==> r == Err::<(), GbError>(GbError::InvalidRegisterWidth)
                && *final(self) == *old(self),
    {
        match code {
            RegCode::AF => {
                self.a = left_byte;
                self.f = right_byte;
                Ok(())
            },
            RegCode::BC => {
                self.b = left_byte;
                self.c = right_byte;
                Ok(())
            },
            RegCode::DE => {
                self.d = left_byte;
                self.e = right_byte;
                Ok(())
            },
            RegCode::HL => {
                self.h = left_byte;
                self.l = right_byte;
                Ok(())
            },
            RegCode::SP => {
                self.sp = Registers::_8bit_to_16bit(left_byte, right_byte);
                Ok(())
            },
            _ => Err(GbError::InvalidRegisterWidth),
        }
    }

    /// Point PC somewhere else.
    pub fn set_pc(&mut self, pointer: u16)
        ensures
            *final(self) == (Registers { pc: pointer, ..*old(self) }),
    {
        self.pc = pointer;
    }

    /// Advance PC by one, wrapping modulo 2^16.
    pub fn inc_pc(&mut self)
        ensures
            *final(self) == (Registers { pc: wrap16_inc(old(self).pc), ..*old(self) }),
    {
        self.pc = if self.pc == 0xFFFF { 0 } else { self.pc + 1 };
    }

    /// Wrapping 16-bit increment of the HL pair; no flag side effects.
    pub fn inc_hl(&mut self)
        ensures
            *final(self) == spec_inc_hl(*old(self)),
    {
        let hl: u16 = Registers::_8bit_to_16bit(self.h, self.l);
        let nhl: u16 = if hl == 0xFFFF { 0 } else { hl + 1 };
        self.h = (nhl / 256) as u8;
        self.l = (nhl % 256) as u8;
    }

    /// Wrapping 16-bit decrement of the HL pair; no flag side effects.
    pub fn dec_hl(&mut self)
        ensures
            *final(self) == spec_dec_hl(*old(self)),
    {
        let hl: u16 = Registers::_8bit_to_16bit(self.h, self.l);
        let nhl: u16 = if hl == 0 { 0xFFFF } else { hl - 1 };
        self.h = (nhl / 256) as u8;
        self.l = (nhl % 256) as u8;
    }

    /// 8-bit increment of a cell with the flag bookkeeping of `spec_inc8`.
    pub fn inc_8bit(&mut self, code: RegCode) -> (r: Result<(), GbError>)
        ensures
            is_reg8(code) ==> r == Ok::<(), GbError>(())
                && *final(self) == spec_inc8(*old(self), code),
            !is_reg8(code) ==> r == Err::<(), GbError>(GbError::InvalidRegisterWidth)
                && *final(self) == *old(self),
    {
        let v: u8 = match self.get_8bit(code) {
            Ok(v) => v,
            Err(e) => {
                return Err(e);
            },
        };
        let nv: u8 = if v == 0xFF { 0 } else { v + 1 };
        let carry: bool = self.check_flag(Flag::CarryFlag);
        self.set_flags(nv == 0, false, nv % 16 == 0, carry);
        self.set_8bit(code, nv)
    }

    /// 8-bit decrement of a cell with the flag bookkeeping of `spec_dec8`.
    pub fn dec_8bit(&mut self, code: RegCode) -> (r: Result<(), GbError>)
        ensures
            is_reg8(code) ==> r == Ok::<(), GbError>(())
                && *final(self) == spec_dec8(*old(self), code),
            !is_reg8(code) ==> r == Err::<(), GbError>(GbError::InvalidRegisterWidth)
                && *final(self) == *old(self),
    {
        let v: u8 = match self.get_8bit(code) {
            Ok(v) => v,
            Err(e) => {
                return Err(e);
            },
        };
        let nv: u8 = if v == 0 { 0xFF } else { v - 1 };
        let carry: bool = self.check_flag(Flag::CarryFlag);
        self.set_flags(nv == 0, true, nv % 16 == 0x0F, carry);
        self.set_8bit(code, nv)
    }
}

} // verus!
