//! The small-step semantics of the CPU as mathematical functions over the
//! register file and the memory image. `spec_tick` is the single source of
//! truth for what one fetch-decode-execute cycle does; the executable
//! decoder is proved to match it arm by arm.

use vstd::prelude::*;

use crate::err::GbError;
use crate::events::LogMessage;
use crate::mmu::{MEM_SIZE, fetch_event, save_event};
use crate::reg::{
    Flag, RegCode, Registers, flag_on, spec_dec8, spec_dec_hl, spec_get16, spec_get8, spec_inc8,
    spec_inc_hl, spec_set16, spec_set8, spec_with_flags, wrap16_dec, wrap16_inc, wrap8_dec,
    wrap8_inc,
};

verus! {

/// A memory image covering the whole address space.
pub open spec fn mem_ok(m: Seq<u8>) -> bool {
    m.len() == MEM_SIZE
}

/// `(hi << 8) | lo`.
pub open spec fn word(hi: u8, lo: u8) -> u16 {
    (hi as int * 256 + lo as int) as u16
}

/// The high byte of a 16-bit word.
pub open spec fn hi_byte(w: u16) -> u8 {
    (w as int / 256) as u8
}

/// The low byte of a 16-bit word.
pub open spec fn lo_byte(w: u16) -> u8 {
    (w as int % 256) as u8
}

/// A displacement byte read as a signed two's-complement value.
pub open spec fn sign_ext(d: u8) -> int {
    if d < 0x80 {
        d as int
    } else {
        d as int - 256
    }
}

/// PC after a relative jump: the signed displacement added modulo 2^16.
pub open spec fn jr_target(pc: u16, d: u8) -> u16 {
    let t = pc as int + sign_ext(d);
    if t < 0 {
        (t + 0x10000) as u16
    } else if t >= 0x10000 {
        (t - 0x10000) as u16
    } else {
        t as u16
    }
}

/// The high-page address `0xFF00 + delta` that LDH addresses.
pub open spec fn high_page(delta: u8) -> u16 {
    (0xFF00 + delta as int) as u16
}

/// Read the byte at `addr`; addresses at or past 0xFFFF are a bus error.
pub open spec fn sem_fetch(m: Seq<u8>, addr: u16) -> Result<u8, GbError> {
    if addr < MEM_SIZE {
        Ok(m[addr as int])
    } else {
        Err(GbError::BusError)
    }
}

/// Write the byte at `addr`; addresses at or past 0xFFFF are a bus error.
pub open spec fn sem_save(m: Seq<u8>, addr: u16, byte: u8) -> Result<Seq<u8>, GbError> {
    if addr < MEM_SIZE {
        Ok(m.update(addr as int, byte))
    } else {
        Err(GbError::BusError)
    }
}

/// Consume one program byte: the byte at PC, with PC advanced (wrapping).
pub open spec fn sem_read1(r: Registers, m: Seq<u8>) -> Result<(u8, Registers), GbError> {
    match sem_fetch(m, r.pc) {
        Ok(b) => Ok((b, Registers { pc: wrap16_inc(r.pc), ..r })),
        Err(e) => Err(e),
    }
}

/// Consume two program bytes, low first: `((lo, hi), advanced registers)`.
pub open spec fn sem_read2(r: Registers, m: Seq<u8>) -> Result<((u8, u8), Registers), GbError> {
    match sem_read1(r, m) {
        Ok((lo, r1)) => match sem_read1(r1, m) {
            Ok((hi, r2)) => Ok(((lo, hi), r2)),
            Err(e) => Err(e),
        },
        Err(e) => Err(e),
    }
}

/// `LD reg, imm8`.
pub open spec fn sem_ld_r_imm8(r: Registers, m: Seq<u8>, code: RegCode) -> Result<
    (Registers, Seq<u8>),
    GbError,
> {
    match sem_read1(r, m) {
        Ok((v, r1)) => Ok((spec_set8(r1, code, v), m)),
        Err(e) => Err(e),
    }
}

/// `LD pair, imm16`: little-endian, the first fetched byte is the low byte.
pub open spec fn sem_ld_rr_imm16(r: Registers, m: Seq<u8>, code: RegCode) -> Result<
    (Registers, Seq<u8>),
    GbError,
> {
    match sem_read2(r, m) {
        Ok(((lo, hi), r1)) => Ok((spec_set16(r1, code, hi, lo), m)),
        Err(e) => Err(e),
    }
}

/// `LD (addr), v`: a plain store.
pub open spec fn sem_st(r: Registers, m: Seq<u8>, addr: u16, v: u8) -> Result<
    (Registers, Seq<u8>),
    GbError,
> {
    match sem_save(m, addr, v) {
        Ok(m1) => Ok((r, m1)),
        Err(e) => Err(e),
    }
}

/// `LD reg, (addr)`: a plain load into a byte-wide cell.
pub open spec fn sem_ld_r_from(r: Registers, m: Seq<u8>, code: RegCode, addr: u16) -> Result<
    (Registers, Seq<u8>),
    GbError,
> {
    match sem_fetch(m, addr) {
        Ok(v) => Ok((spec_set8(r, code, v), m)),
        Err(e) => Err(e),
    }
}

/// `LD (HL), imm8`.
pub open spec fn sem_ld_mem_imm8(r: Registers, m: Seq<u8>, addr: u16) -> Result<
    (Registers, Seq<u8>),
    GbError,
> {
    match sem_read1(r, m) {
        Ok((v, r1)) => sem_st(r1, m, addr, v),
        Err(e) => Err(e),
    }
}

/// `LDI (HL), v`: store, then wrapping increment of HL.
pub open spec fn sem_ldi_st(r: Registers, m: Seq<u8>, addr: u16, v: u8) -> Result<
    (Registers, Seq<u8>),
    GbError,
> {
    match sem_st(r, m, addr, v) {
        Ok((r1, m1)) => Ok((spec_inc_hl(r1), m1)),
        Err(e) => Err(e),
    }
}

/// `LDD (HL), v`: store, then wrapping decrement of HL.
pub open spec fn sem_ldd_st(r: Registers, m: Seq<u8>, addr: u16, v: u8) -> Result<
    (Registers, Seq<u8>),
    GbError,
> {
    match sem_st(r, m, addr, v) {
        Ok((r1, m1)) => Ok((spec_dec_hl(r1), m1)),
        Err(e) => Err(e),
    }
}

/// `LDI reg, (addr)`: load, then wrapping increment of HL.
pub open spec fn sem_ldi_r_from(r: Registers, m: Seq<u8>, code: RegCode, addr: u16) -> Result<
    (Registers, Seq<u8>),
    GbError,
> {
    match sem_ld_r_from(r, m, code, addr) {
        Ok((r1, m1)) => Ok((spec_inc_hl(r1), m1)),
        Err(e) => Err(e),
    }
}

/// `LDD reg, (addr)`: load, then wrapping decrement of HL.
pub open spec fn sem_ldd_r_from(r: Registers, m: Seq<u8>, code: RegCode, addr: u16) -> Result<
    (Registers, Seq<u8>),
    GbError,
> {
    match sem_ld_r_from(r, m, code, addr) {
        Ok((r1, m1)) => Ok((spec_dec_hl(r1), m1)),
        Err(e) => Err(e),
    }
}

/// `LDH (a8), A`: consume the offset, store A into the high page.
pub open spec fn sem_ldh_a8_a(r: Registers, m: Seq<u8>) -> Result<(Registers, Seq<u8>), GbError> {
    match sem_read1(r, m) {
        Ok((d, r1)) => sem_st(r1, m, high_page(d), r1.a),
        Err(e) => Err(e),
    }
}

/// `LDH A, (a8)`: consume the offset, load A from the high page.
pub open spec fn sem_ldh_a_d8(r: Registers, m: Seq<u8>) -> Result<(Registers, Seq<u8>), GbError> {
    match sem_read1(r, m) {
        Ok((d, r1)) => sem_ld_r_from(r1, m, RegCode::A, high_page(d)),
        Err(e) => Err(e),
    }
}

/// `CP imm8`: consume the operand and set the compare flags.
pub open spec fn sem_cp_imm8(r: Registers, m: Seq<u8>) -> Result<(Registers, Seq<u8>), GbError> {
    match sem_read1(r, m) {
        Ok((d, r1)) => Ok((sem_cp(r1, d), m)),
        Err(e) => Err(e),
    }
}

/// `INC (addr)`: fetch, wrapping increment, store; Z and H from the
/// result, N cleared, Carry untouched.
pub open spec fn sem_inc_mem(r: Registers, m: Seq<u8>, addr: u16) -> Result<
    (Registers, Seq<u8>),
    GbError,
> {
    match sem_fetch(m, addr) {
        Ok(v) => {
            let nv = wrap8_inc(v);
            let r1 = spec_with_flags(
                r,
                nv == 0,
                false,
                nv as int % 16 == 0,
                flag_on(r.f, Flag::CarryFlag),
            );
            sem_st(r1, m, addr, nv)
        },
        Err(e) => Err(e),
    }
}

/// `DEC (addr)`: fetch, wrapping decrement, store; Z from the result, N
/// set, H when the low nibble wrapped, Carry untouched.
pub open spec fn sem_dec_mem(r: Registers, m: Seq<u8>, addr: u16) -> Result<
    (Registers, Seq<u8>),
    GbError,
> {
    match sem_fetch(m, addr) {
        Ok(v) => {
            let nv = wrap8_dec(v);
            let r1 = spec_with_flags(
                r,
                nv == 0,
                true,
                nv as int % 16 == 0x0F,
                flag_on(r.f, Flag::CarryFlag),
            );
            sem_st(r1, m, addr, nv)
        },
        Err(e) => Err(e),
    }
}

/// `XOR A, v`: A becomes `A ^ v`; Z follows the result; N, H, C cleared.
pub open spec fn sem_xor(r: Registers, v: u8) -> Registers {
    let nv = r.a ^ v;
    let r1 = spec_with_flags(r, nv == 0, false, false, false);
    Registers { a: nv, ..r1 }
}

/// `CP v`: flags of `A - v` without storing the result.
pub open spec fn sem_cp(r: Registers, v: u8) -> Registers {
    spec_with_flags(r, r.a == v, true, (r.a as int % 16) < (v as int % 16), v > r.a)
}

/// The byte rotated left once, bit 7 wrapping into bit 0.
pub open spec fn rlc_val(v: u8) -> u8 {
    (v << 1) | (v >> 7)
}

/// The byte shifted left once with the old carry entering bit 0.
pub open spec fn rl_val(v: u8, carry: bool) -> u8 {
    (v << 1) | (if carry { 1u8 } else { 0u8 })
}

/// `RLC reg`: rotate left; carry from old bit 7; N and H cleared; Z from
/// the result for the CB-prefixed form and cleared for the fast form.
pub open spec fn sem_rlc_reg(r: Registers, code: RegCode, z_from_result: bool) -> Registers {
    let v = spec_get8(r, code);
    let nv = rlc_val(v);
    let r1 = spec_with_flags(r, z_from_result && nv == 0, false, false, v >= 0x80);
    spec_set8(r1, code, nv)
}

/// `RL reg`: shift left through carry; same flag regime as `sem_rlc_reg`.
pub open spec fn sem_rl_reg(r: Registers, code: RegCode, z_from_result: bool) -> Registers {
    let v = spec_get8(r, code);
    let nv = rl_val(v, flag_on(r.f, Flag::CarryFlag));
    let r1 = spec_with_flags(r, z_from_result && nv == 0, false, false, v >= 0x80);
    spec_set8(r1, code, nv)
}

/// The mask selecting bit `n`.
pub open spec fn bit_mask(n: u8) -> u8 {
    1u8 << n
}

/// `BIT n`: Z set iff bit `n` of `v` is clear; N cleared; H set; C kept.
pub open spec fn sem_bit_test(r: Registers, v: u8, n: u8) -> Registers {
    spec_with_flags(r, v & bit_mask(n) == 0, false, true, flag_on(r.f, Flag::CarryFlag))
}

/// `JP cc, target`: PC moves only when the condition held.
pub open spec fn sem_jp(r: Registers, cond: bool, target: u16) -> Registers {
    if cond {
        Registers { pc: target, ..r }
    } else {
        r
    }
}

/// `JR cc, d`: PC moves by the signed displacement when the condition held.
pub open spec fn sem_jr(r: Registers, cond: bool, d: u8) -> Registers {
    if cond {
        Registers { pc: jr_target(r.pc, d), ..r }
    } else {
        r
    }
}

/// `JP cc, imm16` including its operand fetch; the operand is consumed
/// whether or not the jump is taken.
pub open spec fn sem_jp_imm(r: Registers, m: Seq<u8>, cond: bool) -> Result<
    (Registers, Seq<u8>),
    GbError,
> {
    match sem_read2(r, m) {
        Ok(((lo, hi), r1)) => Ok((sem_jp(r1, cond, word(hi, lo)), m)),
        Err(e) => Err(e),
    }
}

/// `JR cc, d8` including its operand fetch; the displacement applies to PC
/// after the operand was consumed.
pub open spec fn sem_jr_imm(r: Registers, m: Seq<u8>, cond: bool) -> Result<
    (Registers, Seq<u8>),
    GbError,
> {
    match sem_read1(r, m) {
        Ok((d, r1)) => Ok((sem_jr(r1, cond, d), m)),
        Err(e) => Err(e),
    }
}

/// `PUSH pair`: SP drops by two, the high byte lands at SP+1 and the low
/// byte at SP.
pub open spec fn sem_push(r: Registers, m: Seq<u8>, code: RegCode) -> Result<
    (Registers, Seq<u8>),
    GbError,
> {
    let v = spec_get16(r, code);
    let sp1 = wrap16_dec(wrap16_dec(r.sp));
    match sem_save(m, wrap16_inc(sp1), hi_byte(v)) {
        Ok(m1) => match sem_save(m1, sp1, lo_byte(v)) {
            Ok(m2) => Ok((Registers { sp: sp1, ..r }, m2)),
            Err(e) => Err(e),
        },
        Err(e) => Err(e),
    }
}

/// `POP pair`: low byte from SP, high byte from SP+1, SP rises by two.
/// When the target is AF the low nibble of F is forced to zero.
pub open spec fn sem_pop(r: Registers, m: Seq<u8>, code: RegCode) -> Result<
    (Registers, Seq<u8>),
    GbError,
> {
    match sem_fetch(m, r.sp) {
        Ok(lo) => match sem_fetch(m, wrap16_inc(r.sp)) {
            Ok(hi) => {
                let lo2 = if code == RegCode::AF {
                    lo & 0xF0
                } else {
                    lo
                };
                let r1 = spec_set16(r, code, hi, lo2);
                Ok((Registers { sp: wrap16_inc(wrap16_inc(r.sp)), ..r1 }, m))
            },
            Err(e) => Err(e),
        },
        Err(e) => Err(e),
    }
}

/// `CALL cc, target` after its operand fetch: when the condition held, the
/// return address (PC past the operands) is pushed and PC jumps.
pub open spec fn sem_call(r: Registers, m: Seq<u8>, cond: bool, target: u16) -> Result<
    (Registers, Seq<u8>),
    GbError,
> {
    if cond {
        let sp1 = wrap16_dec(wrap16_dec(r.sp));
        match sem_save(m, wrap16_inc(sp1), hi_byte(r.pc)) {
            Ok(m1) => match sem_save(m1, sp1, lo_byte(r.pc)) {
                Ok(m2) => Ok((Registers { pc: target, sp: sp1, ..r }, m2)),
                Err(e) => Err(e),
            },
            Err(e) => Err(e),
        }
    } else {
        Ok((r, m))
    }
}

/// `CALL cc, imm16` including its operand fetch; the operand is consumed
/// whether or not the call is taken.
pub open spec fn sem_call_imm(r: Registers, m: Seq<u8>, cond: bool) -> Result<
    (Registers, Seq<u8>),
    GbError,
> {
    match sem_read2(r, m) {
        Ok(((lo, hi), r1)) => sem_call(r1, m, cond, word(hi, lo)),
        Err(e) => Err(e),
    }
}

/// `RET`: PC restored from the stack, low byte at SP, high at SP+1; SP
/// rises by two.
pub open spec fn sem_ret(r: Registers, m: Seq<u8>) -> Result<(Registers, Seq<u8>), GbError> {
    match sem_fetch(m, r.sp) {
        Ok(lo) => match sem_fetch(m, wrap16_inc(r.sp)) {
            Ok(hi) => Ok(
                (Registers { pc: word(hi, lo), sp: wrap16_inc(wrap16_inc(r.sp)), ..r }, m),
            ),
            Err(e) => Err(e),
        },
        Err(e) => Err(e),
    }
}

/// An opcode outside the implemented map: a decode error in strict mode, a
/// silent no-op in permissive mode.
pub open spec fn sem_unknown(r: Registers, m: Seq<u8>, strict: bool) -> Result<
    (Registers, Seq<u8>),
    GbError,
> {
    if strict {
        Err(GbError::UnknownOpcode)
    } else {
        Ok((r, m))
    }
}

/// The byte-wide cell the three low opcode bits name inside the register
/// grids; index 6 stands for `(HL)` and is never passed here.
pub open spec fn reg8_of_idx(i: int) -> RegCode {
    if i == 0 {
        RegCode::B
    } else if i == 1 {
        RegCode::C
    } else if i == 2 {
        RegCode::D
    } else if i == 3 {
        RegCode::E
    } else if i == 4 {
        RegCode::H
    } else if i == 5 {
        RegCode::L
    } else {
        RegCode::A
    }
}

/// The `LD r, r'` grid covering 0x40–0x7F, with `(HL)` on row and column
/// six and HALT at 0x76 treated as a no-op at this scope.
pub open spec fn sem_ld_grid(op: u8, r: Registers, m: Seq<u8>) -> Result<
    (Registers, Seq<u8>),
    GbError,
> {
    let d = (op as int / 8) % 8;
    let s = op as int % 8;
    if op == 0x76 {
        Ok((r, m))
    } else if d == 6 {
        sem_st(r, m, spec_get16(r, RegCode::HL), spec_get8(r, reg8_of_idx(s)))
    } else if s == 6 {
        sem_ld_r_from(r, m, reg8_of_idx(d), spec_get16(r, RegCode::HL))
    } else {
        Ok((spec_set8(r, reg8_of_idx(d), spec_get8(r, reg8_of_idx(s))), m))
    }
}

/// The `XOR r` row covering 0xA8–0xAF, with `(HL)` at 0xAE.
pub open spec fn sem_xor_row(op: u8, r: Registers, m: Seq<u8>) -> Result<
    (Registers, Seq<u8>),
    GbError,
> {
    let s = op as int % 8;
    if s == 6 {
        match sem_fetch(m, spec_get16(r, RegCode::HL)) {
            Ok(v) => Ok((sem_xor(r, v), m)),
            Err(e) => Err(e),
        }
    } else {
        Ok((sem_xor(r, spec_get8(r, reg8_of_idx(s))), m))
    }
}

/// The `CP r` row covering 0xB8–0xBF, with `(HL)` at 0xBE.
pub open spec fn sem_cp_row(op: u8, r: Registers, m: Seq<u8>) -> Result<
    (Registers, Seq<u8>),
    GbError,
> {
    let s = op as int % 8;
    if s == 6 {
        match sem_fetch(m, spec_get16(r, RegCode::HL)) {
            Ok(v) => Ok((sem_cp(r, v), m)),
            Err(e) => Err(e),
        }
    } else {
        Ok((sem_cp(r, spec_get8(r, reg8_of_idx(s))), m))
    }
}

/// Read the CB-grid target `t`: a register, or the byte behind HL for
/// target six.
pub open spec fn sem_cb_read(r: Registers, m: Seq<u8>, t: int) -> Result<u8, GbError> {
    if t == 6 {
        sem_fetch(m, spec_get16(r, RegCode::HL))
    } else {
        Ok(spec_get8(r, reg8_of_idx(t)))
    }
}

/// Write the CB-grid target `t`: a register, or the byte behind HL for
/// target six.
pub open spec fn sem_cb_write(r: Registers, m: Seq<u8>, t: int, v: u8) -> Result<
    (Registers, Seq<u8>),
    GbError,
> {
    if t == 6 {
        sem_st(r, m, spec_get16(r, RegCode::HL), v)
    } else {
        Ok((spec_set8(r, reg8_of_idx(t), v), m))
    }
}

/// One CB-prefixed operation, already past the prefix byte: rotates in the
/// low block, `BIT` in 0x40–0x7F, `RES` in 0x80–0xBF, `SET` in 0xC0–0xFF.
pub open spec fn sem_cb_op(sub: u8, r: Registers, m: Seq<u8>, strict: bool) -> Result<
    (Registers, Seq<u8>),
    GbError,
> {
    let blk = sub as int / 64;
    let n = (sub as int / 8) % 8;
    let t = sub as int % 8;
    if blk == 0 {
        if n == 0 {
            match sem_cb_read(r, m, t) {
                Ok(v) => {
                    let nv = rlc_val(v);
                    let r1 = spec_with_flags(r, nv == 0, false, false, v >= 0x80);
                    sem_cb_write(r1, m, t, nv)
                },
                Err(e) => Err(e),
            }
        } else if n == 2 {
            match sem_cb_read(r, m, t) {
                Ok(v) => {
                    let nv = rl_val(v, flag_on(r.f, Flag::CarryFlag));
                    let r1 = spec_with_flags(r, nv == 0, false, false, v >= 0x80);
                    sem_cb_write(r1, m, t, nv)
                },
                Err(e) => Err(e),
            }
        } else {
            sem_unknown(r, m, strict)
        }
    } else if blk == 1 {
        match sem_cb_read(r, m, t) {
            Ok(v) => Ok((sem_bit_test(r, v, n as u8), m)),
            Err(e) => Err(e),
        }
    } else if blk == 2 {
        match sem_cb_read(r, m, t) {
            Ok(v) => sem_cb_write(r, m, t, v & !bit_mask(n as u8)),
            Err(e) => Err(e),
        }
    } else {
        match sem_cb_read(r, m, t) {
            Ok(v) => sem_cb_write(r, m, t, v | bit_mask(n as u8)),
            Err(e) => Err(e),
        }
    }
}

/// The CB prefix: consume the second opcode byte and run its operation.
pub open spec fn sem_cb(r: Registers, m: Seq<u8>, strict: bool) -> Result<
    (Registers, Seq<u8>),
    GbError,
> {
    match sem_read1(r, m) {
        Ok((sub, r1)) => sem_cb_op(sub, r1, m, strict),
        Err(e) => Err(e),
    }
}

/// Dispatch one already-fetched opcode byte: the primary table.
pub open spec fn spec_run_op(op: u8, r: Registers, m: Seq<u8>, strict: bool) -> Result<
    (Registers, Seq<u8>),
    GbError,
> {
    if 0x40 <= op && op < 0x80 {
        sem_ld_grid(op, r, m)
    } else if 0xA8 <= op && op <= 0xAF {
        sem_xor_row(op, r, m)
    } else if 0xB8 <= op && op <= 0xBF {
        sem_cp_row(op, r, m)
    } else if op == 0x00 {
        Ok((r, m))
    } else if op == 0x01 {
        sem_ld_rr_imm16(r, m, RegCode::BC)
    } else if op == 0x11 {
        sem_ld_rr_imm16(r, m, RegCode::DE)
    } else if op == 0x21 {
        sem_ld_rr_imm16(r, m, RegCode::HL)
    } else if op == 0x31 {
        sem_ld_rr_imm16(r, m, RegCode::SP)
    } else if op == 0x02 {
        sem_st(r, m, spec_get16(r, RegCode::BC), r.a)
    } else if op == 0x12 {
        sem_st(r, m, spec_get16(r, RegCode::DE), r.a)
    } else if op == 0x22 {
        sem_ldi_st(r, m, spec_get16(r, RegCode::HL), r.a)
    } else if op == 0x32 {
        sem_ldd_st(r, m, spec_get16(r, RegCode::HL), r.a)
    } else if op == 0x04 {
        Ok((spec_inc8(r, RegCode::B), m))
    } else if op == 0x14 {
        Ok((spec_inc8(r, RegCode::D), m))
    } else if op == 0x24 {
        Ok((spec_inc8(r, RegCode::H), m))
    } else if op == 0x34 {
        sem_inc_mem(r, m, spec_get16(r, RegCode::HL))
    } else if op == 0x05 {
        Ok((spec_dec8(r, RegCode::B), m))
    } else if op == 0x15 {
        Ok((spec_dec8(r, RegCode::D), m))
    } else if op == 0x25 {
        Ok((spec_dec8(r, RegCode::H), m))
    } else if op == 0x35 {
        sem_dec_mem(r, m, spec_get16(r, RegCode::HL))
    } else if op == 0x06 {
        sem_ld_r_imm8(r, m, RegCode::B)
    } else if op == 0x16 {
        sem_ld_r_imm8(r, m, RegCode::D)
    } else if op == 0x26 {
        sem_ld_r_imm8(r, m, RegCode::H)
    } else if op == 0x36 {
        sem_ld_mem_imm8(r, m, spec_get16(r, RegCode::HL))
    } else if op == 0x07 {
        Ok((sem_rlc_reg(r, RegCode::A, false), m))
    } else if op == 0x17 {
        Ok((sem_rl_reg(r, RegCode::A, false), m))
    } else if op == 0x0A {
        sem_ld_r_from(r, m, RegCode::A, spec_get16(r, RegCode::BC))
    } else if op == 0x1A {
        sem_ld_r_from(r, m, RegCode::A, spec_get16(r, RegCode::DE))
    } else if op == 0x2A {
        sem_ldi_r_from(r, m, RegCode::A, spec_get16(r, RegCode::HL))
    } else if op == 0x3A {
        sem_ldd_r_from(r, m, RegCode::A, spec_get16(r, RegCode::HL))
    } else if op == 0x0C {
        Ok((spec_inc8(r, RegCode::C), m))
    } else if op == 0x1C {
        Ok((spec_inc8(r, RegCode::E), m))
    } else if op == 0x2C {
        Ok((spec_inc8(r, RegCode::L), m))
    } else if op == 0x3C {
        Ok((spec_inc8(r, RegCode::A), m))
    } else if op == 0x0E {
        sem_ld_r_imm8(r, m, RegCode::C)
    } else if op == 0x1E {
        sem_ld_r_imm8(r, m, RegCode::E)
    } else if op == 0x2E {
        sem_ld_r_imm8(r, m, RegCode::L)
    } else if op == 0x3E {
        sem_ld_r_imm8(r, m, RegCode::A)
    } else if op == 0x18 {
        sem_jr_imm(r, m, true)
    } else if op == 0x20 {
        sem_jr_imm(r, m, !flag_on(r.f, Flag::Zero))
    } else if op == 0x28 {
        sem_jr_imm(r, m, flag_on(r.f, Flag::Zero))
    } else if op == 0x30 {
        sem_jr_imm(r, m, !flag_on(r.f, Flag::CarryFlag))
    } else if op == 0x38 {
        sem_jr_imm(r, m, flag_on(r.f, Flag::CarryFlag))
    } else if op == 0xC3 {
        sem_jp_imm(r, m, true)
    } else if op == 0xC2 {
        sem_jp_imm(r, m, !flag_on(r.f, Flag::Zero))
    } else if op == 0xCA {
        sem_jp_imm(r, m, flag_on(r.f, Flag::Zero))
    } else if op == 0xD2 {
        sem_jp_imm(r, m, !flag_on(r.f, Flag::CarryFlag))
    } else if op == 0xDA {
        sem_jp_imm(r, m, flag_on(r.f, Flag::CarryFlag))
    } else if op == 0xCD {
        sem_call_imm(r, m, true)
    } else if op == 0xC4 {
        sem_call_imm(r, m, !flag_on(r.f, Flag::Zero))
    } else if op == 0xCC {
        sem_call_imm(r, m, flag_on(r.f, Flag::Zero))
    } else if op == 0xD4 {
        sem_call_imm(r, m, !flag_on(r.f, Flag::CarryFlag))
    } else if op == 0xDC {
        sem_call_imm(r, m, flag_on(r.f, Flag::CarryFlag))
    } else if op == 0xC9 {
        sem_ret(r, m)
    } else if op == 0xC5 {
        sem_push(r, m, RegCode::BC)
    } else if op == 0xD5 {
        sem_push(r, m, RegCode::DE)
    } else if op == 0xE5 {
        sem_push(r, m, RegCode::HL)
    } else if op == 0xF5 {
        sem_push(r, m, RegCode::AF)
    } else if op == 0xC1 {
        sem_pop(r, m, RegCode::BC)
    } else if op == 0xD1 {
        sem_pop(r, m, RegCode::DE)
    } else if op == 0xE1 {
        sem_pop(r, m, RegCode::HL)
    } else if op == 0xF1 {
        sem_pop(r, m, RegCode::AF)
    } else if op == 0xE0 {
        sem_ldh_a8_a(r, m)
    } else if op == 0xF0 {
        sem_ldh_a_d8(r, m)
    } else if op == 0xE2 {
        sem_st(r, m, high_page(r.c), r.a)
    } else if op == 0xF2 {
        sem_ld_r_from(r, m, RegCode::A, high_page(r.c))
    } else if op == 0xFE {
        sem_cp_imm8(r, m)
    } else if op == 0xCB {
        sem_cb(r, m, strict)
    } else {
        sem_unknown(r, m, strict)
    }
}

/// One full fetch-decode-execute cycle: the opcode byte is consumed at PC
/// and its operation runs on the advanced state.
pub open spec fn spec_tick(r: Registers, m: Seq<u8>, strict: bool) -> Result<
    (Registers, Seq<u8>),
    GbError,
> {
    match sem_read1(r, m) {
        Ok((op, r1)) => spec_run_op(op, r1, m, strict),
        Err(e) => Err(e),
    }
}

/// The bus records appended by reading one program byte at PC.
pub open spec fn ev_read1(r: Registers, m: Seq<u8>) -> Seq<LogMessage> {
    seq![fetch_event(r.pc, m[r.pc as int])]
}

/// The bus records appended by consuming a two-byte operand, low first.
pub open spec fn ev_read2(r: Registers, m: Seq<u8>) -> Seq<LogMessage> {
    ev_read1(r, m) + seq![fetch_event(wrap16_inc(r.pc), m[wrap16_inc(r.pc) as int])]
}

/// The bus record appended by one data read at `addr`.
pub open spec fn ev_fetch(m: Seq<u8>, addr: u16) -> Seq<LogMessage> {
    seq![fetch_event(addr, m[addr as int])]
}

/// The bus record appended by one write of `v` at `addr`.
pub open spec fn ev_save(addr: u16, v: u8) -> Seq<LogMessage> {
    seq![save_event(addr, v)]
}

/// The records of `INC (addr)`: the fetch, then the wrapped store.
pub open spec fn ev_inc_mem(m: Seq<u8>, addr: u16) -> Seq<LogMessage> {
    ev_fetch(m, addr) + ev_save(addr, wrap8_inc(m[addr as int]))
}

/// The records of `DEC (addr)`: the fetch, then the wrapped store.
pub open spec fn ev_dec_mem(m: Seq<u8>, addr: u16) -> Seq<LogMessage> {
    ev_fetch(m, addr) + ev_save(addr, wrap8_dec(m[addr as int]))
}

/// The records of `LD (addr), imm8`: the operand read, then the store.
pub open spec fn ev_ld_mem_imm8(r: Registers, m: Seq<u8>, addr: u16) -> Seq<LogMessage> {
    ev_read1(r, m) + ev_save(addr, m[r.pc as int])
}

/// The records of `PUSH pair`: the high byte stored at SP+1, then the
/// low byte at SP, after SP dropped by two.
pub open spec fn ev_push(r: Registers, code: RegCode) -> Seq<LogMessage> {
    let v = spec_get16(r, code);
    let sp1 = wrap16_dec(wrap16_dec(r.sp));
    seq![save_event(wrap16_inc(sp1), hi_byte(v)), save_event(sp1, lo_byte(v))]
}

/// The records of `POP pair` and `RET`: the low byte read at SP, then
/// the high byte at SP+1.
pub open spec fn ev_pop(r: Registers, m: Seq<u8>) -> Seq<LogMessage> {
    seq![
        fetch_event(r.sp, m[r.sp as int]),
        fetch_event(wrap16_inc(r.sp), m[wrap16_inc(r.sp) as int]),
    ]
}

/// The records a taken CALL appends after its operand reads: the two
/// halves of the return address, high first.
pub open spec fn ev_push_pc(r: Registers) -> Seq<LogMessage> {
    let sp1 = wrap16_dec(wrap16_dec(r.sp));
    seq![save_event(wrap16_inc(sp1), hi_byte(r.pc)), save_event(sp1, lo_byte(r.pc))]
}

/// The records of `CALL cc, imm16`: the operand reads, plus the return
/// address stores when the condition held.
pub open spec fn ev_call(r: Registers, m: Seq<u8>, cond: bool) -> Seq<LogMessage> {
    let r2 = Registers { pc: wrap16_inc(wrap16_inc(r.pc)), ..r };
    ev_read2(r, m) + (if cond {
        ev_push_pc(r2)
    } else {
        Seq::<LogMessage>::empty()
    })
}

/// The records of the 0x40–0x7F grid: one store on row six, one fetch on
/// column six, none otherwise.
pub open spec fn ev_ld_grid(op: u8, r: Registers, m: Seq<u8>) -> Seq<LogMessage> {
    let d = (op as int / 8) % 8;
    let s = op as int % 8;
    if op == 0x76 {
        Seq::<LogMessage>::empty()
    } else if d == 6 {
        ev_save(spec_get16(r, RegCode::HL), spec_get8(r, reg8_of_idx(s)))
    } else if s == 6 {
        ev_fetch(m, spec_get16(r, RegCode::HL))
    } else {
        Seq::<LogMessage>::empty()
    }
}

/// The records of the XOR and CP rows: one fetch for the `(HL)` operand,
/// none for a register operand.
pub open spec fn ev_hl_operand(op: u8, r: Registers, m: Seq<u8>) -> Seq<LogMessage> {
    if op as int % 8 == 6 {
        ev_fetch(m, spec_get16(r, RegCode::HL))
    } else {
        Seq::<LogMessage>::empty()
    }
}

/// The records of one CB operation past the prefix byte: `(HL)` targets
/// fetch, and the rotates, RES and SET store back; register targets
/// touch no memory.
pub open spec fn ev_cb_op(sub: u8, r: Registers, m: Seq<u8>) -> Seq<LogMessage> {
    let blk = sub as int / 64;
    let n = (sub as int / 8) % 8;
    let t = sub as int % 8;
    let hl = spec_get16(r, RegCode::HL);
    if t != 6 {
        Seq::<LogMessage>::empty()
    } else if blk == 0 {
        if n == 0 {
            ev_fetch(m, hl) + ev_save(hl, rlc_val(m[hl as int]))
        } else if n == 2 {
            ev_fetch(m, hl) + ev_save(hl, rl_val(m[hl as int], flag_on(r.f, Flag::CarryFlag)))
        } else {
            Seq::<LogMessage>::empty()
        }
    } else if blk == 1 {
        ev_fetch(m, hl)
    } else if blk == 2 {
        ev_fetch(m, hl) + ev_save(hl, m[hl as int] & !bit_mask(n as u8))
    } else {
        ev_fetch(m, hl) + ev_save(hl, m[hl as int] | bit_mask(n as u8))
    }
}

/// The records of the CB prefix: the sub-opcode read plus its operation.
pub open spec fn ev_cb(r: Registers, m: Seq<u8>) -> Seq<LogMessage> {
    ev_read1(r, m) + ev_cb_op(m[r.pc as int], Registers { pc: wrap16_inc(r.pc), ..r }, m)
}

/// The bus records one dispatched opcode appends when it completes
/// without error; meaningful only on the success path of `spec_run_op`.
pub open spec fn op_events(op: u8, r: Registers, m: Seq<u8>) -> Seq<LogMessage> {
    if 0x40 <= op && op < 0x80 {
        ev_ld_grid(op, r, m)
    } else if 0xA8 <= op && op <= 0xAF {
        ev_hl_operand(op, r, m)
    } else if 0xB8 <= op && op <= 0xBF {
        ev_hl_operand(op, r, m)
    } else if op == 0x01 || op == 0x11 || op == 0x21 || op == 0x31 {
        ev_read2(r, m)
    } else if op == 0x02 {
        ev_save(spec_get16(r, RegCode::BC), r.a)
    } else if op == 0x12 {
        ev_save(spec_get16(r, RegCode::DE), r.a)
    } else if op == 0x22 || op == 0x32 {
        ev_save(spec_get16(r, RegCode::HL), r.a)
    } else if op == 0x34 {
        ev_inc_mem(m, spec_get16(r, RegCode::HL))
    } else if op == 0x35 {
        ev_dec_mem(m, spec_get16(r, RegCode::HL))
    } else if op == 0x06 || op == 0x16 || op == 0x26 {
        ev_read1(r, m)
    } else if op == 0x36 {
        ev_ld_mem_imm8(r, m, spec_get16(r, RegCode::HL))
    } else if op == 0x0A {
        ev_fetch(m, spec_get16(r, RegCode::BC))
    } else if op == 0x1A {
        ev_fetch(m, spec_get16(r, RegCode::DE))
    } else if op == 0x2A || op == 0x3A {
        ev_fetch(m, spec_get16(r, RegCode::HL))
    } else if op == 0x0E || op == 0x1E || op == 0x2E || op == 0x3E {
        ev_read1(r, m)
    } else if op == 0x18 || op == 0x20 || op == 0x28 || op == 0x30 || op == 0x38 {
        ev_read1(r, m)
    } else if op == 0xC3 || op == 0xC2 || op == 0xCA || op == 0xD2 || op == 0xDA {
        ev_read2(r, m)
    } else if op == 0xCD {
        ev_call(r, m, true)
    } else if op == 0xC4 {
        ev_call(r, m, !flag_on(r.f, Flag::Zero))
    } else if op == 0xCC {
        ev_call(r, m, flag_on(r.f, Flag::Zero))
    } else if op == 0xD4 {
        ev_call(r, m, !flag_on(r.f, Flag::CarryFlag))
    } else if op == 0xDC {
        ev_call(r, m, flag_on(r.f, Flag::CarryFlag))
    } else if op == 0xC9 {
        ev_pop(r, m)
    } else if op == 0xC5 || op == 0xD5 || op == 0xE5 || op == 0xF5 {
        if op == 0xC5 {
            ev_push(r, RegCode::BC)
        } else if op == 0xD5 {
            ev_push(r, RegCode::DE)
        } else if op == 0xE5 {
            ev_push(r, RegCode::HL)
        } else {
            ev_push(r, RegCode::AF)
        }
    } else if op == 0xC1 || op == 0xD1 || op == 0xE1 || op == 0xF1 {
        ev_pop(r, m)
    } else if op == 0xE0 {
        ev_read1(r, m) + ev_save(high_page(m[r.pc as int]), r.a)
    } else if op == 0xF0 {
        ev_read1(r, m) + ev_fetch(m, high_page(m[r.pc as int]))
    } else if op == 0xE2 {
        ev_save(high_page(r.c), r.a)
    } else if op == 0xF2 {
        ev_fetch(m, high_page(r.c))
    } else if op == 0xFE {
        ev_read1(r, m)
    } else if op == 0xCB {
        ev_cb(r, m)
    } else {
        Seq::<LogMessage>::empty()
    }
}

/// The bus records one whole tick appends when it completes without
/// error: the opcode fetch, then its operation's records.
pub open spec fn tick_events(r: Registers, m: Seq<u8>) -> Seq<LogMessage> {
    ev_read1(r, m) + op_events(m[r.pc as int], Registers { pc: wrap16_inc(r.pc), ..r }, m)
}

/// Glue between an executable step and its mathematical outcome: on `Ok`
/// the final registers and memory match the spec's, on `Err` the same
/// error is surfaced.
pub open spec fn steps_to(
    res: Result<(), GbError>,
    r: Registers,
    m: Seq<u8>,
    out: Result<(Registers, Seq<u8>), GbError>,
) -> bool {
    match out {
        Ok(rm) => res == Ok::<(), GbError>(()) && r == rm.0 && m == rm.1,
        Err(e) => res == Err::<(), GbError>(e),
    }
}

} // verus!
