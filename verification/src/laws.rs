//! The laws of the core, stated and proved once over the small-step
//! semantics: register round trips, flag invariants, the wrap-around
//! edges of increment and decrement, stack round trips, and the bus's
//! write-then-read guarantee.

use vstd::prelude::*;

use crate::err::GbError;
use crate::events::LogEvents;
use crate::mmu::{MEM_SIZE, is_vram, save_event};
use crate::reg::{
    Flag, RegCode, Registers, flag_on, is_pair, is_reg8, is_reg16_writable, lemma_mk_flags,
    spec_dec8, spec_get16, spec_get8, spec_inc8, spec_set8, spec_set16, spec_set_flag,
};
use crate::semantics::{
    mem_ok, sem_call, sem_fetch, sem_pop, sem_push, sem_ret, sem_save, sem_xor, spec_tick,
};

verus! {

/// Writing any byte-wide register and reading it back returns exactly
/// the byte written, for every register and every byte.
pub proof fn lemma_set8_then_get8(r: Registers, code: RegCode, byte: u8)
    requires
        is_reg8(code),
    ensures
        spec_get8(spec_set8(r, code, byte), code) == byte,
{
}

/// Writing any 16-bit view from a high and a low byte and reading it
/// back returns `(high << 8) | low`, for the four pairs and SP.
pub proof fn lemma_set16_then_get16(r: Registers, code: RegCode, high: u8, low: u8)
    requires
        is_reg16_writable(code),
    ensures
        spec_get16(spec_set16(r, code, high, low), code) == high as int * 256 + low as int,
{
}

/// Any single-flag write leaves the low nibble of F zero.
pub proof fn lemma_flag_mutation_low_nibble(f: u8, flag: Flag, on: bool)
    ensures
        spec_set_flag(f, flag, on) as int % 16 == 0,
{
    lemma_mk_flags(
        if flag == Flag::Zero { on } else { flag_on(f, Flag::Zero) },
        if flag == Flag::AddSubBCD { on } else { flag_on(f, Flag::AddSubBCD) },
        if flag == Flag::HalfCarryFlagBCD { on } else { flag_on(f, Flag::HalfCarryFlagBCD) },
        if flag == Flag::CarryFlag { on } else { flag_on(f, Flag::CarryFlag) },
    );
}

/// Incrementing a byte-wide register that held 0xFF wraps it to zero
/// and sets both Zero and HalfCarry. (F itself is no target here: an
/// increment of F overwrites the flag byte with the wrapped value.)
pub proof fn lemma_inc8_wraps(r: Registers, code: RegCode)
    requires
        is_reg8(code),
        code != RegCode::F,
        spec_get8(r, code) == 0xFF,
    ensures
        spec_get8(spec_inc8(r, code), code) == 0,
        flag_on(spec_inc8(r, code).f, Flag::Zero),
        flag_on(spec_inc8(r, code).f, Flag::HalfCarryFlagBCD),
        !flag_on(spec_inc8(r, code).f, Flag::AddSubBCD),
    {
    lemma_mk_flags(true, false, true, flag_on(r.f, Flag::CarryFlag));
}

/// Decrementing a byte-wide register that held 0x01 gives zero with
/// Zero set; decrementing one that held 0x00 wraps to 0xFF with Zero
/// clear, HalfCarry set and AddSub set. (F itself is no target here.)
pub proof fn lemma_dec8_edges(r: Registers, code: RegCode)
    requires
        is_reg8(code),
        code != RegCode::F,
    ensures
        spec_get8(r, code) == 0x01 ==> spec_get8(spec_dec8(r, code), code) == 0 && flag_on(
            spec_dec8(r, code).f,
            Flag::Zero,
        ),
        spec_get8(r, code) == 0x00 ==> spec_get8(spec_dec8(r, code), code) == 0xFF && !flag_on(
            spec_dec8(r, code).f,
            Flag::Zero,
        ) && flag_on(spec_dec8(r, code).f, Flag::HalfCarryFlagBCD) && flag_on(
            spec_dec8(r, code).f,
            Flag::AddSubBCD,
        ),
{
    if spec_get8(r, code) == 0x01 {
        lemma_mk_flags(true, true, false, flag_on(r.f, Flag::CarryFlag));
    }
    if spec_get8(r, code) == 0x00 {
        lemma_mk_flags(false, true, true, flag_on(r.f, Flag::CarryFlag));
    }
}

/// A `LD pair, imm16` whose operand bytes `(lo, hi)` sit in program
/// memory right after the opcode sets the pair to `(hi << 8) | lo` and
/// leaves PC just past the operands, for every 16-bit immediate.
pub proof fn lemma_ld_pair_imm16(r: Registers, m: Seq<u8>, op: u8, code: RegCode, strict: bool)
    requires
        mem_ok(m),
        r.pc as int + 2 < MEM_SIZE as int,
        m[r.pc as int] == op,
        (op == 0x01 && code == RegCode::BC) || (op == 0x11 && code == RegCode::DE) || (op == 0x21
            && code == RegCode::HL) || (op == 0x31 && code == RegCode::SP),
    ensures
        (match spec_tick(r, m, strict) {
            Ok(rm) => {
                &&& rm.1 == m
                &&& rm.0.pc == r.pc + 3
                &&& spec_get16(rm.0, code) == m[r.pc as int + 2] as int * 256 + m[r.pc as int
                    + 1] as int
            },
            Err(_) => false,
        }),
{
    lemma_set16_then_get16(r, code, m[r.pc as int + 2], m[r.pc as int + 1]);
}

/// PUSH then POP of the same pair restores the pair and SP, with the
/// low nibble of F forced to zero when the pair is AF.
pub proof fn lemma_push_then_pop(r: Registers, m: Seq<u8>, code: RegCode)
    requires
        mem_ok(m),
        is_pair(code),
        r.sp >= 2,
    ensures
        (match sem_push(r, m, code) {
            Ok(rm1) => match sem_pop(rm1.0, rm1.1, code) {
                Ok(rm2) => {
                    &&& rm2.0.sp == r.sp
                    &&& (code != RegCode::AF ==> spec_get16(rm2.0, code) == spec_get16(r, code))
                    &&& (code == RegCode::AF ==> rm2.0.a == r.a && rm2.0.f == r.f & 0xF0)
                },
                Err(_) => false,
            },
            Err(_) => false,
        }),
{
    let v = spec_get16(r, code);
    assert(v as int / 256 * 256 + v as int % 256 == v as int);
    if code == RegCode::AF {
        assert(v == r.a as int * 256 + r.f as int);
        assert(v as int / 256 == r.a as int);
        assert(v as int % 256 == r.f as int);
    }
}

/// CALL to a target then RET brings PC back to the byte right after the
/// CALL's operand bytes and restores SP.
pub proof fn lemma_call_then_ret(r: Registers, m: Seq<u8>, target: u16)
    requires
        mem_ok(m),
        r.sp >= 2,
    ensures
        (match sem_call(r, m, true, target) {
            Ok(rm1) => rm1.0.pc == target && (match sem_ret(rm1.0, rm1.1) {
                Ok(rm2) => rm2.0.pc == r.pc && rm2.0.sp == r.sp,
                Err(_) => false,
            }),
            Err(_) => false,
        }),
{
    let v = r.pc;
    assert(v as int / 256 * 256 + v as int % 256 == v as int);
}

/// `XOR A, A` zeroes the accumulator, sets Zero, and clears AddSub,
/// HalfCarry and Carry, whatever A held.
pub proof fn lemma_xor_self(r: Registers)
    ensures
        sem_xor(r, r.a).a == 0,
        flag_on(sem_xor(r, r.a).f, Flag::Zero),
        !flag_on(sem_xor(r, r.a).f, Flag::AddSubBCD),
        !flag_on(sem_xor(r, r.a).f, Flag::HalfCarryFlagBCD),
        !flag_on(sem_xor(r, r.a).f, Flag::CarryFlag),
{
    let a = r.a;
    assert(a ^ a == 0) by (bit_vector);
    lemma_mk_flags(true, false, false, false);
}

/// A write at any in-range address is read back by the next fetch at
/// that address, and its event record carries the right class: a
/// VRAM-class save inside 0x8000–0x9FFF and a generic save elsewhere.
pub proof fn lemma_save_then_fetch(m: Seq<u8>, addr: u16, byte: u8)
    requires
        mem_ok(m),
        addr < MEM_SIZE,
    ensures
        (match sem_save(m, addr, byte) {
            Ok(m1) => sem_fetch(m1, addr) == Ok::<u8, GbError>(byte),
            Err(_) => false,
        }),
        save_event(addr, byte).kind == (if is_vram(addr) {
            LogEvents::VramSave
        } else {
            LogEvents::MemorySave
        }),
        save_event(addr, byte).addr == addr,
        save_event(addr, byte).value == byte as u16,
{
}

} // verus!
