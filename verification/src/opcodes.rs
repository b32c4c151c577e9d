//! The micro-operations the decoder selects: loads, increments, rotates,
//! logic, compares, jumps and stack traffic. Each is proved against the
//! matching `sem_*` function of the small-step semantics.

use vstd::prelude::*;
use vstd::seq_lib::*;

use crate::cpu::{CPU, unchanged_but_reg};
use crate::err::GbError;
use crate::events::LoggableComponent;
use crate::mmu::VirtualMemory;
use crate::reg::{
    Flag, RegCode, Registers, flag_on, is_pair, is_reg8, is_reg16_writable, spec_dec8, spec_inc8,
    spec_set8, spec_with_flags,
};
use crate::semantics::{
    ev_call, ev_dec_mem, ev_fetch, ev_inc_mem, ev_ld_mem_imm8, ev_pop, ev_push, ev_read1,
    ev_read2, ev_save, high_page, rl_val, rlc_val, sem_bit_test, sem_call_imm, sem_cp,
    sem_cp_imm8, sem_dec_mem, sem_inc_mem, sem_jp_imm, sem_jr_imm, sem_ld_mem_imm8, sem_ld_r_from,
    sem_ld_r_imm8, sem_ld_rr_imm16, sem_ldd_r_from, sem_ldd_st, sem_ldh_a8_a, sem_ldh_a_d8,
    sem_ldi_r_from, sem_ldi_st, sem_pop, sem_push, sem_read2, sem_ret, sem_rl_reg, sem_rlc_reg,
    sem_st, sem_xor, steps_to, word,
};

verus! {

broadcast use {Seq::add_empty_right, Seq::push_distributes_over_add};


impl CPU {
    /// Consume two program bytes and return them as `(high, low)`; the
    /// low byte is fetched first (operands are little-endian).
    pub fn read_next_16bits(&mut self, bus: &mut VirtualMemory) -> (res: Result<(u8, u8), GbError>)
        requires
            old(bus).wf(),
        ensures
            final(bus).wf(),
            final(bus)@ == old(bus)@,
            old(bus).events().is_prefix_of(final(bus).events()),
            unchanged_but_reg(*old(self), *final(self)),
            match sem_read2(old(self).reg, old(bus)@) {
                Ok(br) => {
                    &&& res == Ok::<(u8, u8), GbError>((br.0.1, br.0.0))
                    &&& final(self).reg == br.1
                    &&& final(bus).events() == old(bus).events() + ev_read2(
                        old(self).reg,
                        old(bus)@,
                    )
                },
                Err(e) => res == Err::<(u8, u8), GbError>(e),
            },
    {
        let ghost pre_bus = *bus;
        let ghost pre_reg = self.reg;
        let right_byte: u8 = match self.fetch_post_increment(bus) {
            Ok(b) => b,
            Err(e) => {
                return Err(e);
            },
        };
        let left_byte: u8 = match self.fetch_post_increment(bus) {
            Ok(b) => b,
            Err(e) => {
                return Err(e);
            },
        };
        proof {
            assert(bus.events() =~= pre_bus.events() + ev_read2(pre_reg, pre_bus@));
        }
        Ok((left_byte, right_byte))
    }

    /// Consume a little-endian 16-bit operand and return the word.
    pub fn read_next_addr(&mut self, bus: &mut VirtualMemory) -> (res: Result<u16, GbError>)
        requires
            old(bus).wf(),
        ensures
            final(bus).wf(),
            final(bus)@ == old(bus)@,
            old(bus).events().is_prefix_of(final(bus).events()),
            unchanged_but_reg(*old(self), *final(self)),
            match sem_read2(old(self).reg, old(bus)@) {
                Ok(br) => {
                    &&& res == Ok::<u16, GbError>(word(br.0.1, br.0.0))
                    &&& final(self).reg == br.1
                    &&& final(bus).events() == old(bus).events() + ev_read2(
                        old(self).reg,
                        old(bus)@,
                    )
                },
                Err(e) => res == Err::<u16, GbError>(e),
            },
    {
        let pair: (u8, u8) = match self.read_next_16bits(bus) {
            Ok(p) => p,
            Err(e) => {
                return Err(e);
            },
        };
        Ok(Registers::_8bit_to_16bit(pair.0, pair.1))
    }

    /// `LD reg, value`: write a byte-wide cell.
    pub fn ld_reg_u8(&mut self, dest: RegCode, value: u8)
        requires
            is_reg8(dest),
        ensures
            unchanged_but_reg(*old(self), *final(self)),
            final(self).reg == spec_set8(old(self).reg, dest, value),
    {
        let _ = self.reg.set_8bit(dest, value);
    }

    /// `LD reg, imm8`: consume the operand into a byte-wide cell.
    pub fn ld_reg_u8_direct(&mut self, bus: &mut VirtualMemory, dest: RegCode) -> (res: Result<
        (),
        GbError,
    >)
        requires
            old(bus).wf(),
            is_reg8(dest),
        ensures
            final(bus).wf(),
            old(bus).events().is_prefix_of(final(bus).events()),
            unchanged_but_reg(*old(self), *final(self)),
            steps_to(
                res,
                final(self).reg,
                final(bus)@,
                sem_ld_r_imm8(old(self).reg, old(bus)@, dest),
            ),
            res is Ok ==> final(bus).events() == old(bus).events() + ev_read1(
                old(self).reg,
                old(bus)@,
            ),
    {
        let next: u8 = match self.fetch_post_increment(bus) {
            Ok(b) => b,
            Err(e) => {
                return Err(e);
            },
        };
        self.ld_reg_u8(dest, next);
        Ok(())
    }

    /// `LD pair, imm16`: consume a little-endian operand into a pair or SP.
    pub fn ld_reg_u16_direct(&mut self, bus: &mut VirtualMemory, dest: RegCode) -> (res: Result<
        (),
        GbError,
    >)
        requires
            old(bus).wf(),
            is_reg16_writable(dest),
        ensures
            final(bus).wf(),
            old(bus).events().is_prefix_of(final(bus).events()),
            unchanged_but_reg(*old(self), *final(self)),
            steps_to(
                res,
                final(self).reg,
                final(bus)@,
                sem_ld_rr_imm16(old(self).reg, old(bus)@, dest),
            ),
            res is Ok ==> final(bus).events() == old(bus).events() + ev_read2(
                old(self).reg,
                old(bus)@,
            ),
    {
        let pair: (u8, u8) = match self.read_next_16bits(bus) {
            Ok(p) => p,
            Err(e) => {
                return Err(e);
            },
        };
        let _ = self.reg.set_16bit(dest, pair.0, pair.1);
        Ok(())
    }

    /// `LD reg, (addr)`: load a byte-wide cell from the bus.
    pub fn ld_reg_u16_addr(
        &mut self,
        bus: &mut VirtualMemory,
        dest: RegCode,
        addr: u16,
    ) -> (res: Result<(), GbError>)
        requires
            old(bus).wf(),
            is_reg8(dest),
        ensures
            final(bus).wf(),
            old(bus).events().is_prefix_of(final(bus).events()),
            unchanged_but_reg(*old(self), *final(self)),
            steps_to(
                res,
                final(self).reg,
                final(bus)@,
                sem_ld_r_from(old(self).reg, old(bus)@, dest, addr),
            ),
            res is Ok ==> final(bus).events() == old(bus).events() + ev_fetch(old(bus)@, addr),
    {
        let ghost pre_bus = *bus;
        let value: u8 = match bus.fetch(addr) {
            Ok(b) => b,
            Err(e) => {
                return Err(e);
            },
        };
        self.ld_reg_u8(dest, value);
        proof {
            assert(bus.events() =~= pre_bus.events() + ev_fetch(pre_bus@, addr));
        }
        Ok(())
    }

    /// `LDI reg, (addr)`: as the plain load, then HL is incremented.
    pub fn ldi_reg_u16_addr(
        &mut self,
        bus: &mut VirtualMemory,
        dest: RegCode,
        addr: u16,
    ) -> (res: Result<(), GbError>)
        requires
            old(bus).wf(),
            is_reg8(dest),
        ensures
            final(bus).wf(),
            old(bus).events().is_prefix_of(final(bus).events()),
            unchanged_but_reg(*old(self), *final(self)),
            steps_to(
                res,
                final(self).reg,
                final(bus)@,
                sem_ldi_r_from(old(self).reg, old(bus)@, dest, addr),
            ),
            res is Ok ==> final(bus).events() == old(bus).events() + ev_fetch(old(bus)@, addr),
    {
        match self.ld_reg_u16_addr(bus, dest, addr) {
            Ok(_) => {
                self.reg.inc_hl();
                Ok(())
            },
            Err(e) => Err(e),
        }
    }

    /// `LDD reg, (addr)`: as the plain load, then HL is decremented.
    pub fn ldd_reg_u16_addr(
        &mut self,
        bus: &mut VirtualMemory,
        dest: RegCode,
        addr: u16,
    ) -> (res: Result<(), GbError>)
        requires
            old(bus).wf(),
            is_reg8(dest),
        ensures
            final(bus).wf(),
            old(bus).events().is_prefix_of(final(bus).events()),
            unchanged_but_reg(*old(self), *final(self)),
            steps_to(
                res,
                final(self).reg,
                final(bus)@,
                sem_ldd_r_from(old(self).reg, old(bus)@, dest, addr),
            ),
            res is Ok ==> final(bus).events() == old(bus).events() + ev_fetch(old(bus)@, addr),
    {
        match self.ld_reg_u16_addr(bus, dest, addr) {
            Ok(_) => {
                self.reg.dec_hl();
                Ok(())
            },
            Err(e) => Err(e),
        }
    }

    /// `LD (addr), value`: a plain store through the bus.
    pub fn ld_mem_u8(&mut self, bus: &mut VirtualMemory, addr_dest: u16, value: u8) -> (res: Result<
        (),
        GbError,
    >)
        requires
            old(bus).wf(),
        ensures
            final(bus).wf(),
            old(bus).events().is_prefix_of(final(bus).events()),
            unchanged_but_reg(*old(self), *final(self)),
            steps_to(
                res,
                final(self).reg,
                final(bus)@,
                sem_st(old(self).reg, old(bus)@, addr_dest, value),
            ),
            res is Ok ==> final(bus).events() == old(bus).events() + ev_save(addr_dest, value),
    {
        let ghost pre_bus = *bus;
        match bus.save(addr_dest, value) {
            Ok(_) => {
                proof {
                    assert(bus.events() =~= pre_bus.events() + ev_save(addr_dest, value));
                }
                Ok(())
            },
            Err(e) => Err(e),
        }
    }

    /// `LD (addr), imm8`: consume the operand and store it.
    pub fn ld_mem_d8(&mut self, bus: &mut VirtualMemory, addr_dest: u16) -> (res: Result<
        (),
        GbError,
    >)
        requires
            old(bus).wf(),
        ensures
            final(bus).wf(),
            old(bus).events().is_prefix_of(final(bus).events()),
            unchanged_but_reg(*old(self), *final(self)),
            steps_to(
                res,
                final(self).reg,
                final(bus)@,
                sem_ld_mem_imm8(old(self).reg, old(bus)@, addr_dest),
            ),
            res is Ok ==> final(bus).events() == old(bus).events() + ev_ld_mem_imm8(
                old(self).reg,
                old(bus)@,
                addr_dest,
            ),
    {
        let ghost pre_bus = *bus;
        let ghost pre_reg = self.reg;
        let next: u8 = match self.fetch_post_increment(bus) {
            Ok(b) => b,
            Err(e) => {
                return Err(e);
            },
        };
        match bus.save(addr_dest, next) {
            Ok(_) => {
                proof {
                    assert(bus.events() =~= pre_bus.events() + ev_ld_mem_imm8(
                        pre_reg,
                        pre_bus@,
                        addr_dest,
                    ));
                }
                Ok(())
            },
            Err(e) => Err(e),
        }
    }

    /// `LDI (addr), value`: as the plain store, then HL is incremented.
    pub fn ldi_mem_u8(&mut self, bus: &mut VirtualMemory, addr_dest: u16, value: u8) -> (res:
        Result<(), GbError>)
        requires
            old(bus).wf(),
        ensures
            final(bus).wf(),
            old(bus).events().is_prefix_of(final(bus).events()),
            unchanged_but_reg(*old(self), *final(self)),
            steps_to(
                res,
                final(self).reg,
                final(bus)@,
                sem_ldi_st(old(self).reg, old(bus)@, addr_dest, value),
            ),
            res is Ok ==> final(bus).events() == old(bus).events() + ev_save(addr_dest, value),
    {
        match self.ld_mem_u8(bus, addr_dest, value) {
            Ok(_) => {
                self.reg.inc_hl();
                Ok(())
            },
            Err(e) => Err(e),
        }
    }

    /// `LDD (addr), value`: as the plain store, then HL is decremented.
    pub fn ldd_mem_u8(&mut self, bus: &mut VirtualMemory, addr_dest: u16, value: u8) -> (res:
        Result<(), GbError>)
        requires
            old(bus).wf(),
        ensures
            final(bus).wf(),
            old(bus).events().is_prefix_of(final(bus).events()),
            unchanged_but_reg(*old(self), *final(self)),
            steps_to(
                res,
                final(self).reg,
                final(bus)@,
                sem_ldd_st(old(self).reg, old(bus)@, addr_dest, value),
            ),
            res is Ok ==> final(bus).events() == old(bus).events() + ev_save(addr_dest, value),
    {
        match self.ld_mem_u8(bus, addr_dest, value) {
            Ok(_) => {
                self.reg.dec_hl();
                Ok(())
            },
            Err(e) => Err(e),
        }
    }

    /// `LDH A, (a8)`: consume the offset and load A from the high page.
    pub fn ldh_a_d8(&mut self, bus: &mut VirtualMemory) -> (res: Result<(), GbError>)
        requires
            old(bus).wf(),
        ensures
            final(bus).wf(),
            old(bus).events().is_prefix_of(final(bus).events()),
            unchanged_but_reg(*old(self), *final(self)),
            steps_to(res, final(self).reg, final(bus)@, sem_ldh_a_d8(old(self).reg, old(bus)@)),
            res is Ok ==> final(bus).events() == old(bus).events() + (ev_read1(
                old(self).reg,
                old(bus)@,
            ) + ev_fetch(old(bus)@, high_page(old(bus)@[old(self).reg.pc as int]))),
    {
        let ghost pre_bus = *bus;
        let ghost pre_reg = self.reg;
        let delta: u8 = match self.fetch_post_increment(bus) {
            Ok(b) => b,
            Err(e) => {
                return Err(e);
            },
        };
        let res = self.ld_reg_u16_addr(bus, RegCode::A, 0xFF00 + (delta as u16));
        proof {
            if res is Ok {
                assert(bus.events() =~= pre_bus.events() + (ev_read1(pre_reg, pre_bus@)
                    + ev_fetch(pre_bus@, high_page(pre_bus@[pre_reg.pc as int]))));
            }
        }
        res
    }

    /// `LDH A, (C)`: load A from the high page at offset C.
    pub fn ldh_a_regc(&mut self, bus: &mut VirtualMemory) -> (res: Result<(), GbError>)
        requires
            old(bus).wf(),
        ensures
            final(bus).wf(),
            old(bus).events().is_prefix_of(final(bus).events()),
            unchanged_but_reg(*old(self), *final(self)),
            steps_to(
                res,
                final(self).reg,
                final(bus)@,
                sem_ld_r_from(
                    old(self).reg,
                    old(bus)@,
                    RegCode::A,
                    high_page(old(self).reg.c),
                ),
            ),
            res is Ok ==> final(bus).events() == old(bus).events() + ev_fetch(
                old(bus)@,
                high_page(old(self).reg.c),
            ),
    {
        let delta: u8 = self.reg.c;
        self.ld_reg_u16_addr(bus, RegCode::A, 0xFF00 + (delta as u16))
    }

    /// `LDH (a8), A`: consume the offset and store A into the high page.
    pub fn ldh_a8_a(&mut self, bus: &mut VirtualMemory) -> (res: Result<(), GbError>)
        requires
            old(bus).wf(),
        ensures
            final(bus).wf(),
            old(bus).events().is_prefix_of(final(bus).events()),
            unchanged_but_reg(*old(self), *final(self)),
            steps_to(res, final(self).reg, final(bus)@, sem_ldh_a8_a(old(self).reg, old(bus)@)),
            res is Ok ==> final(bus).events() == old(bus).events() + (ev_read1(
                old(self).reg,
                old(bus)@,
            ) + ev_save(high_page(old(bus)@[old(self).reg.pc as int]), old(self).reg.a)),
    {
        let ghost pre_bus = *bus;
        let ghost pre_reg = self.reg;
        let delta: u8 = match self.fetch_post_increment(bus) {
            Ok(b) => b,
            Err(e) => {
                return Err(e);
            },
        };
        let value: u8 = self.reg.a;
        let res = self.ld_mem_u8(bus, 0xFF00 + (delta as u16), value);
        proof {
            if res is Ok {
                assert(bus.events() =~= pre_bus.events() + (ev_read1(pre_reg, pre_bus@)
                    + ev_save(high_page(pre_bus@[pre_reg.pc as int]), pre_reg.a)));
            }
        }
        res
    }

    /// `LDH (C), A`: store A into the high page at offset C.
    pub fn ldh_regc_a(&mut self, bus: &mut VirtualMemory) -> (res: Result<(), GbError>)
        requires
            old(bus).wf(),
        ensures
            final(bus).wf(),
            old(bus).events().is_prefix_of(final(bus).events()),
            unchanged_but_reg(*old(self), *final(self)),
            steps_to(
                res,
                final(self).reg,
                final(bus)@,
                sem_st(old(self).reg, old(bus)@, high_page(old(self).reg.c), old(self).reg.a),
            ),
            res is Ok ==> final(bus).events() == old(bus).events() + ev_save(
                high_page(old(self).reg.c),
                old(self).reg.a,
            ),
    {
        let delta: u8 = self.reg.c;
        let value: u8 = self.reg.a;
        self.ld_mem_u8(bus, 0xFF00 + (delta as u16), value)
    }

    /// `INC reg`: wrapping 8-bit increment with its flag bookkeeping.
    pub fn inc_reg(&mut self, dest: RegCode)
        requires
            is_reg8(dest),
        ensures
            unchanged_but_reg(*old(self), *final(self)),
            final(self).reg == spec_inc8(old(self).reg, dest),
    {
        let _ = self.reg.inc_8bit(dest);
    }

    /// `DEC reg`: wrapping 8-bit decrement with its flag bookkeeping.
    pub fn dec_reg(&mut self, dest: RegCode)
        requires
            is_reg8(dest),
        ensures
            unchanged_but_reg(*old(self), *final(self)),
            final(self).reg == spec_dec8(old(self).reg, dest),
    {
        let _ = self.reg.dec_8bit(dest);
    }

    /// `INC (addr)`: fetch, wrapping increment, store; Z and H from the
    /// result, N cleared, Carry untouched.
    pub fn inc_mem_u16(&mut self, bus: &mut VirtualMemory, addr: u16) -> (res: Result<(), GbError>)
        requires
            old(bus).wf(),
        ensures
            final(bus).wf(),
            old(bus).events().is_prefix_of(final(bus).events()),
            unchanged_but_reg(*old(self), *final(self)),
            steps_to(res, final(self).reg, final(bus)@, sem_inc_mem(old(self).reg, old(bus)@, addr)),
            res is Ok ==> final(bus).events() == old(bus).events() + ev_inc_mem(old(bus)@, addr),
    {
        let ghost pre_bus = *bus;
        let v: u8 = match bus.fetch(addr) {
            Ok(b) => b,
            Err(e) => {
                return Err(e);
            },
        };
        let nv: u8 = if v == 0xFF { 0 } else { v + 1 };
        let carry: bool = self.reg.check_flag(Flag::CarryFlag);
        self.reg.set_flags(nv == 0, false, nv % 16 == 0, carry);
        match bus.save(addr, nv) {
            Ok(_) => {
                proof {
                    assert(bus.events() =~= pre_bus.events() + ev_inc_mem(pre_bus@, addr));
                }
                Ok(())
            },
            Err(e) => Err(e),
        }
    }

    /// `DEC (addr)`: fetch, wrapping decrement, store; Z from the result,
    /// N set, H when the low nibble wrapped, Carry untouched.
    pub fn dec_mem_u16(&mut self, bus: &mut VirtualMemory, addr: u16) -> (res: Result<(), GbError>)
        requires
            old(bus).wf(),
        ensures
            final(bus).wf(),
            old(bus).events().is_prefix_of(final(bus).events()),
            unchanged_but_reg(*old(self), *final(self)),
            steps_to(res, final(self).reg, final(bus)@, sem_dec_mem(old(self).reg, old(bus)@, addr)),
            res is Ok ==> final(bus).events() == old(bus).events() + ev_dec_mem(old(bus)@, addr),
    {
        let ghost pre_bus = *bus;
        let v: u8 = match bus.fetch(addr) {
            Ok(b) => b,
            Err(e) => {
                return Err(e);
            },
        };
        let nv: u8 = if v == 0 { 0xFF } else { v - 1 };
        let carry: bool = self.reg.check_flag(Flag::CarryFlag);
        self.reg.set_flags(nv == 0, true, nv % 16 == 0x0F, carry);
        match bus.save(addr, nv) {
            Ok(_) => {
                proof {
                    assert(bus.events() =~= pre_bus.events() + ev_dec_mem(pre_bus@, addr));
                }
                Ok(())
            },
            Err(e) => Err(e),
        }
    }

    /// `XOR A, value`: A becomes `A ^ value`; Z follows the result; N, H
    /// and C cleared.
    pub fn xor(&mut self, value: u8)
        ensures
            unchanged_but_reg(*old(self), *final(self)),
            final(self).reg == sem_xor(old(self).reg, value),
    {
        let nv: u8 = self.reg.a ^ value;
        self.reg.set_flags(nv == 0, false, false, false);
        self.reg.a = nv;
    }

    /// `CP value`: the flags of `A - value` without storing the result.
    pub fn cp(&mut self, value: u8)
        ensures
            unchanged_but_reg(*old(self), *final(self)),
            final(self).reg == sem_cp(old(self).reg, value),
    {
        let a: u8 = self.reg.a;
        self.reg.set_flags(a == value, true, (a % 16) < (value % 16), value > a);
    }

    /// Rotate a byte left once, bit 7 wrapping into bit 0, and set the
    /// rotate flags: carry from old bit 7, N and H cleared, Z from the
    /// result only when asked.
    pub fn rlc_value(&mut self, v: u8, z_from_result: bool) -> (nv: u8)
        ensures
            unchanged_but_reg(*old(self), *final(self)),
            nv == rlc_val(v),
            final(self).reg == spec_with_flags(
                old(self).reg,
                z_from_result && nv == 0,
                false,
                false,
                v >= 0x80,
            ),
    {
        let nv: u8 = (v << 1u8) | (v >> 7u8);
        let carry_out: bool = v >= 0x80;
        self.reg.set_flags(z_from_result && nv == 0, false, false, carry_out);
        nv
    }

    /// Shift a byte left once with the old carry entering bit 0, and set
    /// the rotate flags as in `rlc_value`.
    pub fn rl_value(&mut self, v: u8, z_from_result: bool) -> (nv: u8)
        ensures
            unchanged_but_reg(*old(self), *final(self)),
            nv == rl_val(v, flag_on(old(self).reg.f, Flag::CarryFlag)),
            final(self).reg == spec_with_flags(
                old(self).reg,
                z_from_result && nv == 0,
                false,
                false,
                v >= 0x80,
            ),
    {
        let carry_in: bool = self.reg.check_flag(Flag::CarryFlag);
        let nv: u8 = (v << 1u8) | (if carry_in { 1u8 } else { 0u8 });
        let carry_out: bool = v >= 0x80;
        self.reg.set_flags(z_from_result && nv == 0, false, false, carry_out);
        nv
    }

    /// `RLC reg` (CB form): rotate left with Z taken from the result.
    pub fn rlc(&mut self, r: RegCode)
        requires
            is_reg8(r),
        ensures
            unchanged_but_reg(*old(self), *final(self)),
            final(self).reg == sem_rlc_reg(old(self).reg, r, true),
    {
        let v: u8 = match self.reg.get_8bit(r) {
            Ok(v) => v,
            Err(_) => 0,
        };
        let nv: u8 = self.rlc_value(v, true);
        let _ = self.reg.set_8bit(r, nv);
    }

    /// `RL reg` (CB form): shift left through carry, Z from the result.
    pub fn rl(&mut self, r: RegCode)
        requires
            is_reg8(r),
        ensures
            unchanged_but_reg(*old(self), *final(self)),
            final(self).reg == sem_rl_reg(old(self).reg, r, true),
    {
        let v: u8 = match self.reg.get_8bit(r) {
            Ok(v) => v,
            Err(_) => 0,
        };
        let nv: u8 = self.rl_value(v, true);
        let _ = self.reg.set_8bit(r, nv);
    }

    /// `RLCA`, the one-byte fast form: as `RLC A` but Z is cleared.
    pub fn rlca(&mut self)
        ensures
            unchanged_but_reg(*old(self), *final(self)),
            final(self).reg == sem_rlc_reg(old(self).reg, RegCode::A, false),
    {
        let v: u8 = self.reg.a;
        let nv: u8 = self.rlc_value(v, false);
        self.reg.a = nv;
    }

    /// `RLA`, the one-byte fast form: as `RL A` but Z is cleared.
    pub fn rla(&mut self)
        ensures
            unchanged_but_reg(*old(self), *final(self)),
            final(self).reg == sem_rl_reg(old(self).reg, RegCode::A, false),
    {
        let v: u8 = self.reg.a;
        let nv: u8 = self.rl_value(v, false);
        self.reg.a = nv;
    }

    /// `BIT n`: Z set iff bit `n` of `value` is clear; N cleared; H set;
    /// Carry untouched.
    pub fn check_bit(&mut self, value: u8, n: u8)
        requires
            n < 8,
        ensures
            unchanged_but_reg(*old(self), *final(self)),
            final(self).reg == sem_bit_test(old(self).reg, value, n),
    {
        let mask: u8 = 1u8 << n;
        let carry: bool = self.reg.check_flag(Flag::CarryFlag);
        self.reg.set_flags(value & mask == 0, false, true, carry);
    }

    /// `JP cc, imm16`: the operand is consumed either way; PC moves to it
    /// only when the condition held.
    pub fn jp_cond(&mut self, bus: &mut VirtualMemory, cond: bool) -> (res: Result<(), GbError>)
        requires
            old(bus).wf(),
        ensures
            final(bus).wf(),
            old(bus).events().is_prefix_of(final(bus).events()),
            unchanged_but_reg(*old(self), *final(self)),
            steps_to(res, final(self).reg, final(bus)@, sem_jp_imm(old(self).reg, old(bus)@, cond)),
            res is Ok ==> final(bus).events() == old(bus).events() + ev_read2(
                old(self).reg,
                old(bus)@,
            ),
    {
        let target: u16 = match self.read_next_addr(bus) {
            Ok(t) => t,
            Err(e) => {
                return Err(e);
            },
        };
        if cond {
            self.reg.set_pc(target);
        }
        Ok(())
    }

    /// `JR cc, d8`: the displacement byte is consumed either way; when the
    /// condition held, PC moves by it (signed, relative to the PC after
    /// the operand).
    pub fn jr_cond(&mut self, bus: &mut VirtualMemory, cond: bool) -> (res: Result<(), GbError>)
        requires
            old(bus).wf(),
        ensures
            final(bus).wf(),
            old(bus).events().is_prefix_of(final(bus).events()),
            unchanged_but_reg(*old(self), *final(self)),
            steps_to(res, final(self).reg, final(bus)@, sem_jr_imm(old(self).reg, old(bus)@, cond)),
            res is Ok ==> final(bus).events() == old(bus).events() + ev_read1(
                old(self).reg,
                old(bus)@,
            ),
    {
        let d: u8 = match self.fetch_post_increment(bus) {
            Ok(b) => b,
            Err(e) => {
                return Err(e);
            },
        };
        let pc: u16 = self.reg.pc;
        let disp: i32 = if d >= 0x80 {
            (d as i32) - 256
        } else {
            d as i32
        };
        let t: i32 = (pc as i32) + disp;
        let t2: i32 = if t < 0 {
            t + 0x10000
        } else if t >= 0x10000 {
            t - 0x10000
        } else {
            t
        };
        if cond {
            self.reg.set_pc(t2 as u16);
        }
        Ok(())
    }

    /// `PUSH pair`: SP drops by two; the high byte lands at SP+1, the low
    /// byte at SP.
    pub fn push(&mut self, bus: &mut VirtualMemory, r: RegCode) -> (res: Result<(), GbError>)
        requires
            old(bus).wf(),
            is_pair(r),
        ensures
            final(bus).wf(),
            old(bus).events().is_prefix_of(final(bus).events()),
            unchanged_but_reg(*old(self), *final(self)),
            steps_to(res, final(self).reg, final(bus)@, sem_push(old(self).reg, old(bus)@, r)),
            res is Ok ==> final(bus).events() == old(bus).events() + ev_push(old(self).reg, r),
    {
        let ghost pre_bus = *bus;
        let ghost pre_reg = self.reg;
        let v: u16 = match self.reg.get_16bit(r) {
            Ok(v) => v,
            Err(_) => 0,
        };
        let sp: u16 = self.reg.sp;
        let new_sp: u16 = if sp >= 2 {
            sp - 2
        } else {
            sp + 0xFFFE
        };
        self.reg.sp = new_sp;
        let hi: u8 = (v / 256) as u8;
        let lo: u8 = (v % 256) as u8;
        let hi_addr: u16 = if new_sp == 0xFFFF {
            0
        } else {
            new_sp + 1
        };
        match bus.save(hi_addr, hi) {
            Ok(_) => (),
            Err(e) => {
                return Err(e);
            },
        };
        match bus.save(new_sp, lo) {
            Ok(_) => (),
            Err(e) => {
                return Err(e);
            },
        };
        proof {
            assert(bus.events() =~= pre_bus.events() + ev_push(pre_reg, r));
        }
        Ok(())
    }

    /// `POP pair`: low byte from SP, high from SP+1, SP rises by two; a
    /// pop into AF forces the low nibble of F to zero.
    pub fn pop(&mut self, bus: &mut VirtualMemory, r: RegCode) -> (res: Result<(), GbError>)
        requires
            old(bus).wf(),
            is_pair(r),
        ensures
            final(bus).wf(),
            final(bus)@ == old(bus)@,
            old(bus).events().is_prefix_of(final(bus).events()),
            unchanged_but_reg(*old(self), *final(self)),
            steps_to(res, final(self).reg, final(bus)@, sem_pop(old(self).reg, old(bus)@, r)),
            res is Ok ==> final(bus).events() == old(bus).events() + ev_pop(
                old(self).reg,
                old(bus)@,
            ),
    {
        let ghost pre_bus = *bus;
        let ghost pre_reg = self.reg;
        let sp: u16 = self.reg.sp;
        let lo: u8 = match bus.fetch(sp) {
            Ok(b) => b,
            Err(e) => {
                return Err(e);
            },
        };
        let hi_addr: u16 = if sp == 0xFFFF {
            0
        } else {
            sp + 1
        };
        let hi: u8 = match bus.fetch(hi_addr) {
            Ok(b) => b,
            Err(e) => {
                return Err(e);
            },
        };
        let lo2: u8 = if r == RegCode::AF {
            lo & 0xF0
        } else {
            lo
        };
        let _ = self.reg.set_16bit(r, hi, lo2);
        self.reg.sp = if sp <= 0xFFFD {
            sp + 2
        } else {
            sp - 0xFFFE
        };
        proof {
            assert(bus.events() =~= pre_bus.events() + ev_pop(pre_reg, pre_bus@));
        }
        Ok(())
    }

    /// `CALL cc, imm16`: the operand is consumed either way; when the
    /// condition held, the return address is pushed and PC jumps.
    pub fn call(&mut self, bus: &mut VirtualMemory, cond: bool) -> (res: Result<(), GbError>)
        requires
            old(bus).wf(),
        ensures
            final(bus).wf(),
            old(bus).events().is_prefix_of(final(bus).events()),
            unchanged_but_reg(*old(self), *final(self)),
            steps_to(
                res,
                final(self).reg,
                final(bus)@,
                sem_call_imm(old(self).reg, old(bus)@, cond),
            ),
            res is Ok ==> final(bus).events() == old(bus).events() + ev_call(
                old(self).reg,
                old(bus)@,
                cond,
            ),
    {
        let ghost pre_bus = *bus;
        let ghost pre_reg = self.reg;
        let target: u16 = match self.read_next_addr(bus) {
            Ok(t) => t,
            Err(e) => {
                return Err(e);
            },
        };
        if cond {
            let pc: u16 = self.reg.pc;
            let sp: u16 = self.reg.sp;
            let new_sp: u16 = if sp >= 2 {
                sp - 2
            } else {
                sp + 0xFFFE
            };
            self.reg.sp = new_sp;
            let hi_addr: u16 = if new_sp == 0xFFFF {
                0
            } else {
                new_sp + 1
            };
            match bus.save(hi_addr, (pc / 256) as u8) {
                Ok(_) => (),
                Err(e) => {
                    return Err(e);
                },
            };
            match bus.save(new_sp, (pc % 256) as u8) {
                Ok(_) => (),
                Err(e) => {
                    return Err(e);
                },
            };
            self.reg.pc = target;
        }
        proof {
            assert(bus.events() =~= pre_bus.events() + ev_call(pre_reg, pre_bus@, cond));
        }
        Ok(())
    }

    /// `RET`: PC restored from the stack, SP rises by two.
    pub fn ret(&mut self, bus: &mut VirtualMemory) -> (res: Result<(), GbError>)
        requires
            old(bus).wf(),
        ensures
            final(bus).wf(),
            final(bus)@ == old(bus)@,
            old(bus).events().is_prefix_of(final(bus).events()),
            unchanged_but_reg(*old(self), *final(self)),
            steps_to(res, final(self).reg, final(bus)@, sem_ret(old(self).reg, old(bus)@)),
            res is Ok ==> final(bus).events() == old(bus).events() + ev_pop(
                old(self).reg,
                old(bus)@,
            ),
    {
        let ghost pre_bus = *bus;
        let ghost pre_reg = self.reg;
        let sp: u16 = self.reg.sp;
        let lo: u8 = match bus.fetch(sp) {
            Ok(b) => b,
            Err(e) => {
                return Err(e);
            },
        };
        let hi_addr: u16 = if sp == 0xFFFF {
            0
        } else {
            sp + 1
        };
        let hi: u8 = match bus.fetch(hi_addr) {
            Ok(b) => b,
            Err(e) => {
                return Err(e);
            },
        };
        self.reg.pc = Registers::_8bit_to_16bit(hi, lo);
        self.reg.sp = if sp <= 0xFFFD {
            sp + 2
        } else {
            sp - 0xFFFE
        };
        proof {
            assert(bus.events() =~= pre_bus.events() + ev_pop(pre_reg, pre_bus@));
        }
        Ok(())
    }

    /// `CP imm8`: consume the operand and set the compare flags.
    pub fn cp_d8(&mut self, bus: &mut VirtualMemory) -> (res: Result<(), GbError>)
        requires
            old(bus).wf(),
        ensures
            final(bus).wf(),
            old(bus).events().is_prefix_of(final(bus).events()),
            unchanged_but_reg(*old(self), *final(self)),
            steps_to(res, final(self).reg, final(bus)@, sem_cp_imm8(old(self).reg, old(bus)@)),
            res is Ok ==> final(bus).events() == old(bus).events() + ev_read1(
                old(self).reg,
                old(bus)@,
            ),
    {
        let d: u8 = match self.fetch_post_increment(bus) {
            Ok(b) => b,
            Err(e) => {
                return Err(e);
            },
        };
        self.cp(d);
        Ok(())
    }
}

} // verus!
