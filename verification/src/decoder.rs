//! The decode tables: the primary opcode map and the CB-prefixed
//! extension map. Every arm is proved to step the machine exactly as
//! `semantics::spec_run_op` says.

use vstd::prelude::*;
use vstd::seq_lib::*;

use crate::cpu::{CPU, unchanged_but_reg};
use crate::err::GbError;
use crate::events::{LogMessage, LoggableComponent};
use crate::mmu::VirtualMemory;
use crate::reg::{Flag, RegCode, Registers, spec_get8, spec_get16, wrap16_inc};
use crate::semantics::{
    ev_cb, ev_cb_op, ev_fetch, ev_hl_operand, ev_ld_grid, ev_read1, ev_save, op_events,
    reg8_of_idx, sem_cb, sem_cb_op, sem_cb_read, sem_cb_write, sem_cp_row, sem_ld_grid,
    sem_xor_row, spec_run_op, steps_to,
};

verus! {

broadcast use {Seq::add_empty_right, Seq::push_distributes_over_add};


/// The byte-wide register the three low opcode bits name inside the
/// grids. Index six names `(HL)` and is handled by the callers.
pub fn reg_of_idx(i: u8) -> (r: RegCode)
    requires
        i < 8,
        i != 6,
    ensures
        r == reg8_of_idx(i as int),
{
    match i {
        0 => RegCode::B,
        1 => RegCode::C,
        2 => RegCode::D,
        3 => RegCode::E,
        4 => RegCode::H,
        5 => RegCode::L,
        _ => RegCode::A,
    }
}

impl CPU {
    /// The value of the byte-wide register with grid index `i`.
    fn read_reg_idx(&self, i: u8) -> (r: u8)
        requires
            i < 8,
            i != 6,
        ensures
            r == spec_get8(self.reg, reg8_of_idx(i as int)),
    {
        match i {
            0 => self.reg.b,
            1 => self.reg.c,
            2 => self.reg.d,
            3 => self.reg.e,
            4 => self.reg.h,
            5 => self.reg.l,
            _ => self.reg.a,
        }
    }

    /// The address the HL pair points at.
    fn hl_addr(&self) -> (r: u16)
        ensures
            r == spec_get16(self.reg, RegCode::HL),
    {
        Registers::_8bit_to_16bit(self.reg.h, self.reg.l)
    }

    /// The `LD r, r'` grid, 0x40–0x7F: plain register moves, with `(HL)`
    /// on row and column six and HALT at 0x76 as a no-op at this scope.
    fn run_ld_grid(&mut self, op: u8, bus: &mut VirtualMemory) -> (res: Result<(), GbError>)
        requires
            old(bus).wf(),
            0x40 <= op < 0x80,
        ensures
            final(bus).wf(),
            old(bus).events().is_prefix_of(final(bus).events()),
            unchanged_but_reg(*old(self), *final(self)),
            steps_to(res, final(self).reg, final(bus)@, sem_ld_grid(op, old(self).reg, old(bus)@)),
            res is Ok ==> final(bus).events() == old(bus).events() + ev_ld_grid(
                op,
                old(self).reg,
                old(bus)@,
            ),
    {
        if op == 0x76 {
            return Ok(());
        }
        let d: u8 = (op / 8) % 8;
        let s: u8 = op % 8;
        if d == 6 {
            let addr: u16 = self.hl_addr();
            let v: u8 = self.read_reg_idx(s);
            self.ld_mem_u8(bus, addr, v)
        } else if s == 6 {
            let addr: u16 = self.hl_addr();
            self.ld_reg_u16_addr(bus, reg_of_idx(d), addr)
        } else {
            let v: u8 = self.read_reg_idx(s);
            self.ld_reg_u8(reg_of_idx(d), v);
            Ok(())
        }
    }

    /// The `XOR r` row, 0xA8–0xAF, with `(HL)` at 0xAE.
    fn run_xor_row(&mut self, op: u8, bus: &mut VirtualMemory) -> (res: Result<(), GbError>)
        requires
            old(bus).wf(),
            0xA8 <= op <= 0xAF,
        ensures
            final(bus).wf(),
            old(bus).events().is_prefix_of(final(bus).events()),
            unchanged_but_reg(*old(self), *final(self)),
            steps_to(res, final(self).reg, final(bus)@, sem_xor_row(op, old(self).reg, old(bus)@)),
            res is Ok ==> final(bus).events() == old(bus).events() + ev_hl_operand(
                op,
                old(self).reg,
                old(bus)@,
            ),
    {
        let ghost pre_bus = *bus;
        let s: u8 = op % 8;
        if s == 6 {
            let addr: u16 = self.hl_addr();
            let v: u8 = match bus.fetch(addr) {
                Ok(b) => b,
                Err(e) => {
                    return Err(e);
                },
            };
            self.xor(v);
            proof {
                assert(bus.events() =~= pre_bus.events() + ev_fetch(pre_bus@, addr));
            }
            Ok(())
        } else {
            let v: u8 = self.read_reg_idx(s);
            self.xor(v);
            Ok(())
        }
    }

    /// The `CP r` row, 0xB8–0xBF, with `(HL)` at 0xBE.
    fn run_cp_row(&mut self, op: u8, bus: &mut VirtualMemory) -> (res: Result<(), GbError>)
        requires
            old(bus).wf(),
            0xB8 <= op <= 0xBF,
        ensures
            final(bus).wf(),
            old(bus).events().is_prefix_of(final(bus).events()),
            unchanged_but_reg(*old(self), *final(self)),
            steps_to(res, final(self).reg, final(bus)@, sem_cp_row(op, old(self).reg, old(bus)@)),
            res is Ok ==> final(bus).events() == old(bus).events() + ev_hl_operand(
                op,
                old(self).reg,
                old(bus)@,
            ),
    {
        let ghost pre_bus = *bus;
        let s: u8 = op % 8;
        if s == 6 {
            let addr: u16 = self.hl_addr();
            let v: u8 = match bus.fetch(addr) {
                Ok(b) => b,
                Err(e) => {
                    return Err(e);
                },
            };
            self.cp(v);
            proof {
                assert(bus.events() =~= pre_bus.events() + ev_fetch(pre_bus@, addr));
            }
            Ok(())
        } else {
            let v: u8 = self.read_reg_idx(s);
            self.cp(v);
            Ok(())
        }
    }

    /// Read the CB-grid target: a register, or the byte behind HL.
    fn cb_read_target(&self, bus: &mut VirtualMemory, t: u8) -> (res: Result<u8, GbError>)
        requires
            old(bus).wf(),
            t < 8,
        ensures
            final(bus).wf(),
            final(bus)@ == old(bus)@,
            old(bus).events().is_prefix_of(final(bus).events()),
            match sem_cb_read(self.reg, old(bus)@, t as int) {
                Ok(v) => res == Ok::<u8, GbError>(v),
                Err(e) => res == Err::<u8, GbError>(e),
            },
            res is Ok ==> final(bus).events() == old(bus).events() + (if t == 6 {
                ev_fetch(old(bus)@, spec_get16(self.reg, RegCode::HL))
            } else {
                Seq::<LogMessage>::empty()
            }),
    {
        let ghost pre_bus = *bus;
        if t == 6 {
            let addr: u16 = self.hl_addr();
            match bus.fetch(addr) {
                Ok(b) => {
                    proof {
                        assert(bus.events() =~= pre_bus.events() + ev_fetch(pre_bus@, addr));
                    }
                    Ok(b)
                },
                Err(e) => Err(e),
            }
        } else {
            Ok(self.read_reg_idx(t))
        }
    }

    /// Write the CB-grid target: a register, or the byte behind HL.
    fn cb_write_target(&mut self, bus: &mut VirtualMemory, t: u8, v: u8) -> (res: Result<
        (),
        GbError,
    >)
        requires
            old(bus).wf(),
            t < 8,
        ensures
            final(bus).wf(),
            old(bus).events().is_prefix_of(final(bus).events()),
            unchanged_but_reg(*old(self), *final(self)),
            steps_to(
                res,
                final(self).reg,
                final(bus)@,
                sem_cb_write(old(self).reg, old(bus)@, t as int, v),
            ),
            res is Ok ==> final(bus).events() == old(bus).events() + (if t == 6 {
                ev_save(spec_get16(old(self).reg, RegCode::HL), v)
            } else {
                Seq::<LogMessage>::empty()
            }),
    {
        if t == 6 {
            let addr: u16 = self.hl_addr();
            self.ld_mem_u8(bus, addr, v)
        } else {
            self.ld_reg_u8(reg_of_idx(t), v);
            Ok(())
        }
    }

    /// One CB operation past the prefix byte: `RLC`/`RL` in the low
    /// block, `BIT`, `RES` and `SET` above it; anything else is an
    /// unknown opcode.
    fn run_cb_op(&mut self, sub: u8, bus: &mut VirtualMemory) -> (res: Result<(), GbError>)
        requires
            old(bus).wf(),
        ensures
            final(bus).wf(),
            old(bus).events().is_prefix_of(final(bus).events()),
            unchanged_but_reg(*old(self), *final(self)),
            steps_to(
                res,
                final(self).reg,
                final(bus)@,
                sem_cb_op(sub, old(self).reg, old(bus)@, old(self).strict),
            ),
            res is Ok ==> final(bus).events() == old(bus).events() + ev_cb_op(
                sub,
                old(self).reg,
                old(bus)@,
            ),
            res == Err::<(), GbError>(GbError::UnknownOpcode) ==> {
                &&& final(self).reg == old(self).reg
                &&& final(bus)@ == old(bus)@
                &&& final(bus).events() == old(bus).events()
            },
    {
        let ghost pre_bus = *bus;
        let ghost pre_reg = self.reg;
        let blk: u8 = sub / 64;
        let n: u8 = (sub / 8) % 8;
        let t: u8 = sub % 8;
        if blk == 0 {
            if n == 0 {
                let v: u8 = match self.cb_read_target(bus, t) {
                    Ok(b) => b,
                    Err(e) => {
                        return Err(e);
                    },
                };
                let nv: u8 = self.rlc_value(v, true);
                let res = self.cb_write_target(bus, t, nv);
                proof {
                    if res is Ok {
                        assert(bus.events() =~= pre_bus.events() + ev_cb_op(
                            sub,
                            pre_reg,
                            pre_bus@,
                        ));
                    }
                }
                res
            } else if n == 2 {
                let v: u8 = match self.cb_read_target(bus, t) {
                    Ok(b) => b,
                    Err(e) => {
                        return Err(e);
                    },
                };
                let nv: u8 = self.rl_value(v, true);
                let res = self.cb_write_target(bus, t, nv);
                proof {
                    if res is Ok {
                        assert(bus.events() =~= pre_bus.events() + ev_cb_op(
                            sub,
                            pre_reg,
                            pre_bus@,
                        ));
                    }
                }
                res
            } else if self.strict {
                Err(GbError::UnknownOpcode)
            } else {
                Ok(())
            }
        } else if blk == 1 {
            let v: u8 = match self.cb_read_target(bus, t) {
                Ok(b) => b,
                Err(e) => {
                    return Err(e);
                },
            };
            self.check_bit(v, n);
            Ok(())
        } else if blk == 2 {
            let v: u8 = match self.cb_read_target(bus, t) {
                Ok(b) => b,
                Err(e) => {
                    return Err(e);
                },
            };
            let mask: u8 = 1u8 << n;
            let res = self.cb_write_target(bus, t, v & !mask);
            proof {
                if res is Ok {
                    assert(bus.events() =~= pre_bus.events() + ev_cb_op(sub, pre_reg, pre_bus@));
                }
            }
            res
        } else {
            let v: u8 = match self.cb_read_target(bus, t) {
                Ok(b) => b,
                Err(e) => {
                    return Err(e);
                },
            };
            let mask: u8 = 1u8 << n;
            let res = self.cb_write_target(bus, t, v | mask);
            proof {
                if res is Ok {
                    assert(bus.events() =~= pre_bus.events() + ev_cb_op(sub, pre_reg, pre_bus@));
                }
            }
            res
        }
    }

    /// The CB prefix: consume the second opcode byte and run its
    /// operation.
    pub fn prefixed_opcode(&mut self, bus: &mut VirtualMemory) -> (res: Result<(), GbError>)
        requires
            old(bus).wf(),
        ensures
            final(bus).wf(),
            old(bus).events().is_prefix_of(final(bus).events()),
            unchanged_but_reg(*old(self), *final(self)),
            steps_to(
                res,
                final(self).reg,
                final(bus)@,
                sem_cb(old(self).reg, old(bus)@, old(self).strict),
            ),
            res is Ok ==> final(bus).events() == old(bus).events() + ev_cb(
                old(self).reg,
                old(bus)@,
            ),
            res == Err::<(), GbError>(GbError::UnknownOpcode) ==> {
                &&& final(self).reg == (Registers {
                    pc: wrap16_inc(old(self).reg.pc),
                    ..old(self).reg
                })
                &&& final(bus)@ == old(bus)@
                &&& final(bus).events() == old(bus).events() + ev_read1(old(self).reg, old(bus)@)
            },
    {
        let ghost pre_bus = *bus;
        let ghost pre_reg = self.reg;
        let sub: u8 = match self.fetch_post_increment(bus) {
            Ok(b) => b,
            Err(e) => {
                return Err(e);
            },
        };
        let res = self.run_cb_op(sub, bus);
        proof {
            if res is Ok {
                assert(bus.events() =~= pre_bus.events() + ev_cb(pre_reg, pre_bus@));
            }
        }
        res
    }

    /// The primary-table arms below 0x40: loads, increments, decrements,
    /// the accumulator rotates and the relative jumps.
    fn run_op_low(&mut self, op: u8, bus: &mut VirtualMemory) -> (res: Result<(), GbError>)
        requires
            old(bus).wf(),
            op < 0x40,
        ensures
            final(bus).wf(),
            old(bus).events().is_prefix_of(final(bus).events()),
            unchanged_but_reg(*old(self), *final(self)),
            steps_to(
                res,
                final(self).reg,
                final(bus)@,
                spec_run_op(op, old(self).reg, old(bus)@, old(self).strict),
            ),
            res is Ok ==> final(bus).events() == old(bus).events() + op_events(
                op,
                old(self).reg,
                old(bus)@,
            ),
            res == Err::<(), GbError>(GbError::UnknownOpcode) ==> {
                &&& final(self).reg == old(self).reg
                &&& final(bus)@ == old(bus)@
                &&& final(bus).events() == old(bus).events()
            },
    {
        match op {
            0x00 => Ok(()),
            0x01 => self.ld_reg_u16_direct(bus, RegCode::BC),
            0x11 => self.ld_reg_u16_direct(bus, RegCode::DE),
            0x21 => self.ld_reg_u16_direct(bus, RegCode::HL),
            0x31 => self.ld_reg_u16_direct(bus, RegCode::SP),
            0x02 => {
                let addr: u16 = Registers::_8bit_to_16bit(self.reg.b, self.reg.c);
                let value: u8 = self.reg.a;
                self.ld_mem_u8(bus, addr, value)
            },
            0x12 => {
                let addr: u16 = Registers::_8bit_to_16bit(self.reg.d, self.reg.e);
                let value: u8 = self.reg.a;
                self.ld_mem_u8(bus, addr, value)
            },
            0x22 => {
                let addr: u16 = self.hl_addr();
                let value: u8 = self.reg.a;
                self.ldi_mem_u8(bus, addr, value)
            },
            0x32 => {
                let addr: u16 = self.hl_addr();
                let value: u8 = self.reg.a;
                self.ldd_mem_u8(bus, addr, value)
            },
            0x04 => {
                self.inc_reg(RegCode::B);
                Ok(())
            },
            0x14 => {
                self.inc_reg(RegCode::D);
                Ok(())
            },
            0x24 => {
                self.inc_reg(RegCode::H);
                Ok(())
            },
            0x34 => {
                let addr: u16 = self.hl_addr();
                self.inc_mem_u16(bus, addr)
            },
            0x05 => {
                self.dec_reg(RegCode::B);
                Ok(())
            },
            0x15 => {
                self.dec_reg(RegCode::D);
                Ok(())
            },
            0x25 => {
                self.dec_reg(RegCode::H);
                Ok(())
            },
            0x35 => {
                let addr: u16 = self.hl_addr();
                self.dec_mem_u16(bus, addr)
            },
            0x06 => self.ld_reg_u8_direct(bus, RegCode::B),
            0x16 => self.ld_reg_u8_direct(bus, RegCode::D),
            0x26 => self.ld_reg_u8_direct(bus, RegCode::H),
            0x36 => {
                let addr: u16 = self.hl_addr();
                self.ld_mem_d8(bus, addr)
            },
            0x07 => {
                self.rlca();
                Ok(())
            },
            0x17 => {
                self.rla();
                Ok(())
            },
            0x0A => {
                let addr: u16 = Registers::_8bit_to_16bit(self.reg.b, self.reg.c);
                self.ld_reg_u16_addr(bus, RegCode::A, addr)
            },
            0x1A => {
                let addr: u16 = Registers::_8bit_to_16bit(self.reg.d, self.reg.e);
                self.ld_reg_u16_addr(bus, RegCode::A, addr)
            },
            0x2A => {
                let addr: u16 = self.hl_addr();
                self.ldi_reg_u16_addr(bus, RegCode::A, addr)
            },
            0x3A => {
                let addr: u16 = self.hl_addr();
                self.ldd_reg_u16_addr(bus, RegCode::A, addr)
            },
            0x0C => {
                self.inc_reg(RegCode::C);
                Ok(())
            },
            0x1C => {
                self.inc_reg(RegCode::E);
                Ok(())
            },
            0x2C => {
                self.inc_reg(RegCode::L);
                Ok(())
            },
            0x3C => {
                self.inc_reg(RegCode::A);
                Ok(())
            },
            0x0E => self.ld_reg_u8_direct(bus, RegCode::C),
            0x1E => self.ld_reg_u8_direct(bus, RegCode::E),
            0x2E => self.ld_reg_u8_direct(bus, RegCode::L),
            0x3E => self.ld_reg_u8_direct(bus, RegCode::A),
            0x18 => self.jr_cond(bus, true),
            0x20 => {
                let cond: bool = !self.reg.check_flag(Flag::Zero);
                self.jr_cond(bus, cond)
            },
            0x28 => {
                let cond: bool = self.reg.check_flag(Flag::Zero);
                self.jr_cond(bus, cond)
            },
            0x30 => {
                let cond: bool = !self.reg.check_flag(Flag::CarryFlag);
                self.jr_cond(bus, cond)
            },
            0x38 => {
                let cond: bool = self.reg.check_flag(Flag::CarryFlag);
                self.jr_cond(bus, cond)
            },
            _ => {
                if self.strict {
                    Err(GbError::UnknownOpcode)
                } else {
                    Ok(())
                }
            },
        }
    }

    /// The primary-table arms at 0x80 and above: the jumps, calls,
    /// returns, stack traffic, high-page loads, the immediate compare and
    /// the CB prefix.
    fn run_op_high(&mut self, op: u8, bus: &mut VirtualMemory) -> (res: Result<(), GbError>)
        requires
            old(bus).wf(),
            op >= 0x80,
            !(0xA8 <= op <= 0xAF),
            !(0xB8 <= op <= 0xBF),
        ensures
            final(bus).wf(),
            old(bus).events().is_prefix_of(final(bus).events()),
            unchanged_but_reg(*old(self), *final(self)),
            steps_to(
                res,
                final(self).reg,
                final(bus)@,
                spec_run_op(op, old(self).reg, old(bus)@, old(self).strict),
            ),
            res is Ok ==> final(bus).events() == old(bus).events() + op_events(
                op,
                old(self).reg,
                old(bus)@,
            ),
            res == Err::<(), GbError>(GbError::UnknownOpcode) ==> {
                &&& final(bus)@ == old(bus)@
                &&& (op != 0xCB ==> final(self).reg == old(self).reg && final(bus).events() == old(
                    bus,
                ).events())
                &&& (op == 0xCB ==> final(self).reg == (Registers {
                    pc: wrap16_inc(old(self).reg.pc),
                    ..old(self).reg
                }) && final(bus).events() == old(bus).events() + ev_read1(
                    old(self).reg,
                    old(bus)@,
                ))
            },
    {
        match op {
            0xC3 => self.jp_cond(bus, true),
            0xC2 => {
                let cond: bool = !self.reg.check_flag(Flag::Zero);
                self.jp_cond(bus, cond)
            },
            0xCA => {
                let cond: bool = self.reg.check_flag(Flag::Zero);
                self.jp_cond(bus, cond)
            },
            0xD2 => {
                let cond: bool = !self.reg.check_flag(Flag::CarryFlag);
                self.jp_cond(bus, cond)
            },
            0xDA => {
                let cond: bool = self.reg.check_flag(Flag::CarryFlag);
                self.jp_cond(bus, cond)
            },
            0xCD => self.call(bus, true),
            0xC4 => {
                let cond: bool = !self.reg.check_flag(Flag::Zero);
                self.call(bus, cond)
            },
            0xCC => {
                let cond: bool = self.reg.check_flag(Flag::Zero);
                self.call(bus, cond)
            },
            0xD4 => {
                let cond: bool = !self.reg.check_flag(Flag::CarryFlag);
                self.call(bus, cond)
            },
            0xDC => {
                let cond: bool = self.reg.check_flag(Flag::CarryFlag);
                self.call(bus, cond)
            },
            0xC9 => self.ret(bus),
            0xC5 => self.push(bus, RegCode::BC),
            0xD5 => self.push(bus, RegCode::DE),
            0xE5 => self.push(bus, RegCode::HL),
            0xF5 => self.push(bus, RegCode::AF),
            0xC1 => self.pop(bus, RegCode::BC),
            0xD1 => self.pop(bus, RegCode::DE),
            0xE1 => self.pop(bus, RegCode::HL),
            0xF1 => self.pop(bus, RegCode::AF),
            0xE0 => self.ldh_a8_a(bus),
            0xF0 => self.ldh_a_d8(bus),
            0xE2 => self.ldh_regc_a(bus),
            0xF2 => self.ldh_a_regc(bus),
            0xFE => self.cp_d8(bus),
            0xCB => self.prefixed_opcode(bus),
            _ => {
                if self.strict {
                    Err(GbError::UnknownOpcode)
                } else {
                    Ok(())
                }
            },
        }
    }

    /// Dispatch one already-fetched opcode byte through the primary
    /// table.
    pub fn run_opcode(&mut self, opcode: u8, bus: &mut VirtualMemory) -> (res: Result<(), GbError>)
        requires
            old(bus).wf(),
        ensures
            final(bus).wf(),
            old(bus).events().is_prefix_of(final(bus).events()),
            unchanged_but_reg(*old(self), *final(self)),
            steps_to(
                res,
                final(self).reg,
                final(bus)@,
                spec_run_op(opcode, old(self).reg, old(bus)@, old(self).strict),
            ),
            res is Ok ==> final(bus).events() == old(bus).events() + op_events(
                opcode,
                old(self).reg,
                old(bus)@,
            ),
            res == Err::<(), GbError>(GbError::UnknownOpcode) ==> {
                &&& final(bus)@ == old(bus)@
                &&& (opcode != 0xCB ==> final(self).reg == old(self).reg && final(bus).events()
                    == old(bus).events())
                &&& (opcode == 0xCB ==> final(self).reg == (Registers {
                    pc: wrap16_inc(old(self).reg.pc),
                    ..old(self).reg
                }) && final(bus).events() == old(bus).events() + ev_read1(
                    old(self).reg,
                    old(bus)@,
                ))
            },
    {
        if 0x40 <= opcode && opcode < 0x80 {
            self.run_ld_grid(opcode, bus)
        } else if 0xA8 <= opcode && opcode <= 0xAF {
            self.run_xor_row(opcode, bus)
        } else if 0xB8 <= opcode && opcode <= 0xBF {
            self.run_cp_row(opcode, bus)
        } else if opcode < 0x40 {
            self.run_op_low(opcode, bus)
        } else {
            self.run_op_high(opcode, bus)
        }
    }
}

} // verus!
