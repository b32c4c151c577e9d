//! The CPU: the register file, the loaded cartridge, and the event buffer
//! of the current tick. The decode tables live in `decoder`; the
//! micro-operations they select live in `opcodes`.

use vstd::prelude::*;
use vstd::seq_lib::*;

use crate::cartridge::Cartridge;
use crate::err::GbError;
use crate::events::{LogEvents, LogMessage, LoggableComponent};
use crate::mmu::VirtualMemory;
use crate::reg::{Registers, wrap16_inc};
use crate::semantics::{ev_read1, ev_read2, sem_read1, spec_tick, steps_to, tick_events};

verus! {

/// The event a tick opens with: the address fetched from.
pub open spec fn tick_event(pc: u16) -> LogMessage {
    LogMessage { kind: LogEvents::Tick, addr: pc, value: 0 }
}

/// The processor state driven by `tick`.
pub struct CPU {
    pub reg: Registers,
    pub cartridge: Option<Cartridge>,
    pub log_enabled: bool,
    /// In strict mode an unmapped opcode aborts the tick with
    /// `UnknownOpcode`; in permissive mode it is a silent no-op.
    pub strict: bool,
    pub message_buffer: Vec<LogMessage>,
}

/// Everything a micro-operation must leave alone: the configuration, the
/// cartridge, and the CPU's own event buffer.
pub open spec fn unchanged_but_reg(pre: CPU, post: CPU) -> bool {
    &&& post.cartridge == pre.cartridge
    &&& post.log_enabled == pre.log_enabled
    &&& post.strict == pre.strict
    &&& post.events() == pre.events()
}

impl CPU {
    /// A freshly booted processor in strict decode mode, with no
    /// cartridge and an empty event buffer.
    pub fn new(log: bool) -> (r: Self)
        ensures
            r.reg == Registers::spec_boot(),
            r.cartridge is None,
            r.log_enabled == log,
            r.strict,
            r.events() == Seq::<LogMessage>::empty(),
    {
        CPU {
            reg: Registers::new(),
            cartridge: None,
            log_enabled: log,
            strict: true,
            message_buffer: Vec::new(),
        }
    }

    /// Append one event record to the tick's buffer.
    pub fn log(&mut self, message: LogMessage)
        ensures
            final(self).events() == old(self).events().push(message),
            final(self).reg == old(self).reg,
            final(self).cartridge == old(self).cartridge,
            final(self).log_enabled == old(self).log_enabled,
            final(self).strict == old(self).strict,
    {
        self.message_buffer.push(message);
    }

    /// Remember a parsed cartridge, recording an initialization event.
    pub fn load_cartridge(&mut self, cartridge: Cartridge)
        ensures
            final(self).cartridge == Some(cartridge),
            final(self).reg == old(self).reg,
            final(self).log_enabled == old(self).log_enabled,
            final(self).strict == old(self).strict,
            final(self).events() == old(self).events().push(
                (LogMessage { kind: LogEvents::Initializing, addr: 0, value: 0 }),
            ),
    {
        self.log(LogMessage { kind: LogEvents::Initializing, addr: 0, value: 0 });
        self.cartridge = Some(cartridge);
    }

    /// Point PC somewhere else, recording the move as a register event.
    pub fn set_pc(&mut self, byte: u16)
        ensures
            final(self).reg == (Registers { pc: byte, ..old(self).reg }),
            final(self).cartridge == old(self).cartridge,
            final(self).log_enabled == old(self).log_enabled,
            final(self).strict == old(self).strict,
            final(self).events() == old(self).events().push(
                (LogMessage { kind: LogEvents::Register, addr: old(self).reg.pc, value: byte }),
            ),
    {
        let old_pc: u16 = self.reg.pc;
        self.log(LogMessage { kind: LogEvents::Register, addr: old_pc, value: byte });
        self.reg.set_pc(byte);
    }

    /// Consume one program byte: read the bus at PC, then advance PC with
    /// wrap-around. Surfaces the bus error when PC points past the end of
    /// the address space, leaving the state untouched.
    pub fn fetch_post_increment(&mut self, bus: &mut VirtualMemory) -> (res: Result<u8, GbError>)
        requires
            old(bus).wf(),
        ensures
            final(bus).wf(),
            final(bus)@ == old(bus)@,
            old(bus).events().is_prefix_of(final(bus).events()),
            unchanged_but_reg(*old(self), *final(self)),
            match sem_read1(old(self).reg, old(bus)@) {
                Ok(vr) => {
                    &&& res == Ok::<u8, GbError>(vr.0)
                    &&& final(self).reg == vr.1
                    &&& final(bus).events() == old(bus).events() + ev_read1(
                        old(self).reg,
                        old(bus)@,
                    )
                },
                Err(e) => {
                    &&& res == Err::<u8, GbError>(e)
                    &&& final(self).reg == old(self).reg
                    &&& final(bus).events() == old(bus).events()
                },
            },
    {
        let ghost pre_bus = *bus;
        let ghost pre_reg = self.reg;
        let pc: u16 = self.reg.pc;
        match bus.fetch(pc) {
            Ok(op_code) => {
                self.reg.inc_pc();
                proof {
                    assert(bus.events() =~= pre_bus.events() + ev_read1(pre_reg, pre_bus@));
                }
                Ok(op_code)
            },
            Err(e) => Err(e),
        }
    }

    /// One fetch-decode-execute cycle against `spec_tick`: the CPU's
    /// event buffer restarts with a tick event, the opcode at PC is
    /// consumed and dispatched, and the registers and memory land exactly
    /// where the small-step semantics says. A bus fault or (in strict
    /// mode) an unmapped opcode aborts the tick with that error.
    pub fn tick(&mut self, bus: &mut VirtualMemory) -> (res: Result<(), GbError>)
        requires
            old(bus).wf(),
        ensures
            final(bus).wf(),
            final(self).cartridge == old(self).cartridge,
            final(self).log_enabled == old(self).log_enabled,
            final(self).strict == old(self).strict,
            final(self).events() == seq![tick_event(old(self).reg.pc)],
            old(bus).events().is_prefix_of(final(bus).events()),
            steps_to(
                res,
                final(self).reg,
                final(bus)@,
                spec_tick(old(self).reg, old(bus)@, old(self).strict),
            ),
            res is Ok ==> final(bus).events() == old(bus).events() + tick_events(
                old(self).reg,
                old(bus)@,
            ),
            res == Err::<(), GbError>(GbError::UnknownOpcode) ==> {
                &&& final(bus)@ == old(bus)@
                &&& (old(bus)@[old(self).reg.pc as int] != 0xCB ==> final(self).reg == (Registers {
                    pc: wrap16_inc(old(self).reg.pc),
                    ..old(self).reg
                }) && final(bus).events() == old(bus).events() + ev_read1(
                    old(self).reg,
                    old(bus)@,
                ))
                &&& (old(bus)@[old(self).reg.pc as int] == 0xCB ==> final(self).reg == (Registers {
                    pc: wrap16_inc(wrap16_inc(old(self).reg.pc)),
                    ..old(self).reg
                }) && final(bus).events() == old(bus).events() + ev_read2(
                    old(self).reg,
                    old(bus)@,
                ))
            },
    {
        let ghost pre_bus = *bus;
        let ghost pre_reg = self.reg;
        self.message_buffer.clear();
        let pc: u16 = self.reg.pc;
        self.log(LogMessage { kind: LogEvents::Tick, addr: pc, value: 0 });
        let instruction: u8 = match self.fetch_post_increment(bus) {
            Ok(b) => b,
            Err(e) => {
                return Err(e);
            },
        };
        let res = self.run_opcode(instruction, bus);
        proof {
            if res is Ok {
                assert(bus.events() =~= pre_bus.events() + tick_events(pre_reg, pre_bus@));
            }
            if res == Err::<(), GbError>(GbError::UnknownOpcode) && pre_bus@[pre_reg.pc as int]
                == 0xCB {
                assert(bus.events() =~= pre_bus.events() + ev_read2(pre_reg, pre_bus@));
            }
        }
        res
    }

    /// Hand out the buffered events and clear the buffer; nothing else
    /// changes.
    pub fn drain_events(&mut self) -> (r: Vec<LogMessage>)
        ensures
            r@ == old(self).events(),
            final(self).events() == Seq::<LogMessage>::empty(),
            final(self).reg == old(self).reg,
            final(self).cartridge == old(self).cartridge,
            final(self).log_enabled == old(self).log_enabled,
            final(self).strict == old(self).strict,
    {
        let mut out: Vec<LogMessage> = Vec::new();
        std::mem::swap(&mut out, &mut self.message_buffer);
        out
    }
}

impl LoggableComponent for CPU {
    open spec fn events(&self) -> Seq<LogMessage> {
        self.message_buffer@
    }

    fn dump_log_messages(&mut self) -> (r: Vec<LogMessage>)
        ensures
            final(self).reg == old(self).reg,
            final(self).cartridge == old(self).cartridge,
            final(self).log_enabled == old(self).log_enabled,
            final(self).strict == old(self).strict,
    {
        self.drain_events()
    }
}

} // verus!
