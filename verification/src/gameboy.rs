//! The driver facade: one object holding the CPU, the bus, the debugger
//! state and the session configuration, with the operations a host loop
//! needs — load a cartridge, tick, inspect, drain events.

use vstd::prelude::*;
use vstd::seq_lib::*;

use crate::cartridge::Cartridge;
use crate::cpu::{CPU, tick_event};
use crate::debug::DebuggerState;
use crate::err::GbError;
use crate::events::{LogMessage, LoggableComponent};
use crate::mmu::{MEM_SIZE, VirtualMemory};
use crate::reg::{Registers, wrap16_inc};
use crate::semantics::{ev_read1, ev_read2, spec_tick, steps_to, tick_events};

verus! {

/// Session configuration. The boot-image path is opaque to the core: a
/// hint the host uses to read the image bytes it hands to
/// `load_cartridge`.
#[allow(non_camel_case_types)]
pub struct gb_config {
    pub boot_rom_enabled: bool,
    pub boot_rom_path: String,
    pub debug_mode: bool,
    pub initial_breakpoint: u16,
}

impl gb_config {
    /// A configuration from already-materialized values; reading a
    /// configuration file is the host's business.
    pub fn new(
        boot_rom_enabled: bool,
        boot_rom_path: String,
        debug_mode: bool,
        initial_breakpoint: u16,
    ) -> (r: Self)
        ensures
            r.boot_rom_enabled == boot_rom_enabled,
            r.boot_rom_path == boot_rom_path,
            r.debug_mode == debug_mode,
            r.initial_breakpoint == initial_breakpoint,
    {
        gb_config { boot_rom_enabled, boot_rom_path, debug_mode, initial_breakpoint }
    }
}

/// A memory image with another image laid over its low prefix.
pub open spec fn overlay(base: Seq<u8>, img: Seq<u8>) -> Seq<u8> {
    Seq::new(base.len(), |i: int| if i < img.len() { img[i] } else { base[i] })
}

/// The byte sequence behind an optional boot image; empty when absent.
pub open spec fn boot_view(boot: Option<&Vec<u8>>) -> Seq<u8> {
    match boot {
        Some(b) => b@,
        None => Seq::<u8>::empty(),
    }
}

/// The whole emulated machine plus its debugger state.
pub struct Gameboy {
    pub cpu: CPU,
    pub mmu: VirtualMemory,
    pub cfg: gb_config,
    pub cartridge: Option<Cartridge>,
    pub state: DebuggerState,
}

/// The hooks a host driver implements around the machine's run loop.
pub trait ExternalHook {
    /// Called once before the first tick.
    fn when_started(gb: &mut Gameboy);

    /// Called before each tick.
    fn before_tick(gb: &mut Gameboy);

    /// Called after each tick.
    fn after_tick(gb: &mut Gameboy);
}

impl Gameboy {
    /// A fresh machine: booted CPU, zeroed bus, no cartridge, no
    /// breakpoints.
    pub fn new(cfg: gb_config) -> (r: Self)
        ensures
            r.cpu.reg == Registers::spec_boot(),
            r.cpu.cartridge is None,
            r.cpu.strict,
            r.cpu.events() == Seq::<LogMessage>::empty(),
            r.mmu.wf(),
            forall|i: int| 0 <= i < MEM_SIZE ==> r.mmu@[i] == 0u8,
            r.mmu.events() == Seq::<LogMessage>::empty(),
            r.cartridge is None,
            r.state.breakpoints@.len() == 0,
            !r.state.break_next,
            !r.state.log_next,
            r.cfg == cfg,
    {
        Gameboy {
            cpu: CPU::new(false),
            mmu: VirtualMemory::new(),
            cfg,
            cartridge: None,
            state: DebuggerState::new(),
        }
    }

    /// Seed the bus with a cartridge image, lay the boot image over it
    /// when the configuration asks for one, and point PC at 0x0100
    /// otherwise (a boot image starts at zero). Rejects images that do
    /// not fit the address space.
    pub fn load_cartridge(&mut self, cartridge: Cartridge, boot_rom: Option<&Vec<u8>>) -> (r:
        Result<usize, GbError>)
        requires
            old(self).mmu.wf(),
        ensures
            final(self).mmu.wf(),
            final(self).cfg == old(self).cfg,
            final(self).state == old(self).state,
            r is Ok <==> cartridge.content@.len() < MEM_SIZE && (old(self).cfg.boot_rom_enabled
                && boot_rom is Some ==> boot_view(boot_rom).len() < MEM_SIZE),
            r is Ok ==> {
                &&& r == Ok::<usize, GbError>(cartridge.content@.len() as usize)
                &&& final(self).cartridge == Some(cartridge)
            },
            (r is Ok && old(self).cfg.boot_rom_enabled && boot_rom is None) ==> {
                &&& final(self).mmu@ == overlay(old(self).mmu@, cartridge.content@)
                &&& final(self).cpu == old(self).cpu
            },
            (r is Ok && old(self).cfg.boot_rom_enabled && boot_rom is Some) ==> {
                &&& boot_view(boot_rom).len() < MEM_SIZE
                &&& final(self).mmu@ == overlay(overlay(old(self).mmu@, cartridge.content@), boot_view(boot_rom))
                &&& final(self).cpu == old(self).cpu
            },
            (r is Ok && !old(self).cfg.boot_rom_enabled) ==> {
                &&& final(self).mmu@ == overlay(old(self).mmu@, cartridge.content@)
                &&& final(self).cpu.reg == (Registers { pc: 0x100, ..old(self).cpu.reg })
                &&& final(self).cpu.cartridge == old(self).cpu.cartridge
                &&& final(self).cpu.strict == old(self).cpu.strict
                &&& final(self).cpu.log_enabled == old(self).cpu.log_enabled
                &&& final(self).cpu.events() == old(self).cpu.events()
            },
            r is Err ==> r == Err::<usize, GbError>(GbError::RomTooLarge),
    {
        let size: usize = match self.mmu.load_rom(cartridge.content.as_slice()) {
            Ok(n) => n,
            Err(e) => {
                return Err(e);
            },
        };
        proof {
            assert(self.mmu@ =~= overlay(old(self).mmu@, cartridge.content@));
        }
        self.cartridge = Some(cartridge);
        if self.cfg.boot_rom_enabled {
            match boot_rom {
                Some(b) => {
                    let ghost mid = self.mmu@;
                    match self.mmu.load_rom(b.as_slice()) {
                        Ok(_) => {
                            proof {
                                assert(self.mmu@ =~= overlay(mid, b@));
                            }
                        },
                        Err(e) => {
                            return Err(e);
                        },
                    }
                },
                None => {},
            }
        } else {
            self.cpu.reg.set_pc(0x100);
        }
        Ok(size)
    }

    /// One fetch-decode-execute cycle of the machine, against
    /// `spec_tick`.
    pub fn tick(&mut self) -> (res: Result<(), GbError>)
        requires
            old(self).mmu.wf(),
        ensures
            final(self).mmu.wf(),
            final(self).cfg == old(self).cfg,
            final(self).state == old(self).state,
            final(self).cartridge == old(self).cartridge,
            final(self).cpu.cartridge == old(self).cpu.cartridge,
            final(self).cpu.log_enabled == old(self).cpu.log_enabled,
            final(self).cpu.strict == old(self).cpu.strict,
            final(self).cpu.events() == seq![tick_event(old(self).cpu.reg.pc)],
            old(self).mmu.events().is_prefix_of(final(self).mmu.events()),
            steps_to(
                res,
                final(self).cpu.reg,
                final(self).mmu@,
                spec_tick(old(self).cpu.reg, old(self).mmu@, old(self).cpu.strict),
            ),
            res is Ok ==> final(self).mmu.events() == old(self).mmu.events() + tick_events(
                old(self).cpu.reg,
                old(self).mmu@,
            ),
            res == Err::<(), GbError>(GbError::UnknownOpcode) ==> {
                &&& final(self).mmu@ == old(self).mmu@
                &&& (old(self).mmu@[old(self).cpu.reg.pc as int] != 0xCB ==> final(self).cpu.reg
                    == (Registers { pc: wrap16_inc(old(self).cpu.reg.pc), ..old(self).cpu.reg })
                    && final(self).mmu.events() == old(self).mmu.events() + ev_read1(
                    old(self).cpu.reg,
                    old(self).mmu@,
                ))
                &&& (old(self).mmu@[old(self).cpu.reg.pc as int] == 0xCB ==> final(self).cpu.reg
                    == (Registers {
                    pc: wrap16_inc(wrap16_inc(old(self).cpu.reg.pc)),
                    ..old(self).cpu.reg
                }) && final(self).mmu.events() == old(self).mmu.events() + ev_read2(
                    old(self).cpu.reg,
                    old(self).mmu@,
                ))
            },
    {
        self.cpu.tick(&mut self.mmu)
    }

    /// A copy of the register file, for inspection.
    pub fn registers(&self) -> (r: Registers)
        ensures
            r == self.cpu.reg,
    {
        self.cpu.reg
    }

    /// The byte at an address, without recording an event.
    pub fn peek(&self, addr: u16) -> (r: Result<u8, GbError>)
        requires
            self.mmu.wf(),
        ensures
            addr < MEM_SIZE ==> r == Ok::<u8, GbError>(self.mmu@[addr as int]),
            addr >= MEM_SIZE ==> r == Err::<u8, GbError>(GbError::BusError),
    {
        self.mmu.peek(addr)
    }

    /// Point PC somewhere else, recording the move as a register event.
    pub fn set_pc(&mut self, byte: u16)
        ensures
            final(self).cpu.reg == (Registers { pc: byte, ..old(self).cpu.reg }),
            final(self).cpu.cartridge == old(self).cpu.cartridge,
            final(self).cpu.log_enabled == old(self).cpu.log_enabled,
            final(self).cpu.strict == old(self).cpu.strict,
            final(self).mmu == old(self).mmu,
            final(self).cfg == old(self).cfg,
            final(self).state == old(self).state,
            final(self).cartridge == old(self).cartridge,
    {
        self.cpu.set_pc(byte);
    }

    /// Drain both event buffers — the CPU's, then the bus's — into one
    /// ordered batch.
    pub fn drain_events(&mut self) -> (r: Vec<LogMessage>)
        ensures
            r@ == old(self).cpu.events() + old(self).mmu.events(),
            final(self).cpu.events() == Seq::<LogMessage>::empty(),
            final(self).mmu.events() == Seq::<LogMessage>::empty(),
            final(self).cpu.reg == old(self).cpu.reg,
            final(self).cpu.cartridge == old(self).cpu.cartridge,
            final(self).cpu.log_enabled == old(self).cpu.log_enabled,
            final(self).cpu.strict == old(self).cpu.strict,
            final(self).mmu@ == old(self).mmu@,
            final(self).mmu.wf() == old(self).mmu.wf(),
            final(self).cfg == old(self).cfg,
            final(self).state == old(self).state,
            final(self).cartridge == old(self).cartridge,
    {
        let mut out: Vec<LogMessage> = self.cpu.drain_events();
        let mut from_bus: Vec<LogMessage> = self.mmu.drain_events();
        out.append(&mut from_bus);
        out
    }

    /// Arm a breakpoint.
    pub fn breakpoint_add(&mut self, addr: u16)
        ensures
            final(self).state.breakpoints@ == old(self).state.breakpoints@.push(addr),
            final(self).state.break_next == old(self).state.break_next,
            final(self).state.log_next == old(self).state.log_next,
            final(self).cpu == old(self).cpu,
            final(self).mmu == old(self).mmu,
            final(self).cfg == old(self).cfg,
            final(self).cartridge == old(self).cartridge,
    {
        self.state.breakpoints.push(addr);
    }

    /// Disarm every breakpoint on an address.
    pub fn breakpoint_remove(&mut self, addr: u16)
        ensures
            final(self).state.breakpoints@ == old(self).state.breakpoints@.filter(
                |b: u16| b != addr,
            ),
            final(self).state.break_next == old(self).state.break_next,
            final(self).state.log_next == old(self).state.log_next,
            final(self).cpu == old(self).cpu,
            final(self).mmu == old(self).mmu,
            final(self).cfg == old(self).cfg,
            final(self).cartridge == old(self).cartridge,
    {
        self.state.remove_breakpoint(addr);
    }

    /// Whether the debugger should pause before the instruction at
    /// `addr`: a breakpoint sits there, or single-stepping is armed.
    pub fn should_stop(&self, addr: u16) -> (r: bool)
        ensures
            r == (self.state.breakpoints@.contains(addr) || self.state.break_next),
    {
        self.state.has_breakpoint(addr) || self.state.break_next
    }
}

} // verus!
