//! The memory bus: a flat byte-addressable space of 0xFFFF cells. Every
//! read appends a fetch-class event and every write a save-class event
//! (VRAM-class for addresses in 0x8000–0x9FFF) to an internal buffer.

use vstd::prelude::*;

use crate::err::GbError;
use crate::events::{LogEvents, LogMessage, LoggableComponent};

verus! {

/// Number of addressable cells; addresses at or past this fail with a bus
/// error.
pub const MEM_SIZE: usize = 0xFFFF;

/// First address of the VRAM-classified region.
pub const VRAM_FIRST: u16 = 0x8000;

/// Last address of the VRAM-classified region.
pub const VRAM_LAST: u16 = 0x9FFF;

/// Whether a write at `addr` is tagged as a VRAM-class save.
pub open spec fn is_vram(addr: u16) -> bool {
    VRAM_FIRST <= addr <= VRAM_LAST
}

/// The event record a successful write at `addr` of `byte` appends.
pub open spec fn save_event(addr: u16, byte: u8) -> LogMessage {
    LogMessage {
        kind: if is_vram(addr) { LogEvents::VramSave } else { LogEvents::MemorySave },
        addr,
        value: byte as u16,
    }
}

/// The event record a successful read at `addr` returning `byte` appends.
pub open spec fn fetch_event(addr: u16, byte: u8) -> LogMessage {
    LogMessage { kind: LogEvents::MemoryFetch, addr, value: byte as u16 }
}

/// The flat memory space plus its event buffer.
pub struct VirtualMemory {
    pub data: Vec<u8>,
    message_buffer: Vec<LogMessage>,
}

impl View for VirtualMemory {
    type V = Seq<u8>;

    closed spec fn view(&self) -> Seq<u8> {
        self.data@
    }
}

impl VirtualMemory {
    /// Well-formed: the byte array spans the whole address space.
    pub open spec fn wf(&self) -> bool {
        self@.len() == MEM_SIZE
    }

    /// A zeroed memory space with an empty event buffer.
    pub fn new() -> (r: Self)
        ensures
            r.wf(),
            forall|i: int| 0 <= i < MEM_SIZE ==> r@[i] == 0u8,
            r.events() == Seq::<LogMessage>::empty(),
    {
        VirtualMemory { data: vec![0u8; MEM_SIZE], message_buffer: Vec::new() }
    }

    /// A memory space seeded with a ROM image in its low prefix. Images of
    /// 0xFFFF bytes or more do not fit and are rejected.
    pub fn from_rom(raw: &[u8]) -> (r: Result<Self, GbError>)
        ensures
            raw@.len() < MEM_SIZE ==> match r {
                Ok(m) => {
                    &&& m.wf()
                    &&& forall|i: int| 0 <= i < raw@.len() ==> m@[i] == raw@[i]
                    &&& forall|i: int| raw@.len() <= i < MEM_SIZE ==> m@[i] == 0u8
                    &&& m.events() == Seq::<LogMessage>::empty()
                },
                Err(_) => false,
            },
            raw@.len() >= MEM_SIZE ==> r == Err::<VirtualMemory, GbError>(GbError::RomTooLarge),
    {
        let mut m = VirtualMemory::new();
        match m.load_rom(raw) {
            Ok(_) => Ok(m),
            Err(e) => Err(e),
        }
    }

    /// Copy a ROM image into the low prefix of the address space, leaving
    /// the rest untouched. Images of 0xFFFF bytes or more are rejected.
    pub fn load_rom(&mut self, raw: &[u8]) -> (r: Result<usize, GbError>)
        requires
            old(self).wf(),
        ensures
            final(self).wf(),
            final(self).events() == old(self).events(),
            raw@.len() < MEM_SIZE ==> {
                &&& r == Ok::<usize, GbError>(raw@.len() as usize)
                &&& forall|i: int| 0 <= i < raw@.len() ==> final(self)@[i] == raw@[i]
                &&& forall|i: int| raw@.len() <= i < MEM_SIZE ==> final(self)@[i] == old(self)@[i]
            },
            raw@.len() >= MEM_SIZE ==> r == Err::<usize, GbError>(GbError::RomTooLarge)
                && *final(self) == *old(self),
    {
        if raw.len() >= MEM_SIZE {
            return Err(GbError::RomTooLarge);
        }
        let n: usize = raw.len();
        let mut i: usize = 0;
        while i < n
            invariant
                i <= n,
                n == raw@.len(),
                n < MEM_SIZE,
                self.wf(),
                self.events() == old(self).events(),
                forall|j: int| 0 <= j < i ==> self@[j] == raw@[j],
                forall|j: int| i <= j < MEM_SIZE ==> self@[j] == old(self)@[j],
            decreases n - i,
        {
            let byte: u8 = raw[i];
            self.data[i] = byte;
            i = i + 1;
        }
        Ok(n)
    }

    /// Read the byte at `pointer`, appending a fetch-class event. Reads at
    /// or past 0xFFFF fail with a bus error and leave everything unchanged.
    pub fn fetch(&mut self, pointer: u16) -> (r: Result<u8, GbError>)
        requires
            old(self).wf(),
        ensures
            final(self).wf(),
            final(self)@ == old(self)@,
            pointer < MEM_SIZE ==> {
                &&& r == Ok::<u8, GbError>(old(self)@[pointer as int])
                &&& final(self).events() == old(self).events().push(
                    fetch_event(pointer, old(self)@[pointer as int]),
                )
            },
            pointer >= MEM_SIZE ==> {
                &&& r == Err::<u8, GbError>(GbError::BusError)
                &&& final(self).events() == old(self).events()
            },
    {
        if (pointer as usize) >= MEM_SIZE {
            return Err(GbError::BusError);
        }
        let byte: u8 = self.data[pointer as usize];
        self.message_buffer.push(
            LogMessage { kind: LogEvents::MemoryFetch, addr: pointer, value: byte as u16 },
        );
        Ok(byte)
    }

    /// Write `byte` at `addr`, appending a VRAM-class event for addresses
    /// in 0x8000–0x9FFF and a generic save-class event otherwise. Writes at
    /// or past 0xFFFF fail with a bus error and leave everything unchanged.
    pub fn save(&mut self, addr: u16, byte: u8) -> (r: Result<(), GbError>)
        requires
            old(self).wf(),
        ensures
            final(self).wf(),
            addr < MEM_SIZE ==> {
                &&& r == Ok::<(), GbError>(())
                &&& final(self)@ == old(self)@.update(addr as int, byte)
                &&& final(self).events() == old(self).events().push(save_event(addr, byte))
            },
            addr >= MEM_SIZE ==> {
                &&& r == Err::<(), GbError>(GbError::BusError)
                &&& final(self)@ == old(self)@
                &&& final(self).events() == old(self).events()
            },
    {
        if (addr as usize) >= MEM_SIZE {
            return Err(GbError::BusError);
        }
        self.data[addr as usize] = byte;
        let kind: LogEvents = if addr >= VRAM_FIRST && addr <= VRAM_LAST {
            LogEvents::VramSave
        } else {
            LogEvents::MemorySave
        };
        self.message_buffer.push(LogMessage { kind, addr, value: byte as u16 });
        Ok(())
    }

    /// Read the byte at `addr` without recording an event; the debugger's
    /// window into memory. Fails past the end of the address space.
    pub fn peek(&self, addr: u16) -> (r: Result<u8, GbError>)
        requires
            self.wf(),
        ensures
            addr < MEM_SIZE ==> r == Ok::<u8, GbError>(self@[addr as int]),
            addr >= MEM_SIZE ==> r == Err::<u8, GbError>(GbError::BusError),
    {
        if (addr as usize) >= MEM_SIZE {
            return Err(GbError::BusError);
        }
        Ok(self.data[addr as usize])
    }

    /// Hand out the buffered events and clear the buffer; data untouched.
    pub fn drain_events(&mut self) -> (r: Vec<LogMessage>)
        ensures
            r@ == old(self).events(),
            final(self).events() == Seq::<LogMessage>::empty(),
            final(self)@ == old(self)@,
            final(self).wf() == old(self).wf(),
    {
        let mut out: Vec<LogMessage> = Vec::new();
        std::mem::swap(&mut out, &mut self.message_buffer);
        out
    }
}

impl LoggableComponent for VirtualMemory {
    closed spec fn events(&self) -> Seq<LogMessage> {
        self.message_buffer@
    }

    fn dump_log_messages(&mut self) -> (r: Vec<LogMessage>)
        ensures
            final(self)@ == old(self)@,
            final(self).wf() == old(self).wf(),
    {
        self.drain_events()
    }
}

} // verus!
