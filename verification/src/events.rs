//! Typed event records. Every observable effect of a tick — fetches, saves,
//! control-flow changes — is appended to a component-owned buffer and
//! drained by the driver between ticks.

use vstd::prelude::*;
use vstd::string::*;

use crate::hexfmt::{hex_word_seq, push_hex_word};

verus! {

/// The kinds of event the core and its driver produce.
#[derive(Clone, Copy, PartialEq, Eq, Structural, Debug)]
pub enum LogEvents {
    Initializing,
    Tick,
    MemorySave,
    MemoryFetch,
    VramSave,
    Decoding,
    Snapshot,
    Exit,
    DebugLoggerOn,
    DebugLoggerOff,
    Register,
}

/// One event record: a kind plus the address and value it concerns.
/// For kinds without a meaningful address or value the fields hold zero.
#[derive(Clone, Copy, PartialEq, Eq, Structural, Debug)]
pub struct LogMessage {
    pub kind: LogEvents,
    pub addr: u16,
    pub value: u16,
}

/// The bracketed tag each event kind is rendered with.
pub open spec fn tag_seq(k: LogEvents) -> Seq<char> {
    match k {
        LogEvents::Initializing => "[INIT]"@,
        LogEvents::Tick => "[TICK]"@,
        LogEvents::MemorySave => "[SAVE]"@,
        LogEvents::MemoryFetch => "[FETCH]"@,
        LogEvents::VramSave => "[VRAM_SAVE]"@,
        LogEvents::Decoding => "[DECODE]"@,
        LogEvents::Snapshot => "[SNAPSHOT]"@,
        LogEvents::Exit => "[EXIT]"@,
        LogEvents::DebugLoggerOn => "[DEBUG_ON]"@,
        LogEvents::DebugLoggerOff => "[DEBUG_OFF]"@,
        LogEvents::Register => "[REG]"@,
    }
}

/// The full rendered form of a record: its tag, address and value.
pub open spec fn describe_seq(m: LogMessage) -> Seq<char> {
    tag_seq(m.kind) + " ADDR("@ + hex_word_seq(m.addr) + "): "@ + hex_word_seq(m.value)
}

impl LogMessage {
    /// Render the record as `[TAG] ADDR(0xAAAA): 0xVVVV`.
    pub fn describe(&self) -> (r: String)
        ensures
            r@ == describe_seq(*self),
    {
        let tag: &str = match self.kind {
            LogEvents::Initializing => "[INIT]",
            LogEvents::Tick => "[TICK]",
            LogEvents::MemorySave => "[SAVE]",
            LogEvents::MemoryFetch => "[FETCH]",
            LogEvents::VramSave => "[VRAM_SAVE]",
            LogEvents::Decoding => "[DECODE]",
            LogEvents::Snapshot => "[SNAPSHOT]",
            LogEvents::Exit => "[EXIT]",
            LogEvents::DebugLoggerOn => "[DEBUG_ON]",
            LogEvents::DebugLoggerOff => "[DEBUG_OFF]",
            LogEvents::Register => "[REG]",
        };
        let mut s: String = String::from_str(tag);
        s.append(" ADDR(");
        push_hex_word(&mut s, self.addr);
        s.append("): ");
        push_hex_word(&mut s, self.value);
        proof {
            assert(s@ =~= describe_seq(*self));
        }
        s
    }
}

/// A component owning a buffer of event records that the driver drains.
pub trait LoggableComponent {
    /// The records buffered since the last drain, oldest first.
    spec fn events(&self) -> Seq<LogMessage>;

    /// Hand the buffered records out and clear the buffer.
    fn dump_log_messages(&mut self) -> (r: Vec<LogMessage>)
        ensures
            r@ == old(self).events(),
            final(self).events() == Seq::<LogMessage>::empty(),
    ;
}

} // verus!
