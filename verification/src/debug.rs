//! The debugger's state and command model: breakpoints, parsed commands,
//! and the classification rules a front-end needs. The interactive loop
//! itself (reading a terminal, printing) lives outside the core.

use vstd::prelude::*;
use vstd::arithmetic::div_mod::{lemma_add_mod_noop, lemma_mul_mod_noop_left, lemma_small_mod};
use vstd::seq_lib::*;
use vstd::string::*;

verus! {

/// The commands a debugger front-end can issue.
#[derive(Clone, Copy, PartialEq, Eq, Structural, Debug)]
pub enum CommandType {
    Breakpoint,
    ShowRegister,
    ShowMemory,
    Local,
    Print,
    Next,
    Continue,
    Start,
    Log,
    Unknown,
}

/// True of the characters that denote a hexadecimal digit.
pub open spec fn is_hex_digit(c: char) -> bool {
    ('0' <= c && c <= '9') || ('a' <= c && c <= 'f') || ('A' <= c && c <= 'F')
}

/// The numeric value of one hexadecimal digit character.
pub open spec fn hex_digit_val(c: char) -> int {
    if '0' <= c && c <= '9' {
        c as int - '0' as int
    } else if 'a' <= c && c <= 'f' {
        c as int - 'a' as int + 10
    } else {
        c as int - 'A' as int + 10
    }
}

/// True when every character of the sequence is a hexadecimal digit.
pub open spec fn all_hex(s: Seq<char>) -> bool {
    forall|i: int| 0 <= i < s.len() ==> is_hex_digit(#[trigger] s[i])
}

/// The number a big-endian sequence of hexadecimal digits denotes.
pub open spec fn hex_value(s: Seq<char>) -> int
    decreases s.len(),
{
    if s.len() == 0 {
        0
    } else {
        hex_value(s.drop_last()) * 16 + hex_digit_val(s.last())
    }
}

/// The numeric value of one hexadecimal digit character, executable form.
fn hex_digit_value(c: char) -> (r: Option<u8>)
    ensures
        is_hex_digit(c) ==> r == Some(hex_digit_val(c) as u8),
        !is_hex_digit(c) ==> r is None,
{
    if c >= '0' && c <= '9' {
        Some((c as u8) - ('0' as u8))
    } else if c >= 'a' && c <= 'f' {
        Some((c as u8) - ('a' as u8) + 10)
    } else if c >= 'A' && c <= 'F' {
        Some((c as u8) - ('A' as u8) + 10)
    } else {
        None
    }
}

/// Parse a string of hexadecimal digits into a 16-bit address; a value
/// past 0xFFFF keeps only its low sixteen bits, as a 16-bit register
/// read of the wider number would. `None` when the string is empty or
/// holds a non-digit.
pub fn parse_hex_u16(s: &str) -> (r: Option<u16>)
    ensures
        match r {
            Some(v) => {
                &&& s@.len() > 0
                &&& all_hex(s@)
                &&& v == hex_value(s@) % 0x10000
            },
            None => s@.len() == 0 || !all_hex(s@),
        },
{
    let n: usize = s.unicode_len();
    if n == 0 {
        return None;
    }
    let mut acc: u32 = 0;
    let mut i: usize = 0;
    while i < n
        invariant
            i <= n,
            n == s@.len(),
            all_hex(s@.subrange(0, i as int)),
            acc == hex_value(s@.subrange(0, i as int)) % 0x10000,
        decreases n - i,
    {
        let c: char = s.get_char(i);
        let d: u8 = match hex_digit_value(c) {
            Some(d) => d,
            None => {
                proof {
                    assert(s@[i as int] == c);
                }
                return None;
            },
        };
        proof {
            let pre = s@.subrange(0, i as int);
            let cur = s@.subrange(0, i as int + 1);
            assert(cur.drop_last() =~= pre);
            assert(cur.last() == c);
            let hv = hex_value(pre);
            assert(hex_value(cur) == hv * 16 + hex_digit_val(c));
            lemma_small_mod(d as nat, 0x10000);
            lemma_mul_mod_noop_left(hv, 16, 0x10000);
            lemma_add_mod_noop((hv % 0x10000) * 16, d as int, 0x10000);
            lemma_add_mod_noop(hv * 16, d as int, 0x10000);
        }
        acc = (acc * 16 + (d as u32)) % 0x10000;
        i = i + 1;
    }
    proof {
        assert(s@.subrange(0, n as int) =~= s@);
    }
    Some(acc as u16)
}

/// Character-by-character string equality.
pub fn str_eq(a: &str, b: &str) -> (r: bool)
    ensures
        r == (a@ == b@),
{
    let na: usize = a.unicode_len();
    let nb: usize = b.unicode_len();
    if na != nb {
        return false;
    }
    let mut i: usize = 0;
    while i < na
        invariant
            i <= na,
            na == a@.len(),
            na == b@.len(),
            forall|j: int| 0 <= j < i ==> a@[j] == b@[j],
        decreases na - i,
    {
        if a.get_char(i) != b.get_char(i) {
            return false;
        }
        i = i + 1;
    }
    proof {
        assert(a@ =~= b@);
    }
    true
}

/// The command class a command word denotes, long or short form.
pub open spec fn spec_command_type(s: Seq<char>) -> CommandType {
    if s == "break"@ || s == "b"@ {
        CommandType::Breakpoint
    } else if s == "reg"@ || s == "r"@ {
        CommandType::ShowRegister
    } else if s == "mem"@ || s == "m"@ {
        CommandType::ShowMemory
    } else if s == "local"@ || s == "lc"@ {
        CommandType::Local
    } else if s == "print"@ || s == "p"@ {
        CommandType::Print
    } else if s == "next"@ || s == "n"@ {
        CommandType::Next
    } else if s == "continue"@ || s == "c"@ {
        CommandType::Continue
    } else if s == "start"@ || s == "s"@ {
        CommandType::Start
    } else if s == "log"@ || s == "l"@ {
        CommandType::Log
    } else {
        CommandType::Unknown
    }
}

/// One parsed debugger command: its class and its argument words.
pub struct InputCommand {
    pub class: CommandType,
    pub args: Vec<String>,
}

impl InputCommand {
    /// Wrap an already-classified command.
    pub fn new(class: CommandType, args: Vec<String>) -> (r: Self)
        ensures
            r.class == class,
            r.args == args,
    {
        InputCommand { class, args }
    }

    /// Classify a command word and keep the remaining words as
    /// arguments.
    pub fn from_class(class: &str, raw: Vec<&str>) -> (r: Self)
        ensures
            r.class == spec_command_type(class@),
            r.args@.len() == raw@.len(),
            forall|i: int| 0 <= i < raw@.len() ==> r.args@[i]@ == raw@[i]@,
    {
        let command_type: CommandType = if str_eq(class, "break") || str_eq(class, "b") {
            CommandType::Breakpoint
        } else if str_eq(class, "reg") || str_eq(class, "r") {
            CommandType::ShowRegister
        } else if str_eq(class, "mem") || str_eq(class, "m") {
            CommandType::ShowMemory
        } else if str_eq(class, "local") || str_eq(class, "lc") {
            CommandType::Local
        } else if str_eq(class, "print") || str_eq(class, "p") {
            CommandType::Print
        } else if str_eq(class, "next") || str_eq(class, "n") {
            CommandType::Next
        } else if str_eq(class, "continue") || str_eq(class, "c") {
            CommandType::Continue
        } else if str_eq(class, "start") || str_eq(class, "s") {
            CommandType::Start
        } else if str_eq(class, "log") || str_eq(class, "l") {
            CommandType::Log
        } else {
            CommandType::Unknown
        };
        let mut args: Vec<String> = Vec::new();
        let mut i: usize = 0;
        while i < raw.len()
            invariant
                i <= raw@.len(),
                args@.len() == i,
                forall|j: int| 0 <= j < i ==> args@[j]@ == raw@[j]@,
            decreases raw@.len() - i,
        {
            args.push(String::from_str(raw[i]));
            i = i + 1;
        }
        InputCommand::new(command_type, args)
    }
}

/// The history a command front-end keeps; polling itself is I/O and
/// lives with the host.
pub struct DebuggerInput {
    pub history: Vec<String>,
}

impl DebuggerInput {
    /// An empty command history.
    pub fn new() -> (r: Self)
        ensures
            r.history@.len() == 0,
    {
        DebuggerInput { history: Vec::new() }
    }
}

/// Breakpoints and stepping state of the debugger.
pub struct DebuggerState {
    pub breakpoints: Vec<u16>,
    pub break_next: bool,
    pub log_next: bool,
}

impl DebuggerState {
    /// No breakpoints, free running.
    pub fn new() -> (r: Self)
        ensures
            r.breakpoints@.len() == 0,
            !r.break_next,
            !r.log_next,
    {
        DebuggerState { breakpoints: Vec::new(), break_next: false, log_next: false }
    }

    /// The address a command's first argument denotes, read as
    /// hexadecimal and truncated to sixteen bits; zero when there is no
    /// argument or it does not parse.
    pub fn args_to_u16(&self, command: &InputCommand) -> (r: u16)
        ensures
            command.args@.len() == 0 ==> r == 0,
            command.args@.len() > 0 ==> r == (match parse_spec(command.args@[0]@) {
                Some(v) => v,
                None => 0u16,
            }),
    {
        if command.args.len() == 0 {
            return 0;
        }
        match parse_hex_u16(command.args[0].as_str()) {
            Some(v) => v,
            None => 0,
        }
    }

    /// Add the breakpoint a command names and hand the address back.
    pub fn add_breakpoint(&mut self, command: &InputCommand) -> (r: u16)
        ensures
            final(self).breakpoints@ == old(self).breakpoints@.push(r),
            final(self).break_next == old(self).break_next,
            final(self).log_next == old(self).log_next,
            command.args@.len() == 0 ==> r == 0,
            command.args@.len() > 0 ==> r == (match parse_spec(command.args@[0]@) {
                Some(v) => v,
                None => 0u16,
            }),
    {
        let addr: u16 = self.args_to_u16(command);
        self.breakpoints.push(addr);
        addr
    }

    /// Whether an address has a breakpoint on it.
    pub fn has_breakpoint(&self, addr: u16) -> (r: bool)
        ensures
            r == self.breakpoints@.contains(addr),
    {
        let mut i: usize = 0;
        while i < self.breakpoints.len()
            invariant
                i <= self.breakpoints@.len(),
                forall|j: int| 0 <= j < i ==> self.breakpoints@[j] != addr,
            decreases self.breakpoints@.len() - i,
        {
            if self.breakpoints[i] == addr {
                return true;
            }
            i = i + 1;
        }
        false
    }

    /// Drop every breakpoint on an address.
    pub fn remove_breakpoint(&mut self, addr: u16)
        ensures
            final(self).breakpoints@ == old(self).breakpoints@.filter(|b: u16| b != addr),
            final(self).break_next == old(self).break_next,
            final(self).log_next == old(self).log_next,
    {
        let n: usize = self.breakpoints.len();
        let mut out: Vec<u16> = Vec::new();
        let mut i: usize = 0;
        proof {
            reveal(Seq::filter);
        }
        while i < n
            invariant
                i <= n,
                n == self.breakpoints@.len(),
                out@ == self.breakpoints@.subrange(0, i as int).filter(|b: u16| b != addr),
            decreases n - i,
        {
            proof {
                reveal(Seq::filter);
                let pre = self.breakpoints@.subrange(0, i as int);
                let cur = self.breakpoints@.subrange(0, i as int + 1);
                assert(cur.drop_last() =~= pre);
                assert(cur.last() == self.breakpoints@[i as int]);
            }
            let b: u16 = self.breakpoints[i];
            if b != addr {
                out.push(b);
            }
            i = i + 1;
        }
        proof {
            assert(self.breakpoints@.subrange(0, n as int) =~= self.breakpoints@);
        }
        self.breakpoints = out;
    }
}

/// The spec-side reading of `parse_hex_u16`: the denoted value modulo
/// 2^16 for a nonempty string of digits, nothing otherwise.
pub open spec fn parse_spec(s: Seq<char>) -> Option<u16> {
    if 0 < s.len() && all_hex(s) {
        Some((hex_value(s) % 0x10000) as u16)
    } else {
        None
    }
}

/// The hooks a debugger front-end implements around the core: what to do
/// when the session starts, what to do on a breakpoint, and when to
/// pause. The core supplies the state; the front-end supplies the I/O.
pub trait Debuggable {
    /// Interact before the first tick.
    fn on_started(&mut self);

    /// Interact while paused at a breakpoint.
    fn on_breakpoint(&mut self, addr: u16);

    /// Whether to pause before executing the instruction at `addr`.
    fn should_stop(&self, addr: u16) -> bool;
}

} // verus!
