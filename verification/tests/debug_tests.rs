use gb_core::debug::{CommandType, DebuggerInput, DebuggerState, InputCommand, parse_hex_u16};
use gb_core::events::{LogEvents, LogMessage};
use gb_core::ui::{MessageType, Terminal};

#[test]
fn command_words_classify() {
    let cmd = InputCommand::from_class("break", vec!["1a2b"]);
    assert_eq!(cmd.class, CommandType::Breakpoint);
    assert_eq!(cmd.args, vec!["1a2b".to_string()]);
    assert_eq!(InputCommand::from_class("b", vec![]).class, CommandType::Breakpoint);
    assert_eq!(InputCommand::from_class("reg", vec![]).class, CommandType::ShowRegister);
    assert_eq!(InputCommand::from_class("m", vec![]).class, CommandType::ShowMemory);
    assert_eq!(InputCommand::from_class("lc", vec![]).class, CommandType::Local);
    assert_eq!(InputCommand::from_class("print", vec![]).class, CommandType::Print);
    assert_eq!(InputCommand::from_class("n", vec![]).class, CommandType::Next);
    assert_eq!(InputCommand::from_class("continue", vec![]).class, CommandType::Continue);
    assert_eq!(InputCommand::from_class("s", vec![]).class, CommandType::Start);
    assert_eq!(InputCommand::from_class("log", vec![]).class, CommandType::Log);
    assert_eq!(InputCommand::from_class("flip", vec![]).class, CommandType::Unknown);
}

#[test]
fn hex_arguments_parse() {
    assert_eq!(parse_hex_u16("1a2b"), Some(0x1A2B));
    assert_eq!(parse_hex_u16("FFFF"), Some(0xFFFF));
    assert_eq!(parse_hex_u16("0000ffff"), Some(0xFFFF));
    assert_eq!(parse_hex_u16("0"), Some(0));
    assert_eq!(parse_hex_u16(""), None);
    assert_eq!(parse_hex_u16("12g4"), None);
    // Values past 0xFFFF keep their low sixteen bits.
    assert_eq!(parse_hex_u16("12345"), Some(0x2345));
    assert_eq!(parse_hex_u16("10000"), Some(0x0000));
    assert_eq!(parse_hex_u16("1ffff"), Some(0xFFFF));
}

#[test]
fn args_to_u16_defaults_to_zero() {
    let state = DebuggerState::new();
    let cmd = InputCommand::new(CommandType::Breakpoint, vec![]);
    assert_eq!(state.args_to_u16(&cmd), 0);
    let cmd = InputCommand::new(CommandType::Breakpoint, vec!["zz".to_string()]);
    assert_eq!(state.args_to_u16(&cmd), 0);
    let cmd = InputCommand::new(CommandType::Breakpoint, vec!["0100".to_string()]);
    assert_eq!(state.args_to_u16(&cmd), 0x0100);
}

#[test]
fn breakpoints_add_and_remove() {
    let mut state = DebuggerState::new();
    let cmd = InputCommand::new(CommandType::Breakpoint, vec!["0100".to_string()]);
    assert_eq!(state.add_breakpoint(&cmd), 0x0100);
    assert!(state.has_breakpoint(0x0100));
    assert!(!state.has_breakpoint(0x0101));
    state.remove_breakpoint(0x0100);
    assert!(!state.has_breakpoint(0x0100));
}

#[test]
fn input_history_starts_empty() {
    let input = DebuggerInput::new();
    assert!(input.history.is_empty());
}

#[test]
fn terminal_style_classes() {
    let term = Terminal::new(8);
    assert_eq!(term.line_width, 8);
    assert_eq!(term.style_class(5, 5, 2), MessageType::Good);
    assert_eq!(term.style_class(6, 5, 2), MessageType::Important);
    assert_eq!(term.style_class(7, 5, 2), MessageType::Important);
    assert_eq!(term.style_class(8, 5, 2), MessageType::Normal);
    assert_eq!(term.style_class(3, 5, 2), MessageType::Normal);
}

#[test]
fn event_records_render() {
    let m = LogMessage { kind: LogEvents::MemorySave, addr: 0x9000, value: 0x77 };
    assert_eq!(m.describe(), "[SAVE] ADDR(0x9000): 0x0077");
    let m = LogMessage { kind: LogEvents::Tick, addr: 0x0100, value: 0 };
    assert_eq!(m.describe(), "[TICK] ADDR(0x0100): 0x0000");
    let m = LogMessage { kind: LogEvents::VramSave, addr: 0x8abc, value: 0xFF };
    assert_eq!(m.describe(), "[VRAM_SAVE] ADDR(0x8abc): 0x00ff");
}
