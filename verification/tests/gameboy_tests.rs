use gb_core::cartridge::Cartridge;
use gb_core::err::GbError;
use gb_core::events::LogEvents;
use gb_core::gameboy::{Gameboy, gb_config};

fn config(boot: bool) -> gb_config {
    gb_config::new(boot, String::new(), false, 0)
}

fn cartridge_with_entry(program: &[u8]) -> Cartridge {
    let mut raw = vec![0u8; 0x200];
    for (i, &b) in program.iter().enumerate() {
        raw[0x100 + i] = b;
    }
    Cartridge::new(&raw)
}

#[test]
fn load_cartridge_without_boot_image_starts_at_0x100() {
    let mut gb = Gameboy::new(config(false));
    let cart = cartridge_with_entry(&[0x3E, 0x42]);
    assert_eq!(gb.load_cartridge(cart, None), Ok(0x200));
    assert_eq!(gb.registers().pc, 0x0100);
    assert_eq!(gb.peek(0x0100), Ok(0x3E));
    assert_eq!(gb.tick(), Ok(()));
    assert_eq!(gb.registers().a, 0x42);
    assert_eq!(gb.registers().pc, 0x0102);
}

#[test]
fn load_cartridge_with_boot_image_starts_at_zero() {
    let mut gb = Gameboy::new(gb_config::new(true, String::new(), false, 0));
    let cart = cartridge_with_entry(&[0x00]);
    // A two-byte boot image laid over the cartridge's low prefix.
    let boot = vec![0xAF, 0x00];
    assert_eq!(gb.load_cartridge(cart, Some(&boot)), Ok(0x200));
    assert_eq!(gb.registers().pc, 0x0000);
    assert_eq!(gb.peek(0x0000), Ok(0xAF));
    assert_eq!(gb.tick(), Ok(()));
    assert_eq!(gb.registers().a, 0x00);
    assert_eq!(gb.registers().pc, 0x0001);
}

#[test]
fn oversized_cartridge_is_rejected() {
    let mut gb = Gameboy::new(config(false));
    let raw = vec![0u8; 0xFFFF];
    let cart = Cartridge::new(&raw);
    assert_eq!(gb.load_cartridge(cart, None), Err(GbError::RomTooLarge));
}

#[test]
fn drain_events_merges_cpu_then_bus() {
    let mut gb = Gameboy::new(config(false));
    let cart = cartridge_with_entry(&[0x3E, 0x42]);
    gb.load_cartridge(cart, None).unwrap();
    let _ = gb.drain_events();
    gb.tick().unwrap();
    let events = gb.drain_events();
    // Tick record first, then the opcode and operand fetches.
    assert_eq!(events[0].kind, LogEvents::Tick);
    assert_eq!(events[0].addr, 0x0100);
    assert!(events[1..].iter().all(|e| e.kind == LogEvents::MemoryFetch));
    assert_eq!(events.len(), 3);
    assert_eq!(gb.drain_events().len(), 0);
}

#[test]
fn breakpoints_drive_should_stop() {
    let mut gb = Gameboy::new(config(false));
    assert!(!gb.should_stop(0x0100));
    gb.breakpoint_add(0x0100);
    assert!(gb.should_stop(0x0100));
    assert!(!gb.should_stop(0x0101));
    gb.state.break_next = true;
    assert!(gb.should_stop(0x0101));
    gb.state.break_next = false;
    gb.breakpoint_remove(0x0100);
    assert!(!gb.should_stop(0x0100));
}

#[test]
fn set_pc_records_a_register_event() {
    let mut gb = Gameboy::new(config(false));
    gb.set_pc(0x1234);
    assert_eq!(gb.registers().pc, 0x1234);
    let events = gb.drain_events();
    assert!(events
        .iter()
        .any(|e| e.kind == LogEvents::Register && e.value == 0x1234));
}
