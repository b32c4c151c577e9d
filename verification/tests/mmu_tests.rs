use gb_core::err::GbError;
use gb_core::events::LogEvents;
use gb_core::mmu::VirtualMemory;

#[test]
fn should_copy_content_into_virtual_memory() {
    let rom = vec![0xFF; 0x4000];
    match VirtualMemory::from_rom(rom.as_slice()) {
        Ok(mmu) => {
            assert_eq!(mmu.data.len(), 0xFFFF);
            assert_eq!(mmu.data[0x0], 0xFF);
            assert_eq!(mmu.data[0xFF], 0xFF);
            assert_eq!(mmu.data[0x3999], 0xFF);
            assert_eq!(mmu.data[0x4000], 0x0);
            assert_eq!(mmu.data[0x4001], 0x0);
        }
        _ => panic!("Failed"),
    }
}

#[test]
fn rom_of_address_space_size_is_rejected() {
    let rom = vec![0u8; 0xFFFF];
    match VirtualMemory::from_rom(rom.as_slice()) {
        Err(GbError::RomTooLarge) => {}
        _ => panic!("expected RomTooLarge"),
    }
    let mut mmu = VirtualMemory::new();
    assert_eq!(mmu.load_rom(rom.as_slice()), Err(GbError::RomTooLarge));
}

#[test]
fn save_then_fetch_returns_written_byte() {
    let mut mmu = VirtualMemory::new();
    assert_eq!(mmu.save(0x1234, 0xAB), Ok(()));
    assert_eq!(mmu.fetch(0x1234), Ok(0xAB));
    let events = mmu.drain_events();
    assert_eq!(events.len(), 2);
    assert_eq!(events[0].kind, LogEvents::MemorySave);
    assert_eq!(events[0].addr, 0x1234);
    assert_eq!(events[0].value, 0xAB);
    assert_eq!(events[1].kind, LogEvents::MemoryFetch);
}

#[test]
fn vram_region_writes_are_classified() {
    let mut mmu = VirtualMemory::new();
    assert_eq!(mmu.save(0x8000, 0x01), Ok(()));
    assert_eq!(mmu.save(0x9FFF, 0x02), Ok(()));
    assert_eq!(mmu.save(0x7FFF, 0x03), Ok(()));
    assert_eq!(mmu.save(0xA000, 0x04), Ok(()));
    let events = mmu.drain_events();
    assert_eq!(events[0].kind, LogEvents::VramSave);
    assert_eq!(events[1].kind, LogEvents::VramSave);
    assert_eq!(events[2].kind, LogEvents::MemorySave);
    assert_eq!(events[3].kind, LogEvents::MemorySave);
    // Drained means drained.
    assert_eq!(mmu.drain_events().len(), 0);
}

#[test]
fn out_of_range_access_is_a_bus_error() {
    let mut mmu = VirtualMemory::new();
    assert_eq!(mmu.save(0xFFFF, 0x01), Err(GbError::BusError));
    assert_eq!(mmu.fetch(0xFFFF), Err(GbError::BusError));
    assert_eq!(mmu.peek(0xFFFF), Err(GbError::BusError));
    assert_eq!(mmu.drain_events().len(), 0);
}

#[test]
fn peek_records_no_event() {
    let mut mmu = VirtualMemory::new();
    assert_eq!(mmu.save(0x0042, 0x55), Ok(()));
    let _ = mmu.drain_events();
    assert_eq!(mmu.peek(0x0042), Ok(0x55));
    assert_eq!(mmu.drain_events().len(), 0);
}
