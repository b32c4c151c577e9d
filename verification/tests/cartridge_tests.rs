use gb_core::cartridge::{
    CGB_Flag, Cartridge, CartridgeType, DestinationCode, RamSize, RomSize, SGB_Flag,
};

fn header_image() -> Vec<u8> {
    let mut raw = vec![0u8; 0x150];
    raw[0x143] = 0x80; // color: retro-compatible
    raw[0x146] = 0x03; // super-mode: supported
    raw[0x147] = 0x01; // MBC1
    raw[0x148] = 0x00; // 32 KByte, 2 banks
    raw[0x149] = 0x00; // no cartridge RAM
    raw[0x14A] = 0x01; // non-Japanese
    raw[0x14C] = 0x07;
    raw[0x14D] = 0x66;
    raw[0x14E] = 0x4D;
    raw[0x14F] = 0xEB;
    raw
}

#[test]
fn header_fields_parse_from_fixed_offsets() {
    let raw = header_image();
    let cart = Cartridge::new(&raw);
    assert_eq!(cart.cgb_flag, CGB_Flag::RetroCompatible);
    assert_eq!(cart.sgb_flag, SGB_Flag::Support);
    assert_eq!(cart.cartridge_type, CartridgeType::MBC1);
    assert_eq!(cart.rom_size, RomSize::_32_KByte_2_banks);
    assert_eq!(cart.ram_size, RamSize::NONE);
    assert_eq!(cart.destination_code, DestinationCode::NonJapanese);
    assert_eq!(cart.rom_version_num, 0x07);
    assert_eq!(cart.header_checksum, 0x66);
    // The global checksum is big-endian in the header.
    assert_eq!(cart.global_checksum, 0x4DEB);
    assert_eq!(cart.content.len(), 0x150);
}

#[test]
fn unknown_header_bytes_map_to_unknown() {
    assert_eq!(CGB_Flag::map(0x42), CGB_Flag::Unknown);
    assert_eq!(SGB_Flag::map(0x42), SGB_Flag::Unknown);
    assert_eq!(CartridgeType::map(0x42), CartridgeType::Unknown);
    assert_eq!(RomSize::map(0x42), RomSize::Unknown);
    assert_eq!(RamSize::map(0x42), RamSize::Unknown);
    assert_eq!(DestinationCode::map(0x42), DestinationCode::Unknown);
}

#[test]
fn known_header_bytes_map_to_variants() {
    assert_eq!(CGB_Flag::map(0xC0), CGB_Flag::NonRetroCompatible);
    assert_eq!(SGB_Flag::map(0x00), SGB_Flag::NoSupport);
    assert_eq!(CartridgeType::map(0x00), CartridgeType::ROM_ONLY);
    assert_eq!(CartridgeType::map(0xFF), CartridgeType::HUC1_RAM_BATTERY);
    assert_eq!(CartridgeType::map(0x19), CartridgeType::MBC5);
    assert_eq!(RomSize::map(0x54), RomSize::_1_5_MByte_96_banks);
    assert_eq!(RamSize::map(0x03), RamSize::_32_KBytes);
    assert_eq!(DestinationCode::map(0x00), DestinationCode::Japanese);
}
