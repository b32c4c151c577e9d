//! The cartridge loader: parses the fixed-offset header fields of a ROM
//! image into a typed descriptor and keeps the raw bytes for the bus.
//! Header parsing never fails: unknown bytes map to an `Unknown` variant.

use vstd::prelude::*;

verus! {

/// Color-mode flag at header offset 0x0143.
#[derive(Clone, Copy, PartialEq, Eq, Structural, Debug)]
#[allow(non_camel_case_types)]
pub enum CGB_Flag {
    RetroCompatible,
    NonRetroCompatible,
    Unknown,
}

/// The color-mode variant a header byte denotes.
pub open spec fn spec_cgb_flag(flag: u8) -> CGB_Flag {
    if flag == 0x80 {
        CGB_Flag::RetroCompatible
    } else if flag == 0xC0 {
        CGB_Flag::NonRetroCompatible
    } else {
        CGB_Flag::Unknown
    }
}

impl CGB_Flag {
    /// Decode the color-mode flag byte.
    pub fn map(flag: u8) -> (r: CGB_Flag)
        ensures
            r == spec_cgb_flag(flag),
    {
        match flag {
            0x80 => CGB_Flag::RetroCompatible,
            0xC0 => CGB_Flag::NonRetroCompatible,
            _ => CGB_Flag::Unknown,
        }
    }
}

/// Super-mode flag at header offset 0x0146.
#[derive(Clone, Copy, PartialEq, Eq, Structural, Debug)]
#[allow(non_camel_case_types)]
pub enum SGB_Flag {
    Support,
    NoSupport,
    Unknown,
}

/// The super-mode variant a header byte denotes.
pub open spec fn spec_sgb_flag(flag: u8) -> SGB_Flag {
    if flag == 0x00 {
        SGB_Flag::NoSupport
    } else if flag == 0x03 {
        SGB_Flag::Support
    } else {
        SGB_Flag::Unknown
    }
}

impl SGB_Flag {
    /// Decode the super-mode flag byte.
    pub fn map(flag: u8) -> (r: SGB_Flag)
        ensures
            r == spec_sgb_flag(flag),
    {
        match flag {
            0x00 => SGB_Flag::NoSupport,
            0x03 => SGB_Flag::Support,
            _ => SGB_Flag::Unknown,
        }
    }
}

/// Cartridge-type byte at header offset 0x0147.
#[derive(Clone, Copy, PartialEq, Eq, Structural, Debug)]
#[allow(non_camel_case_types)]
pub enum CartridgeType {
    ROM_ONLY,
    MBC1,
    MBC1_RAM,
    MBC1_RAM_BATTERY,
    MBC2,
    MBC2_BATTERY,
    ROM_RAM,
    ROM_RAM_BATTERY,
    MMM01,
    MMM01_RAM,
    MMM01_RAM_BATTERY,
    MBC3_TIMER_BATTERY,
    MBC3_TIMER_RAM_BATTERY,
    MBC3,
    MBC3_RAM,
    MBC3_RAM_BATTERY,
    MBC5,
    MBC5_RAM,
    MBC5_RAM_BATTERY,
    MBC5_RUMBLE,
    MBC5_RUMBLE_RAM,
    MBC5_RUMBLE_RAM_BATTERY,
    MBC6,
    MBC7_SENSOR_RUMBLE_RAM_BATTERY,
    POCKET_CAMERA,
    BANDAI_TAMA5,
    HUC3,
    HUC1_RAM_BATTERY,
    Unknown,
}

/// The cartridge-type variant a header byte denotes.
pub open spec fn spec_cartridge_type(b: u8) -> CartridgeType {
    if b == 0x00 {
        CartridgeType::ROM_ONLY
    } else if b == 0x01 {
        CartridgeType::MBC1
    } else if b == 0x02 {
        CartridgeType::MBC1_RAM
    } else if b == 0x03 {
        CartridgeType::MBC1_RAM_BATTERY
    } else if b == 0x05 {
        CartridgeType::MBC2
    } else if b == 0x06 {
        CartridgeType::MBC2_BATTERY
    } else if b == 0x08 {
        CartridgeType::ROM_RAM
    } else if b == 0x09 {
        CartridgeType::ROM_RAM_BATTERY
    } else if b == 0x0B {
        CartridgeType::MMM01
    } else if b == 0x0C {
        CartridgeType::MMM01_RAM
    } else if b == 0x0D {
        CartridgeType::MMM01_RAM_BATTERY
    } else if b == 0x0F {
        CartridgeType::MBC3_TIMER_BATTERY
    } else if b == 0x10 {
        CartridgeType::MBC3_TIMER_RAM_BATTERY
    } else if b == 0x11 {
        CartridgeType::MBC3
    } else if b == 0x12 {
        CartridgeType::MBC3_RAM
    } else if b == 0x13 {
        CartridgeType::MBC3_RAM_BATTERY
    } else if b == 0x19 {
        CartridgeType::MBC5
    } else if b == 0x1A {
        CartridgeType::MBC5_RAM
    } else if b == 0x1B {
        CartridgeType::MBC5_RAM_BATTERY
    } else if b == 0x1C {
        CartridgeType::MBC5_RUMBLE
    } else if b == 0x1D {
        CartridgeType::MBC5_RUMBLE_RAM
    } else if b == 0x1E {
        CartridgeType::MBC5_RUMBLE_RAM_BATTERY
    } else if b == 0x20 {
        CartridgeType::MBC6
    } else if b == 0x22 {
        CartridgeType::MBC7_SENSOR_RUMBLE_RAM_BATTERY
    } else if b == 0xFC {
        CartridgeType::POCKET_CAMERA
    } else if b == 0xFD {
        CartridgeType::BANDAI_TAMA5
    } else if b == 0xFE {
        CartridgeType::HUC3
    } else if b == 0xFF {
        CartridgeType::HUC1_RAM_BATTERY
    } else {
        CartridgeType::Unknown
    }
}

impl CartridgeType {
    /// Decode the cartridge-type byte.
    pub fn map(cartridge_type: u8) -> (r: CartridgeType)
        ensures
            r == spec_cartridge_type(cartridge_type),
    {
        match cartridge_type {
            0x00 => CartridgeType::ROM_ONLY,
            0x01 => CartridgeType::MBC1,
            0x02 => CartridgeType::MBC1_RAM,
            0x03 => CartridgeType::MBC1_RAM_BATTERY,
            0x05 => CartridgeType::MBC2,
            0x06 => CartridgeType::MBC2_BATTERY,
            0x08 => CartridgeType::ROM_RAM,
            0x09 => CartridgeType::ROM_RAM_BATTERY,
            0x0B => CartridgeType::MMM01,
            0x0C => CartridgeType::MMM01_RAM,
            0x0D => CartridgeType::MMM01_RAM_BATTERY,
            0x0F => CartridgeType::MBC3_TIMER_BATTERY,
            0x10 => CartridgeType::MBC3_TIMER_RAM_BATTERY,
            0x11 => CartridgeType::MBC3,
            0x12 => CartridgeType::MBC3_RAM,
            0x13 => CartridgeType::MBC3_RAM_BATTERY,
            0x19 => CartridgeType::MBC5,
            0x1A => CartridgeType::MBC5_RAM,
            0x1B => CartridgeType::MBC5_RAM_BATTERY,
            0x1C => CartridgeType::MBC5_RUMBLE,
            0x1D => CartridgeType::MBC5_RUMBLE_RAM,
            0x1E => CartridgeType::MBC5_RUMBLE_RAM_BATTERY,
            0x20 => CartridgeType::MBC6,
            0x22 => CartridgeType::MBC7_SENSOR_RUMBLE_RAM_BATTERY,
            0xFC => CartridgeType::POCKET_CAMERA,
            0xFD => CartridgeType::BANDAI_TAMA5,
            0xFE => CartridgeType::HUC3,
            0xFF => CartridgeType::HUC1_RAM_BATTERY,
            _ => CartridgeType::Unknown,
        }
    }
}

/// ROM-size code at header offset 0x0148.
#[derive(Clone, Copy, PartialEq, Eq, Structural, Debug)]
#[allow(non_camel_case_types)]
pub enum RomSize {
    _32_KByte_2_banks,
    _64_KByte_4_banks,
    _128_KByte_8_banks,
    _256_KByte_16_banks,
    _512_KByte_32_banks,
    _1_MByte_64_banks,
    _2_MByte_128_banks,
    _4_MByte_256_banks,
    _8_MByte_512_banks,
    _1_1_MByte_72_banks,
    _1_2_MByte_80_banks,
    _1_5_MByte_96_banks,
    Unknown,
}

/// The ROM-size variant a header byte denotes.
pub open spec fn spec_rom_size(b: u8) -> RomSize {
    if b == 0x00 {
        RomSize::_32_KByte_2_banks
    } else if b == 0x01 {
        RomSize::_64_KByte_4_banks
    } else if b == 0x02 {
        RomSize::_128_KByte_8_banks
    } else if b == 0x03 {
        RomSize::_256_KByte_16_banks
    } else if b == 0x04 {
        RomSize::_512_KByte_32_banks
    } else if b == 0x05 {
        RomSize::_1_MByte_64_banks
    } else if b == 0x06 {
        RomSize::_2_MByte_128_banks
    } else if b == 0x07 {
        RomSize::_4_MByte_256_banks
    } else if b == 0x08 {
        RomSize::_8_MByte_512_banks
    } else if b == 0x52 {
        RomSize::_1_1_MByte_72_banks
    } else if b == 0x53 {
        RomSize::_1_2_MByte_80_banks
    } else if b == 0x54 {
        RomSize::_1_5_MByte_96_banks
    } else {
        RomSize::Unknown
    }
}

impl RomSize {
    /// Decode the ROM-size code byte.
    pub fn map(byte: u8) -> (r: RomSize)
        ensures
            r == spec_rom_size(byte),
    {
        match byte {
            0x00 => RomSize::_32_KByte_2_banks,
            0x01 => RomSize::_64_KByte_4_banks,
            0x02 => RomSize::_128_KByte_8_banks,
            0x03 => RomSize::_256_KByte_16_banks,
            0x04 => RomSize::_512_KByte_32_banks,
            0x05 => RomSize::_1_MByte_64_banks,
            0x06 => RomSize::_2_MByte_128_banks,
            0x07 => RomSize::_4_MByte_256_banks,
            0x08 => RomSize::_8_MByte_512_banks,
            0x52 => RomSize::_1_1_MByte_72_banks,
            0x53 => RomSize::_1_2_MByte_80_banks,
            0x54 => RomSize::_1_5_MByte_96_banks,
            _ => RomSize::Unknown,
        }
    }
}

/// RAM-size code at header offset 0x0149.
#[derive(Clone, Copy, PartialEq, Eq, Structural, Debug)]
#[allow(non_camel_case_types)]
pub enum RamSize {
    NONE,
    _2_KBytes,
    _8_KBytes,
    _32_KBytes,
    _128_KBytes,
    _64_KBytes,
    Unknown,
}

/// The RAM-size variant a header byte denotes.
pub open spec fn spec_ram_size(b: u8) -> RamSize {
    if b == 0x00 {
        RamSize::NONE
    } else if b == 0x01 {
        RamSize::_2_KBytes
    } else if b == 0x02 {
        RamSize::_8_KBytes
    } else if b == 0x03 {
        RamSize::_32_KBytes
    } else if b == 0x04 {
        RamSize::_128_KBytes
    } else if b == 0x05 {
        RamSize::_64_KBytes
    } else {
        RamSize::Unknown
    }
}

impl RamSize {
    /// Decode the RAM-size code byte.
    pub fn map(byte: u8) -> (r: RamSize)
        ensures
            r == spec_ram_size(byte),
    {
        match byte {
            0x00 => RamSize::NONE,
            0x01 => RamSize::_2_KBytes,
            0x02 => RamSize::_8_KBytes,
            0x03 => RamSize::_32_KBytes,
            0x04 => RamSize::_128_KBytes,
            0x05 => RamSize::_64_KBytes,
            _ => RamSize::Unknown,
        }
    }
}

/// Destination code at header offset 0x014A.
#[derive(Clone, Copy, PartialEq, Eq, Structural, Debug)]
pub enum DestinationCode {
    Japanese,
    NonJapanese,
    Unknown,
}

/// The destination variant a header byte denotes.
pub open spec fn spec_destination_code(b: u8) -> DestinationCode {
    if b == 0x00 {
        DestinationCode::Japanese
    } else if b == 0x01 {
        DestinationCode::NonJapanese
    } else {
        DestinationCode::Unknown
    }
}

impl DestinationCode {
    /// Decode the destination code byte.
    pub fn map(byte: u8) -> (r: DestinationCode)
        ensures
            r == spec_destination_code(byte),
    {
        match byte {
            0x00 => DestinationCode::Japanese,
            0x01 => DestinationCode::NonJapanese,
            _ => DestinationCode::Unknown,
        }
    }
}

/// `(left << 8) | right`: the big-endian packing the header's global
/// checksum uses.
pub fn _8bit_to_16bit(left: u8, right: u8) -> (r: u16)
    ensures
        r == left as int * 256 + right as int,
{
    (left as u16) * 256 + (right as u16)
}

/// A parsed cartridge: the typed header descriptor plus the raw image.
pub struct Cartridge {
    pub manufacturer_code: [u8; 4],
    pub cgb_flag: CGB_Flag,
    pub license_code: [u8; 2],
    pub sgb_flag: SGB_Flag,
    pub cartridge_type: CartridgeType,
    pub rom_size: RomSize,
    pub ram_size: RamSize,
    pub destination_code: DestinationCode,
    pub rom_version_num: u8,
    pub header_checksum: u8,
    pub global_checksum: u16,
    pub content: Vec<u8>,
}

impl Cartridge {
    /// Parse the header of a raw image. The image must at least cover the
    /// header, whose last field sits at offsets 0x014E–0x014F.
    pub fn new(cartridge_raw: &Vec<u8>) -> (r: Cartridge)
        requires
            cartridge_raw@.len() >= 0x150,
        ensures
            r.cgb_flag == spec_cgb_flag(cartridge_raw@[0x143]),
            r.sgb_flag == spec_sgb_flag(cartridge_raw@[0x146]),
            r.cartridge_type == spec_cartridge_type(cartridge_raw@[0x147]),
            r.rom_size == spec_rom_size(cartridge_raw@[0x148]),
            r.ram_size == spec_ram_size(cartridge_raw@[0x149]),
            r.destination_code == spec_destination_code(cartridge_raw@[0x14A]),
            r.rom_version_num == cartridge_raw@[0x14C],
            r.header_checksum == cartridge_raw@[0x14D],
            r.global_checksum == cartridge_raw@[0x14E] as int * 256 + cartridge_raw@[0x14F] as int,
            r.content@ == cartridge_raw@,
    {
        Cartridge {
            manufacturer_code: [0, 0, 0, 0],
            cgb_flag: CGB_Flag::map(cartridge_raw[0x143]),
            license_code: [0, 0],
            sgb_flag: SGB_Flag::map(cartridge_raw[0x146]),
            cartridge_type: CartridgeType::map(cartridge_raw[0x147]),
            rom_size: RomSize::map(cartridge_raw[0x148]),
            ram_size: RamSize::map(cartridge_raw[0x149]),
            destination_code: DestinationCode::map(cartridge_raw[0x14A]),
            rom_version_num: cartridge_raw[0x14C],
            header_checksum: cartridge_raw[0x14D],
            global_checksum: _8bit_to_16bit(cartridge_raw[0x14E], cartridge_raw[0x14F]),
            content: cartridge_raw.clone(),
        }
    }
}

} // verus!
