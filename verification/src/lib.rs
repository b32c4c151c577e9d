//! Verified core of a small handheld-console emulator: an 8-bit register file
//! with packed flag semantics, a flat byte-addressable memory bus that
//! records typed events, a cartridge-header parser, and the
//! fetch-decode-execute engine driving them.
//!
//! Everything observable about a `tick` — the register file and the memory
//! image after each instruction — is specified against a mathematical
//! small-step semantics (`semantics::spec_tick`) and proved.

pub mod cartridge;
pub mod cpu;
pub mod debug;
pub mod decoder;
pub mod err;
pub mod events;
pub mod gameboy;
pub mod hexfmt;
pub mod laws;
pub mod mmu;
pub mod opcodes;
pub mod reg;
pub mod semantics;
pub mod ui;
