//! Error kinds surfaced by the core.

use vstd::prelude::*;

verus! {

/// Everything that can go wrong inside the core.
///
/// - `RomTooLarge`: a cartridge image does not fit the address space.
/// - `BusError`: a read or write outside the valid address range.
/// - `InvalidRegisterWidth`: a register code of the wrong width was handed
///   to a width-specific register operation.
/// - `UnknownOpcode`: the decoder reached an unmapped byte in strict mode.
/// - `ChannelClosed`: the event sink disconnected (only ever produced by a
///   host driver; the core itself never aborts a tick on it).
#[derive(Clone, Copy, PartialEq, Eq, Structural, Debug)]
pub enum GbError {
    RomTooLarge,
    BusError,
    InvalidRegisterWidth,
    UnknownOpcode,
    ChannelClosed,
}

} // verus!
