//! ADC interrupt and status flags.
//!
//! Bit positions of the status register, used both as interrupt masks for
//! the interrupt-enable register and as flags of the status register
//! itself. The status register is write-1-to-clear: writing a mask clears
//! exactly the flags whose bits are set in it.

use vstd::prelude::*;

verus! {

/// Channel configuration ready (bit 13).
pub const CCRDY: u32 = 0x2000;

/// End of calibration (bit 11).
pub const EOCAL: u32 = 0x800;

/// Analog watchdog 3 (bit 9).
pub const AWD3: u32 = 0x200;

/// Analog watchdog 2 (bit 8).
pub const AWD2: u32 = 0x100;

/// Analog watchdog 1 (bit 7).
pub const AWD1: u32 = 0x80;

/// Overrun (bit 4).
pub const OVR: u32 = 0x10;

/// End of conversion sequence (bit 3).
pub const EOS: u32 = 0x8;

/// End of conversion (bit 2).
pub const EOC: u32 = 0x4;

/// End of sampling (bit 1).
pub const EOSMP: u32 = 0x2;

/// ADC ready (bit 0).
pub const ARDY: u32 = 0x1;

/// All flags.
pub const ALL: u32 = CCRDY | EOCAL | AWD3 | AWD2 | AWD1 | OVR | EOS | EOC | EOSMP | ARDY;

/// Whether any flag of `mask` is set in the status word `word`. The
/// polling loops of an embedding test freshly read status words with this.
pub fn flag_set(word: u32, mask: u32) -> (r: bool)
    ensures
        r == ((word & mask) != 0),
{
    (word & mask) != 0
}

} // verus!
