//! Chip-select timing, in MSPI clock cycles.
use vstd::prelude::*;

verus! {

pub const SETUP: u32 = 4;

pub const HOLD: u32 = 4;

pub const HOLD_DELAY: u32 = 3;

pub const ECC_HOLD: u32 = 4;

} // verus!
