//! Command codes of the AP-Memory hex PSRAM.
use vstd::prelude::*;

verus! {

pub const SYNC_READ: u16 = 0x0000;

pub const SYNC_WRITE: u16 = 0x8080;

pub const BURST_READ: u16 = 0x2020;

pub const BURST_WRITE: u16 = 0xA0A0;

pub const REG_READ: u16 = 0x4040;

pub const REG_WRITE: u16 = 0xC0C0;

} // verus!
