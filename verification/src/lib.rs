//! Bring-up of the octal/hex PSRAM of the ESP32-P4.
//!
//! The library decides what to do and never touches the device: settings are
//! lists of accesses ([`access`], [`regs`], [`program`]), and whatever depends on
//! an answer is a state machine that takes the last answer and gives the next step
//! ([`transaction`], [`session`], [`bringup`]). What holds of whole detections and
//! bring-ups is stated in [`trace`].
use vstd::prelude::*;

pub mod access;
pub mod bringup;
pub mod cmd;
pub mod cs_timing;
pub mod error;
pub mod latency;
pub mod mode_regs;
pub mod mspi;
pub mod program;
pub mod regs;
pub mod session;
pub mod text;
pub mod trace;
pub mod transaction;

pub use bringup::{detect, init};
pub use error::PsramError;
pub use latency::LatencyConfig;
pub use mode_regs::{
    default_mode_register_config, ModeRegisters, Mr0, Mr1, Mr2, Mr3, Mr4, Mr8, PsramSize,
};
pub use mspi::MspiId;

verus! {

/// Virtual base address where the cached PSRAM window starts.
pub const PSRAM_VADDR_BASE: usize = 0x4800_0000;

/// Size of the cached PSRAM window in bytes: all 32 MB of the chip.
pub const PSRAM_VADDR_SIZE: usize = 32 * 1024 * 1024;

/// AP-Memory vendor ID reported in `MR1.vendor_id`.
pub const AP_HEX_PSRAM_VENDOR_ID: u8 = 0x0D;

/// Frequency of the MPLL, from which the PSRAM bus clock is divided down.
pub const AP_HEX_PSRAM_MPLL_DEFAULT_FREQ_MHZ: u32 = 400;

/// PSRAM bus clock used for chip detection.
pub const PSRAM_DETECT_SPEED_MHZ: u32 = 20;

/// Bit length of a read command on the wire.
pub const RD_CMD_BITLEN: u32 = 16;

/// Bit length of a write command on the wire.
pub const WR_CMD_BITLEN: u32 = 16;

/// Bit length of an address on the wire.
pub const ADDR_BITLEN: u32 = 32;

} // verus!
