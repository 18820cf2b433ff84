//! Errors of the bring-up.
use vstd::prelude::*;

use crate::text::{append_number, append_padded_number};
use crate::AP_HEX_PSRAM_VENDOR_ID;

verus! {

#[derive(Debug, Clone, Copy, PartialEq, Eq, Structural)]
pub enum PsramError {
    /// The bring-up is not available on this machine.
    NotImplemented,
    /// The MPLL could not be set up.
    MpllSetupFailed,
    /// The module clock of the PSRAM did not come up.
    ClockSetupFailed,
    /// The pins were not routed to the PSRAM.
    PinMuxFailed,
    /// The mode registers that were read after a reset hold another vendor ID
    /// than `AP_HEX_PSRAM_VENDOR_ID`. Most often the bus timing is off.
    ChipDetectionFailed { reported_vendor_id: u8 },
    /// The vendor ID is right but `MR2.density` stands for no capacity.
    UnknownPsramSize { density: u8 },
    /// The speed is not available for the capacity of the chip.
    SpeedNotSupported,
    /// The MMU did not take the mapping.
    MmuMapFailed,
    /// The L2 cache could not be set up.
    CacheSetupFailed,
    /// The command engine stayed busy. `addr` is the mode register address of
    /// the command, `cmd_reg` the last content of the command register, whose
    /// bits 4 to 7 are the state of the engine.
    TransactionTimeout { addr: u32, iters: u32, cmd_reg: u32 },
}

/// State of the command engine: bits 4 to 7 of the command register.
pub open spec fn slv_st(cmd_reg: u32) -> int {
    (cmd_reg as int / 16) % 16
}

impl PsramError {
    /// The text that describes the error.
    pub open spec fn text(self) -> Seq<char> {
        match self {
            PsramError::NotImplemented => "PSRAM init not implemented (Phase B/C/D pending)"@,
            PsramError::MpllSetupFailed => "MPLL setup failed"@,
            PsramError::ClockSetupFailed => "PSRAM module clock did not come up"@,
            PsramError::PinMuxFailed => "PSRAM IO_MUX failed"@,
            PsramError::ChipDetectionFailed { reported_vendor_id } =>
            "PSRAM chip detection failed: vendor_id 0x"@ + crate::text::padded_digits(
                reported_vendor_id as int,
                16,
                2,
            ) + " (expected 0x"@ + crate::text::padded_digits(
                AP_HEX_PSRAM_VENDOR_ID as int,
                16,
                2,
            ) + ")"@,
            PsramError::UnknownPsramSize { density } => "unknown PSRAM density code 0x"@
                + crate::text::digits(density as int, 16),
            PsramError::SpeedNotSupported => "PSRAM speed mode not supported for chip size"@,
            PsramError::MmuMapFailed => "PSRAM MMU mapping failed"@,
            PsramError::CacheSetupFailed => "PSRAM L2 cache setup failed"@,
            PsramError::TransactionTimeout { addr, iters, cmd_reg } =>
            "MSPI transaction timed out at MR addr 0x"@ + crate::text::digits(addr as int, 16)
                + " after "@ + crate::text::digits(iters as int, 10) + " iters, cmd_reg=0x"@
                + crate::text::padded_digits(cmd_reg as int, 16, 8) + " (slv_st=0x"@
                + crate::text::digits(slv_st(cmd_reg), 16) + ")"@,
        }
    }

    /// The text that describes the error.
    pub fn message(&self) -> (r: String)
        ensures
            r@ == self.text(),
    {
        match *self {
            PsramError::NotImplemented => "PSRAM init not implemented (Phase B/C/D pending)".to_owned(),
            PsramError::MpllSetupFailed => "MPLL setup failed".to_owned(),
            PsramError::ClockSetupFailed => "PSRAM module clock did not come up".to_owned(),
            PsramError::PinMuxFailed => "PSRAM IO_MUX failed".to_owned(),
            PsramError::ChipDetectionFailed { reported_vendor_id } => {
                let mut out = "PSRAM chip detection failed: vendor_id 0x".to_owned();
                append_padded_number(&mut out, reported_vendor_id as u32, 16, 2);
                out.append(" (expected 0x");
                append_padded_number(&mut out, AP_HEX_PSRAM_VENDOR_ID as u32, 16, 2);
                out.append(")");
                out
            },
            PsramError::UnknownPsramSize { density } => {
                let mut out = "unknown PSRAM density code 0x".to_owned();
                append_number(&mut out, density as u32, 16);
                out
            },
            PsramError::SpeedNotSupported => "PSRAM speed mode not supported for chip size".to_owned(),
            PsramError::MmuMapFailed => "PSRAM MMU mapping failed".to_owned(),
            PsramError::CacheSetupFailed => "PSRAM L2 cache setup failed".to_owned(),
            PsramError::TransactionTimeout { addr, iters, cmd_reg } => {
                proof {
                    assert((cmd_reg >> 4u32) & 0xFu32 == (cmd_reg / 16) % 16) by (bit_vector);
                }
                let mut out = "MSPI transaction timed out at MR addr 0x".to_owned();
                append_number(&mut out, addr, 16);
                out.append(" after ");
                append_number(&mut out, iters, 10);
                out.append(" iters, cmd_reg=0x");
                append_padded_number(&mut out, cmd_reg, 16, 8);
                out.append(" (slv_st=0x");
                append_number(&mut out, (cmd_reg >> 4u32) & 0xF, 16);
                out.append(")");
                out
            },
        }
    }
}

/// The texts that carry numbers: which numbers they show, where, in which base and
/// with how many digits at least. The state of the engine is shown as bits 4 to 7 of
/// the command register.
pub proof fn law_texts_with_numbers(vendor: u8, density: u8, addr: u32, iters: u32, cmd_reg: u32)
    ensures
        (PsramError::ChipDetectionFailed { reported_vendor_id: vendor }).text()
            == "PSRAM chip detection failed: vendor_id 0x"@ + crate::text::padded_digits(
            vendor as int,
            16,
            2,
        ) + " (expected 0x"@ + crate::text::padded_digits(0x0D, 16, 2) + ")"@,
        (PsramError::UnknownPsramSize { density }).text() == "unknown PSRAM density code 0x"@
            + crate::text::digits(density as int, 16),
        (PsramError::TransactionTimeout { addr, iters, cmd_reg }).text()
            == "MSPI transaction timed out at MR addr 0x"@ + crate::text::digits(addr as int, 16)
            + " after "@ + crate::text::digits(iters as int, 10) + " iters, cmd_reg=0x"@
            + crate::text::padded_digits(cmd_reg as int, 16, 8) + " (slv_st=0x"@
            + crate::text::digits((cmd_reg / 16) as int % 16, 16) + ")"@,
        0 <= slv_st(cmd_reg) < 16,
        slv_st(cmd_reg) == (cmd_reg >> 4u32) & 0xF,
{
    assert((cmd_reg >> 4u32) & 0xFu32 == (cmd_reg / 16) % 16) by (bit_vector);
}

/// The texts without numbers.
pub proof fn law_plain_texts(e: PsramError)
    ensures
        e == PsramError::NotImplemented ==> e.text()
            == "PSRAM init not implemented (Phase B/C/D pending)"@,
        e == PsramError::MpllSetupFailed ==> e.text() == "MPLL setup failed"@,
        e == PsramError::ClockSetupFailed ==> e.text() == "PSRAM module clock did not come up"@,
        e == PsramError::PinMuxFailed ==> e.text() == "PSRAM IO_MUX failed"@,
        e == PsramError::SpeedNotSupported ==> e.text()
            == "PSRAM speed mode not supported for chip size"@,
        e == PsramError::MmuMapFailed ==> e.text() == "PSRAM MMU mapping failed"@,
        e == PsramError::CacheSetupFailed ==> e.text() == "PSRAM L2 cache setup failed"@,
{
}

} // verus!
