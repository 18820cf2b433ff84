//! The two MSPI controllers that serve the PSRAM.
use vstd::prelude::*;

verus! {

/// MSPI controller. `Mspi2` carries the cache traffic, `Mspi3` the commands to
/// the chip; both are brought up together.
#[derive(Debug, Clone, Copy, PartialEq, Eq, Structural)]
pub enum MspiId {
    /// Cache-side controller, the `SPI0` register bank.
    Mspi2,
    /// Command-side controller, the `SPI1` register bank.
    Mspi3,
}

impl MspiId {
    /// Number by which the boot ROM knows the controller.
    #[verifier::allow_in_spec]
    pub fn number(self) -> u8
        returns
            (match self {
                MspiId::Mspi2 => 2u8,
                MspiId::Mspi3 => 3u8,
            }),
    {
        match self {
            MspiId::Mspi2 => 2,
            MspiId::Mspi3 => 3,
        }
    }
}

} // verus!
