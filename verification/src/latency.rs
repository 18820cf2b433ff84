//! Speed-dependent latency presets.
use vstd::prelude::*;

verus! {

/// Dummy lengths of the controller and latency codes of the chip for one bus speed.
#[derive(Debug, Clone, Copy, PartialEq, Eq, Structural)]
pub struct LatencyConfig {
    /// Read dummy length in bits, `2 * (N - 1)` for a read latency of `N` cycles.
    pub rd_dummy_bitlen: u32,
    /// Write dummy length in bits, `2 * (N - 1)` for a write latency of `N` cycles.
    pub wr_dummy_bitlen: u32,
    /// Read latency code programmed into `MR0`.
    pub rd_latency_mr: u8,
    /// Write latency code programmed into `MR4`.
    pub wr_latency_mr: u8,
}

/// Dummy length in bits for a latency of `cycles` bus cycles.
pub open spec fn dummy_bits_for(cycles: int) -> int {
    2 * (cycles - 1)
}

impl LatencyConfig {
    /// 200 MHz preset: reads take 14 cycles, writes take 7.
    pub fn speed_200m() -> (r: LatencyConfig)
        ensures
            r.rd_dummy_bitlen == dummy_bits_for(14),
            r.wr_dummy_bitlen == dummy_bits_for(7),
            r.rd_dummy_bitlen == 26,
            r.wr_dummy_bitlen == 12,
            r.rd_latency_mr == 4,
            r.wr_latency_mr == 1,
    {
        LatencyConfig {
            rd_dummy_bitlen: 2 * (14 - 1),
            wr_dummy_bitlen: 2 * (7 - 1),
            rd_latency_mr: 4,
            wr_latency_mr: 1,
        }
    }

    /// 250 MHz preset: reads take 18 cycles, writes take 9. Valid for parts of
    /// up to 16 MB only.
    pub fn speed_250m() -> (r: LatencyConfig)
        ensures
            r.rd_dummy_bitlen == dummy_bits_for(18),
            r.wr_dummy_bitlen == dummy_bits_for(9),
            r.rd_dummy_bitlen == 34,
            r.wr_dummy_bitlen == 16,
            r.rd_latency_mr == 6,
            r.wr_latency_mr == 3,
    {
        LatencyConfig {
            rd_dummy_bitlen: 2 * (18 - 1),
            wr_dummy_bitlen: 2 * (9 - 1),
            rd_latency_mr: 6,
            wr_latency_mr: 3,
        }
    }

    /// Slow preset: reads take 10 cycles, writes take 5.
    pub fn speed_slow() -> (r: LatencyConfig)
        ensures
            r.rd_dummy_bitlen == dummy_bits_for(10),
            r.wr_dummy_bitlen == dummy_bits_for(5),
            r.rd_dummy_bitlen == 18,
            r.wr_dummy_bitlen == 8,
            r.rd_latency_mr == 2,
            r.wr_latency_mr == 2,
    {
        LatencyConfig {
            rd_dummy_bitlen: 2 * (10 - 1),
            wr_dummy_bitlen: 2 * (5 - 1),
            rd_latency_mr: 2,
            wr_latency_mr: 2,
        }
    }
}

/// One cycle of latency more makes the dummy phase two bits longer, and a latency of
/// one cycle needs none.
pub proof fn law_dummy_bits(cycles: int)
    ensures
        dummy_bits_for(cycles + 1) == dummy_bits_for(cycles) + 2,
        dummy_bits_for(1) == 0,
{
}

} // verus!
