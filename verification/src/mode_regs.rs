//! Mode registers of the PSRAM chip.
//!
//! Each register is one byte. Its view names the fields of that byte, the
//! unnamed bits included, so that two registers with the same view are the
//! same byte.
use vstd::prelude::*;

use crate::latency::LatencyConfig;

verus! {

/// Capacity of the chip, encoded in `MR2.density`.
#[derive(Debug, Clone, Copy, PartialEq, Eq, Structural)]
pub enum PsramSize {
    Mb4,
    Mb8,
    Mb16,
    Mb32,
    Mb64,
}

impl PsramSize {
    /// Capacity in MB.
    pub open spec fn megabytes(self) -> nat {
        match self {
            PsramSize::Mb4 => 4,
            PsramSize::Mb8 => 8,
            PsramSize::Mb16 => 16,
            PsramSize::Mb32 => 32,
            PsramSize::Mb64 => 64,
        }
    }

    /// The code by which the chip reports the capacity.
    pub open spec fn density_code(self) -> u8 {
        match self {
            PsramSize::Mb4 => 1,
            PsramSize::Mb8 => 3,
            PsramSize::Mb16 => 5,
            PsramSize::Mb32 => 7,
            PsramSize::Mb64 => 6,
        }
    }

    /// Decodes `MR2.density`; `None` for a code that stands for no capacity.
    pub fn from_mr2_density(density: u8) -> (size: Option<PsramSize>)
        ensures
            size matches Some(s) ==> s.density_code() == density,
            size == Some(PsramSize::Mb4) <==> density == 1,
            size == Some(PsramSize::Mb8) <==> density == 3,
            size == Some(PsramSize::Mb16) <==> density == 5,
            size == Some(PsramSize::Mb64) <==> density == 6,
            size == Some(PsramSize::Mb32) <==> density == 7,
            size is None <==> !(density == 1 || density == 3 || density == 5 || density == 6
                || density == 7),
    {
        match density {
            0x1 => Some(PsramSize::Mb4),
            0x3 => Some(PsramSize::Mb8),
            0x5 => Some(PsramSize::Mb16),
            0x7 => Some(PsramSize::Mb32),
            0x6 => Some(PsramSize::Mb64),
            _ => None,
        }
    }

    /// Capacity in bytes.
    pub fn bytes(self) -> (n: usize)
        ensures
            n == self.megabytes() * 1024 * 1024,
            self == PsramSize::Mb4 ==> n == 0x40_0000,
            self == PsramSize::Mb8 ==> n == 0x80_0000,
            self == PsramSize::Mb16 ==> n == 0x100_0000,
            self == PsramSize::Mb32 ==> n == 0x200_0000,
            self == PsramSize::Mb64 ==> n == 0x400_0000,
    {
        match self {
            PsramSize::Mb4 => 4 * 1024 * 1024,
            PsramSize::Mb8 => 8 * 1024 * 1024,
            PsramSize::Mb16 => 16 * 1024 * 1024,
            PsramSize::Mb32 => 32 * 1024 * 1024,
            PsramSize::Mb64 => 64 * 1024 * 1024,
        }
    }
}

/// Mode register 0: drive strength, read latency, latency type.
#[derive(Debug, Clone, Copy, PartialEq, Eq, Structural)]
pub struct Mr0(pub u8);

/// Fields of [`Mr0`].
pub struct Mr0View {
    /// Bits 0..=1.
    pub drive_str: u8,
    /// Bits 2..=4.
    pub read_latency: u8,
    /// Bit 5.
    pub lt: bool,
    /// Bit 6, unnamed.
    pub bit6: bool,
    /// Bit 7.
    pub tso: bool,
}

impl View for Mr0 {
    type V = Mr0View;

    open spec fn view(&self) -> Mr0View {
        Mr0View {
            drive_str: self.0 % 4,
            read_latency: (self.0 / 4) % 8,
            lt: (self.0 / 32) % 2 == 1,
            bit6: (self.0 / 64) % 2 == 1,
            tso: self.0 / 128 == 1,
        }
    }
}

impl Default for Mr0 {
    fn default() -> (r: Mr0)
        ensures
            r.0 == 0,
    {
        Mr0(0)
    }
}

proof fn lemma_mr0_get(b: u8)
    by (bit_vector)
    ensures
        b & 0b11 == b % 4,
        (b >> 2) & 0b111 == (b / 4) % 8,
        ((b >> 5) & 1 != 0) == ((b / 32) % 2 == 1),
        ((b >> 7) & 1 != 0) == (b / 128 == 1),
{
}

proof fn lemma_mr0_set_drive_str(b: u8, v: u8)
    by (bit_vector)
    ensures
        ((b & !0b11u8) | (v & 0b11)) % 4 == v % 4,
        (((b & !0b11u8) | (v & 0b11)) / 4) % 8 == (b / 4) % 8,
        (((b & !0b11u8) | (v & 0b11)) / 32) % 2 == (b / 32) % 2,
        (((b & !0b11u8) | (v & 0b11)) / 64) % 2 == (b / 64) % 2,
        ((b & !0b11u8) | (v & 0b11)) / 128 == b / 128,
{
}

proof fn lemma_mr0_set_read_latency(b: u8, v: u8)
    by (bit_vector)
    ensures
        ((b & !(0b111u8 << 2)) | ((v & 0b111) << 2)) % 4 == b % 4,
        (((b & !(0b111u8 << 2)) | ((v & 0b111) << 2)) / 4) % 8 == v % 8,
        (((b & !(0b111u8 << 2)) | ((v & 0b111) << 2)) / 32) % 2 == (b / 32) % 2,
        (((b & !(0b111u8 << 2)) | ((v & 0b111) << 2)) / 64) % 2 == (b / 64) % 2,
        ((b & !(0b111u8 << 2)) | ((v & 0b111) << 2)) / 128 == b / 128,
{
}

proof fn lemma_mr0_set_lt(b: u8)
    by (bit_vector)
    ensures
        ((b & !(1u8 << 5)) | (1u8 << 5)) % 4 == b % 4,
        (((b & !(1u8 << 5)) | (1u8 << 5)) / 4) % 8 == (b / 4) % 8,
        (((b & !(1u8 << 5)) | (1u8 << 5)) / 32) % 2 == 1,
        (((b & !(1u8 << 5)) | (1u8 << 5)) / 64) % 2 == (b / 64) % 2,
        ((b & !(1u8 << 5)) | (1u8 << 5)) / 128 == b / 128,
{
}

proof fn lemma_mr0_clear_lt(b: u8)
    by (bit_vector)
    ensures
        ((b & !(1u8 << 5)) | 0) % 4 == b % 4,
        (((b & !(1u8 << 5)) | 0) / 4) % 8 == (b / 4) % 8,
        (((b & !(1u8 << 5)) | 0) / 32) % 2 == 0,
        (((b & !(1u8 << 5)) | 0) / 64) % 2 == (b / 64) % 2,
        ((b & !(1u8 << 5)) | 0) / 128 == b / 128,
{
}

proof fn lemma_mr0_new(d: u8, l: u8)
    by (bit_vector)
    ensures
        ((0u8 | (d & 0b11)) | ((l & 0b111) << 2)) == d % 4 + 4 * (l % 8),
        (((0u8 | (d & 0b11)) | ((l & 0b111) << 2)) | (1u8 << 5)) == d % 4 + 4 * (l % 8) + 32,
{
}

impl Mr0 {
    pub fn drive_str(self) -> (r: u8)
        ensures
            r == self@.drive_str,
            r == self.0 % 4,
    {
        proof {
            lemma_mr0_get(self.0);
        }
        self.0 & 0b11
    }

    pub fn read_latency(self) -> (r: u8)
        ensures
            r == self@.read_latency,
            r == (self.0 / 4) % 8,
    {
        proof {
            lemma_mr0_get(self.0);
        }
        (self.0 >> 2) & 0b111
    }

    /// Latency type: `false` is variable, `true` is fixed.
    pub fn lt(self) -> (r: bool)
        ensures
            r == self@.lt,
            r <==> (self.0 / 32) % 2 == 1,
    {
        proof {
            lemma_mr0_get(self.0);
        }
        (self.0 >> 5) & 1 != 0
    }

    pub fn tso(self) -> (r: bool)
        ensures
            r == self@.tso,
            r <==> self.0 >= 128,
    {
        proof {
            lemma_mr0_get(self.0);
        }
        (self.0 >> 7) & 1 != 0
    }

    /// Packs the fields; an argument keeps only as many low bits as its field has.
    pub fn new(drive_str: u8, read_latency: u8, lt: bool) -> (r: Mr0)
        ensures
            r@ == (Mr0View {
                drive_str: drive_str % 4,
                read_latency: read_latency % 8,
                lt,
                bit6: false,
                tso: false,
            }),
    {
        proof {
            lemma_mr0_new(drive_str, read_latency);
        }
        let mut b: u8 = 0;
        b = b | (drive_str & 0b11);
        b = b | ((read_latency & 0b111) << 2);
        if lt {
            b = b | (1 << 5);
        }
        Mr0(b)
    }

    /// Replaces `drive_str`, preserving the other bits.
    pub fn with_drive_str(self, drive_str: u8) -> (r: Mr0)
        ensures
            r@ == (Mr0View { drive_str: drive_str % 4, ..self@ }),
    {
        proof {
            lemma_mr0_set_drive_str(self.0, drive_str);
        }
        Mr0((self.0 & !0b11) | (drive_str & 0b11))
    }

    /// Replaces `read_latency`, preserving the other bits.
    pub fn with_read_latency(self, read_latency: u8) -> (r: Mr0)
        ensures
            r@ == (Mr0View { read_latency: read_latency % 8, ..self@ }),
    {
        proof {
            lemma_mr0_set_read_latency(self.0, read_latency);
        }
        Mr0((self.0 & !(0b111 << 2)) | ((read_latency & 0b111) << 2))
    }

    /// Replaces `lt`, preserving the other bits.
    pub fn with_lt(self, lt: bool) -> (r: Mr0)
        ensures
            r@ == (Mr0View { lt, ..self@ }),
    {
        proof {
            lemma_mr0_set_lt(self.0);
            lemma_mr0_clear_lt(self.0);
        }
        let mask: u8 = !(1 << 5);
        Mr0((self.0 & mask) | (if lt {
            1 << 5
        } else {
            0
        }))
    }
}

/// Mode register 1: vendor ID and ULP flag. Read-only; identifies the chip.
#[derive(Debug, Clone, Copy, PartialEq, Eq, Structural)]
pub struct Mr1(pub u8);

/// Fields of [`Mr1`].
pub struct Mr1View {
    /// Bits 0..=4.
    pub vendor_id: u8,
    /// Bits 5..=6, unnamed.
    pub bits5_6: u8,
    /// Bit 7.
    pub ulp: bool,
}

impl View for Mr1 {
    type V = Mr1View;

    open spec fn view(&self) -> Mr1View {
        Mr1View {
            vendor_id: self.0 % 32,
            bits5_6: (self.0 / 32) % 4,
            ulp: self.0 / 128 == 1,
        }
    }
}

impl Default for Mr1 {
    fn default() -> (r: Mr1)
        ensures
            r.0 == 0,
    {
        Mr1(0)
    }
}

proof fn lemma_mr1_get(b: u8)
    by (bit_vector)
    ensures
        b & 0b11111 == b % 32,
        ((b >> 7) & 1 != 0) == (b / 128 == 1),
{
}

impl Mr1 {
    /// Vendor ID; `AP_HEX_PSRAM_VENDOR_ID` on the supported chips.
    pub fn vendor_id(self) -> (r: u8)
        ensures
            r == self@.vendor_id,
            r == self.0 % 32,
    {
        proof {
            lemma_mr1_get(self.0);
        }
        self.0 & 0b11111
    }

    pub fn ulp(self) -> (r: bool)
        ensures
            r == self@.ulp,
            r <==> self.0 >= 128,
    {
        proof {
            lemma_mr1_get(self.0);
        }
        (self.0 >> 7) & 1 != 0
    }
}

/// Mode register 2: density, device ID, known-good-die mark. Read-only.
#[derive(Debug, Clone, Copy, PartialEq, Eq, Structural)]
pub struct Mr2(pub u8);

/// Fields of [`Mr2`].
pub struct Mr2View {
    /// Bits 0..=2.
    pub density: u8,
    /// Bits 3..=4.
    pub dev_id: u8,
    /// Bits 5..=7.
    pub kgd: u8,
}

impl View for Mr2 {
    type V = Mr2View;

    open spec fn view(&self) -> Mr2View {
        Mr2View { density: self.0 % 8, dev_id: (self.0 / 8) % 4, kgd: self.0 / 32 }
    }
}

impl Default for Mr2 {
    fn default() -> (r: Mr2)
        ensures
            r.0 == 0,
    {
        Mr2(0)
    }
}

proof fn lemma_low_mid_high(b: u8)
    by (bit_vector)
    ensures
        b & 0b111 == b % 8,
        (b >> 3) & 0b11 == (b / 8) % 4,
        (b >> 5) & 0b111 == b / 32,
{
}

impl Mr2 {
    pub fn density(self) -> (r: u8)
        ensures
            r == self@.density,
            r == self.0 % 8,
    {
        proof {
            lemma_low_mid_high(self.0);
        }
        self.0 & 0b111
    }

    pub fn dev_id(self) -> (r: u8)
        ensures
            r == self@.dev_id,
            r == (self.0 / 8) % 4,
    {
        proof {
            lemma_low_mid_high(self.0);
        }
        (self.0 >> 3) & 0b11
    }

    /// 6 marks a die that passed; any other value a rejected one.
    pub fn kgd(self) -> (r: u8)
        ensures
            r == self@.kgd,
            r == self.0 / 32,
    {
        proof {
            lemma_low_mid_high(self.0);
        }
        (self.0 >> 5) & 0b111
    }
}

/// Mode register 3: self-refresh flag. Read for diagnostics, never programmed.
#[derive(Debug, Clone, Copy, PartialEq, Eq, Structural)]
pub struct Mr3(pub u8);

impl Default for Mr3 {
    fn default() -> (r: Mr3)
        ensures
            r.0 == 0,
    {
        Mr3(0)
    }
}

/// Mode register 4: partial-array self-refresh, refresh rate, write latency.
#[derive(Debug, Clone, Copy, PartialEq, Eq, Structural)]
pub struct Mr4(pub u8);

/// Fields of [`Mr4`].
pub struct Mr4View {
    /// Bits 0..=2.
    pub pasr: u8,
    /// Bits 3..=4.
    pub rf: u8,
    /// Bits 5..=7.
    pub wr_latency: u8,
}

impl View for Mr4 {
    type V = Mr4View;

    open spec fn view(&self) -> Mr4View {
        Mr4View { pasr: self.0 % 8, rf: (self.0 / 8) % 4, wr_latency: self.0 / 32 }
    }
}

impl Default for Mr4 {
    fn default() -> (r: Mr4)
        ensures
            r.0 == 0,
    {
        Mr4(0)
    }
}

proof fn lemma_mr4_set(b: u8, v: u8)
    by (bit_vector)
    ensures
        ((b & !(0b111u8 << 5)) | ((v & 0b111) << 5)) % 8 == b % 8,
        (((b & !(0b111u8 << 5)) | ((v & 0b111) << 5)) / 8) % 4 == (b / 8) % 4,
        ((b & !(0b111u8 << 5)) | ((v & 0b111) << 5)) / 32 == v % 8,
{
}

impl Mr4 {
    pub fn pasr(self) -> (r: u8)
        ensures
            r == self@.pasr,
            r == self.0 % 8,
    {
        proof {
            lemma_low_mid_high(self.0);
        }
        self.0 & 0b111
    }

    pub fn rf(self) -> (r: u8)
        ensures
            r == self@.rf,
            r == (self.0 / 8) % 4,
    {
        proof {
            lemma_low_mid_high(self.0);
        }
        (self.0 >> 3) & 0b11
    }

    pub fn wr_latency(self) -> (r: u8)
        ensures
            r == self@.wr_latency,
            r == self.0 / 32,
    {
        proof {
            lemma_low_mid_high(self.0);
        }
        (self.0 >> 5) & 0b111
    }

    /// Replaces `wr_latency`, preserving the other bits.
    pub fn with_wr_latency(self, wr_latency: u8) -> (r: Mr4)
        ensures
            r@ == (Mr4View { wr_latency: wr_latency % 8, ..self@ }),
    {
        proof {
            lemma_mr4_set(self.0, wr_latency);
        }
        let mask: u8 = !(0b111 << 5);
        Mr4((self.0 & mask) | ((wr_latency & 0b111) << 5))
    }
}

/// Mode register 8: burst length and type, RBX, data width.
#[derive(Debug, Clone, Copy, PartialEq, Eq, Structural)]
pub struct Mr8(pub u8);

/// Fields of [`Mr8`].
pub struct Mr8View {
    /// Bits 0..=1.
    pub bl: u8,
    /// Bit 2.
    pub bt: bool,
    /// Bit 3.
    pub rbx: bool,
    /// Bits 4..=5, unnamed.
    pub bits4_5: u8,
    /// Bit 6.
    pub x16: bool,
    /// Bit 7, unnamed.
    pub bit7: bool,
}

impl View for Mr8 {
    type V = Mr8View;

    open spec fn view(&self) -> Mr8View {
        Mr8View {
            bl: self.0 % 4,
            bt: (self.0 / 4) % 2 == 1,
            rbx: (self.0 / 8) % 2 == 1,
            bits4_5: (self.0 / 16) % 4,
            x16: (self.0 / 64) % 2 == 1,
            bit7: self.0 / 128 == 1,
        }
    }
}

impl Default for Mr8 {
    fn default() -> (r: Mr8)
        ensures
            r.0 == 0,
    {
        Mr8(0)
    }
}

proof fn lemma_mr8_get(b: u8)
    by (bit_vector)
    ensures
        b & 0b11 == b % 4,
        ((b >> 2) & 1 != 0) == ((b / 4) % 2 == 1),
        ((b >> 3) & 1 != 0) == ((b / 8) % 2 == 1),
        ((b >> 6) & 1 != 0) == ((b / 64) % 2 == 1),
{
}

proof fn lemma_mr8_set_bl(b: u8, v: u8)
    by (bit_vector)
    ensures
        ((b & !0b11u8) | (v & 0b11)) % 4 == v % 4,
        (((b & !0b11u8) | (v & 0b11)) / 4) % 2 == (b / 4) % 2,
        (((b & !0b11u8) | (v & 0b11)) / 8) % 2 == (b / 8) % 2,
        (((b & !0b11u8) | (v & 0b11)) / 16) % 4 == (b / 16) % 4,
        (((b & !0b11u8) | (v & 0b11)) / 64) % 2 == (b / 64) % 2,
        ((b & !0b11u8) | (v & 0b11)) / 128 == b / 128,
{
}

proof fn lemma_mr8_set_bt(b: u8)
    by (bit_vector)
    ensures
        ((b & !(1u8 << 2)) | (1u8 << 2)) % 4 == b % 4,
        (((b & !(1u8 << 2)) | (1u8 << 2)) / 4) % 2 == 1,
        (((b & !(1u8 << 2)) | (1u8 << 2)) / 8) % 2 == (b / 8) % 2,
        (((b & !(1u8 << 2)) | (1u8 << 2)) / 16) % 4 == (b / 16) % 4,
        (((b & !(1u8 << 2)) | (1u8 << 2)) / 64) % 2 == (b / 64) % 2,
        ((b & !(1u8 << 2)) | (1u8 << 2)) / 128 == b / 128,
{
}

proof fn lemma_mr8_clear_bt(b: u8)
    by (bit_vector)
    ensures
        ((b & !(1u8 << 2)) | 0) % 4 == b % 4,
        (((b & !(1u8 << 2)) | 0) / 4) % 2 == 0,
        (((b & !(1u8 << 2)) | 0) / 8) % 2 == (b / 8) % 2,
        (((b & !(1u8 << 2)) | 0) / 16) % 4 == (b / 16) % 4,
        (((b & !(1u8 << 2)) | 0) / 64) % 2 == (b / 64) % 2,
        ((b & !(1u8 << 2)) | 0) / 128 == b / 128,
{
}

proof fn lemma_mr8_set_rbx(b: u8)
    by (bit_vector)
    ensures
        ((b & !(1u8 << 3)) | (1u8 << 3)) % 4 == b % 4,
        (((b & !(1u8 << 3)) | (1u8 << 3)) / 4) % 2 == (b / 4) % 2,
        (((b & !(1u8 << 3)) | (1u8 << 3)) / 8) % 2 == 1,
        (((b & !(1u8 << 3)) | (1u8 << 3)) / 16) % 4 == (b / 16) % 4,
        (((b & !(1u8 << 3)) | (1u8 << 3)) / 64) % 2 == (b / 64) % 2,
        ((b & !(1u8 << 3)) | (1u8 << 3)) / 128 == b / 128,
{
}

proof fn lemma_mr8_clear_rbx(b: u8)
    by (bit_vector)
    ensures
        ((b & !(1u8 << 3)) | 0) % 4 == b % 4,
        (((b & !(1u8 << 3)) | 0) / 4) % 2 == (b / 4) % 2,
        (((b & !(1u8 << 3)) | 0) / 8) % 2 == 0,
        (((b & !(1u8 << 3)) | 0) / 16) % 4 == (b / 16) % 4,
        (((b & !(1u8 << 3)) | 0) / 64) % 2 == (b / 64) % 2,
        ((b & !(1u8 << 3)) | 0) / 128 == b / 128,
{
}

proof fn lemma_mr8_set_x16(b: u8)
    by (bit_vector)
    ensures
        ((b & !(1u8 << 6)) | (1u8 << 6)) % 4 == b % 4,
        (((b & !(1u8 << 6)) | (1u8 << 6)) / 4) % 2 == (b / 4) % 2,
        (((b & !(1u8 << 6)) | (1u8 << 6)) / 8) % 2 == (b / 8) % 2,
        (((b & !(1u8 << 6)) | (1u8 << 6)) / 16) % 4 == (b / 16) % 4,
        (((b & !(1u8 << 6)) | (1u8 << 6)) / 64) % 2 == 1,
        ((b & !(1u8 << 6)) | (1u8 << 6)) / 128 == b / 128,
{
}

proof fn lemma_mr8_clear_x16(b: u8)
    by (bit_vector)
    ensures
        ((b & !(1u8 << 6)) | 0) % 4 == b % 4,
        (((b & !(1u8 << 6)) | 0) / 4) % 2 == (b / 4) % 2,
        (((b & !(1u8 << 6)) | 0) / 8) % 2 == (b / 8) % 2,
        (((b & !(1u8 << 6)) | 0) / 16) % 4 == (b / 16) % 4,
        (((b & !(1u8 << 6)) | 0) / 64) % 2 == 0,
        ((b & !(1u8 << 6)) | 0) / 128 == b / 128,
{
}

/// Adding a bit above those already packed adds its weight.
proof fn lemma_mr8_pack(b: u8)
    by (bit_vector)
    ensures
        0u8 | (b & 0b11) == b % 4,
        b < 4 ==> b | (1u8 << 2) == b + 4,
        b < 8 ==> b | (1u8 << 3) == b + 8,
        b < 16 ==> b | (1u8 << 6) == b + 64,
{
}

impl Mr8 {
    /// Burst length: 0 is 16 B, 1 is 32 B, 2 is 64 B, 3 is 2048 B.
    pub fn bl(self) -> (r: u8)
        ensures
            r == self@.bl,
            r == self.0 % 4,
    {
        proof {
            lemma_mr8_get(self.0);
        }
        self.0 & 0b11
    }

    /// Burst type: `false` is wrap, `true` is hybrid wrap.
    pub fn bt(self) -> (r: bool)
        ensures
            r == self@.bt,
            r <==> (self.0 / 4) % 2 == 1,
    {
        proof {
            lemma_mr8_get(self.0);
        }
        (self.0 >> 2) & 1 != 0
    }

    pub fn rbx(self) -> (r: bool)
        ensures
            r == self@.rbx,
            r <==> (self.0 / 8) % 2 == 1,
    {
        proof {
            lemma_mr8_get(self.0);
        }
        (self.0 >> 3) & 1 != 0
    }

    /// Data width: `false` is 8 lanes, `true` is 16 lanes.
    pub fn x16(self) -> (r: bool)
        ensures
            r == self@.x16,
            r <==> (self.0 / 64) % 2 == 1,
    {
        proof {
            lemma_mr8_get(self.0);
        }
        (self.0 >> 6) & 1 != 0
    }

    /// Packs the fields; `bl` keeps only its two low bits.
    pub fn new(bl: u8, bt: bool, rbx: bool, x16: bool) -> (r: Mr8)
        ensures
            r@ == (Mr8View { bl: bl % 4, bt, rbx, bits4_5: 0, x16, bit7: false }),
    {
        let mut b: u8 = 0;
        proof {
            lemma_mr8_pack(bl);
        }
        b = b | (bl & 0b11);
        proof {
            lemma_mr8_pack(b);
        }
        if bt {
            b = b | (1 << 2);
        }
        proof {
            lemma_mr8_pack(b);
        }
        if rbx {
            b = b | (1 << 3);
        }
        proof {
            lemma_mr8_pack(b);
        }
        if x16 {
            b = b | (1 << 6);
        }
        Mr8(b)
    }

    /// Replaces `bl`, preserving the other bits.
    pub fn with_bl(self, bl: u8) -> (r: Mr8)
        ensures
            r@ == (Mr8View { bl: bl % 4, ..self@ }),
    {
        proof {
            lemma_mr8_set_bl(self.0, bl);
        }
        Mr8((self.0 & !0b11) | (bl & 0b11))
    }

    /// Replaces `bt`, preserving the other bits.
    pub fn with_bt(self, bt: bool) -> (r: Mr8)
        ensures
            r@ == (Mr8View { bt, ..self@ }),
    {
        proof {
            lemma_mr8_set_bt(self.0);
            lemma_mr8_clear_bt(self.0);
        }
        let mask: u8 = !(1 << 2);
        Mr8((self.0 & mask) | (if bt {
            1 << 2
        } else {
            0
        }))
    }

    /// Replaces `rbx`, preserving the other bits.
    pub fn with_rbx(self, rbx: bool) -> (r: Mr8)
        ensures
            r@ == (Mr8View { rbx, ..self@ }),
    {
        proof {
            lemma_mr8_set_rbx(self.0);
            lemma_mr8_clear_rbx(self.0);
        }
        let mask: u8 = !(1 << 3);
        Mr8((self.0 & mask) | (if rbx {
            1 << 3
        } else {
            0
        }))
    }

    /// Replaces `x16`, preserving the other bits.
    pub fn with_x16(self, x16: bool) -> (r: Mr8)
        ensures
            r@ == (Mr8View { x16, ..self@ }),
    {
        proof {
            lemma_mr8_set_x16(self.0);
            lemma_mr8_clear_x16(self.0);
        }
        let mask: u8 = !(1 << 6);
        Mr8((self.0 & mask) | (if x16 {
            1 << 6
        } else {
            0
        }))
    }
}

/// Snapshot of the mode registers.
#[derive(Debug, Clone, Copy, PartialEq, Eq, Structural)]
pub struct ModeRegisters {
    pub mr0: Mr0,
    pub mr1: Mr1,
    pub mr2: Mr2,
    pub mr3: Mr3,
    pub mr4: Mr4,
    pub mr8: Mr8,
}

impl ModeRegisters {
    /// The snapshot in which every register is zero.
    pub open spec fn zero() -> ModeRegisters {
        ModeRegisters {
            mr0: Mr0(0),
            mr1: Mr1(0),
            mr2: Mr2(0),
            mr3: Mr3(0),
            mr4: Mr4(0),
            mr8: Mr8(0),
        }
    }
}

impl Default for ModeRegisters {
    fn default() -> (r: ModeRegisters)
        ensures
            r == ModeRegisters::zero(),
    {
        ModeRegisters {
            mr0: Mr0::default(),
            mr1: Mr1::default(),
            mr2: Mr2::default(),
            mr3: Mr3::default(),
            mr4: Mr4::default(),
            mr8: Mr8::default(),
        }
    }
}

/// The configuration that bring-up programs into the chip: 200 MHz latencies,
/// fixed latency type, 2048-byte wrapping bursts, 16 data lanes.
pub open spec fn default_config() -> ModeRegisters {
    ModeRegisters {
        mr0: Mr0(0b0011_0000),
        mr4: Mr4(0b0010_0000),
        mr8: Mr8(0b0100_1011),
        ..ModeRegisters::zero()
    }
}

pub fn default_mode_register_config() -> (r: ModeRegisters)
    ensures
        r == default_config(),
        r.mr0@ == (Mr0View {
            drive_str: 0,
            read_latency: 4,
            lt: true,
            bit6: false,
            tso: false,
        }),
        r.mr4@ == (Mr4View { pasr: 0, rf: 0, wr_latency: 1 }),
        r.mr8@ == (Mr8View { bl: 3, bt: false, rbx: true, bits4_5: 0, x16: true, bit7: false }),
{
    let lat = LatencyConfig::speed_200m();
    ModeRegisters {
        mr0: Mr0::new(0, lat.rd_latency_mr, true),
        mr1: Mr1::default(),
        mr2: Mr2::default(),
        mr3: Mr3::default(),
        mr4: Mr4::default().with_wr_latency(lat.wr_latency_mr),
        mr8: Mr8::new(3, false, true, true),
    }
}

proof fn lemma_mr0_fields_cover(b: u8, c: u8)
    by (bit_vector)
    ensures
        b % 4 == c % 4 && (b / 4) % 8 == (c / 4) % 8 && (b / 32) % 2 == (c / 32) % 2 && (b / 64) % 2 == (c / 64) % 2 && b / 128 == c / 128 ==> b == c,
{
}

proof fn lemma_mr1_fields_cover(b: u8, c: u8)
    by (bit_vector)
    ensures
        b % 32 == c % 32 && (b / 32) % 4 == (c / 32) % 4 && b / 128 == c / 128 ==> b == c,
{
}

proof fn lemma_mr2_fields_cover(b: u8, c: u8)
    by (bit_vector)
    ensures
        b % 8 == c % 8 && (b / 8) % 4 == (c / 8) % 4 && b / 32 == c / 32 ==> b == c,
{
}

proof fn lemma_mr8_fields_cover(b: u8, c: u8)
    by (bit_vector)
    ensures
        b % 4 == c % 4 && (b / 4) % 2 == (c / 4) % 2 && (b / 8) % 2 == (c / 8) % 2 && (b / 16) % 4 == (c / 16) % 4 && (b / 64) % 2 == (c / 64) % 2 && b / 128 == c / 128 ==> b == c,
{
}

/// The fields of `MR0` determine its byte.
pub proof fn law_mr0_view_determines_byte(a: Mr0, b: Mr0)
    ensures
        a@ == b@ <==> a == b,
{
    lemma_mr0_fields_cover(a.0, b.0);
}

/// The fields of `MR1` determine its byte.
pub proof fn law_mr1_view_determines_byte(a: Mr1, b: Mr1)
    ensures
        a@ == b@ <==> a == b,
{
    lemma_mr1_fields_cover(a.0, b.0);
}

/// The fields of `MR2` determine its byte.
pub proof fn law_mr2_view_determines_byte(a: Mr2, b: Mr2)
    ensures
        a@ == b@ <==> a == b,
{
    lemma_mr2_fields_cover(a.0, b.0);
}

/// The fields of `MR4` determine its byte.
pub proof fn law_mr4_view_determines_byte(a: Mr4, b: Mr4)
    ensures
        a@ == b@ <==> a == b,
{
    lemma_mr2_fields_cover(a.0, b.0);
}

/// The fields of `MR8` determine its byte.
pub proof fn law_mr8_view_determines_byte(a: Mr8, b: Mr8)
    ensures
        a@ == b@ <==> a == b,
{
    lemma_mr8_fields_cover(a.0, b.0);
}

/// No two capacities share a density code or a size.
pub proof fn law_density_codes_distinct(a: PsramSize, b: PsramSize)
    ensures
        a.density_code() == b.density_code() <==> a == b,
        a.megabytes() == b.megabytes() <==> a == b,
        1 <= a.density_code() <= 7,
{
}

/// `MR0` is made up of its fields, each in its place.
pub proof fn law_mr0_layout(mr: Mr0)
    ensures
        mr@.drive_str < 4,
        mr@.read_latency < 8,
        mr.0 == mr@.drive_str + 4 * mr@.read_latency + (if mr@.lt {
            32int
        } else {
            0
        }) + (if mr@.bit6 {
            64int
        } else {
            0
        }) + (if mr@.tso {
            128int
        } else {
            0
        }),
{
    lemma_mr0_parts(mr.0);
}

/// `MR1` is made up of its fields, each in its place.
pub proof fn law_mr1_layout(mr: Mr1)
    ensures
        mr@.vendor_id < 32,
        mr@.bits5_6 < 4,
        mr.0 == mr@.vendor_id + 32 * mr@.bits5_6 + (if mr@.ulp {
            128int
        } else {
            0
        }),
{
}

/// `MR2` is made up of its fields, each in its place.
pub proof fn law_mr2_layout(mr: Mr2)
    ensures
        mr@.density < 8,
        mr@.dev_id < 4,
        mr@.kgd < 8,
        mr.0 == mr@.density + 8 * mr@.dev_id + 32 * mr@.kgd,
{
}

/// `MR4` is made up of its fields, each in its place.
pub proof fn law_mr4_layout(mr: Mr4)
    ensures
        mr@.pasr < 8,
        mr@.rf < 4,
        mr@.wr_latency < 8,
        mr.0 == mr@.pasr + 8 * mr@.rf + 32 * mr@.wr_latency,
{
}

proof fn lemma_mr0_parts(b: u8)
    by (bit_vector)
    ensures
        b == b % 4 + 4 * ((b / 4) % 8) + 32 * ((b / 32) % 2) + 64 * ((b / 64) % 2) + 128 * (b / 128),
        b / 128 < 2,
{
}

proof fn lemma_mr8_parts(b: u8)
    by (bit_vector)
    ensures
        b == b % 4 + 4 * ((b / 4) % 2) + 8 * ((b / 8) % 2) + 16 * ((b / 16) % 4) + 64 * ((b / 64)
            % 2) + 128 * (b / 128),
        b / 128 < 2,
{
}

/// `MR8` is made up of its fields, each in its place.
pub proof fn law_mr8_layout(mr: Mr8)
    ensures
        mr@.bl < 4,
        mr@.bits4_5 < 4,
        mr.0 == mr@.bl + (if mr@.bt {
            4int
        } else {
            0
        }) + (if mr@.rbx {
            8int
        } else {
            0
        }) + 16 * mr@.bits4_5 + (if mr@.x16 {
            64int
        } else {
            0
        }) + (if mr@.bit7 {
            128int
        } else {
            0
        }),
{
    lemma_mr8_parts(mr.0);
}

/// The density codes: the odd ones 1, 3, 5, 7 stand for 4 MB, doubled once per step;
/// 6 stands for 64 MB.
pub proof fn law_density_codes(size: PsramSize)
    ensures
        size.density_code() % 2 == 1 ==> size.megabytes() == 4 * vstd::arithmetic::power2::pow2(
            (size.density_code() / 2) as nat,
        ),
        size.density_code() % 2 == 0 ==> size.density_code() == 6 && size.megabytes() == 64,
        size == PsramSize::Mb64 <==> size.megabytes() == 64,
        size == PsramSize::Mb32 <==> size.megabytes() == 32,
        size == PsramSize::Mb16 <==> size.megabytes() == 16,
        size == PsramSize::Mb8 <==> size.megabytes() == 8,
        size == PsramSize::Mb4 <==> size.megabytes() == 4,
        size.density_code() < 8,
{
    vstd::arithmetic::power2::lemma2_to64();
}

/// The configuration that is programmed, and the snapshot of nothing, byte by byte.
pub proof fn law_constant_registers()
    ensures
        ModeRegisters::zero() == (ModeRegisters {
            mr0: Mr0(0),
            mr1: Mr1(0),
            mr2: Mr2(0),
            mr3: Mr3(0),
            mr4: Mr4(0),
            mr8: Mr8(0),
        }),
        default_config() == (ModeRegisters {
            mr0: Mr0(0x30),
            mr4: Mr4(0x20),
            mr8: Mr8(0x4B),
            ..ModeRegisters::zero()
        }),
{
}

} // verus!
