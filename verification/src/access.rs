//! Device accesses as values.
//!
//! Configuring the controllers is a matter of writing fields of memory-mapped
//! registers. The functions of this library do not touch the device: they list
//! the accesses, in order, and the caller performs them. A register and its
//! fields go by name; where a field lies inside the register is the business
//! of the register-access crate that the caller uses.
use vstd::prelude::*;

verus! {

/// A register whose fields are updated one by one.
#[derive(Debug, Clone, Copy, PartialEq, Eq, Structural)]
pub enum Register {
    /// `SPI0` external RAM control.
    CacheSctrl,
    /// `SPI0` external RAM write command.
    SramDwrCmd,
    /// `SPI0` external RAM read command.
    SramDrdCmd,
    /// `SPI0` external RAM DDR mode.
    SmemDdr,
    /// `SPI0` external RAM line mode.
    SramCmd,
    /// `SPI0` AXI and flash cache control.
    CacheFctrl,
    /// `SPI0` control 1.
    Ctrl1,
    /// `SPI0` external RAM timing calibration.
    SmemTimingCali,
    /// `SPI0` flash timing calibration.
    TimingCali,
    /// `SPI0` external RAM chip-select timing.
    SmemAc,
    /// `SPI0` external RAM ECC control.
    SmemEccCtrl,
    /// `SPI0` attributes of a protected region.
    PmsAttr(usize),
    /// `SPI0` start of a protected region.
    PmsAddr(usize),
    /// `SPI0` size of a protected region.
    PmsSize(usize),
    /// `SPI1` DDR mode.
    Spi1Ddr,
    /// `HP_SYS_CLKRST` system clock gates.
    SocClkCtrl0,
    /// `HP_SYS_CLKRST` peripheral clock control.
    PeriClkCtrl00,
    /// `HP_SYS_CLKRST` resets.
    HpRstEn0,
}

impl Register {
    /// Address of the register.
    pub open spec fn address(self) -> int {
        match self {
            Register::CacheSctrl => 0x5008_E040,
            Register::SramDwrCmd => 0x5008_E04C,
            Register::SramDrdCmd => 0x5008_E048,
            Register::SmemDdr => 0x5008_E0D8,
            Register::SramCmd => 0x5008_E044,
            Register::CacheFctrl => 0x5008_E03C,
            Register::Ctrl1 => 0x5008_E00C,
            Register::SmemTimingCali => 0x5008_E190,
            Register::TimingCali => 0x5008_E180,
            Register::SmemAc => 0x5008_E1A0,
            Register::SmemEccCtrl => 0x5008_E174,
            Register::PmsAttr(n) => 0x5008_E130 + 4 * n,
            Register::PmsAddr(n) => 0x5008_E140 + 4 * n,
            Register::PmsSize(n) => 0x5008_E150 + 4 * n,
            Register::Spi1Ddr => 0x5008_F0D4,
            Register::SocClkCtrl0 => 0x500E_6014,
            Register::PeriClkCtrl00 => 0x500E_6030,
            Register::HpRstEn0 => 0x500E_60C0,
        }
    }
}

/// A field of a register.
#[derive(Debug, Clone, Copy, PartialEq, Eq, Structural)]
pub enum Field {
    /// Sends a command phase on cache writes.
    CacheSramUsrWcmd,
    /// Sends a command phase on cache reads.
    CacheSramUsrRcmd,
    /// Address length in bits, less one.
    SramAddrBitlen,
    /// Four-byte addresses.
    CacheUsrSaddr4byte,
    /// Inserts a dummy phase on writes.
    UsrWrSramDummy,
    /// Write dummy length, less one.
    SramWdummyCyclelen,
    /// Inserts a dummy phase on reads.
    UsrRdSramDummy,
    /// Read dummy length, less one.
    SramRdummyCyclelen,
    /// Octal mode of the cache port.
    SramOct,
    /// Write command length in bits, less one.
    WrCmdBitlen,
    /// Write command.
    WrCmdValue,
    /// Read command length in bits, less one.
    RdCmdBitlen,
    /// Read command.
    RdCmdValue,
    /// Variable dummy length of the cache-side controller.
    SmemVarDummy,
    /// Double data rate.
    DdrEn,
    /// Swaps the bytes of written data.
    DdrWdatSwp,
    /// Swaps the bytes of read data.
    DdrRdatSwp,
    /// Variable dummy length of the command-side controller.
    FmemVarDummy,
    /// Drives the lines during the write dummy phase.
    SdummyWout,
    /// Drives the lines during the read dummy phase.
    SdummyRin,
    /// Octal command phase.
    ScmdOct,
    /// Octal address phase.
    SaddrOct,
    /// Octal data output.
    SdoutOct,
    /// Octal data input.
    SdinOct,
    /// Sixteen-line data input.
    SdinHex,
    /// Sixteen-line data output.
    SdoutHex,
    /// Accepts AXI requests.
    AxiReqEn,
    /// Closes the AXI interface.
    CloseAxiInfEn,
    /// Merges adjacent AXI writes.
    AwSpliceEn,
    /// Merges adjacent AXI reads.
    ArSpliceEn,
    /// DLL calibration of the cache-side controller.
    SmemDllTimingCali,
    /// DLL calibration of the command-side controller.
    DllTimingCali,
    /// Enables the chip-select setup time.
    CsSetup,
    /// Chip-select setup time, less one.
    CsSetupTime,
    /// Enables the chip-select hold time.
    CsHold,
    /// Chip-select hold time, less one.
    CsHoldTime,
    /// Chip-select hold delay, less one.
    CsHoldDelay,
    /// Chip-select hold time in ECC mode, less one.
    EccCsHoldTime,
    /// Splits transfers at page boundaries.
    SplitTransEn,
    /// ECC address conversion.
    EccAddrEn,
    /// Page size: 256 bytes, shifted left by the value.
    PageSize,
    /// ECC of a protected region.
    PmsEcc(usize),
    /// Write permission of a protected region.
    PmsWrAttr(usize),
    /// Read permission of a protected region.
    PmsRdAttr(usize),
    /// Start address of a protected region.
    PmsStart(usize),
    /// Size of a protected region.
    PmsLength(usize),
    /// System clock gate of the PSRAM controllers.
    PsramSysClkEn,
    /// PLL clock gate of the PSRAM controllers.
    PsramPllClkEn,
    /// Clock source of the PSRAM controllers.
    PsramClkSrcSel,
    /// Core clock divider, less one.
    PsramCoreClkDivNum,
    /// Core clock gate of the PSRAM controllers.
    PsramCoreClkEn,
    /// AXI reset of the two controllers.
    RstEnDualMspiAxi,
    /// APB reset of the two controllers.
    RstEnDualMspiApb,
}

impl Field {
    /// The register that holds the field.
    pub open spec fn spec_register(self) -> Register {
        match self {
            Field::CacheSramUsrWcmd => Register::CacheSctrl,
            Field::CacheSramUsrRcmd => Register::CacheSctrl,
            Field::SramAddrBitlen => Register::CacheSctrl,
            Field::CacheUsrSaddr4byte => Register::CacheSctrl,
            Field::UsrWrSramDummy => Register::CacheSctrl,
            Field::SramWdummyCyclelen => Register::CacheSctrl,
            Field::UsrRdSramDummy => Register::CacheSctrl,
            Field::SramRdummyCyclelen => Register::CacheSctrl,
            Field::SramOct => Register::CacheSctrl,
            Field::WrCmdBitlen => Register::SramDwrCmd,
            Field::WrCmdValue => Register::SramDwrCmd,
            Field::RdCmdBitlen => Register::SramDrdCmd,
            Field::RdCmdValue => Register::SramDrdCmd,
            Field::SmemVarDummy => Register::SmemDdr,
            Field::DdrEn => Register::SmemDdr,
            Field::DdrWdatSwp => Register::SmemDdr,
            Field::DdrRdatSwp => Register::SmemDdr,
            Field::FmemVarDummy => Register::Spi1Ddr,
            Field::SdummyWout => Register::SramCmd,
            Field::SdummyRin => Register::SramCmd,
            Field::ScmdOct => Register::SramCmd,
            Field::SaddrOct => Register::SramCmd,
            Field::SdoutOct => Register::SramCmd,
            Field::SdinOct => Register::SramCmd,
            Field::SdinHex => Register::SramCmd,
            Field::SdoutHex => Register::SramCmd,
            Field::AxiReqEn => Register::CacheFctrl,
            Field::CloseAxiInfEn => Register::CacheFctrl,
            Field::AwSpliceEn => Register::Ctrl1,
            Field::ArSpliceEn => Register::Ctrl1,
            Field::SmemDllTimingCali => Register::SmemTimingCali,
            Field::DllTimingCali => Register::TimingCali,
            Field::CsSetup => Register::SmemAc,
            Field::CsSetupTime => Register::SmemAc,
            Field::CsHold => Register::SmemAc,
            Field::CsHoldTime => Register::SmemAc,
            Field::CsHoldDelay => Register::SmemAc,
            Field::EccCsHoldTime => Register::SmemAc,
            Field::SplitTransEn => Register::SmemAc,
            Field::EccAddrEn => Register::SmemEccCtrl,
            Field::PageSize => Register::SmemEccCtrl,
            Field::PmsEcc(n) => Register::PmsAttr(n),
            Field::PmsWrAttr(n) => Register::PmsAttr(n),
            Field::PmsRdAttr(n) => Register::PmsAttr(n),
            Field::PmsStart(n) => Register::PmsAddr(n),
            Field::PmsLength(n) => Register::PmsSize(n),
            Field::PsramSysClkEn => Register::SocClkCtrl0,
            Field::PsramPllClkEn => Register::PeriClkCtrl00,
            Field::PsramClkSrcSel => Register::PeriClkCtrl00,
            Field::PsramCoreClkDivNum => Register::PeriClkCtrl00,
            Field::PsramCoreClkEn => Register::PeriClkCtrl00,
            Field::RstEnDualMspiAxi => Register::HpRstEn0,
            Field::RstEnDualMspiApb => Register::HpRstEn0,
        }
    }

    /// The register that holds the field.
    #[verifier::when_used_as_spec(spec_register)]
    pub fn register(self) -> (r: Register)
        ensures
            r == self.register(),
    {
        match self {
            Field::CacheSramUsrWcmd => Register::CacheSctrl,
            Field::CacheSramUsrRcmd => Register::CacheSctrl,
            Field::SramAddrBitlen => Register::CacheSctrl,
            Field::CacheUsrSaddr4byte => Register::CacheSctrl,
            Field::UsrWrSramDummy => Register::CacheSctrl,
            Field::SramWdummyCyclelen => Register::CacheSctrl,
            Field::UsrRdSramDummy => Register::CacheSctrl,
            Field::SramRdummyCyclelen => Register::CacheSctrl,
            Field::SramOct => Register::CacheSctrl,
            Field::WrCmdBitlen => Register::SramDwrCmd,
            Field::WrCmdValue => Register::SramDwrCmd,
            Field::RdCmdBitlen => Register::SramDrdCmd,
            Field::RdCmdValue => Register::SramDrdCmd,
            Field::SmemVarDummy => Register::SmemDdr,
            Field::DdrEn => Register::SmemDdr,
            Field::DdrWdatSwp => Register::SmemDdr,
            Field::DdrRdatSwp => Register::SmemDdr,
            Field::FmemVarDummy => Register::Spi1Ddr,
            Field::SdummyWout => Register::SramCmd,
            Field::SdummyRin => Register::SramCmd,
            Field::ScmdOct => Register::SramCmd,
            Field::SaddrOct => Register::SramCmd,
            Field::SdoutOct => Register::SramCmd,
            Field::SdinOct => Register::SramCmd,
            Field::SdinHex => Register::SramCmd,
            Field::SdoutHex => Register::SramCmd,
            Field::AxiReqEn => Register::CacheFctrl,
            Field::CloseAxiInfEn => Register::CacheFctrl,
            Field::AwSpliceEn => Register::Ctrl1,
            Field::ArSpliceEn => Register::Ctrl1,
            Field::SmemDllTimingCali => Register::SmemTimingCali,
            Field::DllTimingCali => Register::TimingCali,
            Field::CsSetup => Register::SmemAc,
            Field::CsSetupTime => Register::SmemAc,
            Field::CsHold => Register::SmemAc,
            Field::CsHoldTime => Register::SmemAc,
            Field::CsHoldDelay => Register::SmemAc,
            Field::EccCsHoldTime => Register::SmemAc,
            Field::SplitTransEn => Register::SmemAc,
            Field::EccAddrEn => Register::SmemEccCtrl,
            Field::PageSize => Register::SmemEccCtrl,
            Field::PmsEcc(n) => Register::PmsAttr(n),
            Field::PmsWrAttr(n) => Register::PmsAttr(n),
            Field::PmsRdAttr(n) => Register::PmsAttr(n),
            Field::PmsStart(n) => Register::PmsAddr(n),
            Field::PmsLength(n) => Register::PmsSize(n),
            Field::PsramSysClkEn => Register::SocClkCtrl0,
            Field::PsramPllClkEn => Register::PeriClkCtrl00,
            Field::PsramClkSrcSel => Register::PeriClkCtrl00,
            Field::PsramCoreClkDivNum => Register::PeriClkCtrl00,
            Field::PsramCoreClkEn => Register::PeriClkCtrl00,
            Field::RstEnDualMspiAxi => Register::HpRstEn0,
            Field::RstEnDualMspiApb => Register::HpRstEn0,
        }
    }

    /// Whether the device has the field: there are four protected regions.
    pub open spec fn on_device(self) -> bool {
        match self {
            Field::PmsEcc(n) => n < 4,
            Field::PmsWrAttr(n) => n < 4,
            Field::PmsRdAttr(n) => n < 4,
            Field::PmsStart(n) => n < 4,
            Field::PmsLength(n) => n < 4,
            _ => true,
        }
    }

    /// How many values the field can hold: two to the power of its width.
    pub open spec fn capacity(self) -> int {
        match self {
            Field::SramAddrBitlen => 64,
            Field::SramWdummyCyclelen => 64,
            Field::SramRdummyCyclelen => 64,
            Field::WrCmdBitlen => 16,
            Field::WrCmdValue => 65536,
            Field::RdCmdBitlen => 16,
            Field::RdCmdValue => 65536,
            Field::CsSetupTime => 32,
            Field::CsHoldTime => 32,
            Field::CsHoldDelay => 64,
            Field::EccCsHoldTime => 8,
            Field::PageSize => 4,
            Field::PmsStart(_) => 0x8000000,
            Field::PmsLength(_) => 32768,
            Field::PsramClkSrcSel => 4,
            Field::PsramCoreClkDivNum => 256,
            _ => 2,
        }
    }
}

/// A value handed to a field. The field keeps as many low bits as it has.
#[derive(Debug, Clone, Copy, PartialEq, Eq, Structural)]
pub struct FieldWrite {
    pub field: Field,
    pub value: u32,
}

/// The fields that one read-modify-write of a register changes.
#[derive(Debug, Clone, Copy, PartialEq, Eq, Structural)]
pub enum Writes {
    One(FieldWrite),
    Two(FieldWrite, FieldWrite),
    Four(FieldWrite, FieldWrite, FieldWrite, FieldWrite),
}

/// One access to the device that returns nothing.
#[derive(Debug, Clone, Copy, PartialEq, Eq, Structural)]
pub enum Access {
    /// Read the register, change the fields, write the register back.
    Modify { register: Register, writes: Writes },
    /// Read the word at `addr`, set the bits of `mask`, write it back.
    SetBits { addr: usize, mask: u32 },
    /// Write the word at `addr`.
    Store { addr: usize, value: u32 },
    /// Invalidate the caches that `map` selects, through the boot ROM.
    InvalidateCaches { map: u32 },
}

/// 1 for `true`, 0 for `false`.
#[verifier::allow_in_spec]
pub fn flag(en: bool) -> u32
    returns
        (if en {
            1u32
        } else {
            0u32
        }),
{
    if en {
        1
    } else {
        0
    }
}

/// The update of one field.
#[verifier::allow_in_spec]
pub fn modify(field: Field, value: u32) -> Access
    returns
        (Access::Modify {
            register: field.register(),
            writes: Writes::One(FieldWrite { field, value }),
        }),
{
    Access::Modify {
        register: field.register(),
        writes: Writes::One(FieldWrite { field, value }),
    }
}

/// The update of two fields of one register at once.
#[verifier::allow_in_spec]
pub fn modify2(field1: Field, value1: u32, field2: Field, value2: u32) -> Access
    returns
        (Access::Modify {
            register: field1.register(),
            writes: Writes::Two(
                FieldWrite { field: field1, value: value1 },
                FieldWrite { field: field2, value: value2 },
            ),
        }),
{
    Access::Modify {
        register: field1.register(),
        writes: Writes::Two(
            FieldWrite { field: field1, value: value1 },
            FieldWrite { field: field2, value: value2 },
        ),
    }
}

impl Writes {
    /// The writes in order.
    pub open spec fn sequence(self) -> Seq<FieldWrite> {
        match self {
            Writes::One(a) => seq![a],
            Writes::Two(a, b) => seq![a, b],
            Writes::Four(a, b, c, d) => seq![a, b, c, d],
        }
    }
}

/// What `field` holds after `writes`, if it held `before`: the last value
/// written to it, cut to the width of the field.
pub open spec fn after_writes(writes: Seq<FieldWrite>, field: Field, before: Option<int>) -> Option<
    int,
>
    decreases writes.len(),
{
    if writes.len() == 0 {
        before
    } else if writes.last().field == field {
        Some(writes.last().value as int % field.capacity())
    } else {
        after_writes(writes.drop_last(), field, before)
    }
}

/// What `field` holds after `access`; `None` where that is not known, which is
/// so when the register that holds it is accessed as a whole word.
pub open spec fn after_access(access: Access, field: Field, before: Option<int>) -> Option<int> {
    match access {
        Access::Modify { register, writes } => after_writes(writes.sequence(), field, before),
        Access::SetBits { addr, .. } => if addr == field.register().address() {
            None
        } else {
            before
        },
        Access::Store { addr, .. } => if addr == field.register().address() {
            None
        } else {
            before
        },
        Access::InvalidateCaches { .. } => before,
    }
}

/// What `field` holds after all of `accesses` in order.
pub open spec fn field_after(accesses: Seq<Access>, field: Field, before: Option<int>) -> Option<
    int,
>
    decreases accesses.len(),
{
    if accesses.len() == 0 {
        before
    } else {
        after_access(accesses.last(), field, field_after(accesses.drop_last(), field, before))
    }
}

/// Whether `access` may change `field`.
pub open spec fn touches(access: Access, field: Field) -> bool {
    match access {
        Access::Modify { writes, .. } => match writes {
            Writes::One(a) => a.field == field,
            Writes::Two(a, b) => a.field == field || b.field == field,
            Writes::Four(a, b, c, d) => a.field == field || b.field == field || c.field == field
                || d.field == field,
        },
        Access::SetBits { addr, .. } => addr == field.register().address(),
        Access::Store { addr, .. } => addr == field.register().address(),
        Access::InvalidateCaches { .. } => false,
    }
}

/// What is left of a field that is written once by an update, or not at all.
pub proof fn lemma_after_access(access: Access, field: Field, before: Option<int>)
    ensures
        !touches(access, field) ==> after_access(access, field, before) == before,
        access matches Access::Modify { writes, .. } ==> match writes {
            Writes::One(a) => a.field == field ==> after_access(access, field, before) == Some(
                a.value as int % field.capacity(),
            ),
            Writes::Two(a, b) => {
                &&& b.field == field ==> after_access(access, field, before) == Some(
                    b.value as int % field.capacity(),
                )
                &&& a.field == field && b.field != field ==> after_access(access, field, before)
                    == Some(a.value as int % field.capacity())
            },
            Writes::Four(a, b, c, d) => a.value == b.value && b.value == c.value && c.value
                == d.value && touches(access, field) ==> after_access(access, field, before)
                == Some(a.value as int % field.capacity()),
        },
{
    reveal_with_fuel(after_writes, 5);
    if let Access::Modify { writes, .. } = access {
        match writes {
            Writes::One(a) => {
                assert(seq![a].drop_last() == Seq::<FieldWrite>::empty());
            },
            Writes::Two(a, b) => {
                assert(seq![a, b].drop_last() == seq![a]);
                assert(seq![a].drop_last() == Seq::<FieldWrite>::empty());
            },
            Writes::Four(a, b, c, d) => {
                assert(seq![a, b, c, d].drop_last() == seq![a, b, c]);
                assert(seq![a, b, c].drop_last() == seq![a, b]);
                assert(seq![a, b].drop_last() == seq![a]);
                assert(seq![a].drop_last() == Seq::<FieldWrite>::empty());
            },
        }
    }
}

/// A field holds what the last access that touches it leaves in it.
pub proof fn lemma_last_access(accesses: Seq<Access>, i: int, field: Field, before: Option<int>)
    requires
        0 <= i < accesses.len(),
        forall|j: int| i < j < accesses.len() ==> !touches(#[trigger] accesses[j], field),
    ensures
        field_after(accesses, field, before) == after_access(
            accesses[i],
            field,
            field_after(accesses.take(i), field, before),
        ),
    decreases accesses.len(),
{
    let rest = accesses.drop_last();
    if i == accesses.len() - 1 {
        assert(accesses.take(i) == rest);
    } else {
        lemma_last_access(rest, i, field, before);
        assert(rest.take(i) == accesses.take(i));
        lemma_after_access(accesses.last(), field, field_after(rest, field, before));
    }
}

/// Whether `access` is an update that leaves `value` in `field`.
pub open spec fn sets(access: Access, field: Field, value: u32) -> bool {
    let write = FieldWrite { field, value };
    access matches Access::Modify { writes, .. } && match writes {
        Writes::One(a) => a == write,
        Writes::Two(a, b) => b == write || (a == write && b.field != field),
        Writes::Four(a, b, c, d) => {
            &&& a.value == value && b.value == value && c.value == value && d.value == value
            &&& a == write || b == write || c == write || d == write
        },
    }
}

/// A field that is set by access `i` and not touched afterwards holds that value,
/// cut to its width.
pub proof fn lemma_set_at(
    accesses: Seq<Access>,
    i: int,
    field: Field,
    value: u32,
    before: Option<int>,
)
    requires
        0 <= i < accesses.len(),
        sets(accesses[i], field, value),
        forall|j: int| i < j < accesses.len() ==> !touches(#[trigger] accesses[j], field),
    ensures
        field_after(accesses, field, before) == Some(value as int % field.capacity()),
{
    lemma_last_access(accesses, i, field, before);
    lemma_after_access(accesses[i], field, field_after(accesses.take(i), field, before));
}

/// A field that no access touches keeps its content.
pub proof fn lemma_untouched(accesses: Seq<Access>, field: Field, before: Option<int>)
    requires
        forall|j: int| 0 <= j < accesses.len() ==> !touches(#[trigger] accesses[j], field),
    ensures
        field_after(accesses, field, before) == before,
    decreases accesses.len(),
{
    if accesses.len() > 0 {
        lemma_untouched(accesses.drop_last(), field, before);
        lemma_after_access(
            accesses.last(),
            field,
            field_after(accesses.drop_last(), field, before),
        );
    }
}

/// Doing `a` and then `b` leaves in a field what `b` makes of what `a` left.
pub proof fn lemma_field_after_concat(
    a: Seq<Access>,
    b: Seq<Access>,
    field: Field,
    before: Option<int>,
)
    ensures
        field_after(a + b, field, before) == field_after(b, field, field_after(a, field, before)),
    decreases b.len(),
{
    if b.len() == 0 {
        assert(a + b == a);
    } else {
        lemma_field_after_concat(a, b.drop_last(), field, before);
        assert((a + b).drop_last() == a + b.drop_last());
        assert((a + b).last() == b.last());
    }
}

/// An update names only fields of the register that it updates.
pub open spec fn consistent(access: Access) -> bool {
    match access {
        Access::Modify { register, writes } => match writes {
            Writes::One(a) => a.field.register() == register,
            Writes::Two(a, b) => a.field.register() == register && b.field.register() == register,
            Writes::Four(a, b, c, d) => a.field.register() == register && b.field.register()
                == register && c.field.register() == register && d.field.register() == register,
        },
        _ => true,
    }
}

/// Updating one field leaves in it the value cut to its width, and leaves every
/// other field alone.
pub proof fn law_modify(field: Field, value: u32, other: Field, before: Option<int>)
    ensures
        after_access(modify(field, value), field, before) == Some(
            value as int % field.capacity(),
        ),
        other != field ==> after_access(modify(field, value), other, before) == before,
        consistent(modify(field, value)),
{
    lemma_after_access(modify(field, value), field, before);
    lemma_after_access(modify(field, value), other, before);
}

/// Updating two fields of a register leaves in each its value cut to its width,
/// and leaves every other field alone.
pub proof fn law_modify2(
    field1: Field,
    value1: u32,
    field2: Field,
    value2: u32,
    other: Field,
    before: Option<int>,
)
    requires
        field1 != field2,
        field1.register() == field2.register(),
    ensures
        after_access(modify2(field1, value1, field2, value2), field1, before) == Some(
            value1 as int % field1.capacity(),
        ),
        after_access(modify2(field1, value1, field2, value2), field2, before) == Some(
            value2 as int % field2.capacity(),
        ),
        other != field1 && other != field2 ==> after_access(
            modify2(field1, value1, field2, value2),
            other,
            before,
        ) == before,
        consistent(modify2(field1, value1, field2, value2)),
{
    let access = modify2(field1, value1, field2, value2);
    lemma_after_access(access, field1, before);
    lemma_after_access(access, field2, before);
    lemma_after_access(access, other, before);
}

/// Where each field lies: the address of its register. Fields of the cache-side
/// controller lie in the bank at 0x5008_E000, that of the command-side controller in
/// the bank at 0x5008_F000, clocks and resets in the bank at 0x500E_6000.
pub proof fn law_field_addresses(field: Field)
    ensures
        ({
            let offset = field.register().address() - 0x5008_E000;
            match field {
                Field::CacheSramUsrWcmd => offset == 0x40,
                Field::CacheSramUsrRcmd => offset == 0x40,
                Field::SramAddrBitlen => offset == 0x40,
                Field::CacheUsrSaddr4byte => offset == 0x40,
                Field::UsrWrSramDummy => offset == 0x40,
                Field::SramWdummyCyclelen => offset == 0x40,
                Field::UsrRdSramDummy => offset == 0x40,
                Field::SramRdummyCyclelen => offset == 0x40,
                Field::SramOct => offset == 0x40,
                Field::WrCmdBitlen => offset == 0x4C,
                Field::WrCmdValue => offset == 0x4C,
                Field::RdCmdBitlen => offset == 0x48,
                Field::RdCmdValue => offset == 0x48,
                Field::SmemVarDummy => offset == 0xD8,
                Field::DdrEn => offset == 0xD8,
                Field::DdrWdatSwp => offset == 0xD8,
                Field::DdrRdatSwp => offset == 0xD8,
                Field::FmemVarDummy => offset == 0x1000 + 0xD4,
                Field::SdummyWout => offset == 0x44,
                Field::SdummyRin => offset == 0x44,
                Field::ScmdOct => offset == 0x44,
                Field::SaddrOct => offset == 0x44,
                Field::SdoutOct => offset == 0x44,
                Field::SdinOct => offset == 0x44,
                Field::SdinHex => offset == 0x44,
                Field::SdoutHex => offset == 0x44,
                Field::AxiReqEn => offset == 0x3C,
                Field::CloseAxiInfEn => offset == 0x3C,
                Field::AwSpliceEn => offset == 0x0C,
                Field::ArSpliceEn => offset == 0x0C,
                Field::SmemDllTimingCali => offset == 0x190,
                Field::DllTimingCali => offset == 0x180,
                Field::CsSetup => offset == 0x1A0,
                Field::CsSetupTime => offset == 0x1A0,
                Field::CsHold => offset == 0x1A0,
                Field::CsHoldTime => offset == 0x1A0,
                Field::CsHoldDelay => offset == 0x1A0,
                Field::EccCsHoldTime => offset == 0x1A0,
                Field::SplitTransEn => offset == 0x1A0,
                Field::EccAddrEn => offset == 0x174,
                Field::PageSize => offset == 0x174,
                Field::PmsEcc(n) => offset == 0x130 + 4 * n,
                Field::PmsWrAttr(n) => offset == 0x130 + 4 * n,
                Field::PmsRdAttr(n) => offset == 0x130 + 4 * n,
                Field::PmsStart(n) => offset == 0x140 + 4 * n,
                Field::PmsLength(n) => offset == 0x150 + 4 * n,
                Field::PsramSysClkEn => offset == 0x5_8000 + 0x14,
                Field::PsramPllClkEn => offset == 0x5_8000 + 0x30,
                Field::PsramClkSrcSel => offset == 0x5_8000 + 0x30,
                Field::PsramCoreClkDivNum => offset == 0x5_8000 + 0x30,
                Field::PsramCoreClkEn => offset == 0x5_8000 + 0x30,
                Field::RstEnDualMspiAxi => offset == 0x5_8000 + 0xC0,
                Field::RstEnDualMspiApb => offset == 0x5_8000 + 0xC0,
            }
        }),
{
}

/// An update writes, in one go, exactly the fields and values that it is made for.
pub proof fn law_update_writes(field1: Field, value1: u32, field2: Field, value2: u32)
    ensures
        modify(field1, value1) matches Access::Modify {
            register,
            writes: Writes::One(a),
        } && register == field1.register() && a.field == field1 && a.value == value1,
        modify2(field1, value1, field2, value2) matches Access::Modify {
            register,
            writes: Writes::Two(a, b),
        } && register == field1.register() && a.field == field1 && a.value == value1 && b.field
            == field2 && b.value == value2,
        flag(true) == 1,
        flag(false) == 0,
{
}

} // verus!
