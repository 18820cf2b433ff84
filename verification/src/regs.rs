//! Register-level configuration of the PSRAM controllers.
//!
//! Each setter appends the accesses that make up the setting to a list. Each
//! getter is asked twice: first it names the field to read, then it is given
//! what was read and answers with the value.
//!
//! Most settings live in the cache-side controller whatever controller is
//! named; the parameter is kept so that all calls read alike.
use vstd::prelude::*;

use crate::access::{flag, modify, modify2};
use crate::access::{Access, Field, FieldWrite, Writes};
use crate::mspi::MspiId;
pub use crate::transaction::{
    common_transaction, try_common_transaction, EspRomSpiCmd, SpiFlashReadMode, TransactionError,
};

verus! {

/// Base of the register bank of the cache-side controller.
pub const SPIMEM2_BASE: usize = 0x5008_E000;

/// Base of the register bank of the command-side controller.
pub const SPIMEM3_BASE: usize = 0x5008_F000;

/// Number of protected regions.
pub const PMS_REGION_NUMS: usize = 4;

/// Attribute bit of a writable region.
pub const PMS_ATTR_WRITABLE: u32 = 1;

/// Attribute bit of a readable region.
pub const PMS_ATTR_READABLE: u32 = 2;

/// Largest payload of one transaction, in bytes.
pub const FIFO_MAX_BYTES: usize = 64;

/// Value of the AXI address control register once every pending transaction
/// has drained: the six FIFO-empty bits, 26 to 31.
pub const ALL_TRANSACTION_DONE: u32 = 0xFC00_0000;

/// Clock source of the PSRAM controllers.
#[derive(Debug, Clone, Copy, PartialEq, Eq, Structural)]
pub enum PsramClkSrc {
    Xtal,
    Mpll,
    Spll,
    Cpll,
}

impl PsramClkSrc {
    /// Value of the source selector.
    #[verifier::allow_in_spec]
    pub fn code(self) -> u32
        returns
            (match self {
                PsramClkSrc::Xtal => 0u32,
                PsramClkSrc::Mpll => 1u32,
                PsramClkSrc::Spll => 2u32,
                PsramClkSrc::Cpll => 3u32,
            }),
    {
        match self {
            PsramClkSrc::Xtal => 0,
            PsramClkSrc::Mpll => 1,
            PsramClkSrc::Spll => 2,
            PsramClkSrc::Cpll => 3,
        }
    }
}

/// Low eight bits.
fn low_byte(x: u32) -> (r: u32)
    ensures
        r == x % 256,
{
    proof {
        assert((x as u8) as u32 == x % 256) by (bit_vector);
    }
    (x as u8) as u32
}

/// Low sixteen bits.
fn low_half(x: u32) -> (r: u32)
    ensures
        r == x % 65536,
{
    proof {
        assert((x as u16) as u32 == x % 65536) by (bit_vector);
    }
    (x as u16) as u32
}

/// Sends the write command `cmd_val`, `cmd_bitlen` bits long, on cache writes.
pub fn set_wr_cmd(ops: &mut Vec<Access>, _mspi: MspiId, cmd_bitlen: u32, cmd_val: u32)
    requires
        cmd_bitlen >= 1,
    ensures
        final(ops)@ == old(ops)@ + seq![
            modify(Field::CacheSramUsrWcmd, 1),
            modify2(
                Field::WrCmdBitlen,
                ((cmd_bitlen - 1) % 256) as u32,
                Field::WrCmdValue,
                cmd_val % 65536,
            ),
        ],
{
    ops.push(modify(Field::CacheSramUsrWcmd, 1));
    ops.push(modify2(Field::WrCmdBitlen, low_byte(cmd_bitlen - 1), Field::WrCmdValue, low_half(cmd_val)));
}

/// Sends the read command `cmd_val`, `cmd_bitlen` bits long, on cache reads.
pub fn set_rd_cmd(ops: &mut Vec<Access>, _mspi: MspiId, cmd_bitlen: u32, cmd_val: u32)
    requires
        cmd_bitlen >= 1,
    ensures
        final(ops)@ == old(ops)@ + seq![
            modify(Field::CacheSramUsrRcmd, 1),
            modify2(
                Field::RdCmdBitlen,
                ((cmd_bitlen - 1) % 256) as u32,
                Field::RdCmdValue,
                cmd_val % 65536,
            ),
        ],
{
    ops.push(modify(Field::CacheSramUsrRcmd, 1));
    ops.push(modify2(Field::RdCmdBitlen, low_byte(cmd_bitlen - 1), Field::RdCmdValue, low_half(cmd_val)));
}

/// Sends addresses of `addr_bitlen` bits.
pub fn set_addr_bitlen(ops: &mut Vec<Access>, _mspi: MspiId, addr_bitlen: u32)
    requires
        addr_bitlen >= 1,
    ensures
        final(ops)@ == old(ops)@.push(modify(Field::SramAddrBitlen, ((addr_bitlen - 1) % 256) as u32)),
{
    ops.push(modify(Field::SramAddrBitlen, low_byte(addr_bitlen - 1)));
}

/// Uses four-byte addresses, or not.
pub fn enable_4byte_addr(ops: &mut Vec<Access>, _mspi: MspiId, en: bool)
    ensures
        final(ops)@ == old(ops)@.push(modify(Field::CacheUsrSaddr4byte, flag(en))),
{
    ops.push(modify(Field::CacheUsrSaddr4byte, flag(en)));
}

/// Inserts a dummy phase of `dummy_n` bits on cache writes.
pub fn set_wr_dummy(ops: &mut Vec<Access>, _mspi: MspiId, dummy_n: u32)
    requires
        dummy_n >= 1,
    ensures
        final(ops)@ == old(ops)@.push(
            modify2(
                Field::UsrWrSramDummy,
                1,
                Field::SramWdummyCyclelen,
                ((dummy_n - 1) % 256) as u32,
            ),
        ),
{
    ops.push(modify2(Field::UsrWrSramDummy, 1, Field::SramWdummyCyclelen, low_byte(dummy_n - 1)));
}

/// Inserts a dummy phase of `dummy_n` bits on cache reads.
pub fn set_rd_dummy(ops: &mut Vec<Access>, _mspi: MspiId, dummy_n: u32)
    requires
        dummy_n >= 1,
    ensures
        final(ops)@ == old(ops)@.push(
            modify2(
                Field::UsrRdSramDummy,
                1,
                Field::SramRdummyCyclelen,
                ((dummy_n - 1) % 256) as u32,
            ),
        ),
{
    ops.push(modify2(Field::UsrRdSramDummy, 1, Field::SramRdummyCyclelen, low_byte(dummy_n - 1)));
}

/// The field that makes the dummy length of a controller variable.
pub open spec fn variable_dummy_field(mspi: MspiId) -> Field {
    match mspi {
        MspiId::Mspi2 => Field::SmemVarDummy,
        MspiId::Mspi3 => Field::FmemVarDummy,
    }
}

/// Makes the dummy length of the controller variable, or not.
pub fn enable_variable_dummy(ops: &mut Vec<Access>, mspi: MspiId, en: bool)
    ensures
        final(ops)@ == old(ops)@.push(modify(variable_dummy_field(mspi), flag(en))),
{
    match mspi {
        MspiId::Mspi2 => {
            ops.push(modify(Field::SmemVarDummy, flag(en)));
        },
        MspiId::Mspi3 => {
            ops.push(modify(Field::FmemVarDummy, flag(en)));
        },
    }
}

/// Drives the data lines during the write dummy phase, or not.
pub fn enable_wr_dummy_level_control(ops: &mut Vec<Access>, _mspi: MspiId, en: bool)
    ensures
        final(ops)@ == old(ops)@.push(modify(Field::SdummyWout, flag(en))),
{
    ops.push(modify(Field::SdummyWout, flag(en)));
}

/// Drives the data lines during the read dummy phase, or not.
pub fn enable_rd_dummy_level_control(ops: &mut Vec<Access>, _mspi: MspiId, en: bool)
    ensures
        final(ops)@ == old(ops)@.push(modify(Field::SdummyRin, flag(en))),
{
    ops.push(modify(Field::SdummyRin, flag(en)));
}

/// Transfers at double data rate, or not.
pub fn enable_ddr_mode(ops: &mut Vec<Access>, _mspi: MspiId, en: bool)
    ensures
        final(ops)@ == old(ops)@.push(modify(Field::DdrEn, flag(en))),
{
    ops.push(modify(Field::DdrEn, flag(en)));
}

/// Swaps the bytes of written data in DDR mode, or not.
pub fn enable_ddr_wr_data_swap(ops: &mut Vec<Access>, _mspi: MspiId, en: bool)
    ensures
        final(ops)@ == old(ops)@.push(modify(Field::DdrWdatSwp, flag(en))),
{
    ops.push(modify(Field::DdrWdatSwp, flag(en)));
}

/// Swaps the bytes of read data in DDR mode, or not.
pub fn enable_ddr_rd_data_swap(ops: &mut Vec<Access>, _mspi: MspiId, en: bool)
    ensures
        final(ops)@ == old(ops)@.push(modify(Field::DdrRdatSwp, flag(en))),
{
    ops.push(modify(Field::DdrRdatSwp, flag(en)));
}

/// The update of the four octal line-mode bits.
pub open spec fn oct_lines(en: bool) -> Access {
    Access::Modify {
        register: Field::ScmdOct.register(),
        writes: Writes::Four(
            FieldWrite { field: Field::ScmdOct, value: flag(en) },
            FieldWrite { field: Field::SaddrOct, value: flag(en) },
            FieldWrite { field: Field::SdoutOct, value: flag(en) },
            FieldWrite { field: Field::SdinOct, value: flag(en) },
        ),
    }
}

/// Uses eight lines for commands, addresses and data, or not.
pub fn enable_oct_line_mode(ops: &mut Vec<Access>, _mspi: MspiId, en: bool)
    ensures
        final(ops)@ == old(ops)@ + seq![modify(Field::SramOct, flag(en)), oct_lines(en)],
{
    ops.push(modify(Field::SramOct, flag(en)));
    ops.push(
        Access::Modify {
            register: Field::ScmdOct.register(),
            writes: Writes::Four(
                FieldWrite { field: Field::ScmdOct, value: flag(en) },
                FieldWrite { field: Field::SaddrOct, value: flag(en) },
                FieldWrite { field: Field::SdoutOct, value: flag(en) },
                FieldWrite { field: Field::SdinOct, value: flag(en) },
            ),
        },
    );
}

/// Uses sixteen lines for data, or not.
pub fn enable_hex_data_line_mode(ops: &mut Vec<Access>, _mspi: MspiId, en: bool)
    ensures
        final(ops)@ == old(ops)@.push(
            modify2(Field::SdinHex, flag(en), Field::SdoutHex, flag(en)),
        ),
{
    ops.push(modify2(Field::SdinHex, flag(en), Field::SdoutHex, flag(en)));
}

/// Opens the AXI port to the cache, or closes it.
pub fn enable_axi_access(ops: &mut Vec<Access>, _mspi: MspiId, en: bool)
    ensures
        final(ops)@ == old(ops)@.push(
            modify2(Field::AxiReqEn, flag(en), Field::CloseAxiInfEn, flag(!en)),
        ),
{
    ops.push(modify2(Field::AxiReqEn, flag(en), Field::CloseAxiInfEn, flag(!en)));
}

/// Merges adjacent AXI writes, or not.
pub fn enable_wr_splice(ops: &mut Vec<Access>, _mspi: MspiId, en: bool)
    ensures
        final(ops)@ == old(ops)@.push(modify(Field::AwSpliceEn, flag(en))),
{
    ops.push(modify(Field::AwSpliceEn, flag(en)));
}

/// Merges adjacent AXI reads, or not.
pub fn enable_rd_splice(ops: &mut Vec<Access>, _mspi: MspiId, en: bool)
    ensures
        final(ops)@ == old(ops)@.push(modify(Field::ArSpliceEn, flag(en))),
{
    ops.push(modify(Field::ArSpliceEn, flag(en)));
}

/// Opens the clock gates of the controllers, or closes them.
pub fn enable_module_clock(ops: &mut Vec<Access>, _mspi: MspiId, en: bool)
    ensures
        final(ops)@ == old(ops)@ + seq![
            modify(Field::PsramSysClkEn, flag(en)),
            modify(Field::PsramPllClkEn, flag(en)),
        ],
{
    ops.push(modify(Field::PsramSysClkEn, flag(en)));
    ops.push(modify(Field::PsramPllClkEn, flag(en)));
}

/// The reset pulses: AXI high, low, then APB high, low.
pub open spec fn reset_pulses() -> Seq<Access> {
    seq![
        modify(Field::RstEnDualMspiAxi, 1),
        modify(Field::RstEnDualMspiAxi, 0),
        modify(Field::RstEnDualMspiApb, 1),
        modify(Field::RstEnDualMspiApb, 0),
    ]
}

/// Resets the controllers.
pub fn reset_module_clock(ops: &mut Vec<Access>, _mspi: MspiId)
    ensures
        final(ops)@ == old(ops)@ + reset_pulses(),
{
    ops.push(modify(Field::RstEnDualMspiAxi, 1));
    ops.push(modify(Field::RstEnDualMspiAxi, 0));
    ops.push(modify(Field::RstEnDualMspiApb, 1));
    ops.push(modify(Field::RstEnDualMspiApb, 0));
}

/// Selects the clock source of the controllers.
pub fn select_clk_source(ops: &mut Vec<Access>, _mspi: MspiId, clk_src: PsramClkSrc)
    ensures
        final(ops)@ == old(ops)@.push(modify(Field::PsramClkSrcSel, clk_src.code())),
{
    ops.push(modify(Field::PsramClkSrcSel, clk_src.code()));
}

/// Divides the core clock by `freqdiv`.
pub fn set_core_clock_div(ops: &mut Vec<Access>, _spi_num: u8, freqdiv: u32)
    requires
        freqdiv >= 1,
    ensures
        final(ops)@ == old(ops)@.push(modify(Field::PsramCoreClkDivNum, ((freqdiv - 1) % 256) as u32)),
{
    ops.push(modify(Field::PsramCoreClkDivNum, low_byte(freqdiv - 1)));
}

/// Opens the core clock gate, or closes it.
pub fn enable_core_clock(ops: &mut Vec<Access>, _spi_num: u8, en: bool)
    ensures
        final(ops)@ == old(ops)@.push(modify(Field::PsramCoreClkEn, flag(en))),
{
    ops.push(modify(Field::PsramCoreClkEn, flag(en)));
}

/// The clock register of a controller.
pub open spec fn bus_clock_reg(mspi: MspiId) -> usize {
    match mspi {
        MspiId::Mspi2 => 0x5008_E050,
        MspiId::Mspi3 => 0x5008_F014,
    }
}

/// The word that makes a controller divide its clock by `freqdiv`: bit 31 alone
/// for 1, else `freqdiv - 1` from bit 16 up, `freqdiv / 2 - 1` from bit 8 up and
/// `freqdiv - 1` from bit 0 up.
pub open spec fn bus_clock_word(freqdiv: u32) -> u32
    recommends
        freqdiv >= 1,
{
    if freqdiv == 1 {
        0x8000_0000
    } else {
        ((((freqdiv - 1) as u32) << 16u32) | (((freqdiv / 2 - 1) as u32) << 8u32)) | ((freqdiv
            - 1) as u32)
    }
}

/// Divides the bus clock of the controller by `freqdiv`. All bits of the clock
/// register belong to the divider, so it is written whole.
pub fn set_bus_clock(ops: &mut Vec<Access>, mspi: MspiId, freqdiv: u32)
    requires
        freqdiv >= 1,
    ensures
        final(ops)@ == old(ops)@.push(
            Access::Store { addr: bus_clock_reg(mspi), value: bus_clock_word(freqdiv) },
        ),
{
    let addr: usize = match mspi {
        MspiId::Mspi2 => SPIMEM2_BASE + 0x50,
        MspiId::Mspi3 => SPIMEM3_BASE + 0x14,
    };
    let value: u32 = if freqdiv == 1 {
        proof {
            assert(1u32 << 31u32 == 0x8000_0000u32) by (bit_vector);
        }
        1u32 << 31u32
    } else {
        let n: u32 = freqdiv - 1;
        let h: u32 = freqdiv / 2 - 1;
        let l: u32 = freqdiv - 1;
        (n << 16u32) | (h << 8u32) | l
    };
    ops.push(Access::Store { addr, value });
}

/// The field that enables the DLL of a controller.
pub open spec fn dll_field(mspi: MspiId) -> Field {
    match mspi {
        MspiId::Mspi2 => Field::SmemDllTimingCali,
        MspiId::Mspi3 => Field::DllTimingCali,
    }
}

/// Enables the DLL of the controller, or not. Both switches lie in the register
/// bank of the cache-side controller.
pub fn enable_dll(ops: &mut Vec<Access>, mspi: MspiId, en: bool)
    ensures
        final(ops)@ == old(ops)@.push(modify(dll_field(mspi), flag(en))),
{
    match mspi {
        MspiId::Mspi2 => {
            ops.push(modify(Field::SmemDllTimingCali, flag(en)));
        },
        MspiId::Mspi3 => {
            ops.push(modify(Field::DllTimingCali, flag(en)));
        },
    }
}

/// Keeps chip-select low before a transfer for `setup_n` cycles.
pub fn set_cs_setup(ops: &mut Vec<Access>, _mspi: MspiId, setup_n: u32)
    requires
        setup_n >= 1,
    ensures
        final(ops)@ == old(ops)@.push(
            modify2(Field::CsSetup, 1, Field::CsSetupTime, ((setup_n - 1) % 256) as u32),
        ),
{
    ops.push(modify2(Field::CsSetup, 1, Field::CsSetupTime, low_byte(setup_n - 1)));
}

/// Keeps chip-select low after a transfer for `hold_n` cycles.
pub fn set_cs_hold(ops: &mut Vec<Access>, _mspi: MspiId, hold_n: u32)
    requires
        hold_n >= 1,
    ensures
        final(ops)@ == old(ops)@.push(
            modify2(Field::CsHold, 1, Field::CsHoldTime, ((hold_n - 1) % 256) as u32),
        ),
{
    ops.push(modify2(Field::CsHold, 1, Field::CsHoldTime, low_byte(hold_n - 1)));
}

/// Keeps chip-select high between transfers for `hold_delay_n` cycles.
pub fn set_cs_hold_delay(ops: &mut Vec<Access>, _mspi: MspiId, hold_delay_n: u32)
    requires
        hold_delay_n >= 1,
    ensures
        final(ops)@ == old(ops)@.push(modify(Field::CsHoldDelay, ((hold_delay_n - 1) % 256) as u32)),
{
    ops.push(modify(Field::CsHoldDelay, low_byte(hold_delay_n - 1)));
}

/// Sets the chip-select hold time of ECC mode to `hold_n` cycles.
pub fn set_cs_hold_ecc(ops: &mut Vec<Access>, _mspi: MspiId, hold_n: u32)
    requires
        hold_n >= 1,
    ensures
        final(ops)@ == old(ops)@.push(modify(Field::EccCsHoldTime, ((hold_n - 1) % 256) as u32)),
{
    ops.push(modify(Field::EccCsHoldTime, low_byte(hold_n - 1)));
}

/// Splits transfers at page boundaries, or not.
pub fn enable_split_trans(ops: &mut Vec<Access>, _mspi: MspiId, en: bool)
    ensures
        final(ops)@ == old(ops)@.push(modify(Field::SplitTransEn, flag(en))),
{
    ops.push(modify(Field::SplitTransEn, flag(en)));
}

/// Converts addresses for ECC, or not.
pub fn enable_ecc_addr_conversion(ops: &mut Vec<Access>, _mspi: MspiId, en: bool)
    ensures
        final(ops)@ == old(ops)@.push(modify(Field::EccAddrEn, flag(en))),
{
    ops.push(modify(Field::EccAddrEn, flag(en)));
}

/// The code of a page size; `None` for a size that the controller does not have.
pub open spec fn page_size_code(page_size: u32) -> Option<u32> {
    if page_size == 256 {
        Some(0)
    } else if page_size == 512 {
        Some(1)
    } else if page_size == 1024 {
        Some(2)
    } else if page_size == 2048 {
        Some(3)
    } else {
        None
    }
}

/// Sets the page size in bytes; does nothing for a size that the controller
/// does not have.
pub fn set_page_size(ops: &mut Vec<Access>, _mspi: MspiId, page_size: u32)
    ensures
        final(ops)@ == match page_size_code(page_size) {
            Some(code) => old(ops)@.push(modify(Field::PageSize, code)),
            None => old(ops)@,
        },
{
    let bits: u32 = match page_size {
        256 => 0,
        512 => 1,
        1024 => 2,
        2048 => 3,
        _ => {
            return ;
        },
    };
    ops.push(modify(Field::PageSize, bits));
}

/// Answer of a getter.
#[derive(Debug, Clone, Copy, PartialEq, Eq, Structural)]
pub enum Query {
    /// Read this field and ask again with its content.
    Read(Field),
    /// The value asked for.
    Value(u32),
}

/// Page size in bytes; 0 for a code that stands for none.
pub fn get_page_size(_mspi: MspiId, content: Option<u32>) -> (r: Query)
    ensures
        content is None ==> r == Query::Read(Field::PageSize),
        content matches Some(code) ==> r is Value && (r->Value_0 == 0 <==> code > 3) && (code <= 3
            ==> page_size_code(r->Value_0) == Some(code)),
        content == Some(0u32) ==> r == Query::Value(256),
        content == Some(1u32) ==> r == Query::Value(512),
        content == Some(2u32) ==> r == Query::Value(1024),
        content == Some(3u32) ==> r == Query::Value(2048),
{
    match content {
        None => Query::Read(Field::PageSize),
        Some(code) => match code {
            0 => Query::Value(256),
            1 => Query::Value(512),
            2 => Query::Value(1024),
            3 => Query::Value(2048),
            _ => Query::Value(0),
        },
    }
}

/// Protects the region by ECC, or not.
pub fn enable_pms_region_ecc(ops: &mut Vec<Access>, _mspi: MspiId, region_id: usize, en: bool)
    requires
        region_id < PMS_REGION_NUMS,
    ensures
        final(ops)@ == old(ops)@.push(modify(Field::PmsEcc(region_id), flag(en))),
{
    ops.push(modify(Field::PmsEcc(region_id), flag(en)));
}

/// Sets the permissions of the region from the `PMS_ATTR_*` bits of `attr_mask`.
pub fn set_pms_region_attr(ops: &mut Vec<Access>, _mspi: MspiId, region_id: usize, attr_mask: u32)
    requires
        region_id < PMS_REGION_NUMS,
    ensures
        final(ops)@ == old(ops)@.push(
            modify2(
                Field::PmsWrAttr(region_id),
                attr_mask % 2,
                Field::PmsRdAttr(region_id),
                (attr_mask / 2) % 2,
            ),
        ),
{
    proof {
        assert((attr_mask & 1 != 0) == (attr_mask % 2 == 1)) by (bit_vector);
        assert((attr_mask & 2 != 0) == ((attr_mask / 2) % 2 == 1)) by (bit_vector);
    }
    ops.push(
        modify2(
            Field::PmsWrAttr(region_id),
            flag(attr_mask & PMS_ATTR_WRITABLE != 0),
            Field::PmsRdAttr(region_id),
            flag(attr_mask & PMS_ATTR_READABLE != 0),
        ),
    );
}

/// Sets the start address of the region.
pub fn set_pms_region_start_addr(ops: &mut Vec<Access>, _mspi: MspiId, region_id: usize, addr: u32)
    requires
        region_id < PMS_REGION_NUMS,
    ensures
        final(ops)@ == old(ops)@.push(modify(Field::PmsStart(region_id), addr)),
{
    ops.push(modify(Field::PmsStart(region_id), addr));
}

/// Sets the size of the region.
pub fn set_pms_region_size(ops: &mut Vec<Access>, _mspi: MspiId, region_id: usize, size: u32)
    requires
        region_id < PMS_REGION_NUMS,
    ensures
        final(ops)@ == old(ops)@.push(modify(Field::PmsLength(region_id), size % 65536)),
{
    ops.push(modify(Field::PmsLength(region_id), low_half(size)));
}

/// Start address of the region.
pub fn get_pms_region_start_addr(_mspi: MspiId, region_id: usize, content: Option<u32>) -> (r: Query)
    requires
        region_id < PMS_REGION_NUMS,
    ensures
        r == match content {
            None => Query::Read(Field::PmsStart(region_id)),
            Some(v) => Query::Value(v),
        },
{
    match content {
        None => Query::Read(Field::PmsStart(region_id)),
        Some(v) => Query::Value(v),
    }
}

/// Size of the region.
pub fn get_pms_region_size(_mspi: MspiId, region_id: usize, content: Option<u32>) -> (r: Query)
    requires
        region_id < PMS_REGION_NUMS,
    ensures
        r == match content {
            None => Query::Read(Field::PmsLength(region_id)),
            Some(v) => Query::Value(v),
        },
{
    match content {
        None => Query::Read(Field::PmsLength(region_id)),
        Some(v) => Query::Value(v),
    }
}

/// Next move of a wait.
#[derive(Debug, Clone, Copy, PartialEq, Eq, Structural)]
pub enum WaitStep {
    /// Read the word at `addr` and ask again with it.
    Load { addr: usize },
    /// The wait is over.
    Done,
}

/// Waits until every pending transaction has drained. `status` is what the last
/// read gave, `None` before the first.
pub fn wait_all_transaction_done(status: Option<u32>) -> (r: WaitStep)
    ensures
        r == (if status == Some(ALL_TRANSACTION_DONE) {
            WaitStep::Done
        } else {
            WaitStep::Load { addr: 0x5008_E178 }
        }),
{
    match status {
        Some(v) => if v == ALL_TRANSACTION_DONE {
            WaitStep::Done
        } else {
            WaitStep::Load { addr: SPIMEM2_BASE + 0x178 }
        },
        None => WaitStep::Load { addr: SPIMEM2_BASE + 0x178 },
    }
}

proof fn lemma_clock_fields(d: u32, w: u32)
    by (bit_vector)
    requires
        2 <= d <= 256,
        w == ((((d - 1) as u32) << 16u32) | (((d / 2 - 1) as u32) << 8u32)) | ((d - 1) as u32),
    ensures
        w / 0x1_0000 == d - 1,
        (w / 0x100) % 256 == d / 2 - 1,
        w % 256 == d - 1,
{
}

/// For dividers from 2 to 256 the three parts of the clock word lie side by side:
/// `freqdiv - 1` in bits 16 to 23, `freqdiv / 2 - 1` in bits 8 to 15 and
/// `freqdiv - 1` in bits 0 to 7. A divider of 1 sets bit 31 alone.
pub proof fn law_bus_clock_word(freqdiv: u32)
    requires
        1 <= freqdiv <= 256,
    ensures
        freqdiv == 1 ==> bus_clock_word(freqdiv) == 0x8000_0000,
        freqdiv >= 2 ==> {
            let word = bus_clock_word(freqdiv);
            &&& word / 0x1_0000 == freqdiv - 1
            &&& (word / 0x100) % 256 == freqdiv / 2 - 1
            &&& word % 256 == freqdiv - 1
        },
{
    if freqdiv >= 2 {
        lemma_clock_fields(freqdiv, bus_clock_word(freqdiv));
    }
}

/// The reset of the controllers is a pulse: each reset goes high and low again,
/// first AXI, then APB, and no other field changes.
pub proof fn law_reset_pulses(other: Field, before: Option<int>)
    ensures
        crate::access::field_after(
            reset_pulses().take(1),
            Field::RstEnDualMspiAxi,
            before,
        ) == Some(1int),
        crate::access::field_after(
            reset_pulses().take(2),
            Field::RstEnDualMspiAxi,
            before,
        ) == Some(0int),
        crate::access::field_after(
            reset_pulses().take(3),
            Field::RstEnDualMspiApb,
            before,
        ) == Some(1int),
        crate::access::field_after(reset_pulses(), Field::RstEnDualMspiAxi, before) == Some(0int),
        crate::access::field_after(reset_pulses(), Field::RstEnDualMspiApb, before) == Some(0int),
        other != Field::RstEnDualMspiAxi && other != Field::RstEnDualMspiApb
            ==> crate::access::field_after(reset_pulses(), other, before) == before,
{
    let axi = Field::RstEnDualMspiAxi;
    let apb = Field::RstEnDualMspiApb;
    let ops = reset_pulses();
    assert(axi.capacity() == 2 && apb.capacity() == 2);
    crate::access::lemma_set_at(ops.take(1), 0, axi, 1, before);
    crate::access::lemma_set_at(ops.take(2), 1, axi, 0, before);
    crate::access::lemma_set_at(ops.take(3), 2, apb, 1, before);
    crate::access::lemma_set_at(ops, 1, axi, 0, before);
    crate::access::lemma_set_at(ops, 3, apb, 0, before);
    if other != axi && other != apb {
        crate::access::lemma_untouched(ops, other, before);
    }
}

/// Opening the AXI port accepts requests and does not close the interface;
/// closing it does the opposite.
pub proof fn law_axi_access(en: bool, before: Option<int>)
    ensures
        crate::access::after_access(
            modify2(Field::AxiReqEn, flag(en), Field::CloseAxiInfEn, flag(!en)),
            Field::AxiReqEn,
            before,
        ) == Some(flag(en) as int),
        crate::access::after_access(
            modify2(Field::AxiReqEn, flag(en), Field::CloseAxiInfEn, flag(!en)),
            Field::CloseAxiInfEn,
            before,
        ) == Some(1 - flag(en)),
{
    crate::access::law_modify2(
        Field::AxiReqEn,
        flag(en),
        Field::CloseAxiInfEn,
        flag(!en),
        Field::AxiReqEn,
        before,
    );
}

/// A page size that is set is the one that is then read: the field holds its
/// code, and no other size has that code.
pub proof fn law_page_size_round_trip(page_size: u32, other: u32, before: Option<int>)
    requires
        page_size_code(page_size) is Some,
    ensures
        crate::access::after_access(
            modify(Field::PageSize, page_size_code(page_size)->0),
            Field::PageSize,
            before,
        ) == Some(page_size_code(page_size)->0 as int),
        page_size_code(other) == page_size_code(page_size) ==> other == page_size,
        page_size == 256 || page_size == 512 || page_size == 1024 || page_size == 2048,
{
    crate::access::law_modify(
        Field::PageSize,
        page_size_code(page_size)->0,
        Field::PageSize,
        before,
    );
}

/// A start address below 128 MB and a size below 32 K that are set for a region
/// are held as they are, and the other regions keep theirs.
pub proof fn law_pms_region_round_trip(
    region_id: usize,
    other_id: usize,
    addr: u32,
    size: u32,
    before: Option<int>,
)
    requires
        region_id < PMS_REGION_NUMS,
        other_id < PMS_REGION_NUMS,
        addr < 0x800_0000,
        size < 0x8000,
    ensures
        crate::access::after_access(
            modify(Field::PmsStart(region_id), addr),
            Field::PmsStart(region_id),
            before,
        ) == Some(addr as int),
        crate::access::after_access(
            modify(Field::PmsLength(region_id), size % 65536),
            Field::PmsLength(region_id),
            before,
        ) == Some(size as int),
        other_id != region_id ==> crate::access::after_access(
            modify(Field::PmsStart(region_id), addr),
            Field::PmsStart(other_id),
            before,
        ) == before && crate::access::after_access(
            modify(Field::PmsLength(region_id), size % 65536),
            Field::PmsLength(other_id),
            before,
        ) == before,
{
    crate::access::law_modify(
        Field::PmsStart(region_id),
        addr,
        Field::PmsStart(other_id),
        before,
    );
    crate::access::law_modify(
        Field::PmsLength(region_id),
        size % 65536,
        Field::PmsLength(other_id),
        before,
    );
}

/// The wait ends on the value in which exactly the bits 26 to 31 are set.
pub proof fn law_drained_status(status: u32)
    ensures
        status == ALL_TRANSACTION_DONE <==> status / 0x400_0000 == 0b11_1111 && status % 0x400_0000
            == 0,
{
}

/// A switch is written as 1 to turn it on and as 0 to turn it off.
pub proof fn law_switch(field: Field, en: bool, before: Option<int>)
    requires
        field.capacity() == 2,
    ensures
        en ==> crate::access::after_access(modify(field, flag(en)), field, before) == Some(1int),
        !en ==> crate::access::after_access(modify(field, flag(en)), field, before) == Some(0int),
{
    crate::access::law_modify(field, flag(en), field, before);
}

/// The clock register of a controller lies in its own bank, at offset 0x50 of the
/// cache-side one and 0x14 of the command-side one. The variable dummy switch lies in
/// the bank of its controller too; both DLL switches lie in the cache-side bank, each
/// in a register of its own.
pub proof fn law_controller_registers()
    ensures
        bus_clock_reg(MspiId::Mspi2) == 0x5008_E000 + 0x50,
        bus_clock_reg(MspiId::Mspi3) == 0x5008_F000 + 0x14,
        variable_dummy_field(MspiId::Mspi2) == Field::SmemVarDummy,
        variable_dummy_field(MspiId::Mspi3) == Field::FmemVarDummy,
        variable_dummy_field(MspiId::Mspi2).register().address() == 0x5008_E000 + 0xD8,
        variable_dummy_field(MspiId::Mspi3).register().address() == 0x5008_F000 + 0xD4,
        dll_field(MspiId::Mspi2) == Field::SmemDllTimingCali,
        dll_field(MspiId::Mspi3) == Field::DllTimingCali,
        dll_field(MspiId::Mspi2).register().address() == 0x5008_E000 + 0x190,
        dll_field(MspiId::Mspi3).register().address() == 0x5008_E000 + 0x180,
        SPIMEM2_BASE == 0x5008_E000,
        SPIMEM3_BASE == 0x5008_F000,
{
}

proof fn lemma_clock_bytes(d: u32, w: u32)
    by (bit_vector)
    requires
        d >= 2,
        w == ((((d - 1) as u32) << 16u32) | (((d / 2 - 1) as u32) << 8u32)) | ((d - 1) as u32),
    ensures
        w & 0xFF == (d - 1) as u32 & 0xFF,
        (w >> 8u32) & 0xFF == (((d / 2 - 1) as u32) | (((d - 1) as u32) >> 8u32)) & 0xFF,
        w >> 16u32 == (((d - 1) as u32) & 0xFFFF) | ((((d / 2 - 1) as u32) & 0xFF_FFFF) >> 8u32)
            | (((d - 1) as u32) >> 16u32),
{
}

/// The clock word of any divider from 2 on, byte by byte: the period less one from
/// bit 0 up and from bit 16 up, the high time less one from bit 8 up; where a divider
/// above 256 makes these overlap, the bits are merged.
pub proof fn law_bus_clock_bytes(freqdiv: u32)
    requires
        freqdiv >= 2,
    ensures
        ({
            let word = bus_clock_word(freqdiv);
            let period = (freqdiv - 1) as u32;
            let high = (freqdiv / 2 - 1) as u32;
            &&& word & 0xFF == period & 0xFF
            &&& (word >> 8u32) & 0xFF == (high | (period >> 8u32)) & 0xFF
            &&& word >> 16u32 == (period & 0xFFFF) | ((high & 0xFF_FFFF) >> 8u32) | (period
                >> 16u32)
        }),
{
    lemma_clock_bytes(freqdiv, bus_clock_word(freqdiv));
}

/// Turning the eight-line mode on or off switches command, address and data lines in
/// both directions, and nothing else in their register.
pub proof fn law_oct_lines(en: bool, field: Field, before: Option<int>)
    ensures
        ({
            let after = crate::access::after_access(oct_lines(en), field, before);
            if field == Field::ScmdOct || field == Field::SaddrOct || field == Field::SdoutOct
                || field == Field::SdinOct {
                after == Some(if en {
                    1int
                } else {
                    0int
                })
            } else {
                after == before
            }
        }),
        crate::access::consistent(oct_lines(en)),
{
    crate::access::lemma_after_access(oct_lines(en), field, before);
}

/// The page sizes are 256 bytes, doubled as often as the code says, up to 2048.
pub proof fn law_page_size_codes(page_size: u32, code: u32)
    ensures
        page_size_code(page_size) == Some(code) <==> code <= 3 && page_size == 256
            * vstd::arithmetic::power2::pow2(code as nat),
        page_size_code(page_size) is Some ==> page_size_code(page_size)->0 <= 3,
{
    vstd::arithmetic::power2::lemma2_to64();
}

/// The clock sources have the codes 0 to 3, in the order crystal, MPLL, SPLL, CPLL.
pub proof fn law_clock_sources(source: PsramClkSrc)
    ensures
        source == PsramClkSrc::Xtal <==> source.code() == 0,
        source == PsramClkSrc::Mpll <==> source.code() == 1,
        source == PsramClkSrc::Spll <==> source.code() == 2,
        source == PsramClkSrc::Cpll <==> source.code() == 3,
        source.code() <= 3,
{
}

/// A length that a field has room for is held less one, whatever the field held.
pub proof fn law_length_setting(field: Field, n: u32, before: Option<int>)
    requires
        1 <= n <= 256,
        n <= field.capacity(),
    ensures
        crate::access::after_access(modify(field, ((n - 1) % 256) as u32), field, before) == Some(
            n - 1,
        ),
{
    crate::access::law_modify(field, ((n - 1) % 256) as u32, field, before);
    vstd::arithmetic::div_mod::lemma_small_mod((n - 1) as nat, field.capacity() as nat);
}

/// A region becomes writable if bit 0 of the attributes is set and readable if bit 1
/// is; the other regions and the ECC of the region are left alone.
pub proof fn law_region_attributes(
    region_id: usize,
    other_id: usize,
    attr_mask: u32,
    before: Option<int>,
)
    ensures
        ({
            let access = modify2(
                Field::PmsWrAttr(region_id),
                attr_mask % 2,
                Field::PmsRdAttr(region_id),
                (attr_mask / 2) % 2,
            );
            let after = |field: Field| crate::access::after_access(access, field, before);
            &&& after(Field::PmsWrAttr(region_id)) == Some((attr_mask & 1) as int)
            &&& after(Field::PmsRdAttr(region_id)) == Some(((attr_mask & 2) / 2) as int)
            &&& after(Field::PmsEcc(region_id)) == before
            &&& other_id != region_id ==> after(Field::PmsWrAttr(other_id)) == before && after(
                Field::PmsRdAttr(other_id),
            ) == before
        }),
{
    assert(attr_mask & 1 == attr_mask % 2) by (bit_vector);
    assert((attr_mask & 2) / 2 == (attr_mask / 2) % 2) by (bit_vector);
    let access = modify2(
        Field::PmsWrAttr(region_id),
        attr_mask % 2,
        Field::PmsRdAttr(region_id),
        (attr_mask / 2) % 2,
    );
    crate::access::lemma_after_access(access, Field::PmsWrAttr(region_id), before);
    crate::access::lemma_after_access(access, Field::PmsRdAttr(region_id), before);
    crate::access::lemma_after_access(access, Field::PmsEcc(region_id), before);
    crate::access::lemma_after_access(access, Field::PmsWrAttr(other_id), before);
    crate::access::lemma_after_access(access, Field::PmsRdAttr(other_id), before);
}

} // verus!
