//! The parts of the bring-up that only write: clocks and timing before the chip
//! is spoken to, the cache-side controller, the MMU window and the caches.
use vstd::prelude::*;

use crate::access::{modify, modify2, Access, Field};
use crate::latency::LatencyConfig;
use crate::mspi::MspiId;
use crate::regs::PsramClkSrc;
use crate::{cmd, cs_timing, regs};
use crate::{
    ADDR_BITLEN, AP_HEX_PSRAM_MPLL_DEFAULT_FREQ_MHZ, PSRAM_DETECT_SPEED_MHZ, PSRAM_VADDR_BASE,
    PSRAM_VADDR_SIZE, RD_CMD_BITLEN, WR_CMD_BITLEN,
};

verus! {

/// Peripheral clock control register that gates the PSRAM clocks.
pub const PERI_CLK_CTRL00: usize = 0x500E_6030;

/// Clock gates and selector bits of the PSRAM in that register.
pub const PSRAM_CLOCK_BITS: u32 = 0x0000_D05D;

/// MMU register that selects an entry.
pub const MMU_ITEM_INDEX_REG: usize = 0x5008_E380;

/// MMU register that holds the content of the selected entry.
pub const MMU_ITEM_CONTENT_REG: usize = 0x5008_E37C;

/// Pages are 64 KB.
pub const PAGE_SHIFT: u32 = 16;

/// Size of a page in bytes.
pub const PAGE_SIZE: usize = 0x1_0000;

/// The part of a virtual address that the MMU looks at: 1024 pages.
pub const VADDR_MASK: u32 = 0x03FF_FFFF;

/// Bit of an MMU entry that maps to the PSRAM.
pub const ACCESS_PSRAM: u32 = 0x400;

/// Bit of a valid MMU entry.
pub const VALID: u32 = 0x800;

/// Selects the L2 cache in the cache calls of the boot ROM.
pub const CACHE_MAP_L2: u32 = 0x20;

/// The accesses that prepare the buses: clocks on and reset, fed by the MPLL;
/// chip-select setup 4, hold 4 and hold delay 3; the bus clock divided to
/// 20 MHz; both DLLs on.
pub open spec fn prepare_accesses() -> Seq<Access> {
    seq![
        Access::SetBits { addr: PERI_CLK_CTRL00, mask: PSRAM_CLOCK_BITS },
        modify(Field::PsramCoreClkDivNum, 0),
        modify(Field::PsramCoreClkEn, 1),
        modify(Field::PsramSysClkEn, 1),
        modify(Field::PsramPllClkEn, 1),
    ] + crate::regs::reset_pulses() + seq![
        modify(Field::PsramClkSrcSel, 1),
        modify(Field::PsramClkSrcSel, 1),
        modify2(Field::CsSetup, 1, Field::CsSetupTime, 3),
        modify2(Field::CsHold, 1, Field::CsHoldTime, 3),
        modify(Field::CsHoldDelay, 2),
        Access::Store { addr: 0x5008_E050, value: 0x0013_0913 },
        Access::Store { addr: 0x5008_F014, value: 0x0013_0913 },
        modify(Field::SmemDllTimingCali, 1),
        modify(Field::DllTimingCali, 1),
    ]
}

/// Brings up the buses of both controllers, before the first command to the chip.
pub fn prepare_for_mr_read(ops: &mut Vec<Access>)
    ensures
        final(ops)@ == old(ops)@ + prepare_accesses(),
{
    ops.push(Access::SetBits { addr: PERI_CLK_CTRL00, mask: PSRAM_CLOCK_BITS });

    regs::set_core_clock_div(ops, 0, 1);
    regs::enable_core_clock(ops, 0, true);
    regs::enable_module_clock(ops, MspiId::Mspi2, true);
    regs::reset_module_clock(ops, MspiId::Mspi2);
    regs::select_clk_source(ops, MspiId::Mspi2, PsramClkSrc::Mpll);
    regs::select_clk_source(ops, MspiId::Mspi3, PsramClkSrc::Mpll);

    regs::set_cs_setup(ops, MspiId::Mspi2, cs_timing::SETUP);
    regs::set_cs_hold(ops, MspiId::Mspi2, cs_timing::HOLD);
    regs::set_cs_hold_delay(ops, MspiId::Mspi2, cs_timing::HOLD_DELAY);

    let divider: u32 = AP_HEX_PSRAM_MPLL_DEFAULT_FREQ_MHZ / PSRAM_DETECT_SPEED_MHZ;
    proof {
        assert(((19u32 << 16u32) | (9u32 << 8u32)) | 19u32 == 0x0013_0913u32) by (bit_vector);
    }
    regs::set_bus_clock(ops, MspiId::Mspi2, divider);
    regs::set_bus_clock(ops, MspiId::Mspi3, divider);
    regs::enable_dll(ops, MspiId::Mspi2, true);
    regs::enable_dll(ops, MspiId::Mspi3, true);
}

/// The accesses that set the cache-side controller up for the chip.
pub open spec fn cache_side_accesses() -> Seq<Access> {
    seq![
        modify(Field::CacheSramUsrWcmd, 1),
        modify2(Field::WrCmdBitlen, 15, Field::WrCmdValue, 0x8080),
        modify(Field::CacheSramUsrRcmd, 1),
        modify2(Field::RdCmdBitlen, 15, Field::RdCmdValue, 0),
        modify(Field::SramAddrBitlen, 31),
        modify(Field::CacheUsrSaddr4byte, 1),
        modify2(Field::UsrWrSramDummy, 1, Field::SramWdummyCyclelen, 11),
        modify2(Field::UsrRdSramDummy, 1, Field::SramRdummyCyclelen, 25),
        modify(Field::SmemVarDummy, 1),
        modify(Field::FmemVarDummy, 1),
        modify(Field::SdummyWout, 1),
        modify(Field::DdrWdatSwp, 0),
        modify(Field::DdrRdatSwp, 0),
        modify(Field::DdrEn, 1),
        modify(Field::SramOct, 1),
        crate::regs::oct_lines(true),
        modify2(Field::SdinHex, 1, Field::SdoutHex, 1),
        modify2(Field::AxiReqEn, 1, Field::CloseAxiInfEn, 0),
        modify(Field::AwSpliceEn, 1),
        modify(Field::ArSpliceEn, 1),
    ]
}

/// Sets the cache-side controller up for sixteen-line DDR access with 200 MHz
/// latencies. The chip has to be in its mode before, and the MMU is mapped after.
pub fn config_mspi_cache_side(ops: &mut Vec<Access>)
    ensures
        final(ops)@ == old(ops)@ + cache_side_accesses(),
{
    let lat = LatencyConfig::speed_200m();
    let id = MspiId::Mspi2;
    regs::set_wr_cmd(ops, id, WR_CMD_BITLEN, cmd::SYNC_WRITE as u32);
    regs::set_rd_cmd(ops, id, RD_CMD_BITLEN, cmd::SYNC_READ as u32);
    regs::set_addr_bitlen(ops, id, ADDR_BITLEN);
    regs::enable_4byte_addr(ops, id, true);
    regs::set_wr_dummy(ops, id, lat.wr_dummy_bitlen);
    regs::set_rd_dummy(ops, id, lat.rd_dummy_bitlen);
    regs::enable_variable_dummy(ops, id, true);
    regs::enable_variable_dummy(ops, MspiId::Mspi3, true);
    regs::enable_wr_dummy_level_control(ops, id, true);
    regs::enable_ddr_wr_data_swap(ops, id, false);
    regs::enable_ddr_rd_data_swap(ops, id, false);
    regs::enable_ddr_mode(ops, id, true);
    regs::enable_oct_line_mode(ops, id, true);
    regs::enable_hex_data_line_mode(ops, id, true);
    regs::enable_axi_access(ops, id, true);
    regs::enable_wr_splice(ops, id, true);
    regs::enable_rd_splice(ops, id, true);
}

/// Number of pages in the window.
pub open spec fn window_pages() -> int {
    PSRAM_VADDR_SIZE as int / PAGE_SIZE as int
}

/// The accesses that map the first `pages` pages of the window: for each page,
/// select its entry, then fill it in.
pub open spec fn mmu_accesses(pages: int) -> Seq<Access> {
    Seq::new(
        (2 * pages) as nat,
        |j: int|
            if j % 2 == 0 {
                Access::Store { addr: MMU_ITEM_INDEX_REG, value: (j / 2) as u32 }
            } else {
                Access::Store {
                    addr: MMU_ITEM_CONTENT_REG,
                    value: (j / 2 + ACCESS_PSRAM + VALID) as u32,
                }
            },
    )
}

proof fn lemma_mmu_words(i: u32)
    by (bit_vector)
    requires
        i < 512,
    ensures
        (((0x4800_0000 + i * 0x1_0000) as u32) & 0x03FF_FFFFu32) >> 16u32 == i,
        ((((i * 0x1_0000) as u32) >> 16u32) | 0x400u32) | 0x800u32 == i + 0x400 + 0x800,
{
}

/// Maps the PSRAM from its first page on to the window.
pub fn mmu_map_psram_window(ops: &mut Vec<Access>)
    ensures
        final(ops)@ == old(ops)@ + mmu_accesses(window_pages()),
{
    let pages: usize = PSRAM_VADDR_SIZE / PAGE_SIZE;
    let ghost before = ops@;
    let mut i: usize = 0;
    while i < pages
        invariant
            i <= pages,
            pages == 512,
            ops@ == before + mmu_accesses(i as int),
        decreases pages - i,
    {
        let vaddr: u32 = (PSRAM_VADDR_BASE + i * PAGE_SIZE) as u32;
        let paddr: u32 = (i * PAGE_SIZE) as u32;
        proof {
            lemma_mmu_words(i as u32);
        }
        let entry_id: u32 = (vaddr & VADDR_MASK) >> PAGE_SHIFT;
        let mmu_val: u32 = (paddr >> PAGE_SHIFT) | ACCESS_PSRAM | VALID;
        ops.push(Access::Store { addr: MMU_ITEM_INDEX_REG, value: entry_id });
        ops.push(Access::Store { addr: MMU_ITEM_CONTENT_REG, value: mmu_val });
        i = i + 1;
        assert(ops@ == before + mmu_accesses(i as int));
    }
}

/// Invalidates the L2 cache, which may hold what the window showed before it was
/// mapped.
pub fn cache_invalidate_psram_window(ops: &mut Vec<Access>)
    ensures
        final(ops)@ == old(ops)@.push(Access::InvalidateCaches { map: CACHE_MAP_L2 }),
{
    ops.push(Access::InvalidateCaches { map: CACHE_MAP_L2 });
}

/// Whatever the fields held before, after the preparation the clocks run from the
/// MPLL, the resets are released, the chip-select timing is 4, 4 and 3 cycles and
/// the DLLs are on.
pub proof fn law_prepare_fields(before: Option<int>)
    ensures
        crate::access::field_after(prepare_accesses(), Field::PsramCoreClkDivNum, before) == Some(0int),
        crate::access::field_after(prepare_accesses(), Field::PsramCoreClkEn, before) == Some(1int),
        crate::access::field_after(prepare_accesses(), Field::PsramSysClkEn, before) == Some(1int),
        crate::access::field_after(prepare_accesses(), Field::PsramPllClkEn, before) == Some(1int),
        crate::access::field_after(prepare_accesses(), Field::RstEnDualMspiAxi, before) == Some(0int),
        crate::access::field_after(prepare_accesses(), Field::RstEnDualMspiApb, before) == Some(0int),
        crate::access::field_after(prepare_accesses(), Field::PsramClkSrcSel, before) == Some(1int),
        crate::access::field_after(prepare_accesses(), Field::CsSetup, before) == Some(1int),
        crate::access::field_after(prepare_accesses(), Field::CsSetupTime, before) == Some(3int),
        crate::access::field_after(prepare_accesses(), Field::CsHold, before) == Some(1int),
        crate::access::field_after(prepare_accesses(), Field::CsHoldTime, before) == Some(3int),
        crate::access::field_after(prepare_accesses(), Field::CsHoldDelay, before) == Some(2int),
        crate::access::field_after(prepare_accesses(), Field::SmemDllTimingCali, before) == Some(1int),
        crate::access::field_after(prepare_accesses(), Field::DllTimingCali, before) == Some(1int),
{
    let ops = prepare_accesses();
    assert(ops.len() == 18);
    crate::access::lemma_set_at(ops, 1, Field::PsramCoreClkDivNum, 0, before);
    crate::access::lemma_set_at(ops, 2, Field::PsramCoreClkEn, 1, before);
    crate::access::lemma_set_at(ops, 3, Field::PsramSysClkEn, 1, before);
    crate::access::lemma_set_at(ops, 4, Field::PsramPllClkEn, 1, before);
    crate::access::lemma_set_at(ops, 6, Field::RstEnDualMspiAxi, 0, before);
    crate::access::lemma_set_at(ops, 8, Field::RstEnDualMspiApb, 0, before);
    crate::access::lemma_set_at(ops, 10, Field::PsramClkSrcSel, 1, before);
    crate::access::lemma_set_at(ops, 11, Field::CsSetup, 1, before);
    crate::access::lemma_set_at(ops, 11, Field::CsSetupTime, 3, before);
    crate::access::lemma_set_at(ops, 12, Field::CsHold, 1, before);
    crate::access::lemma_set_at(ops, 12, Field::CsHoldTime, 3, before);
    crate::access::lemma_set_at(ops, 13, Field::CsHoldDelay, 2, before);
    crate::access::lemma_set_at(ops, 16, Field::SmemDllTimingCali, 1, before);
    crate::access::lemma_set_at(ops, 17, Field::DllTimingCali, 1, before);
}

/// Whatever the fields held before, the cache-side controller ends up with 16-bit
/// commands and 32-bit addresses, dummy lengths 12 and 26, DDR on eight command
/// and sixteen data lines, an open AXI port and spliced bursts. (Lengths are
/// stored less one.)
pub proof fn law_cache_side_fields(before: Option<int>)
    ensures
        crate::access::field_after(cache_side_accesses(), Field::CacheSramUsrWcmd, before) == Some(1int),
        crate::access::field_after(cache_side_accesses(), Field::WrCmdBitlen, before) == Some(15int),
        crate::access::field_after(cache_side_accesses(), Field::WrCmdValue, before) == Some(0x8080int),
        crate::access::field_after(cache_side_accesses(), Field::CacheSramUsrRcmd, before) == Some(1int),
        crate::access::field_after(cache_side_accesses(), Field::RdCmdBitlen, before) == Some(15int),
        crate::access::field_after(cache_side_accesses(), Field::RdCmdValue, before) == Some(0int),
        crate::access::field_after(cache_side_accesses(), Field::SramAddrBitlen, before) == Some(31int),
        crate::access::field_after(cache_side_accesses(), Field::CacheUsrSaddr4byte, before) == Some(1int),
        crate::access::field_after(cache_side_accesses(), Field::UsrWrSramDummy, before) == Some(1int),
        crate::access::field_after(cache_side_accesses(), Field::SramWdummyCyclelen, before) == Some(11int),
        crate::access::field_after(cache_side_accesses(), Field::UsrRdSramDummy, before) == Some(1int),
        crate::access::field_after(cache_side_accesses(), Field::SramRdummyCyclelen, before) == Some(25int),
        crate::access::field_after(cache_side_accesses(), Field::SmemVarDummy, before) == Some(1int),
        crate::access::field_after(cache_side_accesses(), Field::FmemVarDummy, before) == Some(1int),
        crate::access::field_after(cache_side_accesses(), Field::SdummyWout, before) == Some(1int),
        crate::access::field_after(cache_side_accesses(), Field::DdrWdatSwp, before) == Some(0int),
        crate::access::field_after(cache_side_accesses(), Field::DdrRdatSwp, before) == Some(0int),
        crate::access::field_after(cache_side_accesses(), Field::DdrEn, before) == Some(1int),
        crate::access::field_after(cache_side_accesses(), Field::SramOct, before) == Some(1int),
        crate::access::field_after(cache_side_accesses(), Field::ScmdOct, before) == Some(1int),
        crate::access::field_after(cache_side_accesses(), Field::SaddrOct, before) == Some(1int),
        crate::access::field_after(cache_side_accesses(), Field::SdoutOct, before) == Some(1int),
        crate::access::field_after(cache_side_accesses(), Field::SdinOct, before) == Some(1int),
        crate::access::field_after(cache_side_accesses(), Field::SdinHex, before) == Some(1int),
        crate::access::field_after(cache_side_accesses(), Field::SdoutHex, before) == Some(1int),
        crate::access::field_after(cache_side_accesses(), Field::AxiReqEn, before) == Some(1int),
        crate::access::field_after(cache_side_accesses(), Field::CloseAxiInfEn, before) == Some(0int),
        crate::access::field_after(cache_side_accesses(), Field::AwSpliceEn, before) == Some(1int),
        crate::access::field_after(cache_side_accesses(), Field::ArSpliceEn, before) == Some(1int),
{
    let ops = cache_side_accesses();
    assert(ops.len() == 20);
    crate::access::lemma_set_at(ops, 0, Field::CacheSramUsrWcmd, 1, before);
    crate::access::lemma_set_at(ops, 1, Field::WrCmdBitlen, 15, before);
    crate::access::lemma_set_at(ops, 1, Field::WrCmdValue, 0x8080, before);
    crate::access::lemma_set_at(ops, 2, Field::CacheSramUsrRcmd, 1, before);
    crate::access::lemma_set_at(ops, 3, Field::RdCmdBitlen, 15, before);
    crate::access::lemma_set_at(ops, 3, Field::RdCmdValue, 0, before);
    crate::access::lemma_set_at(ops, 4, Field::SramAddrBitlen, 31, before);
    crate::access::lemma_set_at(ops, 5, Field::CacheUsrSaddr4byte, 1, before);
    crate::access::lemma_set_at(ops, 6, Field::UsrWrSramDummy, 1, before);
    crate::access::lemma_set_at(ops, 6, Field::SramWdummyCyclelen, 11, before);
    crate::access::lemma_set_at(ops, 7, Field::UsrRdSramDummy, 1, before);
    crate::access::lemma_set_at(ops, 7, Field::SramRdummyCyclelen, 25, before);
    crate::access::lemma_set_at(ops, 8, Field::SmemVarDummy, 1, before);
    crate::access::lemma_set_at(ops, 9, Field::FmemVarDummy, 1, before);
    crate::access::lemma_set_at(ops, 10, Field::SdummyWout, 1, before);
    crate::access::lemma_set_at(ops, 11, Field::DdrWdatSwp, 0, before);
    crate::access::lemma_set_at(ops, 12, Field::DdrRdatSwp, 0, before);
    crate::access::lemma_set_at(ops, 13, Field::DdrEn, 1, before);
    crate::access::lemma_set_at(ops, 14, Field::SramOct, 1, before);
    crate::access::lemma_set_at(ops, 15, Field::ScmdOct, 1, before);
    crate::access::lemma_set_at(ops, 15, Field::SaddrOct, 1, before);
    crate::access::lemma_set_at(ops, 15, Field::SdoutOct, 1, before);
    crate::access::lemma_set_at(ops, 15, Field::SdinOct, 1, before);
    crate::access::lemma_set_at(ops, 16, Field::SdinHex, 1, before);
    crate::access::lemma_set_at(ops, 16, Field::SdoutHex, 1, before);
    crate::access::lemma_set_at(ops, 17, Field::AxiReqEn, 1, before);
    crate::access::lemma_set_at(ops, 17, Field::CloseAxiInfEn, 0, before);
    crate::access::lemma_set_at(ops, 18, Field::AwSpliceEn, 1, before);
    crate::access::lemma_set_at(ops, 19, Field::ArSpliceEn, 1, before);
}

/// The MMU as a series of accesses leaves it.
#[verifier::ext_equal]
pub struct Mmu {
    /// The selected entry.
    pub index: Option<u32>,
    /// The entries that were filled in.
    pub entries: Map<u32, u32>,
}

/// What one access does to the MMU.
pub open spec fn mmu_step(mmu: Mmu, access: Access) -> Mmu {
    match access {
        Access::Store { addr, value } => if addr == MMU_ITEM_INDEX_REG {
            Mmu { index: Some(value), ..mmu }
        } else if addr == MMU_ITEM_CONTENT_REG && mmu.index is Some {
            Mmu { entries: mmu.entries.insert(mmu.index->0, value), ..mmu }
        } else {
            mmu
        },
        _ => mmu,
    }
}

/// What a series of accesses does to the MMU.
pub open spec fn mmu_after(mmu: Mmu, accesses: Seq<Access>) -> Mmu
    decreases accesses.len(),
{
    if accesses.len() == 0 {
        mmu
    } else {
        mmu_step(mmu_after(mmu, accesses.drop_last()), accesses.last())
    }
}

/// Where in the PSRAM a virtual address leads: the entry of its page has to be
/// valid and to lead to the PSRAM; its low ten bits are the physical page.
pub open spec fn translate(mmu: Mmu, vaddr: int) -> Option<int> {
    let page = ((vaddr % 0x400_0000) / 0x1_0000) as u32;
    if mmu.entries.contains_key(page) && (mmu.entries[page] / 1024) % 4 == 3 {
        Some((mmu.entries[page] as int % 1024) * 0x1_0000 + vaddr % 0x1_0000)
    } else {
        None
    }
}

/// Mapping one page more fills in one entry more.
proof fn lemma_mmu_page(mmu: Mmu, pages: int)
    requires
        0 < pages <= 512,
    ensures
        mmu_after(mmu, mmu_accesses(pages)).entries == mmu_after(
            mmu,
            mmu_accesses(pages - 1),
        ).entries.insert((pages - 1) as u32, (pages - 1 + 0xC00) as u32),
{
    let ops = mmu_accesses(pages);
    let rest = ops.drop_last();
    assert(rest.drop_last() == mmu_accesses(pages - 1));
    assert(rest.last() == Access::Store { addr: MMU_ITEM_INDEX_REG, value: (pages - 1) as u32 });
    assert(ops.last() == Access::Store {
        addr: MMU_ITEM_CONTENT_REG,
        value: (pages - 1 + 0xC00) as u32,
    });
    assert(mmu_after(mmu, ops) == mmu_step(mmu_after(mmu, rest), ops.last()));
    assert(mmu_after(mmu, rest) == mmu_step(
        mmu_after(mmu, mmu_accesses(pages - 1)),
        rest.last(),
    ));
}

/// An entry after the first `pages` pages are mapped.
proof fn lemma_mmu_entry(mmu: Mmu, pages: int, e: u32)
    requires
        0 <= pages <= 512,
    ensures
        ({
            let after = mmu_after(mmu, mmu_accesses(pages)).entries;
            if e < pages {
                after.contains_key(e) && after[e] == e + 0xC00
            } else {
                &&& after.contains_key(e) <==> mmu.entries.contains_key(e)
                &&& mmu.entries.contains_key(e) ==> after[e] == mmu.entries[e]
            }
        }),
    decreases pages,
{
    if pages > 0 {
        lemma_mmu_entry(mmu, pages - 1, e);
        lemma_mmu_page(mmu, pages);
    } else {
        assert(mmu_accesses(pages) == Seq::<Access>::empty());
    }
}

/// The entries after the first `pages` pages are mapped.
proof fn lemma_mmu_entries(mmu: Mmu, pages: int)
    requires
        0 <= pages <= 512,
    ensures
        ({
            let after = mmu_after(mmu, mmu_accesses(pages));
            &&& forall|e: u32|
                e < pages ==> #[trigger] after.entries.contains_key(e) && after.entries[e] == e
                    + 0xC00
            &&& forall|e: u32|
                e >= pages ==> (#[trigger] after.entries.contains_key(e)
                    <==> mmu.entries.contains_key(e)) && (mmu.entries.contains_key(e)
                    ==> after.entries[e] == mmu.entries[e])
        }),
{
    let after = mmu_after(mmu, mmu_accesses(pages));
    assert forall|e: u32| e < pages implies #[trigger] after.entries.contains_key(e)
        && after.entries[e] == e + 0xC00 by {
        lemma_mmu_entry(mmu, pages, e);
    }
    assert forall|e: u32| e >= pages implies (#[trigger] after.entries.contains_key(e)
        <==> mmu.entries.contains_key(e)) && (mmu.entries.contains_key(e) ==> after.entries[e]
        == mmu.entries[e]) by {
        lemma_mmu_entry(mmu, pages, e);
    }
}

/// Every address of the window leads to the PSRAM, the first one to its first
/// byte and the others in order; the window is all of 32 MB. Whatever the MMU
/// held before, this is so afterwards.
pub proof fn law_window_mapped(mmu: Mmu, vaddr: int)
    requires
        PSRAM_VADDR_BASE <= vaddr < PSRAM_VADDR_BASE + PSRAM_VADDR_SIZE,
    ensures
        translate(mmu_after(mmu, mmu_accesses(window_pages())), vaddr) == Some(
            vaddr - PSRAM_VADDR_BASE,
        ),
{
    assert(window_pages() == 512);
    lemma_mmu_entries(mmu, 512);
    let offset = vaddr - PSRAM_VADDR_BASE;
    assert(vaddr % 0x400_0000 == offset);
    let page = (offset / 0x1_0000) as u32;
    assert(page < 512);
    assert(mmu_after(mmu, mmu_accesses(512)).entries.contains_key(page));
}

/// The mapping fills in the 512 entries of the window and no other: the others are
/// there afterwards if they were there before, with the same content.
pub proof fn law_only_window_mapped(mmu: Mmu, entry: u32)
    requires
        entry >= 512,
    ensures
        mmu_after(mmu, mmu_accesses(window_pages())).entries.contains_key(entry)
            <==> mmu.entries.contains_key(entry),
        mmu.entries.contains_key(entry) ==> mmu_after(
            mmu,
            mmu_accesses(window_pages()),
        ).entries[entry] == mmu.entries[entry],
{
    assert(window_pages() == 512);
    lemma_mmu_entries(mmu, 512);
    let after = mmu_after(mmu, mmu_accesses(512));
    assert(after.entries.contains_key(entry) <==> mmu.entries.contains_key(entry));
}

/// Doing `a` and then `b` leaves the MMU as `b` makes it of what `a` left.
pub proof fn lemma_mmu_concat(mmu: Mmu, a: Seq<Access>, b: Seq<Access>)
    ensures
        mmu_after(mmu, a + b) == mmu_after(mmu_after(mmu, a), b),
    decreases b.len(),
{
    if b.len() == 0 {
        assert(a + b == a);
    } else {
        lemma_mmu_concat(mmu, a, b.drop_last());
        assert((a + b).drop_last() == a + b.drop_last());
        assert((a + b).last() == b.last());
    }
}

/// Mapping the window and invalidating the caches touch no field of a controller.
pub proof fn law_mapping_leaves_fields(field: Field, before: Option<int>)
    requires
        field.on_device(),
    ensures
        crate::access::field_after(mmu_accesses(window_pages()), field, before) == before,
        crate::access::field_after(
            seq![Access::InvalidateCaches { map: CACHE_MAP_L2 }],
            field,
            before,
        ) == before,
{
    crate::access::lemma_untouched(mmu_accesses(window_pages()), field, before);
    crate::access::lemma_untouched(
        seq![Access::InvalidateCaches { map: CACHE_MAP_L2 }],
        field,
        before,
    );
}

/// All updates of the bring-up name fields of the register that they update.
pub proof fn law_accesses_consistent(i: int)
    ensures
        0 <= i < prepare_accesses().len() ==> crate::access::consistent(prepare_accesses()[i]),
        0 <= i < cache_side_accesses().len() ==> crate::access::consistent(
            cache_side_accesses()[i],
        ),
{
}

/// `field` is 1 after the first `i` accesses and 0 again after the first `j`, and by
/// the time that it is 1 the clocks of the controllers run.
pub open spec fn pulsed_while_clocked(
    accesses: Seq<Access>,
    field: Field,
    i: int,
    j: int,
    before: Option<int>,
) -> bool {
    &&& 0 <= i < j <= accesses.len()
    &&& crate::access::field_after(accesses.take(i), field, before) == Some(1int)
    &&& crate::access::field_after(accesses.take(j), field, before) == Some(0int)
    &&& crate::access::field_after(accesses.take(i), Field::PsramSysClkEn, before) == Some(1int)
    &&& crate::access::field_after(accesses.take(i), Field::PsramPllClkEn, before) == Some(1int)
    &&& crate::access::field_after(accesses.take(i), Field::PsramCoreClkEn, before) == Some(1int)
}

/// The preparation resets both sides of the controllers: the AXI reset and then the
/// APB reset is raised and lowered again, while the clocks run, whatever the fields
/// held before. After that neither is raised again.
pub proof fn law_prepare_resets(before: Option<int>)
    ensures
        exists|i: int, j: int|
            #[trigger] pulsed_while_clocked(
                prepare_accesses(),
                Field::RstEnDualMspiAxi,
                i,
                j,
                before,
            ),
        exists|i: int, j: int|
            #[trigger] pulsed_while_clocked(
                prepare_accesses(),
                Field::RstEnDualMspiApb,
                i,
                j,
                before,
            ),
        crate::access::field_after(prepare_accesses(), Field::RstEnDualMspiAxi, before) == Some(
            0int,
        ),
        crate::access::field_after(prepare_accesses(), Field::RstEnDualMspiApb, before) == Some(
            0int,
        ),
{
    let ops = prepare_accesses();
    let axi = Field::RstEnDualMspiAxi;
    let apb = Field::RstEnDualMspiApb;
    assert(ops.len() == 18);
    crate::access::lemma_set_at(ops.take(6), 5, axi, 1, before);
    crate::access::lemma_set_at(ops.take(7), 6, axi, 0, before);
    crate::access::lemma_set_at(ops.take(8), 7, apb, 1, before);
    crate::access::lemma_set_at(ops.take(9), 8, apb, 0, before);
    crate::access::lemma_set_at(ops.take(6), 3, Field::PsramSysClkEn, 1, before);
    crate::access::lemma_set_at(ops.take(6), 4, Field::PsramPllClkEn, 1, before);
    crate::access::lemma_set_at(ops.take(6), 2, Field::PsramCoreClkEn, 1, before);
    crate::access::lemma_set_at(ops.take(8), 3, Field::PsramSysClkEn, 1, before);
    crate::access::lemma_set_at(ops.take(8), 4, Field::PsramPllClkEn, 1, before);
    crate::access::lemma_set_at(ops.take(8), 2, Field::PsramCoreClkEn, 1, before);
    assert(pulsed_while_clocked(ops, axi, 6, 7, before));
    assert(pulsed_while_clocked(ops, apb, 8, 9, before));
    law_prepare_fields(before);
}

/// The order of the preparation, for any two of its accesses: clocks before resets,
/// resets before the clock source and the timing, and the bus clocks before the DLLs.
pub proof fn law_prepare_order(i: int, j: int)
    requires
        0 <= i < prepare_accesses().len(),
        0 <= j < prepare_accesses().len(),
    ensures
        ({
            let a = prepare_accesses()[i];
            let b = prepare_accesses()[j];
            let clocks = |x: Access|
                crate::access::touches(x, Field::PsramSysClkEn) || crate::access::touches(
                    x,
                    Field::PsramPllClkEn,
                ) || crate::access::touches(x, Field::PsramCoreClkEn) || crate::access::touches(
                    x,
                    Field::PsramCoreClkDivNum,
                );
            let resets = |x: Access|
                crate::access::touches(x, Field::RstEnDualMspiAxi) || crate::access::touches(
                    x,
                    Field::RstEnDualMspiApb,
                );
            let timing = |x: Access|
                crate::access::touches(x, Field::CsSetupTime) || crate::access::touches(
                    x,
                    Field::CsHoldTime,
                ) || crate::access::touches(x, Field::CsHoldDelay) || x is Store;
            let dll = |x: Access|
                crate::access::touches(x, Field::SmemDllTimingCali) || crate::access::touches(
                    x,
                    Field::DllTimingCali,
                );
            &&& clocks(a) && resets(b) ==> i < j
            &&& resets(a) && timing(b) ==> i < j
            &&& a is Store && dll(b) ==> i < j
            &&& crate::access::touches(a, Field::RstEnDualMspiAxi) && crate::access::touches(
                b,
                Field::RstEnDualMspiApb,
            ) ==> i < j
            &&& resets(a) && b is Modify && crate::access::touches(b, Field::PsramClkSrcSel) ==> i
                < j
        }),
{
}

/// Both controllers are clocked at 20 MHz out of 400: each clock register is written
/// with a word whose period (bits 16 to 23 and bits 0 to 7, less one) is 20 and
/// whose high time (bits 8 to 15, less one) is half of that. No other word is
/// written. The clock bits of the PSRAM are set first, and no other bits are.
pub proof fn law_prepare_words(i: int)
    requires
        0 <= i < prepare_accesses().len(),
    ensures
        match prepare_accesses()[i] {
            Access::Store { addr, value } => {
                &&& addr == 0x5008_E050 || addr == 0x5008_F014
                &&& 20 * (value / 0x1_0000 + 1) == 400
                &&& 20 * (value % 0x100 + 1) == 400
                &&& 2 * ((value / 0x100) % 0x100 + 1) == value % 0x100 + 1
            },
            Access::SetBits { addr, mask } => i == 0 && addr == 0x500E_6030 && mask == 0xD05D,
            Access::Modify { .. } => true,
            Access::InvalidateCaches { .. } => false,
        },
        prepare_accesses()[0] is SetBits,
        exists|a: int, b: int|
            0 <= a < prepare_accesses().len() && 0 <= b < prepare_accesses().len()
                && (#[trigger] prepare_accesses()[a] matches Access::Store { addr, .. } && addr
                == 0x5008_E050) && (#[trigger] prepare_accesses()[b] matches Access::Store {
                addr,
                ..
            } && addr == 0x5008_F014),
{
    let ops = prepare_accesses();
    assert(ops.len() == 18);
    assert(ops[14] matches Access::Store { addr, .. } && addr == 0x5008_E050);
    assert(ops[15] matches Access::Store { addr, .. } && addr == 0x5008_F014);
}

/// The preparation changes the clocks, the resets, the chip-select timing and the
/// DLLs, and leaves every other field of the controllers as it is.
pub proof fn law_prepare_leaves(field: Field, before: Option<int>)
    requires
        field.on_device(),
        field != Field::PsramCoreClkDivNum,
        field != Field::PsramCoreClkEn,
        field != Field::PsramSysClkEn,
        field != Field::PsramPllClkEn,
        field != Field::PsramClkSrcSel,
        field != Field::RstEnDualMspiAxi,
        field != Field::RstEnDualMspiApb,
        field != Field::CsSetup,
        field != Field::CsSetupTime,
        field != Field::CsHold,
        field != Field::CsHoldTime,
        field != Field::CsHoldDelay,
        field != Field::SmemDllTimingCali,
        field != Field::DllTimingCali,
    ensures
        crate::access::field_after(prepare_accesses(), field, before) == before,
{
    crate::access::lemma_untouched(prepare_accesses(), field, before);
}

/// The configuration of the cache side updates fields only, and leaves those alone
/// that it is not about.
pub proof fn law_cache_side_leaves(field: Field, i: int, before: Option<int>)
    requires
        field == Field::SdummyRin || field == Field::SplitTransEn || field == Field::EccAddrEn
            || field == Field::PageSize || field == Field::CsSetup || field == Field::CsSetupTime
            || field == Field::CsHold || field == Field::CsHoldTime || field == Field::CsHoldDelay
            || field == Field::EccCsHoldTime || field == Field::SmemDllTimingCali || field
            == Field::DllTimingCali || field == Field::PsramSysClkEn || field
            == Field::PsramPllClkEn || field == Field::PsramClkSrcSel || field
            == Field::PsramCoreClkDivNum || field == Field::PsramCoreClkEn || field
            == Field::RstEnDualMspiAxi || field == Field::RstEnDualMspiApb || field is PmsEcc
            || field is PmsWrAttr || field is PmsRdAttr || field is PmsStart || field is PmsLength,
    ensures
        crate::access::field_after(cache_side_accesses(), field, before) == before,
        0 <= i < cache_side_accesses().len() ==> cache_side_accesses()[i] is Modify,
{
    crate::access::lemma_untouched(cache_side_accesses(), field, before);
}

/// The AXI port is opened once commands, addresses, dummy lengths, data rate and
/// lines are set: no access to any of these follows its opening.
pub proof fn law_axi_opens_last(i: int, j: int, field: Field)
    requires
        0 <= i < j < cache_side_accesses().len(),
        crate::access::touches(cache_side_accesses()[i], Field::AxiReqEn),
        crate::access::touches(cache_side_accesses()[j], field),
    ensures
        field == Field::AwSpliceEn || field == Field::ArSpliceEn,
{
}

/// The mapping, access by access: for each of the 512 pages in order its entry is
/// selected at 0x5008_E380 and then filled in at 0x5008_E37C with the page, the
/// PSRAM bit 10 and the valid bit 11.
pub proof fn law_mmu_accesses(page: int)
    requires
        0 <= page < 512,
    ensures
        mmu_accesses(window_pages()).len() == 1024,
        mmu_accesses(window_pages())[2 * page] matches Access::Store { addr, value } && addr
            == 0x5008_E380 && value == page,
        mmu_accesses(window_pages())[2 * page + 1] matches Access::Store { addr, value } && addr
            == 0x5008_E37C && value % 0x400 == page && (value / 0x400) % 2 == 1 && (value / 0x800)
            == 1,
{
    assert(window_pages() == 512);
}

} // verus!
