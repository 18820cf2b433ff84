//! Settings of the controllers.
use esp_p4_psram::access::{Access, Field, FieldWrite, Register, Writes};
use esp_p4_psram::program;
use esp_p4_psram::regs;
use esp_p4_psram::regs::{PsramClkSrc, Query, WaitStep};
use esp_p4_psram::MspiId;

const M2: MspiId = MspiId::Mspi2;
const M3: MspiId = MspiId::Mspi3;

fn w(field: Field, value: u32) -> FieldWrite {
    FieldWrite { field, value }
}

fn one(register: Register, field: Field, value: u32) -> Access {
    Access::Modify { register, writes: Writes::One(w(field, value)) }
}

fn two(register: Register, f1: Field, v1: u32, f2: Field, v2: u32) -> Access {
    Access::Modify { register, writes: Writes::Two(w(f1, v1), w(f2, v2)) }
}

fn done(f: impl Fn(&mut Vec<Access>)) -> Vec<Access> {
    let mut ops = Vec::new();
    f(&mut ops);
    ops
}

#[test]
fn commands_carry_length_less_one_and_value() {
    assert_eq!(
        done(|o| regs::set_wr_cmd(o, M2, 16, 0x8080)),
        vec![
            one(Register::CacheSctrl, Field::CacheSramUsrWcmd, 1),
            two(Register::SramDwrCmd, Field::WrCmdBitlen, 15, Field::WrCmdValue, 0x8080),
        ]
    );
    assert_eq!(
        done(|o| regs::set_rd_cmd(o, M2, 8, 0x1_2345)),
        vec![
            one(Register::CacheSctrl, Field::CacheSramUsrRcmd, 1),
            two(Register::SramDrdCmd, Field::RdCmdBitlen, 7, Field::RdCmdValue, 0x2345),
        ]
    );
    assert_eq!(
        done(|o| regs::set_addr_bitlen(o, M2, 32)),
        vec![one(Register::CacheSctrl, Field::SramAddrBitlen, 31)]
    );
}

#[test]
fn lengths_are_cut_to_eight_bits() {
    assert_eq!(
        done(|o| regs::set_addr_bitlen(o, M2, 0x101)),
        vec![one(Register::CacheSctrl, Field::SramAddrBitlen, 0)]
    );
    assert_eq!(
        done(|o| regs::set_core_clock_div(o, 0, 0x102)),
        vec![one(Register::PeriClkCtrl00, Field::PsramCoreClkDivNum, 1)]
    );
}

#[test]
fn dummies() {
    assert_eq!(
        done(|o| regs::set_wr_dummy(o, M2, 12)),
        vec![two(Register::CacheSctrl, Field::UsrWrSramDummy, 1, Field::SramWdummyCyclelen, 11)]
    );
    assert_eq!(
        done(|o| regs::set_rd_dummy(o, M2, 26)),
        vec![two(Register::CacheSctrl, Field::UsrRdSramDummy, 1, Field::SramRdummyCyclelen, 25)]
    );
}

#[test]
fn variable_dummy_depends_on_the_controller() {
    assert_eq!(
        done(|o| regs::enable_variable_dummy(o, M2, true)),
        vec![one(Register::SmemDdr, Field::SmemVarDummy, 1)]
    );
    assert_eq!(
        done(|o| regs::enable_variable_dummy(o, M3, false)),
        vec![one(Register::Spi1Ddr, Field::FmemVarDummy, 0)]
    );
}

#[test]
fn dll_depends_on_the_controller() {
    assert_eq!(
        done(|o| regs::enable_dll(o, M2, true)),
        vec![one(Register::SmemTimingCali, Field::SmemDllTimingCali, 1)]
    );
    assert_eq!(
        done(|o| regs::enable_dll(o, M3, true)),
        vec![one(Register::TimingCali, Field::DllTimingCali, 1)]
    );
}

#[test]
fn switches() {
    let all: Vec<(Vec<Access>, Register, Field)> = vec![
        (done(|o| regs::enable_4byte_addr(o, M2, true)), Register::CacheSctrl, Field::CacheUsrSaddr4byte),
        (done(|o| regs::enable_wr_dummy_level_control(o, M2, true)), Register::SramCmd, Field::SdummyWout),
        (done(|o| regs::enable_rd_dummy_level_control(o, M2, true)), Register::SramCmd, Field::SdummyRin),
        (done(|o| regs::enable_ddr_mode(o, M2, true)), Register::SmemDdr, Field::DdrEn),
        (done(|o| regs::enable_ddr_wr_data_swap(o, M2, true)), Register::SmemDdr, Field::DdrWdatSwp),
        (done(|o| regs::enable_ddr_rd_data_swap(o, M2, true)), Register::SmemDdr, Field::DdrRdatSwp),
        (done(|o| regs::enable_wr_splice(o, M2, true)), Register::Ctrl1, Field::AwSpliceEn),
        (done(|o| regs::enable_rd_splice(o, M2, true)), Register::Ctrl1, Field::ArSpliceEn),
        (done(|o| regs::enable_core_clock(o, 0, true)), Register::PeriClkCtrl00, Field::PsramCoreClkEn),
        (done(|o| regs::enable_split_trans(o, M2, true)), Register::SmemAc, Field::SplitTransEn),
        (done(|o| regs::enable_ecc_addr_conversion(o, M2, true)), Register::SmemEccCtrl, Field::EccAddrEn),
        (done(|o| regs::enable_pms_region_ecc(o, M2, 3, true)), Register::PmsAttr(3), Field::PmsEcc(3)),
    ];
    for (accesses, register, field) in all {
        assert_eq!(accesses, vec![one(register, field, 1)]);
        assert_eq!(field.register(), register);
    }
    assert_eq!(
        done(|o| regs::enable_ddr_mode(o, M2, false)),
        vec![one(Register::SmemDdr, Field::DdrEn, 0)]
    );
}

#[test]
fn line_modes() {
    assert_eq!(
        done(|o| regs::enable_oct_line_mode(o, M2, true)),
        vec![
            one(Register::CacheSctrl, Field::SramOct, 1),
            Access::Modify {
                register: Register::SramCmd,
                writes: Writes::Four(
                    w(Field::ScmdOct, 1),
                    w(Field::SaddrOct, 1),
                    w(Field::SdoutOct, 1),
                    w(Field::SdinOct, 1),
                ),
            },
        ]
    );
    assert_eq!(
        done(|o| regs::enable_hex_data_line_mode(o, M2, false)),
        vec![two(Register::SramCmd, Field::SdinHex, 0, Field::SdoutHex, 0)]
    );
}

#[test]
fn axi_port_is_open_or_closed() {
    assert_eq!(
        done(|o| regs::enable_axi_access(o, M2, true)),
        vec![two(Register::CacheFctrl, Field::AxiReqEn, 1, Field::CloseAxiInfEn, 0)]
    );
    assert_eq!(
        done(|o| regs::enable_axi_access(o, M2, false)),
        vec![two(Register::CacheFctrl, Field::AxiReqEn, 0, Field::CloseAxiInfEn, 1)]
    );
}

#[test]
fn clocks_and_resets() {
    assert_eq!(
        done(|o| regs::enable_module_clock(o, M2, true)),
        vec![
            one(Register::SocClkCtrl0, Field::PsramSysClkEn, 1),
            one(Register::PeriClkCtrl00, Field::PsramPllClkEn, 1),
        ]
    );
    assert_eq!(
        done(|o| regs::reset_module_clock(o, M2)),
        vec![
            one(Register::HpRstEn0, Field::RstEnDualMspiAxi, 1),
            one(Register::HpRstEn0, Field::RstEnDualMspiAxi, 0),
            one(Register::HpRstEn0, Field::RstEnDualMspiApb, 1),
            one(Register::HpRstEn0, Field::RstEnDualMspiApb, 0),
        ]
    );
    let sources = [PsramClkSrc::Xtal, PsramClkSrc::Mpll, PsramClkSrc::Spll, PsramClkSrc::Cpll];
    for (code, source) in sources.into_iter().enumerate() {
        assert_eq!(
            done(|o| regs::select_clk_source(o, M3, source)),
            vec![one(Register::PeriClkCtrl00, Field::PsramClkSrcSel, code as u32)]
        );
    }
}

#[test]
fn bus_clock_words() {
    assert_eq!(
        done(|o| regs::set_bus_clock(o, M2, 20)),
        vec![Access::Store { addr: 0x5008_E050, value: 0x0013_0913 }]
    );
    assert_eq!(
        done(|o| regs::set_bus_clock(o, M3, 1)),
        vec![Access::Store { addr: 0x5008_F014, value: 0x8000_0000 }]
    );
    assert_eq!(
        done(|o| regs::set_bus_clock(o, M3, 2)),
        vec![Access::Store { addr: 0x5008_F014, value: 0x0001_0001 }]
    );
    assert_eq!(
        done(|o| regs::set_bus_clock(o, M2, 256)),
        vec![Access::Store { addr: 0x5008_E050, value: 0x00FF_7FFF }]
    );
    assert_eq!(
        done(|o| regs::set_bus_clock(o, M2, u32::MAX)),
        vec![Access::Store { addr: 0x5008_E050, value: 0xFFFF_FFFE }]
    );
}

#[test]
fn chip_select_timing() {
    assert_eq!(
        done(|o| regs::set_cs_setup(o, M2, 4)),
        vec![two(Register::SmemAc, Field::CsSetup, 1, Field::CsSetupTime, 3)]
    );
    assert_eq!(
        done(|o| regs::set_cs_hold(o, M2, 4)),
        vec![two(Register::SmemAc, Field::CsHold, 1, Field::CsHoldTime, 3)]
    );
    assert_eq!(
        done(|o| regs::set_cs_hold_delay(o, M2, 3)),
        vec![one(Register::SmemAc, Field::CsHoldDelay, 2)]
    );
    assert_eq!(
        done(|o| regs::set_cs_hold_ecc(o, M2, 4)),
        vec![one(Register::SmemAc, Field::EccCsHoldTime, 3)]
    );
}

#[test]
fn page_size_round_trip() {
    for (code, size) in [256u32, 512, 1024, 2048].into_iter().enumerate() {
        assert_eq!(
            done(|o| regs::set_page_size(o, M2, size)),
            vec![one(Register::SmemEccCtrl, Field::PageSize, code as u32)]
        );
        assert_eq!(regs::get_page_size(M2, Some(code as u32)), Query::Value(size));
    }
    assert_eq!(done(|o| regs::set_page_size(o, M2, 100)), vec![]);
    assert_eq!(regs::get_page_size(M2, None), Query::Read(Field::PageSize));
    assert_eq!(regs::get_page_size(M2, Some(4)), Query::Value(0));
}

#[test]
fn protected_regions() {
    assert_eq!(
        done(|o| regs::set_pms_region_attr(o, M2, 1, regs::PMS_ATTR_WRITABLE)),
        vec![two(Register::PmsAttr(1), Field::PmsWrAttr(1), 1, Field::PmsRdAttr(1), 0)]
    );
    assert_eq!(
        done(|o| regs::set_pms_region_attr(o, M2, 2, 0xFE)),
        vec![two(Register::PmsAttr(2), Field::PmsWrAttr(2), 0, Field::PmsRdAttr(2), 1)]
    );
    assert_eq!(
        done(|o| regs::set_pms_region_start_addr(o, M2, 0, 0x123_4000)),
        vec![one(Register::PmsAddr(0), Field::PmsStart(0), 0x123_4000)]
    );
    assert_eq!(
        done(|o| regs::set_pms_region_size(o, M2, 3, 0x1_0010)),
        vec![one(Register::PmsSize(3), Field::PmsLength(3), 0x10)]
    );
    assert_eq!(regs::get_pms_region_start_addr(M2, 1, None), Query::Read(Field::PmsStart(1)));
    assert_eq!(regs::get_pms_region_start_addr(M2, 1, Some(77)), Query::Value(77));
    assert_eq!(regs::get_pms_region_size(M2, 2, None), Query::Read(Field::PmsLength(2)));
    assert_eq!(regs::get_pms_region_size(M2, 2, Some(5)), Query::Value(5));
}

#[test]
fn wait_ends_when_all_is_drained() {
    let load = WaitStep::Load { addr: 0x5008_E178 };
    assert_eq!(regs::wait_all_transaction_done(None), load);
    assert_eq!(regs::wait_all_transaction_done(Some(0)), load);
    assert_eq!(regs::wait_all_transaction_done(Some(0x7C00_0000)), load);
    assert_eq!(regs::wait_all_transaction_done(Some(0xFC00_0000)), WaitStep::Done);
}

#[test]
fn register_constants() {
    assert_eq!(regs::SPIMEM2_BASE, 0x5008_E000);
    assert_eq!(regs::SPIMEM3_BASE, 0x5008_F000);
    assert_eq!(regs::PMS_REGION_NUMS, 4);
    assert_eq!(regs::PMS_ATTR_READABLE, 2);
    assert_eq!(regs::FIFO_MAX_BYTES, 64);
    assert_eq!(regs::ALL_TRANSACTION_DONE, 0xFC00_0000);
}

#[test]
fn settings_are_appended() {
    let mut ops = Vec::new();
    regs::enable_ddr_mode(&mut ops, M2, true);
    regs::set_page_size(&mut ops, M2, 1);
    regs::enable_wr_splice(&mut ops, M2, false);
    assert_eq!(
        ops,
        vec![
            one(Register::SmemDdr, Field::DdrEn, 1),
            one(Register::Ctrl1, Field::AwSpliceEn, 0),
        ]
    );
}

#[test]
fn preparation() {
    let ops = done(program::prepare_for_mr_read);
    assert_eq!(ops.len(), 18);
    assert_eq!(ops[0], Access::SetBits { addr: 0x500E_6030, mask: 0xD05D });
    assert_eq!(ops[1], one(Register::PeriClkCtrl00, Field::PsramCoreClkDivNum, 0));
    assert_eq!(ops[9], one(Register::PeriClkCtrl00, Field::PsramClkSrcSel, 1));
    assert_eq!(ops[13], one(Register::SmemAc, Field::CsHoldDelay, 2));
    assert_eq!(ops[14], Access::Store { addr: 0x5008_E050, value: 0x0013_0913 });
    assert_eq!(ops[15], Access::Store { addr: 0x5008_F014, value: 0x0013_0913 });
    assert_eq!(ops[17], one(Register::TimingCali, Field::DllTimingCali, 1));
}

#[test]
fn cache_side_configuration() {
    let ops = done(program::config_mspi_cache_side);
    assert_eq!(ops.len(), 20);
    assert_eq!(
        ops[1],
        two(Register::SramDwrCmd, Field::WrCmdBitlen, 15, Field::WrCmdValue, 0x8080)
    );
    assert_eq!(ops[3], two(Register::SramDrdCmd, Field::RdCmdBitlen, 15, Field::RdCmdValue, 0));
    assert_eq!(ops[4], one(Register::CacheSctrl, Field::SramAddrBitlen, 31));
    assert_eq!(
        ops[6],
        two(Register::CacheSctrl, Field::UsrWrSramDummy, 1, Field::SramWdummyCyclelen, 11)
    );
    assert_eq!(
        ops[7],
        two(Register::CacheSctrl, Field::UsrRdSramDummy, 1, Field::SramRdummyCyclelen, 25)
    );
    assert_eq!(ops[19], one(Register::Ctrl1, Field::ArSpliceEn, 1));
}

#[test]
fn window_is_mapped_page_by_page() {
    let ops = done(program::mmu_map_psram_window);
    assert_eq!(ops.len(), 1024);
    for page in 0..512usize {
        assert_eq!(
            ops[2 * page],
            Access::Store { addr: 0x5008_E380, value: page as u32 }
        );
        assert_eq!(
            ops[2 * page + 1],
            Access::Store { addr: 0x5008_E37C, value: 0xC00 | page as u32 }
        );
    }
}

#[test]
fn caches_are_invalidated() {
    assert_eq!(
        done(program::cache_invalidate_psram_window),
        vec![Access::InvalidateCaches { map: 0x20 }]
    );
}
