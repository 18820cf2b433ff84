//! Mode registers, presets, constants and error texts.
use esp_p4_psram::cmd;
use esp_p4_psram::cs_timing;
use esp_p4_psram::{default_mode_register_config, detect, init};
use esp_p4_psram::{
    LatencyConfig, ModeRegisters, Mr0, Mr1, Mr2, Mr3, Mr4, Mr8, MspiId, PsramError, PsramSize,
};
use esp_p4_psram::{
    ADDR_BITLEN, AP_HEX_PSRAM_MPLL_DEFAULT_FREQ_MHZ, AP_HEX_PSRAM_VENDOR_ID,
    PSRAM_DETECT_SPEED_MHZ, PSRAM_VADDR_BASE, PSRAM_VADDR_SIZE, RD_CMD_BITLEN, WR_CMD_BITLEN,
};

#[test]
fn vendor_id_matches_idf() {
    assert_eq!(AP_HEX_PSRAM_VENDOR_ID, 0x0D);
}

#[test]
fn cmd_codes_match_idf() {
    assert_eq!(cmd::SYNC_READ, 0x0000);
    assert_eq!(cmd::SYNC_WRITE, 0x8080);
    assert_eq!(cmd::BURST_READ, 0x2020);
    assert_eq!(cmd::BURST_WRITE, 0xA0A0);
    assert_eq!(cmd::REG_READ, 0x4040);
    assert_eq!(cmd::REG_WRITE, 0xC0C0);
}

#[test]
fn cs_timing_matches_idf() {
    assert_eq!(cs_timing::SETUP, 4);
    assert_eq!(cs_timing::HOLD, 4);
    assert_eq!(cs_timing::HOLD_DELAY, 3);
    assert_eq!(cs_timing::ECC_HOLD, 4);
}

#[test]
fn latency_200m_arithmetic() {
    let l = LatencyConfig::speed_200m();
    assert_eq!(l.rd_dummy_bitlen, 26);
    assert_eq!(l.wr_dummy_bitlen, 12);
    assert_eq!(l.rd_latency_mr, 4);
    assert_eq!(l.wr_latency_mr, 1);
}

#[test]
fn latency_slow_arithmetic() {
    let l = LatencyConfig::speed_slow();
    assert_eq!(l.rd_dummy_bitlen, 18);
    assert_eq!(l.wr_dummy_bitlen, 8);
}

#[test]
fn latency_slow_and_250m_codes() {
    let slow = LatencyConfig::speed_slow();
    assert_eq!(slow.rd_latency_mr, 2);
    assert_eq!(slow.wr_latency_mr, 2);
    let fast = LatencyConfig::speed_250m();
    assert_eq!(fast.rd_dummy_bitlen, 34);
    assert_eq!(fast.wr_dummy_bitlen, 16);
    assert_eq!(fast.rd_latency_mr, 6);
    assert_eq!(fast.wr_latency_mr, 3);
}

#[test]
fn psram_size_density_decoding() {
    assert_eq!(PsramSize::from_mr2_density(0x7), Some(PsramSize::Mb32));
    assert_eq!(PsramSize::from_mr2_density(0x6), Some(PsramSize::Mb64));
    assert_eq!(PsramSize::from_mr2_density(0x5), Some(PsramSize::Mb16));
    assert_eq!(PsramSize::from_mr2_density(0x3), Some(PsramSize::Mb8));
    assert_eq!(PsramSize::from_mr2_density(0x1), Some(PsramSize::Mb4));
    assert_eq!(PsramSize::from_mr2_density(0x0), None);
    assert_eq!(PsramSize::from_mr2_density(0x2), None);
    assert_eq!(PsramSize::from_mr2_density(0x4), None);
}

#[test]
fn psram_size_density_above_three_bits() {
    for density in 8..=255u8 {
        assert_eq!(PsramSize::from_mr2_density(density), None);
    }
}

#[test]
fn psram_size_bytes() {
    assert_eq!(PsramSize::Mb32.bytes(), 32 * 1024 * 1024);
    assert_eq!(PsramSize::Mb16.bytes(), 16 * 1024 * 1024);
}

#[test]
fn psram_size_bytes_of_the_others() {
    assert_eq!(PsramSize::Mb4.bytes(), 0x40_0000);
    assert_eq!(PsramSize::Mb8.bytes(), 0x80_0000);
    assert_eq!(PsramSize::Mb64.bytes(), 0x400_0000);
}

#[test]
fn mr0_round_trip_drive_str() {
    let mr0 = Mr0::new(2, 4, true);
    assert_eq!(mr0.drive_str(), 2);
    assert_eq!(mr0.read_latency(), 4);
    assert!(mr0.lt());
    let mr0b = mr0.with_drive_str(0);
    assert_eq!(mr0b.drive_str(), 0);
    assert_eq!(mr0b.read_latency(), 4);
    assert!(mr0b.lt());
}

#[test]
fn mr0_with_read_latency_preserves_others() {
    let mr0 = Mr0::new(2, 0, true);
    let mr0b = mr0.with_read_latency(7);
    assert_eq!(mr0b.read_latency(), 7);
    assert_eq!(mr0b.drive_str(), 2);
    assert!(mr0b.lt());
}

#[test]
fn mr0_bytes() {
    assert_eq!(Mr0::new(2, 4, true).0, 0b0011_0010);
    assert_eq!(Mr0::new(0xFF, 0xFF, false).0, 0b0001_1111);
    assert_eq!(Mr0(0xFF).with_lt(false).0, 0b1101_1111);
    assert_eq!(Mr0(0x00).with_lt(true).0, 0b0010_0000);
    assert_eq!(Mr0(0xFF).with_read_latency(0x0A).0, 0b1110_1011);
    assert_eq!(Mr0(0x54).with_drive_str(7).0, 0x57);
    assert!(Mr0(0x80).tso());
    assert!(!Mr0(0x7F).tso());
}

#[test]
fn mr0_setters_change_only_their_field() {
    for byte in 0..=255u8 {
        let r = Mr0(byte);
        assert_eq!(r.with_drive_str(r.drive_str()), r);
        assert_eq!(r.with_read_latency(r.read_latency()), r);
        assert_eq!(r.with_lt(r.lt()), r);
        assert_eq!(r.with_drive_str(1).0 & !0x03, byte & !0x03);
        assert_eq!(r.with_read_latency(5).0 & !0x1C, byte & !0x1C);
        assert_eq!(r.with_lt(true).0 & !0x20, byte & !0x20);
    }
}

#[test]
fn mr1_vendor_id_extraction() {
    let mr1 = Mr1(0xED);
    assert_eq!(mr1.vendor_id(), 0x0D);
    assert!(mr1.ulp());
}

#[test]
fn mr1_without_ulp() {
    assert!(!Mr1(0x6D).ulp());
    assert_eq!(Mr1(0x6D).vendor_id(), 0x0D);
    assert_eq!(Mr1(0xFF).vendor_id(), 0x1F);
}

#[test]
fn mr2_density_kgd() {
    let mr2 = Mr2((6 << 5) | (1 << 3) | 7);
    assert_eq!(mr2.density(), 7);
    assert_eq!(mr2.dev_id(), 1);
    assert_eq!(mr2.kgd(), 6);
}

#[test]
fn mr4_wr_latency_round_trip() {
    let mr4 = Mr4::default().with_wr_latency(5);
    assert_eq!(mr4.wr_latency(), 5);
}

#[test]
fn mr4_fields() {
    let mr4 = Mr4(0b101_10_011);
    assert_eq!(mr4.pasr(), 3);
    assert_eq!(mr4.rf(), 2);
    assert_eq!(mr4.wr_latency(), 5);
    assert_eq!(mr4.with_wr_latency(9).0, 0b001_10_011);
}

#[test]
fn mr8_round_trip_all_fields() {
    let mr8 = Mr8::new(3, false, true, true);
    assert_eq!(mr8.bl(), 3);
    assert!(!mr8.bt());
    assert!(mr8.rbx());
    assert!(mr8.x16());
}

#[test]
fn mr8_bytes() {
    assert_eq!(Mr8::new(3, false, true, true).0, 0x4B);
    assert_eq!(Mr8::new(7, true, false, false).0, 0x07);
    assert_eq!(Mr8(0xFF).with_bl(0).0, 0xFC);
    assert_eq!(Mr8(0xFF).with_bt(false).0, 0xFB);
    assert_eq!(Mr8(0xFF).with_rbx(false).0, 0xF7);
    assert_eq!(Mr8(0xFF).with_x16(false).0, 0xBF);
    assert_eq!(Mr8(0x00).with_bt(true).0, 0x04);
    assert_eq!(Mr8(0x00).with_rbx(true).0, 0x08);
    assert_eq!(Mr8(0x00).with_x16(true).0, 0x40);
}

#[test]
fn default_mode_register_config_is_200m_hex() {
    let m = default_mode_register_config();
    assert_eq!(m.mr0.read_latency(), LatencyConfig::speed_200m().rd_latency_mr);
    assert!(m.mr0.lt());
    assert_eq!(m.mr4.wr_latency(), LatencyConfig::speed_200m().wr_latency_mr);
    assert_eq!(m.mr8.bl(), 3);
    assert!(m.mr8.x16());
    assert!(m.mr8.rbx());
}

#[test]
fn default_mode_register_config_bytes() {
    let m = default_mode_register_config();
    assert_eq!(m.mr0, Mr0(0x30));
    assert_eq!(m.mr1, Mr1(0));
    assert_eq!(m.mr2, Mr2(0));
    assert_eq!(m.mr3, Mr3(0));
    assert_eq!(m.mr4, Mr4(0x20));
    assert_eq!(m.mr8, Mr8(0x4B));
}

#[test]
fn mspi_id_values_match_idf() {
    assert_eq!(MspiId::Mspi2.number(), 2);
    assert_eq!(MspiId::Mspi3.number(), 3);
}

#[test]
fn psram_window_constants() {
    assert_eq!(PSRAM_VADDR_BASE, 0x4800_0000);
    assert_eq!(PSRAM_VADDR_SIZE, 32 * 1024 * 1024);
}

#[test]
fn bus_constants() {
    assert_eq!(AP_HEX_PSRAM_MPLL_DEFAULT_FREQ_MHZ, 400);
    assert_eq!(PSRAM_DETECT_SPEED_MHZ, 20);
    assert_eq!(RD_CMD_BITLEN, 16);
    assert_eq!(WR_CMD_BITLEN, 16);
    assert_eq!(ADDR_BITLEN, 32);
}

#[test]
fn detect_stub_returns_not_implemented() {
    assert_eq!(detect(), Err(PsramError::NotImplemented));
}

#[test]
fn init_stub_returns_not_implemented() {
    assert_eq!(init(), Err(PsramError::NotImplemented));
}

#[test]
fn psram_error_display_chip_detection() {
    let text = PsramError::ChipDetectionFailed {
        reported_vendor_id: 0xAB,
    }
    .message();
    assert_eq!(
        text,
        "PSRAM chip detection failed: vendor_id 0xAB (expected 0x0D)"
    );
    assert!(text.len() <= 64);
}

#[test]
fn psram_error_display_transaction_timeout_decodes_slv_st() {
    let text = PsramError::TransactionTimeout {
        addr: 0,
        iters: 1_000_000,
        cmd_reg: 0x0004_0052,
    }
    .message();
    assert!(text.contains("slv_st=0x5"));
    assert!(text.contains("cmd_reg=0x00040052"));
    assert!(text.len() <= 128);
}

#[test]
fn error_texts() {
    assert_eq!(
        PsramError::NotImplemented.message(),
        "PSRAM init not implemented (Phase B/C/D pending)"
    );
    assert_eq!(PsramError::MpllSetupFailed.message(), "MPLL setup failed");
    assert_eq!(
        PsramError::ClockSetupFailed.message(),
        "PSRAM module clock did not come up"
    );
    assert_eq!(PsramError::PinMuxFailed.message(), "PSRAM IO_MUX failed");
    assert_eq!(
        PsramError::ChipDetectionFailed { reported_vendor_id: 5 }.message(),
        "PSRAM chip detection failed: vendor_id 0x05 (expected 0x0D)"
    );
    assert_eq!(
        PsramError::UnknownPsramSize { density: 4 }.message(),
        "unknown PSRAM density code 0x4"
    );
    assert_eq!(
        PsramError::UnknownPsramSize { density: 0xFE }.message(),
        "unknown PSRAM density code 0xFE"
    );
    assert_eq!(
        PsramError::SpeedNotSupported.message(),
        "PSRAM speed mode not supported for chip size"
    );
    assert_eq!(PsramError::MmuMapFailed.message(), "PSRAM MMU mapping failed");
    assert_eq!(
        PsramError::CacheSetupFailed.message(),
        "PSRAM L2 cache setup failed"
    );
    assert_eq!(
        PsramError::TransactionTimeout { addr: 0xFFFF, iters: 1_000_000, cmd_reg: 0x0004_0052 }
            .message(),
        "MSPI transaction timed out at MR addr 0xFFFF after 1000000 iters, cmd_reg=0x00040052 (slv_st=0x5)"
    );
    assert_eq!(
        PsramError::TransactionTimeout { addr: 0, iters: 0, cmd_reg: u32::MAX }.message(),
        "MSPI transaction timed out at MR addr 0x0 after 0 iters, cmd_reg=0xFFFFFFFF (slv_st=0xF)"
    );
}

#[test]
fn numbers_are_rendered_like_the_formatter() {
    for value in [0u32, 1, 9, 10, 15, 16, 99, 255, 256, 0xABCDEF, 1_000_000, u32::MAX] {
        let mut hex = String::new();
        esp_p4_psram::text::append_number(&mut hex, value, 16);
        assert_eq!(hex, format!("{:X}", value));
        let mut dec = String::from("n=");
        esp_p4_psram::text::append_number(&mut dec, value, 10);
        assert_eq!(dec, format!("n={}", value));
        let mut padded = String::new();
        esp_p4_psram::text::append_padded_number(&mut padded, value, 16, 8);
        assert_eq!(padded, format!("{:08X}", value));
        let mut narrow = String::new();
        esp_p4_psram::text::append_padded_number(&mut narrow, value, 16, 2);
        assert_eq!(narrow, format!("{:02X}", value));
    }
}

#[test]
fn verification_of_a_snapshot() {
    let good = ModeRegisters { mr1: Mr1(0x0D), mr2: Mr2(0xC7), ..ModeRegisters::default() };
    assert_eq!(good.verify(), Ok(PsramSize::Mb32));
    let unknown = ModeRegisters { mr2: Mr2(0xC4), ..good };
    assert_eq!(unknown.verify(), Err(PsramError::UnknownPsramSize { density: 4 }));
    let other = ModeRegisters { mr1: Mr1(0xE1), ..unknown };
    assert_eq!(
        other.verify(),
        Err(PsramError::ChipDetectionFailed { reported_vendor_id: 1 })
    );
}
