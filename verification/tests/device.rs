//! Transactions, detection and bring-up on a simulated device.
use esp_p4_psram::access::Access;
use esp_p4_psram::bringup::{Detect, Goal, Init, Task};
use esp_p4_psram::session::{read_mode_registers, write_mode_register_config};
use esp_p4_psram::session::{ReadStep, WriteStep};
use esp_p4_psram::transaction::{
    common_transaction, try_common_transaction, Completion, SpiFlashReadMode, Transaction,
    TransactionError, TransactionStep,
};
use esp_p4_psram::{ModeRegisters, Mr0, Mr1, Mr2, Mr3, Mr4, Mr8, MspiId, PsramError};

/// A chip with mode registers behind the command engine.
struct Device {
    /// Mode registers by address.
    mr: [u8; 16],
    /// Polls that find the engine busy, per command.
    busy_polls: u32,
    /// Commands, counted from 0, on which the engine never becomes idle.
    dead: Vec<usize>,
    commands: usize,
    misc: u32,
    polls: u32,
    words: [u32; 16],
    log: Vec<String>,
    accesses: Vec<Access>,
    /// Number of accesses before each command.
    accesses_before: Vec<usize>,
}

impl Device {
    fn new() -> Device {
        let mut mr = [0u8; 16];
        mr[0] = 0x89;
        mr[1] = 0x8D;
        mr[2] = 0xC7;
        mr[3] = 0x80;
        mr[4] = 0x55;
        mr[5] = 0x66;
        mr[8] = 0x95;
        Device {
            mr,
            busy_polls: 3,
            dead: Vec::new(),
            commands: 0,
            misc: 0xF0,
            polls: 0,
            words: [0; 16],
            log: Vec::new(),
            accesses: Vec::new(),
            accesses_before: Vec::new(),
        }
    }

    fn run(&mut self, mut t: Transaction) -> Result<Completion, TransactionError> {
        let mut reply = 0xDEAD_BEEF;
        let mut base = 0;
        loop {
            match t.step(reply) {
                TransactionStep::SetOpMode { spi_num, mode } => {
                    assert_eq!(mode, 7);
                    base = match spi_num {
                        2 => 0x5008_E000,
                        3 => 0x5008_F000,
                        _ => panic!("no such controller"),
                    };
                }
                TransactionStep::Configure { cmd, .. } => {
                    assert_eq!(cmd.cmd_bit_len, 16);
                    self.accesses_before.push(self.accesses.len());
                    self.words = [0xA5A5_A5A5; 16];
                    if cmd.cmd == 0x4040 {
                        assert_eq!(cmd.addr_bit_len, 32);
                        assert_eq!(cmd.dummy_bit_len, 8);
                        assert!(cmd.rx_data);
                        let a = cmd.addr as usize;
                        self.words[0] =
                            u32::from(self.mr[a]) | u32::from(self.mr[a + 1]) << 8 | 0x7700_0000;
                        self.log.push(format!("read {} {}", a, cmd.rx_data_bit_len));
                    } else if cmd.cmd == 0xC0C0 {
                        assert_eq!(cmd.dummy_bit_len, 0);
                        assert_eq!(cmd.tx_data_bit_len, 16);
                        assert!(!cmd.rx_data);
                        if !self.dead.contains(&self.commands) {
                            self.mr[cmd.addr as usize] = cmd.tx_data[0];
                            self.mr[cmd.addr as usize + 1] = cmd.tx_data[1];
                        }
                        self.log.push(format!(
                            "write {} {:02X}{:02X}",
                            cmd.addr, cmd.tx_data[0], cmd.tx_data[1]
                        ));
                    } else {
                        assert_eq!(cmd.cmd, 0xFFFF);
                        assert_eq!(cmd.addr_bit_len, 0);
                        self.log.push(String::from("reset"));
                    }
                }
                TransactionStep::Load { addr } => {
                    reply = match addr - base {
                        0x34 => self.misc,
                        0x00 => {
                            let dead = self.dead.contains(&(self.commands - 1));
                            if dead || self.polls < self.busy_polls {
                                self.polls += 1;
                                0x0004_0052
                            } else {
                                0
                            }
                        }
                        offset => {
                            assert!((0x58..0x98).contains(&offset));
                            self.words[(offset - 0x58) / 4]
                        }
                    };
                }
                TransactionStep::Store { addr, value } => match addr - base {
                    0x34 => self.misc = value,
                    0x00 => {
                        assert_eq!(value, 0x0004_0000);
                        assert_eq!(self.misc & 3, 1);
                        self.polls = 0;
                        self.commands += 1;
                    }
                    _ => panic!("unexpected store"),
                },
                TransactionStep::Relax => {}
                TransactionStep::Done(result) => return result,
            }
        }
    }

    fn work(
        &mut self,
        first: Task,
        mut advance: impl FnMut(Result<Completion, TransactionError>) -> Task,
    ) -> Result<ModeRegisters, PsramError> {
        let mut task = first;
        loop {
            self.accesses.extend(task.accesses.iter().copied());
            match task.goal {
                Goal::Transact(t) => task = advance(self.run(t)),
                Goal::Finish(result) => return result,
            }
        }
    }

    fn detect(&mut self) -> Result<ModeRegisters, PsramError> {
        let (mut d, first) = Detect::begin();
        self.work(first, |r| d.advance(r))
    }

    fn init(&mut self) -> Result<ModeRegisters, PsramError> {
        let (mut i, first) = Init::begin();
        self.work(first, |r| i.advance(r))
    }
}

fn transaction(miso_wanted: bool, miso_bitlen: u32, max_iters: u32) -> Transaction {
    try_common_transaction(
        MspiId::Mspi2,
        0x1_4040,
        16,
        0x12,
        32,
        8,
        vec![1, 2],
        16,
        miso_wanted,
        miso_bitlen,
        true,
        max_iters,
    )
}

/// Steps a transaction with fixed answers, and gives the loads it made.
fn drive(
    mut t: Transaction,
    misc: u32,
    polls: &[u32],
    words: &[u32],
) -> (Result<Completion, TransactionError>, Vec<usize>) {
    let mut loads = Vec::new();
    let (mut poll, mut word) = (0, 0);
    let mut reply = 0;
    loop {
        match t.step(reply) {
            TransactionStep::Load { addr } => {
                loads.push(addr);
                reply = match addr {
                    0x5008_E034 => misc,
                    0x5008_E000 => {
                        poll += 1;
                        polls[poll - 1]
                    }
                    _ => {
                        word += 1;
                        words[word - 1]
                    }
                };
            }
            TransactionStep::Done(result) => return (result, loads),
            _ => {}
        }
    }
}

#[test]
fn transaction_steps_in_order() {
    let mut t = transaction(true, 16, 10);
    match t.step(0) {
        TransactionStep::SetOpMode { spi_num, mode } => {
            assert_eq!((spi_num, mode), (2, SpiFlashReadMode::OpiDtrMode.code()))
        }
        other => panic!("{:?}", other),
    }
    match t.step(0) {
        TransactionStep::Configure { spi_num, cmd } => {
            assert_eq!(spi_num, 2);
            assert_eq!(cmd.cmd, 0x4040);
            assert_eq!(cmd.cmd_bit_len, 16);
            assert_eq!(cmd.addr, 0x12);
            assert_eq!(cmd.addr_bit_len, 32);
            assert_eq!(cmd.tx_data, vec![1, 2]);
            assert_eq!(cmd.tx_data_bit_len, 16);
            assert!(cmd.rx_data);
            assert_eq!(cmd.rx_data_bit_len, 16);
            assert_eq!(cmd.dummy_bit_len, 8);
        }
        other => panic!("{:?}", other),
    }
    assert!(matches!(t.step(0), TransactionStep::Load { addr: 0x5008_E034 }));
    assert!(matches!(
        t.step(0x3E),
        TransactionStep::Store { addr: 0x5008_E034, value: 0x3D }
    ));
    assert!(matches!(
        t.step(0),
        TransactionStep::Store { addr: 0x5008_E000, value: 0x4_0000 }
    ));
    assert!(matches!(t.step(0), TransactionStep::Load { addr: 0x5008_E000 }));
    assert!(matches!(t.step(0x4_0000), TransactionStep::Relax));
    assert!(matches!(t.step(0), TransactionStep::Load { addr: 0x5008_E000 }));
    assert!(matches!(t.step(0xFFFB_FFFF), TransactionStep::Load { addr: 0x5008_E058 }));
    match t.step(0x1234_5678) {
        TransactionStep::Done(Ok(c)) => {
            assert_eq!(c.iters, 1);
            assert_eq!(c.miso, vec![0x78, 0x56]);
        }
        other => panic!("{:?}", other),
    }
}

#[test]
fn chip_select_mask_is_written_only_if_it_changes() {
    let mut t = transaction(false, 0, 10);
    for _ in 0..3 {
        t.step(0);
    }
    assert!(matches!(
        t.step(0xFD),
        TransactionStep::Store { addr: 0x5008_E000, value: 0x4_0000 }
    ));
}

#[test]
fn received_bytes_are_little_endian_and_cut() {
    let words = [0x0403_0201, 0x0807_0605, 0x0C0B_0A09];
    for (bitlen, n) in [(1u32, 1usize), (8, 1), (9, 2), (32, 4), (33, 5), (64, 8), (72, 9)] {
        let (result, loads) = drive(transaction(true, bitlen, 1), 1, &[0], &words);
        let c = result.unwrap();
        assert_eq!(c.iters, 0);
        let expected: Vec<u8> = (1..=n as u8).collect();
        assert_eq!(c.miso, expected);
        assert_eq!(loads.len(), 2 + n.div_ceil(4));
        assert_eq!(loads[2], 0x5008_E058);
    }
}

#[test]
fn nothing_is_received_without_a_buffer_or_bits() {
    let (result, loads) = drive(transaction(false, 64, 1), 1, &[0], &[]);
    assert!(result.unwrap().miso.is_empty());
    assert_eq!(loads.len(), 2);
    let (result, _) = drive(transaction(true, 0, 1), 1, &[0], &[]);
    assert!(result.unwrap().miso.is_empty());
}

#[test]
fn transaction_times_out_after_max_iters() {
    let polls = [0x4_0001, 0x4_0002, 0x4_0003, 0];
    let (result, loads) = drive(transaction(true, 8, 3), 1, &polls, &[7]);
    match result {
        Err(TransactionError::Timeout { iters, cmd_reg_value }) => {
            assert_eq!(iters, 3);
            assert_eq!(cmd_reg_value, 0x4_0003);
        }
        other => panic!("{:?}", other),
    }
    assert_eq!(loads.len(), 4);
    let (result, _) = drive(transaction(true, 8, 4), 1, &polls, &[7]);
    let c = result.unwrap();
    assert_eq!(c.iters, 3);
    assert_eq!(c.miso, vec![7]);
}

#[test]
fn at_least_one_poll_is_made() {
    let (result, _) = drive(transaction(true, 8, 0), 1, &[0x4_0000], &[]);
    assert_eq!(
        result.err(),
        Some(TransactionError::Timeout { iters: 1, cmd_reg_value: 0x4_0000 })
    );
    let (result, _) = drive(transaction(true, 8, 0), 1, &[0], &[9]);
    assert_eq!(result.unwrap().miso, vec![9]);
}

#[test]
fn rom_transaction() {
    let t = common_transaction(
        MspiId::Mspi3,
        0xABCD_C0C0,
        16,
        4,
        32,
        0,
        vec![9, 8],
        16,
        true,
        0x80_0028,
        true,
    );
    assert_eq!(t.spi_num, 3);
    assert_eq!(t.mode, 7);
    assert_eq!(t.cmd.cmd, 0xC0C0);
    assert_eq!(t.cmd.tx_data, vec![9, 8]);
    assert_eq!(t.rx_len, 5);
    assert_eq!(t.cs_en_mask, 2);
    assert!(t.is_write_erase);
}

#[test]
fn reading_gives_all_registers() {
    let mut device = Device::new();
    let (mut read, mut t) = read_mode_registers(MspiId::Mspi3);
    let regs = loop {
        match read.advance(device.run(t)) {
            ReadStep::Transact(next) => t = next,
            ReadStep::Done(result) => break result.unwrap(),
        }
    };
    assert_eq!(
        regs,
        ModeRegisters {
            mr0: Mr0(0x89),
            mr1: Mr1(0x8D),
            mr2: Mr2(0xC7),
            mr3: Mr3(0x80),
            mr4: Mr4(0x55),
            mr8: Mr8(0x95),
        }
    );
    assert_eq!(device.log, ["read 0 16", "read 2 16", "read 4 8", "read 8 8"]);
}

#[test]
fn failed_read_names_its_address() {
    for (k, addr) in [0u32, 2, 4, 8].into_iter().enumerate() {
        let mut device = Device::new();
        device.dead = vec![k + 1];
        assert_eq!(
            device.detect(),
            Err(PsramError::TransactionTimeout { addr, iters: 1_000_000, cmd_reg: 0x0004_0052 })
        );
        assert_eq!(device.commands, k + 2);
    }
}

#[test]
fn programming_patches_the_registers() {
    let mut device = Device::new();
    let (mut write, mut t) = write_mode_register_config();
    loop {
        match write.advance(device.run(t)) {
            WriteStep::Transact(next) => t = next,
            WriteStep::Done(result) => {
                assert_eq!(result, Ok(()));
                break;
            }
        }
    }
    assert_eq!(
        device.log,
        ["read 0 16", "read 4 16", "write 0 B08D", "write 4 3566", "read 8 8", "write 8 DB00"]
    );
}

#[test]
fn programming_twice_changes_nothing() {
    let mut device = Device::new();
    device.init().unwrap();
    let after_first = device.mr;
    device.init().unwrap();
    assert_eq!(device.mr, after_first);
}

#[test]
fn failed_programming_names_its_address() {
    for (k, addr) in [0u32, 4, 0, 4, 8, 8].into_iter().enumerate() {
        let mut device = Device::new();
        device.dead = vec![k];
        let (mut write, mut t) = write_mode_register_config();
        let result = loop {
            match write.advance(device.run(t)) {
                WriteStep::Transact(next) => t = next,
                WriteStep::Done(result) => break result,
            }
        };
        assert_eq!(
            result,
            Err(PsramError::TransactionTimeout { addr, iters: 1_000_000, cmd_reg: 0x0004_0052 })
        );
        assert_eq!(device.commands, k + 1);
    }
}

#[test]
fn detection_resets_then_reads() {
    let mut device = Device::new();
    let regs = device.detect().unwrap();
    assert_eq!(regs.mr1.vendor_id(), 0x0D);
    assert_eq!(regs.mr2.kgd(), 6);
    assert_eq!(device.log, ["reset", "read 0 16", "read 2 16", "read 4 8", "read 8 8"]);
    assert_eq!(device.accesses.len(), 18);
}

#[test]
fn detection_refuses_another_vendor() {
    let mut device = Device::new();
    device.mr[1] = 0xE3;
    assert_eq!(
        device.detect(),
        Err(PsramError::ChipDetectionFailed { reported_vendor_id: 3 })
    );
}

#[test]
fn detection_reports_a_failed_reset() {
    let mut device = Device::new();
    device.dead = vec![0];
    assert_eq!(
        device.detect(),
        Err(PsramError::TransactionTimeout {
            addr: 0xFFFF,
            iters: 1_000_000,
            cmd_reg: 0x0004_0052,
        })
    );
    assert_eq!(device.log, ["reset"]);
}

#[test]
fn bring_up_of_a_cold_chip() {
    let mut device = Device::new();
    let regs = device.init().unwrap();
    assert_eq!(
        regs,
        ModeRegisters {
            mr0: Mr0(0xB0),
            mr1: Mr1(0x8D),
            mr2: Mr2(0xC7),
            mr3: Mr3(0x80),
            mr4: Mr4(0x35),
            mr8: Mr8(0xDB),
        }
    );
    assert!(regs.mr8.x16());
    assert_eq!(regs.mr8.bl(), 3);
    assert!(regs.mr0.lt());
    assert_eq!(
        device.log,
        [
            "read 0 16", "read 2 16", "read 4 8", "read 8 8", "read 0 16", "read 4 16",
            "write 0 B08D", "write 4 3566", "read 8 8", "write 8 DB00",
        ]
    );
    assert_eq!(device.accesses.len(), 18 + 20 + 1024 + 1);
    assert_eq!(
        device.accesses.last(),
        Some(&Access::InvalidateCaches { map: 0x20 })
    );
}

#[test]
fn bring_up_passes_over_a_silent_chip() {
    let mut device = Device::new();
    device.dead = (0..20).collect();
    assert_eq!(device.init(), Ok(ModeRegisters::default()));
    assert_eq!(device.log, ["read 0 16", "read 0 16"]);
    assert_eq!(device.accesses.len(), 18 + 20 + 1024 + 1);
}

#[test]
fn bring_up_passes_over_another_vendor() {
    let mut device = Device::new();
    device.mr[1] = 0x02;
    assert_eq!(device.init().unwrap().mr1, Mr1(0x02));
}

#[test]
fn bring_up_reports_what_was_programmed() {
    // The write to address 4, the eighth command, is not taken.
    let mut device = Device::new();
    device.dead = vec![7];
    let regs = device.init().unwrap();
    assert_eq!(regs.mr0, Mr0(0xB0));
    assert_eq!(regs.mr4, Mr4(0x55));
    assert_eq!(regs.mr8, Mr8(0x95));
}

#[test]
fn bring_up_reports_the_vendor_that_programming_read() {
    // The first read of the snapshot fails; all of the programming succeeds.
    let mut device = Device::new();
    device.dead = vec![0];
    assert_eq!(
        device.init(),
        Ok(ModeRegisters {
            mr0: Mr0(0xB0),
            mr1: Mr1(0x8D),
            mr2: Mr2(0),
            mr3: Mr3(0),
            mr4: Mr4(0x35),
            mr8: Mr8(0xDB),
        })
    );
    assert_eq!(
        device.log,
        [
            "read 0 16", "read 0 16", "read 4 16", "write 0 B08D", "write 4 3566", "read 8 8",
            "write 8 DB00",
        ]
    );
}

#[test]
fn bring_up_reports_no_vendor_without_the_first_write() {
    // The snapshot fails, and so does the write to address 0.
    let mut device = Device::new();
    device.dead = vec![0, 3];
    assert_eq!(device.init(), Ok(ModeRegisters::default()));
}

#[test]
fn bring_up_opens_the_window_after_the_last_command() {
    // All commands run between the preparation of the buses and the window.
    let mut device = Device::new();
    device.init().unwrap();
    assert_eq!(device.accesses_before, [18; 10]);

    let mut silent = Device::new();
    silent.dead = (0..20).collect();
    silent.init().unwrap();
    assert_eq!(silent.accesses_before, [18; 2]);
}

#[test]
fn bring_up_maps_512_entries_only() {
    let mut device = Device::new();
    device.init().unwrap();
    let mapping = &device.accesses[38..38 + 1024];
    let mut selected = Vec::new();
    for pair in mapping.chunks(2) {
        match (pair[0], pair[1]) {
            (Access::Store { value: entry, .. }, Access::Store { value: content, .. }) => {
                assert_eq!(content, entry + 0xC00);
                selected.push(entry);
            }
            _ => panic!("not a pair of stores"),
        }
    }
    let expected: Vec<u32> = (0..512).collect();
    assert_eq!(selected, expected);
}
