//! Conversations with the chip: reading its mode registers, programming them,
//! and resetting it.
//!
//! Each conversation is a series of transactions. The constructor gives the
//! first one; `advance` takes the result of the last one and gives the next, or
//! the result of the whole.
use vstd::prelude::*;

use crate::cmd;
use crate::error::PsramError;
use crate::mode_regs::{default_mode_register_config, ModeRegisters, Mr0, Mr1, Mr2, Mr3, Mr4, Mr8};
use crate::mode_regs::{Mr0View, Mr4View, Mr8View};
use crate::mspi::MspiId;
use crate::transaction::{
    try_common_transaction, Completion, Outcome, Request, Transaction, TransactionError,
    TransactionState,
};

verus! {

/// Busy polls after which a command to the chip is given up.
pub const MAX_ITERS: u32 = 1_000_000;

/// Dummy length of a mode register read.
pub const REG_READ_DUMMY: u32 = 8;

/// Command that resets the chip; in an error, also the address of the reset.
pub const GLOBAL_RESET: u32 = 0xFFFF;

/// The transaction that reads `bitlen` bits from the mode register at `addr`.
pub open spec fn mr_read(mspi: MspiId, addr: u32, bitlen: u32) -> TransactionState {
    TransactionState::fresh(
        Request {
            mspi,
            cmd: 0x4040,
            cmd_bitlen: 16,
            addr,
            addr_bitlen: 32,
            dummy_bits: REG_READ_DUMMY,
            mosi_data: seq![],
            mosi_bitlen: 0,
            miso_wanted: true,
            miso_bitlen: bitlen,
        },
        MAX_ITERS,
    )
}

/// The transaction that writes two bytes to the mode register at `addr`.
pub open spec fn mr_write(mspi: MspiId, addr: u32, b0: u8, b1: u8) -> TransactionState {
    TransactionState::fresh(
        Request {
            mspi,
            cmd: 0xC0C0,
            cmd_bitlen: 16,
            addr,
            addr_bitlen: 32,
            dummy_bits: 0,
            mosi_data: seq![b0, b1],
            mosi_bitlen: 16,
            miso_wanted: false,
            miso_bitlen: 0,
        },
        MAX_ITERS,
    )
}

/// The transaction that resets the chip: a command without address, dummy or data.
pub open spec fn reset_command() -> TransactionState {
    TransactionState::fresh(
        Request {
            mspi: MspiId::Mspi3,
            cmd: GLOBAL_RESET,
            cmd_bitlen: 16,
            addr: 0,
            addr_bitlen: 0,
            dummy_bits: 0,
            mosi_data: seq![],
            mosi_bitlen: 0,
            miso_wanted: false,
            miso_bitlen: 0,
        },
        MAX_ITERS,
    )
}

/// The error that a failed transaction at `addr` surfaces as.
pub open spec fn timeout_at(addr: u32, e: TransactionError) -> PsramError {
    match e {
        TransactionError::Timeout { iters, cmd_reg_value } => PsramError::TransactionTimeout {
            addr,
            iters,
            cmd_reg: cmd_reg_value,
        },
    }
}

/// A byte of a receive buffer, which starts out zeroed.
pub open spec fn byte(miso: Seq<u8>, i: int) -> u8 {
    if i < miso.len() {
        miso[i]
    } else {
        0
    }
}

fn map_timeout(addr: u32, e: TransactionError) -> (r: PsramError)
    ensures
        r == timeout_at(addr, e),
{
    match e {
        TransactionError::Timeout { iters, cmd_reg_value } => PsramError::TransactionTimeout {
            addr,
            iters,
            cmd_reg: cmd_reg_value,
        },
    }
}

fn received_byte(miso: &Vec<u8>, i: usize) -> (r: u8)
    ensures
        r == byte(miso@, i as int),
{
    if i < miso.len() {
        miso[i]
    } else {
        0
    }
}

fn register_read(mspi: MspiId, addr: u32, bitlen: u32) -> (t: Transaction)
    requires
        bitlen <= 16,
    ensures
        t@ == mr_read(mspi, addr, bitlen),
        t@.wf(),
{
    try_common_transaction(
        mspi,
        cmd::REG_READ as u32,
        16,
        addr,
        32,
        REG_READ_DUMMY,
        Vec::new(),
        0,
        true,
        bitlen,
        false,
        MAX_ITERS,
    )
}

fn register_write(mspi: MspiId, addr: u32, b0: u8, b1: u8) -> (t: Transaction)
    ensures
        t@ == mr_write(mspi, addr, b0, b1),
        t@.wf(),
{
    let mut data: Vec<u8> = Vec::new();
    data.push(b0);
    data.push(b1);
    assert(data@ == seq![b0, b1]);
    try_common_transaction(
        mspi,
        cmd::REG_WRITE as u32,
        16,
        addr,
        32,
        0,
        data,
        16,
        false,
        0,
        false,
        MAX_ITERS,
    )
}

/// The transaction that resets the chip, so that its mode registers are as after
/// power-on whatever ran before.
pub fn global_reset() -> (t: Transaction)
    ensures
        t@ == reset_command(),
        t@.wf(),
{
    try_common_transaction(
        MspiId::Mspi3,
        GLOBAL_RESET,
        16,
        0,
        0,
        0,
        Vec::new(),
        0,
        false,
        0,
        false,
        MAX_ITERS,
    )
}

/// What the result of the reset transaction means.
pub fn global_reset_result(result: Result<Completion, TransactionError>) -> (r: Result<
    (),
    PsramError,
>)
    ensures
        r == match crate::transaction::outcome(result) {
            Outcome::Completed { .. } => Ok::<(), PsramError>(()),
            Outcome::Failed(e) => Err(timeout_at(GLOBAL_RESET, e)),
        },
{
    match result {
        Ok(_) => Ok(()),
        Err(e) => Err(map_timeout(GLOBAL_RESET, e)),
    }
}

/// Address of the `k`-th mode register read: 0, 2, 4, 8.
pub open spec fn read_addr(k: int) -> u32 {
    if k == 0 {
        0
    } else if k == 1 {
        2
    } else if k == 2 {
        4
    } else {
        8
    }
}

/// Length in bits of the `k`-th mode register read: two registers, two
/// registers, one, one.
pub open spec fn read_bitlen(k: int) -> u32 {
    if k < 2 {
        16
    } else {
        8
    }
}

/// The snapshot with the bytes of the `k`-th read filled in.
pub open spec fn fill_in(regs: ModeRegisters, k: int, miso: Seq<u8>) -> ModeRegisters {
    if k == 0 {
        ModeRegisters { mr0: Mr0(byte(miso, 0)), mr1: Mr1(byte(miso, 1)), ..regs }
    } else if k == 1 {
        ModeRegisters { mr2: Mr2(byte(miso, 0)), mr3: Mr3(byte(miso, 1)), ..regs }
    } else if k == 2 {
        ModeRegisters { mr4: Mr4(byte(miso, 0)), ..regs }
    } else {
        ModeRegisters { mr8: Mr8(byte(miso, 0)), ..regs }
    }
}

/// A mode register read in progress.
#[derive(Debug)]
pub struct ModeRegisterRead {
    mspi: MspiId,
    pending: u8,
    regs: ModeRegisters,
}

/// State of a [`ModeRegisterRead`].
pub struct ReadState {
    pub mspi: MspiId,
    /// The read whose result is awaited; 4 when there is none.
    pub pending: int,
    /// The registers read so far; the others are zero.
    pub regs: ModeRegisters,
}

/// Next step of a mode register read.
#[derive(Debug)]
pub enum ReadStep {
    Transact(Transaction),
    Done(Result<ModeRegisters, PsramError>),
}

/// Contents of a [`ReadStep`].
#[verifier::ext_equal]
pub enum ReadMove {
    Transact(TransactionState),
    Done(Result<ModeRegisters, PsramError>),
}

impl View for ReadStep {
    type V = ReadMove;

    open spec fn view(&self) -> ReadMove {
        match *self {
            ReadStep::Transact(t) => ReadMove::Transact(t@),
            ReadStep::Done(r) => ReadMove::Done(r),
        }
    }
}

impl View for ModeRegisterRead {
    type V = ReadState;

    closed spec fn view(&self) -> ReadState {
        ReadState { mspi: self.mspi, pending: self.pending as int, regs: self.regs }
    }
}

impl ReadState {
    pub open spec fn start(mspi: MspiId) -> ReadState {
        ReadState { mspi, pending: 0, regs: ModeRegisters::zero() }
    }

    pub open spec fn finished(self) -> bool {
        self.pending >= 4
    }

    /// What follows when the pending read ends in `outcome`.
    pub open spec fn next(self, outcome: Outcome) -> (ReadState, ReadMove) {
        match outcome {
            Outcome::Completed { miso, .. } => {
                let regs = fill_in(self.regs, self.pending, miso);
                let after = ReadState { pending: self.pending + 1, regs, ..self };
                if self.pending < 3 {
                    (
                        after,
                        ReadMove::Transact(
                            mr_read(
                                self.mspi,
                                read_addr(self.pending + 1),
                                read_bitlen(self.pending + 1),
                            ),
                        ),
                    )
                } else {
                    (after, ReadMove::Done(Ok(regs)))
                }
            },
            Outcome::Failed(e) => (
                ReadState { pending: 4, ..self },
                ReadMove::Done(Err(timeout_at(read_addr(self.pending), e))),
            ),
        }
    }
}

fn nth_read(mspi: MspiId, k: u8) -> (t: Transaction)
    requires
        k < 4,
    ensures
        t@ == mr_read(mspi, read_addr(k as int), read_bitlen(k as int)),
        t@.wf(),
{
    if k == 0 {
        register_read(mspi, 0x0, 16)
    } else if k == 1 {
        register_read(mspi, 0x2, 16)
    } else if k == 2 {
        register_read(mspi, 0x4, 8)
    } else {
        register_read(mspi, 0x8, 8)
    }
}

/// Reads all mode registers: the conversation and its first transaction.
pub fn read_mode_registers(mspi: MspiId) -> (r: (ModeRegisterRead, Transaction))
    ensures
        r.0@ == ReadState::start(mspi),
        r.1@ == mr_read(mspi, read_addr(0), read_bitlen(0)),
        r.1@.wf(),
{
    (ModeRegisterRead { mspi, pending: 0, regs: ModeRegisters::default() }, nth_read(mspi, 0))
}

impl ModeRegisterRead {
    /// Takes the result of the pending transaction.
    pub fn advance(&mut self, result: Result<Completion, TransactionError>) -> (r: ReadStep)
        requires
            !old(self)@.finished(),
        ensures
            final(self)@ == old(self)@.next(crate::transaction::outcome(result)).0,
            r@ == old(self)@.next(crate::transaction::outcome(result)).1,
            r is Done <==> final(self)@.finished(),
            r matches ReadStep::Transact(t) ==> t@.wf(),
            old(self)@.pending < final(self)@.pending,
    {
        match result {
            Ok(c) => {
                if self.pending == 0 {
                    self.regs.mr0 = Mr0(received_byte(&c.miso, 0));
                    self.regs.mr1 = Mr1(received_byte(&c.miso, 1));
                } else if self.pending == 1 {
                    self.regs.mr2 = Mr2(received_byte(&c.miso, 0));
                    self.regs.mr3 = Mr3(received_byte(&c.miso, 1));
                } else if self.pending == 2 {
                    self.regs.mr4 = Mr4(received_byte(&c.miso, 0));
                } else {
                    self.regs.mr8 = Mr8(received_byte(&c.miso, 0));
                }
                self.pending = self.pending + 1;
                if self.pending < 4 {
                    ReadStep::Transact(nth_read(self.mspi, self.pending))
                } else {
                    ReadStep::Done(Ok(self.regs))
                }
            },
            Err(e) => {
                let addr: u32 = if self.pending == 0 {
                    0x0
                } else if self.pending == 1 {
                    0x2
                } else if self.pending == 2 {
                    0x4
                } else {
                    0x8
                };
                self.pending = 4;
                ReadStep::Done(Err(map_timeout(addr, e)))
            },
        }
    }
}

/// `MR0` with drive strength, read latency and latency type of the default
/// configuration; bits 6 and 7 are kept.
pub open spec fn patched_mr0(chip: Mr0) -> Mr0 {
    Mr0((0x30 + 64 * (chip.0 / 64)) as u8)
}

/// `MR4` with the write latency of the default configuration; bits 0 to 4 are kept.
pub open spec fn patched_mr4(chip: Mr4) -> Mr4 {
    Mr4((0x20 + chip.0 % 32) as u8)
}

/// `MR8` with burst length, burst type, RBX and data width of the default
/// configuration; bits 4, 5 and 7 are kept.
pub open spec fn patched_mr8(chip: Mr8) -> Mr8 {
    Mr8((0x4B + 16 * ((chip.0 / 16) % 4) + 128 * (chip.0 / 128)) as u8)
}

/// Patching puts the fields of the default configuration in place and keeps all
/// other bits of the register.
pub proof fn law_patch_fields(mr0: Mr0, mr4: Mr4, mr8: Mr8)
    ensures
        patched_mr0(mr0)@ == (Mr0View {
            drive_str: crate::mode_regs::default_config().mr0@.drive_str,
            read_latency: crate::mode_regs::default_config().mr0@.read_latency,
            lt: crate::mode_regs::default_config().mr0@.lt,
            ..mr0@
        }),
        patched_mr4(mr4)@ == (Mr4View {
            wr_latency: crate::mode_regs::default_config().mr4@.wr_latency,
            ..mr4@
        }),
        patched_mr8(mr8)@ == (Mr8View {
            bl: crate::mode_regs::default_config().mr8@.bl,
            bt: crate::mode_regs::default_config().mr8@.bt,
            rbx: crate::mode_regs::default_config().mr8@.rbx,
            x16: crate::mode_regs::default_config().mr8@.x16,
            ..mr8@
        }),
{
}

/// Programming a chip that is already programmed changes nothing.
pub proof fn law_patch_idempotent(mr0: Mr0, mr4: Mr4, mr8: Mr8)
    ensures
        patched_mr0(patched_mr0(mr0)) == patched_mr0(mr0),
        patched_mr4(patched_mr4(mr4)) == patched_mr4(mr4),
        patched_mr8(patched_mr8(mr8)) == patched_mr8(mr8),
{
}

fn patch_mr0(chip: Mr0, cfg: &ModeRegisters) -> (r: Mr0)
    requires
        *cfg == crate::mode_regs::default_config(),
    ensures
        r == patched_mr0(chip),
{
    let r = chip.with_drive_str(cfg.mr0.drive_str()).with_read_latency(
        cfg.mr0.read_latency(),
    ).with_lt(cfg.mr0.lt());
    proof {
        law_patch_fields(chip, Mr4(0), Mr8(0));
        crate::mode_regs::law_mr0_view_determines_byte(r, patched_mr0(chip));
    }
    r
}

fn patch_mr4(chip: Mr4, cfg: &ModeRegisters) -> (r: Mr4)
    requires
        *cfg == crate::mode_regs::default_config(),
    ensures
        r == patched_mr4(chip),
{
    let r = chip.with_wr_latency(cfg.mr4.wr_latency());
    proof {
        law_patch_fields(Mr0(0), chip, Mr8(0));
        crate::mode_regs::law_mr4_view_determines_byte(r, patched_mr4(chip));
    }
    r
}

fn patch_mr8(chip: Mr8, cfg: &ModeRegisters) -> (r: Mr8)
    requires
        *cfg == crate::mode_regs::default_config(),
    ensures
        r == patched_mr8(chip),
{
    let r = chip.with_bl(cfg.mr8.bl()).with_bt(cfg.mr8.bt()).with_rbx(cfg.mr8.rbx()).with_x16(
        cfg.mr8.x16(),
    );
    proof {
        law_patch_fields(Mr0(0), Mr4(0), chip);
        crate::mode_regs::law_mr8_view_determines_byte(r, patched_mr8(chip));
    }
    r
}

/// Programming of the mode registers in progress.
#[derive(Debug)]
pub struct ModeRegisterWrite {
    cfg: ModeRegisters,
    pending: u8,
    mr0: u8,
    mr1: u8,
    mr4: u8,
    mr4_next: u8,
    mr8: u8,
    failed: bool,
}

/// State of a [`ModeRegisterWrite`].
pub struct WriteState {
    /// Number of transactions that succeeded, and so also the one whose result
    /// is awaited.
    pub pending: int,
    /// The bytes read at address 0.
    pub mr0: u8,
    pub mr1: u8,
    /// The bytes read at address 4.
    pub mr4: u8,
    pub mr4_next: u8,
    /// The byte read at address 8.
    pub mr8: u8,
    /// Whether a transaction failed.
    pub failed: bool,
}

/// Next step of the programming.
#[derive(Debug)]
pub enum WriteStep {
    Transact(Transaction),
    Done(Result<(), PsramError>),
}

/// Contents of a [`WriteStep`].
#[verifier::ext_equal]
pub enum WriteMove {
    Transact(TransactionState),
    Done(Result<(), PsramError>),
}

impl View for WriteStep {
    type V = WriteMove;

    open spec fn view(&self) -> WriteMove {
        match *self {
            WriteStep::Transact(t) => WriteMove::Transact(t@),
            WriteStep::Done(r) => WriteMove::Done(r),
        }
    }
}

impl View for ModeRegisterWrite {
    type V = WriteState;

    closed spec fn view(&self) -> WriteState {
        WriteState {
            pending: self.pending as int,
            mr0: self.mr0,
            mr1: self.mr1,
            mr4: self.mr4,
            mr4_next: self.mr4_next,
            mr8: self.mr8,
            failed: self.failed,
        }
    }
}

/// Address of the `k`-th transaction of the programming: read 0, read 4, write
/// 0, write 4, read 8, write 8.
pub open spec fn write_addr(k: int) -> u32 {
    if k == 0 || k == 2 {
        0
    } else if k == 1 || k == 3 {
        4
    } else {
        8
    }
}

impl WriteState {
    pub open spec fn start() -> WriteState {
        WriteState { pending: 0, mr0: 0, mr1: 0, mr4: 0, mr4_next: 0, mr8: 0, failed: false }
    }

    pub open spec fn finished(self) -> bool {
        self.pending >= 6 || self.failed
    }

    /// The snapshot `regs`, with each register that was written as it was written:
    /// `MR0` and `MR1` once three transactions succeeded, `MR4` once four did,
    /// `MR8` once all six did.
    pub open spec fn programmed(self, regs: ModeRegisters) -> ModeRegisters {
        ModeRegisters {
            mr0: if self.pending >= 3 {
                patched_mr0(Mr0(self.mr0))
            } else {
                regs.mr0
            },
            mr1: if self.pending >= 3 {
                Mr1(self.mr1)
            } else {
                regs.mr1
            },
            mr4: if self.pending >= 4 {
                patched_mr4(Mr4(self.mr4))
            } else {
                regs.mr4
            },
            mr8: if self.pending >= 6 {
                patched_mr8(Mr8(self.mr8))
            } else {
                regs.mr8
            },
            ..regs
        }
    }

    /// What follows when the pending transaction ends in `outcome`. The byte that
    /// was read next to a patched register is written back as it was.
    pub open spec fn next(self, outcome: Outcome) -> (WriteState, WriteMove) {
        match outcome {
            Outcome::Completed { miso, .. } => {
                let after = WriteState { pending: self.pending + 1, ..self };
                let b0 = byte(miso, 0);
                let b1 = byte(miso, 1);
                if self.pending == 0 {
                    (
                        WriteState { mr0: b0, mr1: b1, ..after },
                        WriteMove::Transact(mr_read(MspiId::Mspi3, 4, 16)),
                    )
                } else if self.pending == 1 {
                    (
                        WriteState { mr4: b0, mr4_next: b1, ..after },
                        WriteMove::Transact(
                            mr_write(MspiId::Mspi3, 0, patched_mr0(Mr0(self.mr0)).0, self.mr1),
                        ),
                    )
                } else if self.pending == 2 {
                    (
                        after,
                        WriteMove::Transact(
                            mr_write(MspiId::Mspi3, 4, patched_mr4(Mr4(self.mr4)).0, self.mr4_next),
                        ),
                    )
                } else if self.pending == 3 {
                    (after, WriteMove::Transact(mr_read(MspiId::Mspi3, 8, 8)))
                } else if self.pending == 4 {
                    (
                        WriteState { mr8: b0, ..after },
                        WriteMove::Transact(
                            mr_write(MspiId::Mspi3, 8, patched_mr8(Mr8(b0)).0, 0),
                        ),
                    )
                } else {
                    (after, WriteMove::Done(Ok(())))
                }
            },
            Outcome::Failed(e) => (
                WriteState { failed: true, ..self },
                WriteMove::Done(Err(timeout_at(write_addr(self.pending), e))),
            ),
        }
    }
}

/// Programs the default configuration into the chip: the conversation and its
/// first transaction.
pub fn write_mode_register_config() -> (r: (ModeRegisterWrite, Transaction))
    ensures
        r.0@ == WriteState::start(),
        r.0.wf(),
        r.1@ == mr_read(MspiId::Mspi3, 0, 16),
        r.1@.wf(),
{
    let cfg = default_mode_register_config();
    (
        ModeRegisterWrite {
            cfg,
            pending: 0,
            mr0: 0,
            mr1: 0,
            mr4: 0,
            mr4_next: 0,
            mr8: 0,
            failed: false,
        },
        register_read(MspiId::Mspi3, 0x0, 16),
    )
}

impl ModeRegisterWrite {
    /// The configuration to program is the default one.
    pub closed spec fn wf(self) -> bool {
        self.cfg == crate::mode_regs::default_config()
    }

    /// See [`WriteState::programmed`].
    pub fn programmed(&self, regs: ModeRegisters) -> (r: ModeRegisters)
        requires
            self.wf(),
        ensures
            r == self@.programmed(regs),
    {
        let mut r = regs;
        if self.pending >= 3 {
            r.mr0 = patch_mr0(Mr0(self.mr0), &self.cfg);
            r.mr1 = Mr1(self.mr1);
        }
        if self.pending >= 4 {
            r.mr4 = patch_mr4(Mr4(self.mr4), &self.cfg);
        }
        if self.pending >= 6 {
            r.mr8 = patch_mr8(Mr8(self.mr8), &self.cfg);
        }
        r
    }

    /// Takes the result of the pending transaction.
    pub fn advance(&mut self, result: Result<Completion, TransactionError>) -> (r: WriteStep)
        requires
            old(self).wf(),
            !old(self)@.finished(),
        ensures
            final(self).wf(),
            final(self)@ == old(self)@.next(crate::transaction::outcome(result)).0,
            r@ == old(self)@.next(crate::transaction::outcome(result)).1,
            r is Done <==> final(self)@.finished(),
            r matches WriteStep::Transact(t) ==> t@.wf(),
    {
        let mspi = MspiId::Mspi3;
        match result {
            Ok(c) => {
                let k: u8 = self.pending;
                self.pending = k + 1;
                if k == 0 {
                    self.mr0 = received_byte(&c.miso, 0);
                    self.mr1 = received_byte(&c.miso, 1);
                    WriteStep::Transact(register_read(mspi, 0x4, 16))
                } else if k == 1 {
                    self.mr4 = received_byte(&c.miso, 0);
                    self.mr4_next = received_byte(&c.miso, 1);
                    let mr0 = patch_mr0(Mr0(self.mr0), &self.cfg);
                    WriteStep::Transact(register_write(mspi, 0x0, mr0.0, self.mr1))
                } else if k == 2 {
                    let mr4 = patch_mr4(Mr4(self.mr4), &self.cfg);
                    WriteStep::Transact(register_write(mspi, 0x4, mr4.0, self.mr4_next))
                } else if k == 3 {
                    WriteStep::Transact(register_read(mspi, 0x8, 8))
                } else if k == 4 {
                    self.mr8 = received_byte(&c.miso, 0);
                    let mr8 = patch_mr8(Mr8(self.mr8), &self.cfg);
                    WriteStep::Transact(register_write(mspi, 0x8, mr8.0, 0))
                } else {
                    WriteStep::Done(Ok(()))
                }
            },
            Err(e) => {
                let addr: u32 = if self.pending == 0 || self.pending == 2 {
                    0x0
                } else if self.pending == 1 || self.pending == 3 {
                    0x4
                } else {
                    0x8
                };
                self.failed = true;
                WriteStep::Done(Err(map_timeout(addr, e)))
            },
        }
    }
}

/// `t` is a fresh transaction that asks controller `mspi` for `bits` bits of the mode
/// registers from `addr` on: a sixteen-bit command 0x4040 and a 32-bit address, then
/// eight dummy bits; nothing is sent. It gives up after a million busy polls.
pub open spec fn asks_for(t: TransactionState, mspi: MspiId, addr: int, bits: int) -> bool {
    &&& t.request.mspi == mspi
    &&& t.request.cmd == 0x4040
    &&& t.request.cmd_bitlen == 16
    &&& t.request.addr == addr
    &&& t.request.addr_bitlen == 32
    &&& t.request.dummy_bits == 8
    &&& t.request.mosi_data.len() == 0
    &&& t.request.mosi_bitlen == 0
    &&& t.request.miso_wanted
    &&& t.request.miso_bitlen == bits
    &&& t.max_iters == 1_000_000
    &&& t.phase == crate::transaction::Phase::Fresh
    &&& t.iters == 0
    &&& t.word == 0
    &&& t.miso.len() == 0
}

/// `t` is a fresh transaction that sends sixteen bits, made up of the two bytes `b0`
/// and `b1`, to the mode registers from `addr` on, through the command-side
/// controller: a sixteen-bit command 0xC0C0 and a 32-bit address, no dummy bits;
/// nothing is received. It gives up after a million busy polls.
pub open spec fn sends(t: TransactionState, addr: int, b0: u8, b1: u8) -> bool {
    &&& t.request.mspi == MspiId::Mspi3
    &&& t.request.cmd == 0xC0C0
    &&& t.request.cmd_bitlen == 16
    &&& t.request.addr == addr
    &&& t.request.addr_bitlen == 32
    &&& t.request.dummy_bits == 0
    &&& t.request.mosi_data.len() == 2
    &&& t.request.mosi_data[0] == b0
    &&& t.request.mosi_data[1] == b1
    &&& t.request.mosi_bitlen == 16
    &&& !t.request.miso_wanted
    &&& t.request.miso_bitlen == 0
    &&& t.max_iters == 1_000_000
    &&& t.phase == crate::transaction::Phase::Fresh
    &&& t.iters == 0
    &&& t.word == 0
    &&& t.miso.len() == 0
}

/// A register read asks for what it is made for, and a register write sends the two
/// bytes that it is given, whatever they are.
pub proof fn law_register_requests(mspi: MspiId, addr: u32, bits: u32, b0: u8, b1: u8)
    ensures
        asks_for(mr_read(mspi, addr, bits), mspi, addr as int, bits as int),
        sends(mr_write(MspiId::Mspi3, addr, b0, b1), addr as int, b0, b1),
        mr_write(mspi, addr, b0, b1).request.mspi == mspi,
        mr_write(mspi, addr, b0, b1).request.mosi_data == seq![b0, b1],
{
}

/// The reset is the command 0xFFFF alone, sixteen bits on the command-side
/// controller: no address, no dummy bits, no data in either direction.
pub proof fn law_reset_request()
    ensures
        reset_command().request.mspi == MspiId::Mspi3,
        reset_command().request.cmd == 0xFFFF,
        reset_command().request.cmd_bitlen == 16,
        reset_command().request.addr == 0,
        reset_command().request.addr_bitlen == 0,
        reset_command().request.dummy_bits == 0,
        reset_command().request.mosi_data.len() == 0,
        reset_command().request.mosi_bitlen == 0,
        !reset_command().request.miso_wanted,
        reset_command().request.miso_bitlen == 0,
        reset_command().max_iters == 1_000_000,
        reset_command().phase == crate::transaction::Phase::Fresh,
        reset_command().iters == 0,
        reset_command().word == 0,
        reset_command().miso.len() == 0,
{
}

/// A timeout surfaces with the address of its command, and with the count and the
/// command register that the transaction gave.
pub proof fn law_timeout(addr: u32, iters: u32, cmd_reg: u32)
    ensures
        timeout_at(addr, TransactionError::Timeout { iters, cmd_reg_value: cmd_reg }) == (
        PsramError::TransactionTimeout { addr, iters, cmd_reg }),
{
}

/// A conversation step is viewed as what it holds.
pub proof fn law_conversation_views(read: ReadStep, write: WriteStep)
    ensures
        match read {
            ReadStep::Transact(t) => read@ == ReadMove::Transact(t@),
            ReadStep::Done(r) => read@ == ReadMove::Done(r),
        },
        match write {
            WriteStep::Transact(t) => write@ == WriteMove::Transact(t@),
            WriteStep::Done(r) => write@ == WriteMove::Done(r),
        },
{
}

/// What a read of the snapshot leads to. The reads ask for 16 bits at 0, 16 bits at
/// 2, 8 bits at 4 and 8 bits at 8. The bytes received are the registers `MR0` and
/// `MR1`, `MR2` and `MR3`, `MR4`, `MR8`, unchanged (a byte that did not arrive is 0);
/// the other registers stay as they were. After the last read the snapshot is given;
/// a read that fails ends the conversation with its address.
pub proof fn law_read_step(state: ReadState, outcome: Outcome)
    requires
        0 <= state.pending < 4,
    ensures
        ({
            let at = |miso: Seq<u8>, i: int|
                if i < miso.len() {
                    miso[i]
                } else {
                    0u8
                };
            let (after, step) = state.next(outcome);
            match outcome {
                Outcome::Completed { miso, .. } => {
                    &&& after.mspi == state.mspi
                    &&& after.pending == state.pending + 1
                    &&& after.regs.mr0 == if state.pending == 0 {
                        Mr0(at(miso, 0))
                    } else {
                        state.regs.mr0
                    }
                    &&& after.regs.mr1 == if state.pending == 0 {
                        Mr1(at(miso, 1))
                    } else {
                        state.regs.mr1
                    }
                    &&& after.regs.mr2 == if state.pending == 1 {
                        Mr2(at(miso, 0))
                    } else {
                        state.regs.mr2
                    }
                    &&& after.regs.mr3 == if state.pending == 1 {
                        Mr3(at(miso, 1))
                    } else {
                        state.regs.mr3
                    }
                    &&& after.regs.mr4 == if state.pending == 2 {
                        Mr4(at(miso, 0))
                    } else {
                        state.regs.mr4
                    }
                    &&& after.regs.mr8 == if state.pending == 3 {
                        Mr8(at(miso, 0))
                    } else {
                        state.regs.mr8
                    }
                    &&& match step {
                        ReadMove::Transact(t) => {
                            ||| state.pending == 0 && asks_for(t, state.mspi, 2, 16)
                            ||| state.pending == 1 && asks_for(t, state.mspi, 4, 8)
                            ||| state.pending == 2 && asks_for(t, state.mspi, 8, 8)
                        },
                        ReadMove::Done(r) => state.pending == 3 && r == Ok::<
                            ModeRegisters,
                            PsramError,
                        >(after.regs),
                    }
                },
                Outcome::Failed(TransactionError::Timeout { iters, cmd_reg_value }) => {
                    &&& after.finished()
                    &&& step matches ReadMove::Done(
                        Err(PsramError::TransactionTimeout { addr, iters: n, cmd_reg }),
                    )
                    &&& addr == if state.pending == 3 {
                        8
                    } else {
                        2 * state.pending
                    }
                    &&& n == iters
                    &&& cmd_reg == cmd_reg_value
                },
            }
        }),
{
}

/// The snapshot starts with nothing read, at the first register.
pub proof fn law_read_starts(mspi: MspiId)
    ensures
        ReadState::start(mspi).mspi == mspi,
        ReadState::start(mspi).pending == 0,
        ReadState::start(mspi).regs == (ModeRegisters {
            mr0: Mr0(0),
            mr1: Mr1(0),
            mr2: Mr2(0),
            mr3: Mr3(0),
            mr4: Mr4(0),
            mr8: Mr8(0),
        }),
        asks_for(mr_read(mspi, read_addr(0), read_bitlen(0)), mspi, 0, 16),
{
}

/// What a transaction of the programming leads to. The bytes at 0 and at 4 are read
/// in pairs and kept as received. Then each pair is sent back: the first byte with
/// drive strength 0, read latency 4 and fixed latency type (`MR0`), or with write
/// latency 1 (`MR4`), and its other bits as received; the second byte as received.
/// Last, `MR8` is read and sent back with burst length 3, wrapping, RBX and sixteen
/// lanes, its unnamed bits as received, and a zero byte after it. A transaction that
/// fails ends the programming with its address.
pub proof fn law_write_step(state: WriteState, outcome: Outcome)
    requires
        0 <= state.pending < 6,
        !state.failed,
    ensures
        ({
            let at = |miso: Seq<u8>, i: int|
                if i < miso.len() {
                    miso[i]
                } else {
                    0u8
                };
            let (after, step) = state.next(outcome);
            match outcome {
                Outcome::Completed { miso, .. } => {
                    &&& after.pending == state.pending + 1
                    &&& !after.failed
                    &&& after.mr0 == if state.pending == 0 {
                        at(miso, 0)
                    } else {
                        state.mr0
                    }
                    &&& after.mr1 == if state.pending == 0 {
                        at(miso, 1)
                    } else {
                        state.mr1
                    }
                    &&& after.mr4 == if state.pending == 1 {
                        at(miso, 0)
                    } else {
                        state.mr4
                    }
                    &&& after.mr4_next == if state.pending == 1 {
                        at(miso, 1)
                    } else {
                        state.mr4_next
                    }
                    &&& after.mr8 == if state.pending == 4 {
                        at(miso, 0)
                    } else {
                        state.mr8
                    }
                    &&& match step {
                        WriteMove::Transact(t) => {
                            let b0 = t.request.mosi_data[0];
                            let b1 = t.request.mosi_data[1];
                            ||| state.pending == 0 && asks_for(t, MspiId::Mspi3, 4, 16)
                            ||| state.pending == 1 && sends(t, 0, b0, b1) && b0 % 4 == 0 && (b0 / 4)
                                % 8 == 4 && (b0 / 32) % 2 == 1 && b0 / 64 == after.mr0 / 64 && b1
                                == after.mr1
                            ||| state.pending == 2 && sends(t, 4, b0, b1) && b0 / 32 == 1 && b0 % 32
                                == after.mr4 % 32 && b1 == after.mr4_next
                            ||| state.pending == 3 && asks_for(t, MspiId::Mspi3, 8, 8)
                            ||| state.pending == 4 && sends(t, 8, b0, b1) && b0 % 4 == 3 && (b0 / 4)
                                % 2 == 0 && (b0 / 8) % 2 == 1 && (b0 / 16) % 4 == (after.mr8 / 16)
                                % 4 && (b0 / 64) % 2 == 1 && b0 / 128 == after.mr8 / 128 && b1 == 0
                        },
                        WriteMove::Done(r) => state.pending == 5 && r == Ok::<(), PsramError>(()),
                    }
                },
                Outcome::Failed(TransactionError::Timeout { iters, cmd_reg_value }) => {
                    &&& after == (WriteState { failed: true, ..state })
                    &&& step matches WriteMove::Done(
                        Err(PsramError::TransactionTimeout { addr, iters: n, cmd_reg }),
                    )
                    &&& addr == if state.pending >= 4 {
                        8
                    } else {
                        4 * (state.pending % 2)
                    }
                    &&& n == iters
                    &&& cmd_reg == cmd_reg_value
                },
            }
        }),
{
}

/// The programming starts with nothing read, by asking for the pair at 0.
pub proof fn law_write_starts()
    ensures
        WriteState::start().pending == 0,
        !WriteState::start().failed,
        asks_for(mr_read(MspiId::Mspi3, 0, 16), MspiId::Mspi3, 0, 16),
{
}

/// The registers after the programming. `MR2` and `MR3` are never programmed and
/// stay as they were read; so do the others until the transaction that writes them
/// has succeeded.
pub proof fn law_programmed(state: WriteState, regs: ModeRegisters)
    ensures
        state.programmed(regs).mr2 == regs.mr2,
        state.programmed(regs).mr3 == regs.mr3,
        state.pending < 3 ==> state.programmed(regs).mr0 == regs.mr0 && state.programmed(regs).mr1
            == regs.mr1,
        state.pending < 4 ==> state.programmed(regs).mr4 == regs.mr4,
        state.pending < 6 ==> state.programmed(regs).mr8 == regs.mr8,
        state.pending >= 3 ==> {
            let b = state.programmed(regs).mr0.0;
            b % 64 == 0x30 && b / 64 == state.mr0 / 64
        },
        state.pending >= 3 ==> state.programmed(regs).mr1.0 == state.mr1,
        state.pending >= 4 ==> {
            let b = state.programmed(regs).mr4.0;
            b / 32 == 1 && b % 32 == state.mr4 % 32
        },
        state.pending >= 6 ==> {
            let b = state.programmed(regs).mr8.0;
            b % 16 == 0x0B && (b / 16) % 4 == (state.mr8 / 16) % 4 && (b / 64) % 2 == 1 && b / 128
                == state.mr8 / 128
        },
{
}

/// What is reported is what was sent: when the chip has taken a write, the two
/// registers that were written, or the one, are reported as the bytes of that write.
pub proof fn law_reports_what_was_sent(state: WriteState, read: Outcome, write: Outcome, regs: ModeRegisters)
    requires
        0 <= state.pending < 6,
        !state.failed,
        write is Completed,
        state.next(read).1 matches WriteMove::Transact(t) && t.request.cmd == 0xC0C0,
    ensures
        ({
            let (waiting, step) = state.next(read);
            let sent = step->Transact_0.request;
            let reported = waiting.next(write).0.programmed(regs);
            &&& sent.addr == 0 ==> reported.mr0.0 == sent.mosi_data[0] && reported.mr1.0
                == sent.mosi_data[1]
            &&& sent.addr == 4 ==> reported.mr4.0 == sent.mosi_data[0]
            &&& sent.addr == 8 ==> reported.mr8.0 == sent.mosi_data[0]
            &&& sent.addr == 0 || sent.addr == 4 || sent.addr == 8
        }),
{
}

} // verus!
