//! Transactions on the SPI command engine.
//!
//! A transaction is a sequence of steps. Each call of [`Transaction::step`]
//! takes the word that the previous step read, and gives the next step for the
//! caller to perform. The engine is polled a bounded number of times, so a chip
//! that does not answer ends in an error.
use vstd::prelude::*;

use crate::mspi::MspiId;
use crate::regs::{FIFO_MAX_BYTES, SPIMEM2_BASE, SPIMEM3_BASE};

verus! {

/// Operating mode of the command engine.
#[derive(Debug, Clone, Copy, PartialEq, Eq, Structural)]
pub enum SpiFlashReadMode {
    /// Octal, double transfer rate.
    OpiDtrMode,
}

impl SpiFlashReadMode {
    /// Number by which the boot ROM knows the mode.
    #[verifier::allow_in_spec]
    pub fn code(self) -> u32
        returns
            7u32,
    {
        match self {
            SpiFlashReadMode::OpiDtrMode => 7,
        }
    }
}

/// Command descriptor of the boot ROM.
#[derive(Debug)]
pub struct EspRomSpiCmd {
    pub cmd: u16,
    pub cmd_bit_len: u16,
    pub addr: u32,
    pub addr_bit_len: u32,
    /// Bytes to send; empty where the command sends none.
    pub tx_data: Vec<u8>,
    pub tx_data_bit_len: u32,
    /// Whether there is a buffer for received bytes.
    pub rx_data: bool,
    pub rx_data_bit_len: u32,
    pub dummy_bit_len: u32,
}

/// Contents of an [`EspRomSpiCmd`].
#[verifier::ext_equal]
pub struct RomCommand {
    pub cmd: u16,
    pub cmd_bit_len: u16,
    pub addr: u32,
    pub addr_bit_len: u32,
    pub tx_data: Seq<u8>,
    pub tx_data_bit_len: u32,
    pub rx_data: bool,
    pub rx_data_bit_len: u32,
    pub dummy_bit_len: u32,
}

impl View for EspRomSpiCmd {
    type V = RomCommand;

    open spec fn view(&self) -> RomCommand {
        RomCommand {
            cmd: self.cmd,
            cmd_bit_len: self.cmd_bit_len,
            addr: self.addr,
            addr_bit_len: self.addr_bit_len,
            tx_data: self.tx_data@,
            tx_data_bit_len: self.tx_data_bit_len,
            rx_data: self.rx_data,
            rx_data_bit_len: self.rx_data_bit_len,
            dummy_bit_len: self.dummy_bit_len,
        }
    }
}

/// What a transaction sends and expects.
#[verifier::ext_equal]
pub struct Request {
    pub mspi: MspiId,
    pub cmd: u32,
    pub cmd_bitlen: u32,
    pub addr: u32,
    pub addr_bitlen: u32,
    pub dummy_bits: u32,
    pub mosi_data: Seq<u8>,
    pub mosi_bitlen: u32,
    pub miso_wanted: bool,
    pub miso_bitlen: u32,
}

impl Request {
    /// The descriptor that configures the engine. The ROM takes the command and
    /// its length as 16-bit numbers.
    pub open spec fn rom_command(self) -> RomCommand {
        RomCommand {
            cmd: (self.cmd % 65536) as u16,
            cmd_bit_len: (self.cmd_bitlen % 65536) as u16,
            addr: self.addr,
            addr_bit_len: self.addr_bitlen,
            tx_data: self.mosi_data,
            tx_data_bit_len: self.mosi_bitlen,
            rx_data: self.miso_wanted,
            rx_data_bit_len: self.miso_bitlen,
            dummy_bit_len: self.dummy_bits,
        }
    }

    /// Number of bytes to receive.
    pub open spec fn miso_bytes(self) -> nat {
        if self.miso_wanted {
            ((self.miso_bitlen + 7) / 8) as nat
        } else {
            0
        }
    }

    /// Number of data words that hold the bytes to receive.
    pub open spec fn miso_words(self) -> nat {
        (self.miso_bytes() + 3) / 4
    }
}

/// Base of the register bank of a controller.
pub open spec fn bank(mspi: MspiId) -> usize {
    match mspi {
        MspiId::Mspi2 => SPIMEM2_BASE,
        MspiId::Mspi3 => SPIMEM3_BASE,
    }
}

/// Builds the command descriptor.
fn command_descriptor(
    cmd: u32,
    cmd_bitlen: u32,
    addr: u32,
    addr_bitlen: u32,
    dummy_bits: u32,
    mosi_data: Vec<u8>,
    mosi_bitlen: u32,
    miso_wanted: bool,
    miso_bitlen: u32,
) -> (r: EspRomSpiCmd)
    ensures
        r@ == (RomCommand {
            cmd: (cmd % 65536) as u16,
            cmd_bit_len: (cmd_bitlen % 65536) as u16,
            addr,
            addr_bit_len: addr_bitlen,
            tx_data: mosi_data@,
            tx_data_bit_len: mosi_bitlen,
            rx_data: miso_wanted,
            rx_data_bit_len: miso_bitlen,
            dummy_bit_len: dummy_bits,
        }),
{
    proof {
        assert(cmd as u16 == cmd % 65536) by (bit_vector);
        assert(cmd_bitlen as u16 == cmd_bitlen % 65536) by (bit_vector);
    }
    EspRomSpiCmd {
        cmd: cmd as u16,
        cmd_bit_len: cmd_bitlen as u16,
        addr,
        addr_bit_len: addr_bitlen,
        tx_data: mosi_data,
        tx_data_bit_len: mosi_bitlen,
        rx_data: miso_wanted,
        rx_data_bit_len: miso_bitlen,
        dummy_bit_len: dummy_bits,
    }
}

/// The three boot ROM calls of an unbounded transaction, in order: set the
/// operating mode, configure the command, start it and wait.
#[derive(Debug)]
pub struct RomTransaction {
    pub spi_num: i32,
    pub mode: u32,
    pub cmd: EspRomSpiCmd,
    /// Number of bytes that the start call receives.
    pub rx_len: u16,
    /// Chip-select lines that the start call drives.
    pub cs_en_mask: u8,
    pub is_write_erase: bool,
}

/// A transaction that the boot ROM runs to its end. It polls the engine for as
/// long as the chip does not answer.
pub fn common_transaction(
    mspi: MspiId,
    cmd: u32,
    cmd_bitlen: u32,
    addr: u32,
    addr_bitlen: u32,
    dummy_bits: u32,
    mosi_data: Vec<u8>,
    mosi_bitlen: u32,
    miso_wanted: bool,
    miso_bitlen: u32,
    is_write_erase: bool,
) -> (r: RomTransaction)
    ensures
        r.spi_num == mspi.number(),
        r.mode == 7,
        r.cmd@ == (Request {
            mspi,
            cmd,
            cmd_bitlen,
            addr,
            addr_bitlen,
            dummy_bits,
            mosi_data: mosi_data@,
            mosi_bitlen,
            miso_wanted,
            miso_bitlen,
        }).rom_command(),
        r.rx_len == (miso_bitlen / 8) % 65536,
        r.cs_en_mask == 2,
        r.is_write_erase == is_write_erase,
{
    proof {
        let n = miso_bitlen / 8;
        assert(n as u16 == n % 65536) by (bit_vector);
        assert(1u8 << 1u8 == 2u8) by (bit_vector);
    }
    RomTransaction {
        spi_num: mspi.number() as i32,
        mode: SpiFlashReadMode::OpiDtrMode.code(),
        cmd: command_descriptor(
            cmd,
            cmd_bitlen,
            addr,
            addr_bitlen,
            dummy_bits,
            mosi_data,
            mosi_bitlen,
            miso_wanted,
            miso_bitlen,
        ),
        rx_len: (miso_bitlen / 8) as u16,
        cs_en_mask: 1u8 << 1u8,
        is_write_erase,
    }
}

/// Why a transaction failed.
#[derive(Debug, Clone, Copy, PartialEq, Eq, Structural)]
pub enum TransactionError {
    /// The engine was still busy after `iters` polls; `cmd_reg_value` is what
    /// the last of them read.
    Timeout { iters: u32, cmd_reg_value: u32 },
}

/// How a transaction that succeeded went.
#[derive(Debug)]
pub struct Completion {
    /// Number of polls that found the engine busy.
    pub iters: u32,
    /// Received bytes.
    pub miso: Vec<u8>,
}

/// Next step of a transaction.
#[derive(Debug)]
pub enum TransactionStep {
    /// Set the operating mode, through the boot ROM.
    SetOpMode { spi_num: i32, mode: u32 },
    /// Configure the command, through the boot ROM. This does not start it.
    Configure { spi_num: i32, cmd: EspRomSpiCmd },
    /// Read the word at `addr`.
    Load { addr: usize },
    /// Write the word at `addr`.
    Store { addr: usize, value: u32 },
    /// Let the core relax before the next poll.
    Relax,
    /// The transaction is over.
    Done(Result<Completion, TransactionError>),
}

/// Outcome of a transaction.
#[verifier::ext_equal]
pub enum Outcome {
    Completed { iters: u32, miso: Seq<u8> },
    Failed(TransactionError),
}

/// Contents of a [`TransactionStep`].
#[verifier::ext_equal]
pub enum Move {
    SetOpMode { spi_num: i32, mode: u32 },
    Configure { spi_num: i32, cmd: RomCommand },
    Load { addr: usize },
    Store { addr: usize, value: u32 },
    Relax,
    Done(Outcome),
}

impl View for TransactionStep {
    type V = Move;

    open spec fn view(&self) -> Move {
        match *self {
            TransactionStep::SetOpMode { spi_num, mode } => Move::SetOpMode { spi_num, mode },
            TransactionStep::Configure { spi_num, cmd } => Move::Configure { spi_num, cmd: cmd@ },
            TransactionStep::Load { addr } => Move::Load { addr },
            TransactionStep::Store { addr, value } => Move::Store { addr, value },
            TransactionStep::Relax => Move::Relax,
            TransactionStep::Done(r) => Move::Done(outcome(r)),
        }
    }
}

/// Contents of the result of a transaction.
pub open spec fn outcome(r: Result<Completion, TransactionError>) -> Outcome {
    match r {
        Ok(c) => Outcome::Completed { iters: c.iters, miso: c.miso@ },
        Err(e) => Outcome::Failed(e),
    }
}

/// How far a transaction has come, named by the last step.
#[derive(Debug, Clone, Copy, PartialEq, Eq, Structural)]
pub enum Phase {
    /// No step was given yet.
    Fresh,
    /// The operating mode was set.
    ModeSet,
    /// The command was configured.
    Configured,
    /// The chip-select mask was read.
    MaskRead,
    /// The chip-select mask was written.
    MaskWritten,
    /// The engine was started, or found busy and given a break.
    Running,
    /// The command register was read.
    Polled,
    /// A data word was read.
    WordRead,
    /// The result was given.
    Finished,
}

/// A transaction in progress.
#[derive(Debug)]
pub struct Transaction {
    mspi: MspiId,
    cmd: u32,
    cmd_bitlen: u32,
    addr: u32,
    addr_bitlen: u32,
    dummy_bits: u32,
    mosi_data: Vec<u8>,
    mosi_bitlen: u32,
    miso_wanted: bool,
    miso_bitlen: u32,
    max_iters: u32,
    phase: Phase,
    iters: u32,
    word: usize,
    miso: Vec<u8>,
}

/// State of a [`Transaction`].
#[verifier::ext_equal]
pub struct TransactionState {
    /// What the transaction sends and expects.
    pub request: Request,
    /// Number of busy polls at which it gives up; at least one poll is made.
    pub max_iters: u32,
    pub phase: Phase,
    /// Number of polls so far that found the engine busy.
    pub iters: u32,
    /// Index of the data word that is read last or next.
    pub word: int,
    /// Bytes received so far.
    pub miso: Seq<u8>,
}

impl View for Transaction {
    type V = TransactionState;

    closed spec fn view(&self) -> TransactionState {
        TransactionState {
            request: Request {
                mspi: self.mspi,
                cmd: self.cmd,
                cmd_bitlen: self.cmd_bitlen,
                addr: self.addr,
                addr_bitlen: self.addr_bitlen,
                dummy_bits: self.dummy_bits,
                mosi_data: self.mosi_data@,
                mosi_bitlen: self.mosi_bitlen,
                miso_wanted: self.miso_wanted,
                miso_bitlen: self.miso_bitlen,
            },
            max_iters: self.max_iters,
            phase: self.phase,
            iters: self.iters,
            word: self.word as int,
            miso: self.miso@,
        }
    }
}

/// The bytes of a word, least significant first.
pub open spec fn le_bytes(word: u32) -> Seq<u8> {
    seq![
        (word % 256) as u8,
        ((word / 0x100) % 256) as u8,
        ((word / 0x1_0000) % 256) as u8,
        (word / 0x100_0000) as u8,
    ]
}

/// Whether a value of the command register shows the engine busy: bit 18.
pub open spec fn busy(cmd_reg: u32) -> bool {
    (cmd_reg / 0x4_0000) % 2 == 1
}

/// The chip-select mask that disables line 0 and enables line 1, and leaves the
/// rest of the register as it is.
pub open spec fn chip_select_1(misc: u32) -> u32 {
    ((misc / 4) * 4 + 1) as u32
}

impl TransactionState {
    /// A transaction before its first step.
    pub open spec fn fresh(request: Request, max_iters: u32) -> TransactionState {
        TransactionState {
            request,
            max_iters,
            phase: Phase::Fresh,
            iters: 0,
            word: 0,
            miso: seq![],
        }
    }

    /// Number of busy polls that end the transaction.
    pub open spec fn patience(self) -> int {
        if self.max_iters == 0 {
            1
        } else {
            self.max_iters as int
        }
    }

    pub open spec fn wf(self) -> bool {
        &&& self.request.miso_wanted ==> self.request.miso_bitlen <= u32::MAX - 7
        &&& self.phase != Phase::WordRead && self.phase != Phase::Finished ==> {
            &&& self.iters < self.patience()
            &&& self.word == 0
            &&& self.miso.len() == 0
        }
        &&& self.phase == Phase::WordRead ==> {
            &&& 0 <= self.word < self.request.miso_words()
            &&& self.miso.len() == 4 * self.word
        }
    }

    /// An upper bound of the number of steps that are left.
    pub open spec fn steps_left(self) -> int {
        let words = self.request.miso_words() as int;
        let polling = 3 * (self.patience() - self.iters) + words;
        match self.phase {
            Phase::Fresh => 7 + polling,
            Phase::ModeSet => 6 + polling,
            Phase::Configured => 5 + polling,
            Phase::MaskRead => 4 + polling,
            Phase::MaskWritten => 3 + polling,
            Phase::Running => 2 + polling,
            Phase::Polled => 1 + polling,
            Phase::WordRead => words - self.word,
            Phase::Finished => 0,
        }
    }

    /// The state and the step that follow when the last step read `reply`.
    pub open spec fn next(self, reply: u32) -> (TransactionState, Move) {
        let base = bank(self.request.mspi);
        let spi_num = self.request.mspi.number() as i32;
        match self.phase {
            Phase::Fresh => (
                TransactionState { phase: Phase::ModeSet, ..self },
                Move::SetOpMode { spi_num, mode: 7 },
            ),
            Phase::ModeSet => (
                TransactionState { phase: Phase::Configured, ..self },
                Move::Configure { spi_num, cmd: self.request.rom_command() },
            ),
            Phase::Configured => (
                TransactionState { phase: Phase::MaskRead, ..self },
                Move::Load { addr: (base + 0x34) as usize },
            ),
            Phase::MaskRead => if chip_select_1(reply) == reply {
                self.start()
            } else {
                (
                    TransactionState { phase: Phase::MaskWritten, ..self },
                    Move::Store { addr: (base + 0x34) as usize, value: chip_select_1(reply) },
                )
            },
            Phase::MaskWritten => self.start(),
            Phase::Running => (
                TransactionState { phase: Phase::Polled, ..self },
                Move::Load { addr: base },
            ),
            Phase::Polled => if busy(reply) {
                let iters = (self.iters + 1) as u32;
                if iters < self.max_iters {
                    (TransactionState { phase: Phase::Running, iters, ..self }, Move::Relax)
                } else {
                    (
                        TransactionState { phase: Phase::Finished, iters, ..self },
                        Move::Done(
                            Outcome::Failed(TransactionError::Timeout { iters, cmd_reg_value: reply }),
                        ),
                    )
                }
            } else {
                self.load_or_finish(0, seq![])
            },
            Phase::WordRead => {
                let bytes = self.miso + le_bytes(reply);
                let wanted = self.request.miso_bytes() as int;
                self.load_or_finish(
                    self.word + 1,
                    if bytes.len() <= wanted {
                        bytes
                    } else {
                        bytes.take(wanted)
                    },
                )
            },
            Phase::Finished => (self, Move::Relax),
        }
    }

    /// Start the engine: set bit 18 of the command register.
    pub open spec fn start(self) -> (TransactionState, Move) {
        (
            TransactionState { phase: Phase::Running, ..self },
            Move::Store { addr: bank(self.request.mspi), value: 0x4_0000 },
        )
    }

    /// With `miso` received, read data word `word` if there is one, else finish.
    pub open spec fn load_or_finish(self, word: int, miso: Seq<u8>) -> (TransactionState, Move) {
        if word < self.request.miso_words() {
            (
                TransactionState { phase: Phase::WordRead, word, miso, ..self },
                Move::Load { addr: (bank(self.request.mspi) + 0x58 + 4 * word) as usize },
            )
        } else {
            (
                TransactionState { phase: Phase::Finished, word, miso, ..self },
                Move::Done(Outcome::Completed { iters: self.iters, miso }),
            )
        }
    }
}

/// A transaction that gives up after `max_iters` busy polls. `mosi_data` is
/// empty where nothing is sent; `miso_wanted` tells whether received bytes are
/// kept. `is_write_erase` has no effect.
pub fn try_common_transaction(
    mspi: MspiId,
    cmd: u32,
    cmd_bitlen: u32,
    addr: u32,
    addr_bitlen: u32,
    dummy_bits: u32,
    mosi_data: Vec<u8>,
    mosi_bitlen: u32,
    miso_wanted: bool,
    miso_bitlen: u32,
    is_write_erase: bool,
    max_iters: u32,
) -> (r: Transaction)
    requires
        miso_wanted ==> miso_bitlen <= u32::MAX - 7,
    ensures
        r@.wf(),
        r@ == TransactionState::fresh(
            Request {
                mspi,
                cmd,
                cmd_bitlen,
                addr,
                addr_bitlen,
                dummy_bits,
                mosi_data: mosi_data@,
                mosi_bitlen,
                miso_wanted,
                miso_bitlen,
            },
            max_iters,
        ),
{
    let _ = is_write_erase;
    Transaction {
        mspi,
        cmd,
        cmd_bitlen,
        addr,
        addr_bitlen,
        dummy_bits,
        mosi_data,
        mosi_bitlen,
        miso_wanted,
        miso_bitlen,
        max_iters,
        phase: Phase::Fresh,
        iters: 0,
        word: 0,
        miso: Vec::new(),
    }
}

proof fn lemma_word_bits(word: u32)
    by (bit_vector)
    ensures
        (word >> 0u32) & 0xFFu32 == word % 256,
        (word >> 8u32) & 0xFFu32 == (word / 0x100) % 256,
        (word >> 16u32) & 0xFFu32 == (word / 0x1_0000) % 256,
        (word >> 24u32) & 0xFFu32 == word / 0x100_0000,
        1u32 << 18u32 == 0x4_0000u32,
        (word & (1u32 << 18u32) == 0) == ((word / 0x4_0000) % 2 == 0),
        (word | 0x1u32) & !0x2u32 == (word / 4) * 4 + 1,
{
}

/// Byte `b` of a word, counted from the least significant.
fn byte_of(word: u32, b: u32) -> (r: u8)
    requires
        b < 4,
    ensures
        r == le_bytes(word)[b as int],
{
    proof {
        lemma_word_bits(word);
    }
    ((word >> (b * 8)) & 0xFF) as u8
}

impl Transaction {
    /// Number of bytes to receive.
    fn miso_bytes(&self) -> (n: usize)
        requires
            self@.request.miso_wanted ==> self@.request.miso_bitlen <= u32::MAX - 7,
        ensures
            n == self@.request.miso_bytes(),
            n <= 0x2000_0000,
    {
        if self.miso_wanted {
            ((self.miso_bitlen + 7) / 8) as usize
        } else {
            0
        }
    }

    fn bank(&self) -> (base: usize)
        ensures
            base == bank(self@.request.mspi),
    {
        match self.mspi {
            MspiId::Mspi2 => SPIMEM2_BASE,
            MspiId::Mspi3 => SPIMEM3_BASE,
        }
    }

    /// Reads data word `self.word` if there is one, else finishes.
    fn load_or_finish(&mut self) -> (r: TransactionStep)
        requires
            old(self)@.request.miso_wanted ==> old(self)@.request.miso_bitlen <= u32::MAX - 7,
            old(self)@.phase != Phase::Finished,
        ensures
            (final(self)@, r@) == old(self)@.load_or_finish(old(self)@.word, old(self)@.miso),
    {
        let n_words: usize = (self.miso_bytes() + 3) / 4;
        if self.word < n_words {
            self.phase = Phase::WordRead;
            TransactionStep::Load { addr: self.bank() + 0x58 + 4 * self.word }
        } else {
            self.phase = Phase::Finished;
            let ghost before = self.miso@;
            let miso = self.miso.clone();
            assert(miso@ == before);
            TransactionStep::Done(Ok(Completion { iters: self.iters, miso }))
        }
    }

    /// Advances the transaction. `reply` is the word that the last step read; it
    /// is ignored after a step that reads nothing.
    pub fn step(&mut self, reply: u32) -> (r: TransactionStep)
        requires
            old(self)@.wf(),
            old(self)@.phase != Phase::Finished,
        ensures
            final(self)@.wf(),
            final(self)@ == old(self)@.next(reply).0,
            r@ == old(self)@.next(reply).1,
            r is Done <==> final(self)@.phase == Phase::Finished,
            0 <= final(self)@.steps_left() < old(self)@.steps_left(),
    {
        proof {
            lemma_word_bits(reply);
        }
        let base: usize = self.bank();
        let spi_num: i32 = self.mspi.number() as i32;
        match self.phase {
            Phase::Fresh => {
                self.phase = Phase::ModeSet;
                TransactionStep::SetOpMode { spi_num, mode: SpiFlashReadMode::OpiDtrMode.code() }
            },
            Phase::ModeSet => {
                self.phase = Phase::Configured;
                let mosi_data = self.mosi_data.clone();
                assert(mosi_data@ == self.mosi_data@);
                let cmd = command_descriptor(
                    self.cmd,
                    self.cmd_bitlen,
                    self.addr,
                    self.addr_bitlen,
                    self.dummy_bits,
                    mosi_data,
                    self.mosi_bitlen,
                    self.miso_wanted,
                    self.miso_bitlen,
                );
                TransactionStep::Configure { spi_num, cmd }
            },
            Phase::Configured => {
                self.phase = Phase::MaskRead;
                TransactionStep::Load { addr: base + 0x34 }
            },
            Phase::MaskRead => {
                let mask: u32 = (reply | 0x1) & !0x2;
                if mask != reply {
                    self.phase = Phase::MaskWritten;
                    TransactionStep::Store { addr: base + 0x34, value: mask }
                } else {
                    self.phase = Phase::Running;
                    TransactionStep::Store { addr: base, value: 1u32 << 18u32 }
                }
            },
            Phase::MaskWritten => {
                self.phase = Phase::Running;
                TransactionStep::Store { addr: base, value: 1u32 << 18u32 }
            },
            Phase::Running => {
                self.phase = Phase::Polled;
                TransactionStep::Load { addr: base }
            },
            Phase::Polled => {
                if reply & (1u32 << 18u32) == 0 {
                    assert(self.miso@ == Seq::<u8>::empty());
                    self.load_or_finish()
                } else {
                    self.iters = self.iters + 1;
                    if self.iters >= self.max_iters {
                        self.phase = Phase::Finished;
                        TransactionStep::Done(
                            Err(
                                TransactionError::Timeout {
                                    iters: self.iters,
                                    cmd_reg_value: reply,
                                },
                            ),
                        )
                    } else {
                        self.phase = Phase::Running;
                        TransactionStep::Relax
                    }
                }
            },
            Phase::WordRead => {
                let n_bytes: usize = self.miso_bytes();
                let ghost before = self@;
                let mut b: u32 = 0;
                while b < 4 && self.miso.len() < n_bytes
                    invariant
                        b <= 4,
                        before.miso.len() == 4 * before.word,
                        4 * before.word < n_bytes,
                        self.miso@ == before.miso + le_bytes(reply).take(b as int),
                        self.miso@.len() <= n_bytes,
                        self@ == (TransactionState { miso: self.miso@, ..before }),
                    decreases 4 - b,
                {
                    self.miso.push(byte_of(reply, b));
                    b = b + 1;
                }
                self.word = self.word + 1;
                assert(self.miso@ == if (before.miso + le_bytes(reply)).len() <= n_bytes {
                    before.miso + le_bytes(reply)
                } else {
                    (before.miso + le_bytes(reply)).take(n_bytes as int)
                });
                self.load_or_finish()
            },
            Phase::Finished => TransactionStep::Relax,
        }
    }
}

/// What a controller answers in the course of one transaction.
pub struct Answers {
    /// Content of the chip-select mask register.
    pub misc: u32,
    /// Content of the command register at each poll.
    pub polls: spec_fn(int) -> u32,
    /// Content of each data word.
    pub words: spec_fn(int) -> u32,
}

impl Answers {
    /// The answer to the last step that led to `state`.
    pub open spec fn reply(self, state: TransactionState) -> u32 {
        match state.phase {
            Phase::MaskRead => self.misc,
            Phase::Polled => (self.polls)(state.iters as int),
            Phase::WordRead => (self.words)(state.word),
            _ => 0,
        }
    }

    /// The bytes of the data words that `request` asks for.
    pub open spec fn received(self, request: Request) -> Seq<u8> {
        Seq::new(request.miso_bytes(), |j: int| le_bytes((self.words)(j / 4))[j % 4])
    }
}

/// How a transaction ends that is stepped from `state` until it is done, on a
/// controller that gives `answers`.
pub open spec fn run(state: TransactionState, answers: Answers) -> Outcome
    decreases state.steps_left(),
    when state.wf() && state.phase != Phase::Finished
    via run_terminates
{
    let (after, step) = state.next(answers.reply(state));
    match step {
        Move::Done(o) => o,
        _ => run(after, answers),
    }
}

#[via_fn]
proof fn run_terminates(state: TransactionState, answers: Answers) {
    lemma_next(state, answers.reply(state));
}

/// A step keeps the state well-formed and brings the end nearer.
proof fn lemma_next(state: TransactionState, reply: u32)
    requires
        state.wf(),
        state.phase != Phase::Finished,
    ensures
        state.next(reply).0.wf(),
        state.next(reply).1 is Done <==> state.next(reply).0.phase == Phase::Finished,
        0 <= state.next(reply).0.steps_left() < state.steps_left(),
{
}

proof fn lemma_run_words(state: TransactionState, answers: Answers)
    requires
        state.wf(),
        state.phase == Phase::WordRead,
        state.miso == answers.received(state.request).take(4 * state.word),
    ensures
        run(state, answers) == (Outcome::Completed {
            iters: state.iters,
            miso: answers.received(state.request),
        }),
    decreases state.steps_left(),
{
    let all = answers.received(state.request);
    let reply = answers.reply(state);
    let (after, step) = state.next(reply);
    lemma_next(state, reply);
    let bytes = state.miso + le_bytes(reply);
    assert forall|j: int| 4 * state.word <= j < 4 * state.word + 4 && j < all.len() implies all[j]
        == le_bytes(reply)[j - 4 * state.word] by {
        assert(j / 4 == state.word);
        assert(j % 4 == j - 4 * state.word);
    }
    if 4 * state.word + 4 <= all.len() {
        assert(bytes == all.take(4 * (state.word + 1)));
    } else {
        assert(bytes.take(all.len() as int) == all);
    }
    if after.phase == Phase::WordRead {
        lemma_run_words(after, answers);
    } else {
        assert(after.miso == all);
    }
}

/// The run from a state in which the engine was started, when `k` polls in all
/// find it busy.
proof fn lemma_run_polls(state: TransactionState, answers: Answers, k: int)
    requires
        state.wf(),
        state.phase == Phase::Running,
        state.iters <= k <= state.patience(),
        forall|i: int| state.iters <= i < k ==> busy(#[trigger] (answers.polls)(i)),
        k < state.patience() ==> !busy((answers.polls)(k)),
    ensures
        run(state, answers) == if k < state.patience() {
            Outcome::Completed { iters: k as u32, miso: answers.received(state.request) }
        } else {
            Outcome::Failed(
                TransactionError::Timeout {
                    iters: k as u32,
                    cmd_reg_value: (answers.polls)(k - 1),
                },
            )
        },
    decreases k - state.iters,
{
    lemma_next(state, answers.reply(state));
    let polled = state.next(answers.reply(state)).0;
    let reply = answers.reply(polled);
    assert(reply == (answers.polls)(state.iters as int));
    lemma_next(polled, reply);
    let after = polled.next(reply).0;
    assert(run(state, answers) == run(polled, answers));
    if state.iters < k {
        if after.phase == Phase::Running {
            assert(run(polled, answers) == run(after, answers));
            lemma_run_polls(after, answers, k);
        }
    } else if after.phase == Phase::WordRead {
        assert(after.miso == answers.received(after.request).take(4 * after.word));
        assert(run(polled, answers) == run(after, answers));
        lemma_run_words(after, answers);
    } else {
        assert(Seq::<u8>::empty() == answers.received(after.request));
    }
}

/// A transaction ends as the command register decides. If poll `k` is the first
/// to find the engine idle, and comes before patience is out, the transaction
/// succeeds with the bytes of the data words; if all polls find it busy, it
/// fails with the last value read, after `max_iters` polls (one, if that is 0).
pub proof fn law_transaction_outcome(request: Request, max_iters: u32, answers: Answers, k: int)
    requires
        request.miso_wanted ==> request.miso_bitlen <= u32::MAX - 7,
        0 <= k <= TransactionState::fresh(request, max_iters).patience(),
        forall|i: int| 0 <= i < k ==> busy(#[trigger] (answers.polls)(i)),
        k < TransactionState::fresh(request, max_iters).patience() ==> !busy((answers.polls)(k)),
    ensures
        run(TransactionState::fresh(request, max_iters), answers) == if k
            < TransactionState::fresh(request, max_iters).patience() {
            Outcome::Completed { iters: k as u32, miso: answers.received(request) }
        } else {
            Outcome::Failed(
                TransactionError::Timeout {
                    iters: k as u32,
                    cmd_reg_value: (answers.polls)(k - 1),
                },
            )
        },
{
    let s0 = TransactionState::fresh(request, max_iters);
    let s1 = s0.next(0).0;
    let s2 = s1.next(0).0;
    let s3 = s2.next(0).0;
    let s4 = s3.next(answers.misc).0;
    lemma_next(s0, 0);
    lemma_next(s1, 0);
    lemma_next(s2, 0);
    lemma_next(s3, answers.misc);
    assert(run(s0, answers) == run(s1, answers));
    assert(run(s1, answers) == run(s2, answers));
    assert(run(s2, answers) == run(s3, answers));
    assert(run(s3, answers) == run(s4, answers));
    if s4.phase == Phase::MaskWritten {
        let s5 = s4.next(0).0;
        lemma_next(s4, 0);
        assert(run(s4, answers) == run(s5, answers));
        lemma_run_polls(s5, answers, k);
    } else {
        lemma_run_polls(s4, answers, k);
    }
}

/// A chip that never lets the engine become idle makes the transaction fail.
pub proof fn law_silent_chip_times_out(request: Request, max_iters: u32, answers: Answers)
    requires
        request.miso_wanted ==> request.miso_bitlen <= u32::MAX - 7,
        forall|i: int| busy(#[trigger] (answers.polls)(i)),
    ensures
        run(TransactionState::fresh(request, max_iters), answers) is Failed,
{
    law_transaction_outcome(
        request,
        max_iters,
        answers,
        TransactionState::fresh(request, max_iters).patience(),
    );
}

/// A transaction of no more than `FIFO_MAX_BYTES` reads its data from the sixteen
/// data words of the controller and nowhere else.
pub proof fn law_data_words(state: TransactionState, reply: u32)
    requires
        state.wf(),
        state.phase == Phase::Polled || state.phase == Phase::WordRead,
        state.request.miso_bytes() <= FIFO_MAX_BYTES,
    ensures
        state.next(reply).1 matches Move::Load { addr } ==> bank(state.request.mspi) + 0x58 <= addr
            < bank(state.request.mspi) + 0x58 + 64,
{
}

/// The four bytes of a word make up the word, the first one with the least weight.
pub proof fn law_word_bytes(word: u32)
    ensures
        le_bytes(word).len() == 4,
        word == le_bytes(word)[0] + 0x100 * le_bytes(word)[1] + 0x1_0000 * le_bytes(word)[2]
            + 0x100_0000 * le_bytes(word)[3],
{
}

/// The engine is busy exactly while bit 18 of the command register is set.
pub proof fn law_busy_bit(cmd_reg: u32)
    ensures
        busy(cmd_reg) <==> cmd_reg & 0x4_0000u32 != 0,
{
    lemma_word_bits(cmd_reg);
}

/// A request receives as many bytes as its bits take, rounded up, and reads as many
/// words as these bytes take, rounded up; without a buffer it receives nothing.
pub proof fn law_receive_size(request: Request)
    ensures
        request.miso_wanted ==> 8 * (request.miso_bytes() - 1) < request.miso_bitlen <= 8
            * request.miso_bytes(),
        !request.miso_wanted ==> request.miso_bytes() == 0,
        4 * (request.miso_words() - 1) < request.miso_bytes() <= 4 * request.miso_words(),
{
}

/// The command descriptor carries the request unchanged, its command and the length
/// of it cut to sixteen bits.
pub proof fn law_rom_command(request: Request)
    ensures
        request.rom_command().cmd == request.cmd % 65536,
        request.rom_command().cmd_bit_len == request.cmd_bitlen % 65536,
        request.rom_command().addr == request.addr,
        request.rom_command().addr_bit_len == request.addr_bitlen,
        request.rom_command().tx_data == request.mosi_data,
        request.rom_command().tx_data_bit_len == request.mosi_bitlen,
        request.rom_command().rx_data == request.miso_wanted,
        request.rom_command().rx_data_bit_len == request.miso_bitlen,
        request.rom_command().dummy_bit_len == request.dummy_bits,
{
}

/// A step and a result are viewed as what they hold.
pub proof fn law_step_views(step: TransactionStep, result: Result<Completion, TransactionError>)
    ensures
        match step {
            TransactionStep::SetOpMode { spi_num, mode } => step@ == (Move::SetOpMode {
                spi_num,
                mode,
            }),
            TransactionStep::Configure { spi_num, cmd } => {
                &&& step@ matches Move::Configure { spi_num: n, cmd: c }
                &&& n == spi_num
                &&& c.cmd == cmd.cmd
                &&& c.cmd_bit_len == cmd.cmd_bit_len
                &&& c.addr == cmd.addr
                &&& c.addr_bit_len == cmd.addr_bit_len
                &&& c.tx_data == cmd.tx_data@
                &&& c.tx_data_bit_len == cmd.tx_data_bit_len
                &&& c.rx_data == cmd.rx_data
                &&& c.rx_data_bit_len == cmd.rx_data_bit_len
                &&& c.dummy_bit_len == cmd.dummy_bit_len
            },
            TransactionStep::Load { addr } => step@ == (Move::Load { addr }),
            TransactionStep::Store { addr, value } => step@ == (Move::Store { addr, value }),
            TransactionStep::Relax => step@ == Move::Relax,
            TransactionStep::Done(r) => step@ == Move::Done(outcome(r)),
        },
        match result {
            Ok(c) => outcome(result) == (Outcome::Completed { iters: c.iters, miso: c.miso@ }),
            Err(e) => outcome(result) == Outcome::Failed(e),
        },
{
}

/// How a transaction begins, whatever is answered. It sets the octal DTR mode,
/// configures the command with all that was asked for, and reads the chip-select
/// mask. Only then is the engine started, by bit 18 of the command register, and
/// by that time the mask has bit 0 set (line 0, the flash, is off), bit 1 clear
/// (line 1, the PSRAM, is on) and all other bits as they were read. The mask is
/// written only if this changes it. All of this goes to the controller asked for.
pub proof fn law_transaction_begins(
    request: Request,
    max_iters: u32,
    r0: u32,
    r1: u32,
    r2: u32,
    misc: u32,
    r4: u32,
)
    ensures
        ({
            let (num, base) = match request.mspi {
                MspiId::Mspi2 => (2i32, 0x5008_E000usize),
                MspiId::Mspi3 => (3i32, 0x5008_F000usize),
            };
            let (s1, m1) = TransactionState::fresh(request, max_iters).next(r0);
            let (s2, m2) = s1.next(r1);
            let (s3, m3) = s2.next(r2);
            let (s4, m4) = s3.next(misc);
            let (s5, m5) = s4.next(r4);
            let start = Move::Store { addr: base, value: 0x4_0000 };
            &&& m1 == (Move::SetOpMode { spi_num: num, mode: 7 })
            &&& m2 matches Move::Configure { spi_num, cmd }
            &&& spi_num == num
            &&& cmd.cmd == request.cmd % 65536
            &&& cmd.cmd_bit_len == request.cmd_bitlen % 65536
            &&& cmd.addr == request.addr
            &&& cmd.addr_bit_len == request.addr_bitlen
            &&& cmd.tx_data == request.mosi_data
            &&& cmd.tx_data_bit_len == request.mosi_bitlen
            &&& cmd.rx_data == request.miso_wanted
            &&& cmd.rx_data_bit_len == request.miso_bitlen
            &&& cmd.dummy_bit_len == request.dummy_bits
            &&& m3 == (Move::Load { addr: (base + 0x34) as usize })
            &&& m4 == start <==> misc % 2 == 1 && (misc / 2) % 2 == 0
            &&& m4 != start ==> {
                &&& m4 matches Move::Store { addr, value }
                &&& addr == base + 0x34
                &&& value % 2 == 1
                &&& (value / 2) % 2 == 0
                &&& value / 4 == misc / 4
                &&& m5 == start
            }
            &&& (if m4 == start {
                s4
            } else {
                s5
            }) == (TransactionState {
                request,
                max_iters,
                phase: Phase::Running,
                iters: 0,
                word: 0,
                miso: seq![],
            })
        }),
{
}

/// What a poll leads to. A started engine is polled by reading the command
/// register of its controller. While bit 18 is set the poll is counted and made
/// again after a break, until as many as asked for were made (one, if that is 0);
/// then the transaction ends with the count and the last word read. Once it is
/// clear, the first data word is read, or the transaction succeeds if no bytes are
/// wanted.
pub proof fn law_poll(state: TransactionState, reply: u32)
    requires
        state.wf(),
        state.phase == Phase::Running || state.phase == Phase::Polled,
    ensures
        ({
            let base = match state.request.mspi {
                MspiId::Mspi2 => 0x5008_E000usize,
                MspiId::Mspi3 => 0x5008_F000usize,
            };
            let wants = state.request.miso_wanted && state.request.miso_bitlen > 0;
            let (after, step) = state.next(reply);
            let count = (state.iters + 1) as u32;
            &&& count == state.iters + 1
            &&& state.phase == Phase::Running ==> {
                &&& step == (Move::Load { addr: base })
                &&& after == (TransactionState { phase: Phase::Polled, ..state })
            }
            &&& state.phase == Phase::Polled && reply & 0x4_0000u32 != 0 && count
                < state.max_iters ==> {
                &&& step == Move::Relax
                &&& after == (TransactionState { phase: Phase::Running, iters: count, ..state })
            }
            &&& state.phase == Phase::Polled && reply & 0x4_0000u32 != 0 && count
                >= state.max_iters ==> step == Move::Done(
                Outcome::Failed(
                    TransactionError::Timeout { iters: count, cmd_reg_value: reply },
                ),
            )
            &&& state.phase == Phase::Polled && reply & 0x4_0000u32 == 0 ==> if wants {
                &&& step == (Move::Load { addr: (base + 0x58) as usize })
                &&& after == (TransactionState { phase: Phase::WordRead, ..state })
            } else {
                step == Move::Done(Outcome::Completed { iters: state.iters, miso: seq![] })
            }
        }),
{
    law_busy_bit(reply);
    law_receive_size(state.request);
}

/// What a data word leads to. Its bytes, from the least significant on, follow
/// those received before, as far as bytes are wanted. Then the next data word is
/// read, or the transaction succeeds with all bytes if there are enough.
pub proof fn law_data_word(state: TransactionState, reply: u32)
    requires
        state.wf(),
        state.phase == Phase::WordRead,
    ensures
        ({
            let base = match state.request.mspi {
                MspiId::Mspi2 => 0x5008_E000int,
                MspiId::Mspi3 => 0x5008_F000int,
            };
            let done = 4 * state.word;
            let (after, step) = state.next(reply);
            &&& 8 * done < state.request.miso_bitlen
            &&& after.miso.take(done) == state.miso
            &&& after.miso.len() > done
            &&& after.miso[done] == reply % 0x100
            &&& after.miso.len() > done + 1 ==> after.miso[done + 1] == (reply / 0x100) % 0x100
            &&& after.miso.len() > done + 2 ==> after.miso[done + 2] == (reply / 0x1_0000) % 0x100
            &&& after.miso.len() > done + 3 ==> after.miso[done + 3] == reply / 0x100_0000
            &&& if state.request.miso_bitlen > 8 * (done + 4) {
                &&& after.miso.len() == done + 4
                &&& step == (Move::Load { addr: (base + 0x58 + done + 4) as usize })
                &&& after == (TransactionState {
                    word: state.word + 1,
                    miso: after.miso,
                    ..state
                })
            } else {
                &&& 8 * (after.miso.len() - 1) < state.request.miso_bitlen <= 8 * after.miso.len()
                &&& step == Move::Done(
                    Outcome::Completed { iters: state.iters, miso: after.miso },
                )
            }
        }),
{
    law_receive_size(state.request);
    let bytes = state.miso + le_bytes(reply);
    assert(bytes.take(4 * state.word) == state.miso);
    assert(state.next(reply).0.miso.take(4 * state.word) == state.miso);
}

/// How a transaction ends, by the bits and words that the controller answers with.
/// If poll `k` is the first to find bit 18 clear, and fewer than `max_iters` polls
/// came before it (or none), it succeeds after `k` busy polls with exactly the
/// bytes that the data words hold; if the first `k` polls all find it set and `k`
/// polls are all that is allowed, it fails with what the last one read.
pub proof fn law_transaction_ends(request: Request, max_iters: u32, answers: Answers, k: int)
    requires
        request.miso_wanted ==> request.miso_bitlen <= u32::MAX - 7,
        0 <= k,
        k == 0 || k <= max_iters || (k == 1 && max_iters == 0),
        forall|i: int| 0 <= i < k ==> #[trigger] (answers.polls)(i) & 0x4_0000u32 != 0,
        k == 0 || k < max_iters ==> (answers.polls)(k) & 0x4_0000u32 == 0,
    ensures
        match run(TransactionState::fresh(request, max_iters), answers) {
            Outcome::Completed { iters, miso } => {
                &&& k == 0 || k < max_iters
                &&& iters == k
                &&& request.miso_wanted ==> 8 * (miso.len() - 1) < request.miso_bitlen <= 8
                    * miso.len()
                &&& !request.miso_wanted ==> miso.len() == 0
                &&& forall|j: int|
                    0 <= j < miso.len() ==> #[trigger] miso[j] == (if j % 4 == 0 {
                        (answers.words)(j / 4) % 0x100
                    } else if j % 4 == 1 {
                        ((answers.words)(j / 4) / 0x100) % 0x100
                    } else if j % 4 == 2 {
                        ((answers.words)(j / 4) / 0x1_0000) % 0x100
                    } else {
                        (answers.words)(j / 4) / 0x100_0000
                    })
            },
            Outcome::Failed(TransactionError::Timeout { iters, cmd_reg_value }) => {
                &&& k > 0 && k >= max_iters
                &&& iters == k
                &&& cmd_reg_value == (answers.polls)(k - 1)
            },
        },
{
    assert forall|i: int| busy(#[trigger] (answers.polls)(i)) <==> (answers.polls)(i) & 0x4_0000u32
        != 0 by {
        law_busy_bit((answers.polls)(i));
    }
    law_transaction_outcome(request, max_iters, answers, k);
    law_receive_size(request);
}

} // verus!
