//! Detection of the chip and its complete bring-up.
//!
//! Both are a series of tasks: perform some accesses, then run a transaction or
//! finish. `advance` takes the result of the last transaction and gives the next
//! task.
use vstd::prelude::*;

use crate::access::Access;
use crate::error::PsramError;
use crate::mode_regs::{ModeRegisters, PsramSize};
use crate::mspi::MspiId;
use crate::program::{
    cache_invalidate_psram_window, config_mspi_cache_side, mmu_map_psram_window,
    prepare_for_mr_read,
};
use crate::session::{
    global_reset, global_reset_result, read_mode_registers, write_mode_register_config,
    ModeRegisterRead, ModeRegisterWrite, ReadMove, ReadState, ReadStep, WriteMove, WriteState,
    WriteStep, GLOBAL_RESET,
};
use crate::transaction::{Completion, Outcome, Transaction, TransactionError, TransactionState};
use crate::AP_HEX_PSRAM_VENDOR_ID;

verus! {

/// Detects the chip. Not available on this machine: the device is driven through
/// [`Detect`].
pub fn detect() -> (r: Result<ModeRegisters, PsramError>)
    ensures
        r == Err::<ModeRegisters, PsramError>(PsramError::NotImplemented),
{
    Err(PsramError::NotImplemented)
}

/// Brings up the chip. Not available on this machine: the device is driven
/// through [`Init`].
pub fn init() -> (r: Result<ModeRegisters, PsramError>)
    ensures
        r == Err::<ModeRegisters, PsramError>(PsramError::NotImplemented),
{
    Err(PsramError::NotImplemented)
}

impl ModeRegisters {
    /// Whether the snapshot comes from a chip of the expected vendor.
    pub open spec fn vendor_matches(self) -> bool {
        self.mr1@.vendor_id == AP_HEX_PSRAM_VENDOR_ID
    }

    /// Checks the vendor and the density of the chip, in this order, and gives
    /// its capacity.
    pub fn verify(self) -> (r: Result<PsramSize, PsramError>)
        ensures
            r matches Ok(size) ==> self.vendor_matches() && size.density_code()
                == self.mr2@.density,
            r matches Err(e) ==> e == if self.vendor_matches() {
                PsramError::UnknownPsramSize { density: self.mr2@.density }
            } else {
                PsramError::ChipDetectionFailed { reported_vendor_id: self.mr1@.vendor_id }
            },
            r is Ok ==> self.mr1.0 % 32 == 0x0D,
            self.mr1.0 % 32 == 0x0D ==> match r {
                Ok(size) => {
                    ||| size == PsramSize::Mb4 && self.mr2.0 % 8 == 1
                    ||| size == PsramSize::Mb8 && self.mr2.0 % 8 == 3
                    ||| size == PsramSize::Mb16 && self.mr2.0 % 8 == 5
                    ||| size == PsramSize::Mb64 && self.mr2.0 % 8 == 6
                    ||| size == PsramSize::Mb32 && self.mr2.0 % 8 == 7
                },
                Err(e) => e == (PsramError::UnknownPsramSize { density: self.mr2.0 % 8 }),
            },
            self.mr1.0 % 32 != 0x0D ==> r == Err::<PsramSize, PsramError>(
                PsramError::ChipDetectionFailed { reported_vendor_id: self.mr1.0 % 32 },
            ),
            r is Ok <==> self.vendor_matches() && !(self.mr2@.density == 0 || self.mr2@.density == 2
                || self.mr2@.density == 4),
    {
        let vendor: u8 = self.mr1.vendor_id();
        if vendor != AP_HEX_PSRAM_VENDOR_ID {
            return Err(PsramError::ChipDetectionFailed { reported_vendor_id: vendor });
        }
        let density: u8 = self.mr2.density();
        match PsramSize::from_mr2_density(density) {
            Some(size) => Ok(size),
            None => Err(PsramError::UnknownPsramSize { density }),
        }
    }
}

/// What to do after the accesses of a task.
#[derive(Debug)]
pub enum Goal {
    /// Run the transaction and report its result.
    Transact(Transaction),
    /// Stop with this result.
    Finish(Result<ModeRegisters, PsramError>),
}

/// One task of the bring-up.
#[derive(Debug)]
pub struct Task {
    /// Accesses to perform first, in order.
    pub accesses: Vec<Access>,
    pub goal: Goal,
}

/// Contents of a [`Goal`].
#[verifier::ext_equal]
pub enum Aim {
    Transact(TransactionState),
    Finish(Result<ModeRegisters, PsramError>),
}

/// Contents of a [`Task`].
#[verifier::ext_equal]
pub struct TaskView {
    pub accesses: Seq<Access>,
    pub goal: Aim,
}

impl View for Task {
    type V = TaskView;

    open spec fn view(&self) -> TaskView {
        TaskView {
            accesses: self.accesses@,
            goal: match self.goal {
                Goal::Transact(t) => Aim::Transact(t@),
                Goal::Finish(r) => Aim::Finish(r),
            },
        }
    }
}

impl Task {
    /// The transaction of the task, if any, is ready to be stepped.
    pub open spec fn wf(self) -> bool {
        self.goal matches Goal::Transact(t) ==> t@.wf() && t@.phase
            == crate::transaction::Phase::Fresh
    }

    fn transact(t: Transaction) -> (r: Task)
        ensures
            r@ == transact(t@),
            r.goal == Goal::Transact(t),
    {
        Task { accesses: Vec::new(), goal: Goal::Transact(t) }
    }

    fn finish(result: Result<ModeRegisters, PsramError>) -> (r: Task)
        ensures
            r@ == finish(result),
            r.goal == Goal::Finish(result),
    {
        Task { accesses: Vec::new(), goal: Goal::Finish(result) }
    }
}

/// The task that only runs a transaction.
pub open spec fn transact(t: TransactionState) -> TaskView {
    TaskView { accesses: seq![], goal: Aim::Transact(t) }
}

/// The task that only stops.
pub open spec fn finish(result: Result<ModeRegisters, PsramError>) -> TaskView {
    TaskView { accesses: seq![], goal: Aim::Finish(result) }
}

/// Detection in progress.
#[derive(Debug)]
pub enum Detect {
    /// The reset of the chip is awaited.
    Resetting,
    /// The mode registers are being read.
    Reading(ModeRegisterRead),
    Finished,
}

/// State of a [`Detect`].
pub enum DetectState {
    Resetting,
    Reading(ReadState),
    Finished,
}

impl View for Detect {
    type V = DetectState;

    open spec fn view(&self) -> DetectState {
        match *self {
            Detect::Resetting => DetectState::Resetting,
            Detect::Reading(read) => DetectState::Reading(read@),
            Detect::Finished => DetectState::Finished,
        }
    }
}

/// The mode registers of a chip whose vendor is not the expected one are refused.
pub open spec fn vendor_checked(regs: ModeRegisters) -> Result<ModeRegisters, PsramError> {
    if regs.vendor_matches() {
        Ok(regs)
    } else {
        Err(PsramError::ChipDetectionFailed { reported_vendor_id: regs.mr1@.vendor_id })
    }
}

impl DetectState {
    pub open spec fn wf(self) -> bool {
        self matches DetectState::Reading(read) ==> 0 <= read.pending < 4 && read.mspi
            == MspiId::Mspi3
    }

    /// What follows when the last transaction ended in `outcome`.
    pub open spec fn next(self, outcome: Outcome) -> (DetectState, TaskView) {
        match self {
            DetectState::Resetting => match outcome {
                Outcome::Completed { .. } => (
                    DetectState::Reading(ReadState::start(MspiId::Mspi3)),
                    transact(crate::session::mr_read(MspiId::Mspi3, 0, 16)),
                ),
                Outcome::Failed(e) => (
                    DetectState::Finished,
                    finish(Err(crate::session::timeout_at(GLOBAL_RESET, e))),
                ),
            },
            DetectState::Reading(read) => {
                let (after, step) = read.next(outcome);
                match step {
                    ReadMove::Transact(t) => (DetectState::Reading(after), transact(t)),
                    ReadMove::Done(Ok(regs)) => (
                        DetectState::Finished,
                        finish(vendor_checked(regs)),
                    ),
                    ReadMove::Done(Err(e)) => (DetectState::Finished, finish(Err(e))),
                }
            },
            DetectState::Finished => (self, finish(Err(PsramError::NotImplemented))),
        }
    }
}

impl Detect {
    /// Begins a detection: its state and its first task. The buses are prepared,
    /// then the chip is reset, since it may still be in the mode of an earlier run.
    pub fn begin() -> (r: (Detect, Task))
        ensures
            r.0@ == DetectState::Resetting,
            r.1.wf(),
            r.1@ == (TaskView {
                accesses: crate::program::prepare_accesses(),
                goal: Aim::Transact(crate::session::reset_command()),
            }),
    {
        let mut accesses: Vec<Access> = Vec::new();
        prepare_for_mr_read(&mut accesses);
        assert(accesses@ == crate::program::prepare_accesses());
        (Detect::Resetting, Task { accesses, goal: Goal::Transact(global_reset()) })
    }

    /// Takes the result of the last transaction.
    pub fn advance(&mut self, result: Result<Completion, TransactionError>) -> (r: Task)
        requires
            old(self)@.wf(),
            old(self)@ != DetectState::Finished,
        ensures
            final(self)@.wf(),
            r.wf(),
            final(self)@ == old(self)@.next(crate::transaction::outcome(result)).0,
            r@ == old(self)@.next(crate::transaction::outcome(result)).1,
            r.goal is Finish <==> final(self)@ == DetectState::Finished,
    {
        match self {
            Detect::Resetting => match global_reset_result(result) {
                Ok(_) => {
                    let (read, first) = read_mode_registers(MspiId::Mspi3);
                    *self = Detect::Reading(read);
                    Task::transact(first)
                },
                Err(e) => {
                    *self = Detect::Finished;
                    Task::finish(Err(e))
                },
            },
            Detect::Reading(read) => {
                match read.advance(result) {
                    ReadStep::Transact(t) => Task::transact(t),
                    ReadStep::Done(r) => {
                        *self = Detect::Finished;
                        match r {
                            Ok(regs) => {
                                let vendor: u8 = regs.mr1.vendor_id();
                                if vendor == AP_HEX_PSRAM_VENDOR_ID {
                                    Task::finish(Ok(regs))
                                } else {
                                    Task::finish(
                                        Err(
                                            PsramError::ChipDetectionFailed {
                                                reported_vendor_id: vendor,
                                            },
                                        ),
                                    )
                                }
                            },
                            Err(e) => Task::finish(Err(e)),
                        }
                    },
                }
            },
            Detect::Finished => Task::finish(Err(PsramError::NotImplemented)),
        }
    }
}

/// Complete bring-up in progress.
#[derive(Debug)]
pub enum Init {
    /// The mode registers are being read, for diagnosis.
    Reading(ModeRegisterRead),
    /// The chip is being programmed; the registers read before are kept.
    Writing(ModeRegisterWrite, ModeRegisters),
    Finished,
}

/// State of an [`Init`].
pub enum InitState {
    Reading(ReadState),
    Writing(WriteState, ModeRegisters),
    Finished,
}

impl View for Init {
    type V = InitState;

    open spec fn view(&self) -> InitState {
        match *self {
            Init::Reading(read) => InitState::Reading(read@),
            Init::Writing(write, regs) => InitState::Writing(write@, regs),
            Init::Finished => InitState::Finished,
        }
    }
}

/// The accesses that open the window once the chip is programmed: cache-side
/// controller, then MMU, then caches.
pub open spec fn window_accesses() -> Seq<Access> {
    crate::program::cache_side_accesses() + crate::program::mmu_accesses(
        crate::program::window_pages(),
    ) + seq![Access::InvalidateCaches { map: crate::program::CACHE_MAP_L2 }]
}

impl InitState {
    pub open spec fn wf(self) -> bool {
        match self {
            InitState::Reading(read) => 0 <= read.pending < 4 && read.mspi == MspiId::Mspi3,
            InitState::Writing(write, _) => 0 <= write.pending < 6 && !write.failed,
            InitState::Finished => true,
        }
    }

    /// What follows when the last transaction ended in `outcome`. A read that
    /// failed leaves an all-zero snapshot. A failure to program is passed over,
    /// since the chip may be in its mode already. The snapshot in the result shows
    /// the registers that were programmed as they were left.
    pub open spec fn next(self, outcome: Outcome) -> (InitState, TaskView) {
        match self {
            InitState::Reading(read) => {
                let (after, step) = read.next(outcome);
                match step {
                    ReadMove::Transact(t) => (InitState::Reading(after), transact(t)),
                    ReadMove::Done(r) => (
                        InitState::Writing(WriteState::start(), read_or_zero(r)),
                        transact(crate::session::mr_read(MspiId::Mspi3, 0, 16)),
                    ),
                }
            },
            InitState::Writing(write, regs) => {
                let (after, step) = write.next(outcome);
                match step {
                    WriteMove::Transact(t) => (InitState::Writing(after, regs), transact(t)),
                    WriteMove::Done(_) => (
                        InitState::Finished,
                        TaskView {
                            accesses: window_accesses(),
                            goal: Aim::Finish(Ok(after.programmed(regs))),
                        },
                    ),
                }
            },
            InitState::Finished => (self, finish(Err(PsramError::NotImplemented))),
        }
    }
}

/// The registers of a read that succeeded, else an all-zero snapshot.
pub open spec fn read_or_zero(r: Result<ModeRegisters, PsramError>) -> ModeRegisters {
    match r {
        Ok(regs) => regs,
        Err(_) => ModeRegisters::zero(),
    }
}

impl Init {
    /// The programming conversation holds the default configuration.
    pub open spec fn wf(self) -> bool {
        &&& self@.wf()
        &&& self matches Init::Writing(write, _) ==> write.wf()
    }

    /// Begins a bring-up: its state and its first task. The buses are prepared,
    /// then the mode registers are read.
    pub fn begin() -> (r: (Init, Task))
        ensures
            r.0@ == InitState::Reading(ReadState::start(MspiId::Mspi3)),
            r.0.wf(),
            r.1.wf(),
            r.1@ == (TaskView {
                accesses: crate::program::prepare_accesses(),
                goal: Aim::Transact(crate::session::mr_read(MspiId::Mspi3, 0, 16)),
            }),
    {
        let mut accesses: Vec<Access> = Vec::new();
        prepare_for_mr_read(&mut accesses);
        assert(accesses@ == crate::program::prepare_accesses());
        let (read, first) = read_mode_registers(MspiId::Mspi3);
        (Init::Reading(read), Task { accesses, goal: Goal::Transact(first) })
    }

    /// Takes the result of the last transaction.
    pub fn advance(&mut self, result: Result<Completion, TransactionError>) -> (r: Task)
        requires
            old(self).wf(),
            old(self)@ != InitState::Finished,
        ensures
            final(self).wf(),
            r.wf(),
            final(self)@ == old(self)@.next(crate::transaction::outcome(result)).0,
            r@ == old(self)@.next(crate::transaction::outcome(result)).1,
            r.goal is Finish <==> final(self)@ == InitState::Finished,
    {
        match self {
            Init::Reading(read) => match read.advance(result) {
                ReadStep::Transact(t) => Task::transact(t),
                ReadStep::Done(r) => {
                    let regs = match r {
                        Ok(regs) => regs,
                        Err(_) => ModeRegisters::default(),
                    };
                    let (write, first) = write_mode_register_config();
                    *self = Init::Writing(write, regs);
                    Task::transact(first)
                },
            },
            Init::Writing(write, regs) => match write.advance(result) {
                WriteStep::Transact(t) => Task::transact(t),
                WriteStep::Done(_) => {
                    let regs = write.programmed(*regs);
                    *self = Init::Finished;
                    let mut accesses: Vec<Access> = Vec::new();
                    config_mspi_cache_side(&mut accesses);
                    mmu_map_psram_window(&mut accesses);
                    cache_invalidate_psram_window(&mut accesses);
                    assert(accesses@ == window_accesses());
                    Task { accesses, goal: Goal::Finish(Ok(regs)) }
                },
            },
            Init::Finished => Task::finish(Err(PsramError::NotImplemented)),
        }
    }
}

/// The window is opened in this order: the cache-side controller is configured, the
/// 512 pages are mapped, and last of all the L2 cache, bit 5 of the map, is
/// invalidated.
pub proof fn law_window_order(page: int)
    requires
        0 <= page < 512,
    ensures
        ({
            let all = window_accesses();
            let config = crate::program::cache_side_accesses().len() as int;
            &&& all.len() == config + 1024 + 1
            &&& all.take(config) == crate::program::cache_side_accesses()
            &&& all[config + 2 * page] matches Access::Store { addr, value } && addr == 0x5008_E380
                && value == page
            &&& all[config + 2 * page + 1] matches Access::Store { addr, value } && addr
                == 0x5008_E37C && value == page + 0xC00
            &&& all.last() == (Access::InvalidateCaches { map: 32 })
        }),
{
    crate::program::law_mmu_accesses(page);
    assert(window_accesses().take(crate::program::cache_side_accesses().len() as int)
        == crate::program::cache_side_accesses());
}

} // verus!
