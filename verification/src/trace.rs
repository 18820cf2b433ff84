//! Whole detections and bring-ups, and what holds of them.
use vstd::prelude::*;

use crate::access::{Access, Field};
use crate::bringup::{Aim, DetectState, InitState, TaskView};
use crate::error::PsramError;
use crate::mode_regs::{ModeRegisters, Mr0, Mr1, Mr2, Mr3, Mr4, Mr8};
use crate::mspi::MspiId;
use crate::program::Mmu;
use crate::session::{ReadState, WriteState, GLOBAL_RESET};
use crate::transaction::{Answers, Outcome, TransactionError, TransactionState};
use crate::{PSRAM_VADDR_BASE, PSRAM_VADDR_SIZE};

verus! {

/// How the transactions of a detection or a bring-up end.
pub struct Chip {
    /// The reset.
    pub reset: Outcome,
    /// Each mode register read of the snapshot.
    pub reads: spec_fn(int) -> Outcome,
    /// Each transaction of the programming.
    pub writes: spec_fn(int) -> Outcome,
}

/// One thing that a detection or a bring-up does.
pub enum Event {
    /// An access is performed.
    Performed(Access),
    /// A transaction is run.
    Ran(TransactionState),
}

/// Accesses as events.
pub open spec fn performed(accesses: Seq<Access>) -> Seq<Event> {
    accesses.map_values(|a: Access| Event::Performed(a))
}

/// Transactions as events.
pub open spec fn ran(transactions: Seq<TransactionState>) -> Seq<Event> {
    transactions.map_values(|t: TransactionState| Event::Ran(t))
}

/// All that a detection or a bring-up does.
#[verifier::ext_equal]
pub struct Trace {
    /// Accesses and transactions, in order.
    pub events: Seq<Event>,
    /// The accesses, in order.
    pub accesses: Seq<Access>,
    /// The transactions, in order.
    pub transactions: Seq<TransactionState>,
    pub result: Result<ModeRegisters, PsramError>,
}

/// The trace that begins with `task`, if `rest` follows its transaction.
pub open spec fn prepend(task: TaskView, rest: Trace) -> Trace {
    match task.goal {
        Aim::Transact(t) => Trace {
            events: performed(task.accesses) + seq![Event::Ran(t)] + rest.events,
            accesses: task.accesses + rest.accesses,
            transactions: seq![t] + rest.transactions,
            result: rest.result,
        },
        Aim::Finish(result) => Trace {
            events: performed(task.accesses),
            accesses: task.accesses,
            transactions: seq![],
            result,
        },
    }
}

impl DetectState {
    /// How the awaited transaction ends on `chip`.
    pub open spec fn answer(self, chip: Chip) -> Outcome {
        match self {
            DetectState::Reading(read) => (chip.reads)(read.pending),
            _ => chip.reset,
        }
    }

    pub open spec fn tasks_left(self) -> int {
        match self {
            DetectState::Resetting => 5,
            DetectState::Reading(read) => 4 - read.pending,
            DetectState::Finished => 0,
        }
    }

    /// What is still done from this state on.
    pub open spec fn run(self, chip: Chip) -> Trace
        decreases self.tasks_left(),
        when self.wf() && self != DetectState::Finished
    {
        let (after, task) = self.next(self.answer(chip));
        match task.goal {
            Aim::Transact(_) => prepend(task, after.run(chip)),
            Aim::Finish(_) => prepend(task, arbitrary()),
        }
    }
}

impl InitState {
    /// How the awaited transaction ends on `chip`.
    pub open spec fn answer(self, chip: Chip) -> Outcome {
        match self {
            InitState::Reading(read) => (chip.reads)(read.pending),
            InitState::Writing(write, _) => (chip.writes)(write.pending),
            InitState::Finished => chip.reset,
        }
    }

    pub open spec fn tasks_left(self) -> int {
        match self {
            InitState::Reading(read) => 11 - read.pending,
            InitState::Writing(write, _) => 6 - write.pending,
            InitState::Finished => 0,
        }
    }

    /// What is still done from this state on.
    pub open spec fn run(self, chip: Chip) -> Trace
        decreases self.tasks_left(),
        when self.wf() && self != InitState::Finished
    {
        let (after, task) = self.next(self.answer(chip));
        match task.goal {
            Aim::Transact(_) => prepend(task, after.run(chip)),
            Aim::Finish(_) => prepend(task, arbitrary()),
        }
    }
}

/// A whole detection.
pub open spec fn detect_trace(chip: Chip) -> Trace {
    prepend(
        TaskView {
            accesses: crate::program::prepare_accesses(),
            goal: Aim::Transact(crate::session::reset_command()),
        },
        DetectState::Resetting.run(chip),
    )
}

/// A whole bring-up.
pub open spec fn init_trace(chip: Chip) -> Trace {
    prepend(
        TaskView {
            accesses: crate::program::prepare_accesses(),
            goal: Aim::Transact(crate::session::mr_read(MspiId::Mspi3, 0, 16)),
        },
        InitState::Reading(ReadState::start(MspiId::Mspi3)).run(chip),
    )
}

/// Number of transactions that a conversation of up to `n` makes if the first
/// `k` succeed: it stops after the first that fails.
pub open spec fn made(outcomes: spec_fn(int) -> Outcome, k: int, n: int) -> int
    decreases n - k,
{
    if k >= n {
        n
    } else if outcomes(k) is Failed {
        k + 1
    } else {
        made(outcomes, k + 1, n)
    }
}

/// The bytes that a transaction received.
pub open spec fn bytes(outcome: Outcome) -> Seq<u8> {
    outcome->Completed_miso
}

/// The snapshot that four reads make up.
pub open spec fn snapshot(reads: spec_fn(int) -> Outcome) -> ModeRegisters {
    ModeRegisters {
        mr0: Mr0(crate::session::byte(bytes(reads(0)), 0)),
        mr1: Mr1(crate::session::byte(bytes(reads(0)), 1)),
        mr2: Mr2(crate::session::byte(bytes(reads(1)), 0)),
        mr3: Mr3(crate::session::byte(bytes(reads(1)), 1)),
        mr4: Mr4(crate::session::byte(bytes(reads(2)), 0)),
        mr8: Mr8(crate::session::byte(bytes(reads(3)), 0)),
    }
}

/// The result of the four reads: the snapshot, or the timeout of the first read
/// that fails.
pub open spec fn read_result(reads: spec_fn(int) -> Outcome) -> Result<ModeRegisters, PsramError> {
    let last = made(reads, 0, 4) - 1;
    match reads(last) {
        Outcome::Completed { .. } => Ok(snapshot(reads)),
        Outcome::Failed(e) => Err(
            crate::session::timeout_at(crate::session::read_addr(last), e),
        ),
    }
}

/// The `k`-th read of the snapshot.
pub open spec fn nth_read(k: int) -> TransactionState {
    crate::session::mr_read(
        MspiId::Mspi3,
        crate::session::read_addr(k),
        crate::session::read_bitlen(k),
    )
}

/// The reads of the snapshot from the `k`-th on.
pub open spec fn reads_from(k: int, reads: spec_fn(int) -> Outcome) -> Seq<TransactionState> {
    Seq::new((made(reads, 0, 4) - k) as nat, |j: int| nth_read(k + j))
}

/// The `k`-th transaction of the programming: read `MR0` and `MR1`, read `MR4`
/// and its neighbour, write both pairs back with the first byte patched, read
/// `MR8`, write it back patched.
pub open spec fn nth_write(k: int, writes: spec_fn(int) -> Outcome) -> TransactionState {
    let b = |i: int, j: int| crate::session::byte(bytes(writes(i)), j);
    let mspi = MspiId::Mspi3;
    if k == 0 {
        crate::session::mr_read(mspi, 0, 16)
    } else if k == 1 {
        crate::session::mr_read(mspi, 4, 16)
    } else if k == 2 {
        crate::session::mr_write(mspi, 0, crate::session::patched_mr0(Mr0(b(0, 0))).0, b(0, 1))
    } else if k == 3 {
        crate::session::mr_write(mspi, 4, crate::session::patched_mr4(Mr4(b(1, 0))).0, b(1, 1))
    } else if k == 4 {
        crate::session::mr_read(mspi, 8, 8)
    } else {
        crate::session::mr_write(mspi, 8, crate::session::patched_mr8(Mr8(b(4, 0))).0, 0)
    }
}

/// The transactions of the programming from the `k`-th on.
pub open spec fn writes_from(k: int, writes: spec_fn(int) -> Outcome) -> Seq<TransactionState> {
    Seq::new((made(writes, 0, 6) - k) as nat, |j: int| nth_write(k + j, writes))
}

/// If the first `k` transactions succeed, counting may start at `k`.
proof fn lemma_made(outcomes: spec_fn(int) -> Outcome, k: int, n: int)
    requires
        0 <= k <= n,
        forall|i: int| 0 <= i < k ==> #[trigger] outcomes(i) is Completed,
    ensures
        made(outcomes, 0, n) == made(outcomes, k, n),
        k < n ==> k < made(outcomes, k, n) <= n,
    decreases k,
{
    if k > 0 {
        lemma_made(outcomes, k - 1, n);
        assert(outcomes(k - 1) is Completed);
    }
    lemma_made_bounds(outcomes, k, n);
}

proof fn lemma_made_bounds(outcomes: spec_fn(int) -> Outcome, k: int, n: int)
    requires
        k <= n,
    ensures
        made(outcomes, k, n) <= n,
        k < n ==> k < made(outcomes, k, n),
        k == n ==> made(outcomes, k, n) == n,
    decreases n - k,
{
    if k < n {
        lemma_made_bounds(outcomes, k + 1, n);
    }
}

/// The registers read so far are those of the snapshot.
pub open spec fn in_progress(read: ReadState, reads: spec_fn(int) -> Outcome) -> bool {
    let all = snapshot(reads);
    &&& read.mspi == MspiId::Mspi3
    &&& 0 <= read.pending < 4
    &&& forall|i: int| 0 <= i < read.pending ==> #[trigger] reads(i) is Completed
    &&& read.pending >= 1 ==> read.regs.mr0 == all.mr0 && read.regs.mr1 == all.mr1
    &&& read.pending >= 2 ==> read.regs.mr2 == all.mr2 && read.regs.mr3 == all.mr3
    &&& read.pending >= 3 ==> read.regs.mr4 == all.mr4
}

/// What a step of the snapshot leads to.
proof fn lemma_read_step(read: ReadState, reads: spec_fn(int) -> Outcome)
    requires
        in_progress(read, reads),
    ensures
        ({
            let (after, step) = read.next(reads(read.pending));
            match step {
                crate::session::ReadMove::Transact(t) => {
                    &&& in_progress(after, reads)
                    &&& after.pending == read.pending + 1
                    &&& t == nth_read(read.pending + 1)
                    &&& read.pending + 1 < made(reads, 0, 4)
                },
                crate::session::ReadMove::Done(r) => {
                    &&& r == read_result(reads)
                    &&& read.pending + 1 == made(reads, 0, 4)
                },
            }
        }),
{
    lemma_made(reads, read.pending, 4);
    lemma_made_bounds(reads, read.pending + 1, 4);
}

proof fn lemma_detect_reading(read: ReadState, chip: Chip)
    requires
        in_progress(read, chip.reads),
    ensures
        DetectState::Reading(read).run(chip) == (Trace {
            events: ran(reads_from(read.pending + 1, chip.reads)),
            accesses: seq![],
            transactions: reads_from(read.pending + 1, chip.reads),
            result: detect_verdict(read_result(chip.reads)),
        }),
    decreases 4 - read.pending,
{
    lemma_read_step(read, chip.reads);
    let state = DetectState::Reading(read);
    let (after, task) = state.next(state.answer(chip));
    if let DetectState::Reading(next_read) = after {
        lemma_detect_reading(next_read, chip);
        assert(reads_from(read.pending + 1, chip.reads) == seq![nth_read(read.pending + 1)]
            + reads_from(read.pending + 2, chip.reads));
        assert(state.run(chip) == prepend(task, after.run(chip)));
    } else {
        assert(reads_from(read.pending + 1, chip.reads) == Seq::<TransactionState>::empty());
    }
}

/// What detection makes of the result of the reads.
pub open spec fn detect_verdict(read: Result<ModeRegisters, PsramError>) -> Result<
    ModeRegisters,
    PsramError,
> {
    match read {
        Ok(regs) => crate::bringup::vendor_checked(regs),
        Err(e) => Err(e),
    }
}

/// Detection prepares the buses, resets the chip and, if the reset succeeds,
/// reads the mode registers. It gives them if all reads succeed and the vendor is
/// the expected one; else it gives the timeout of the transaction that failed, or
/// the vendor that the chip reports.
pub proof fn law_detect(chip: Chip)
    ensures
        detect_trace(chip) == match chip.reset {
            Outcome::Failed(e) => Trace {
                events: performed(crate::program::prepare_accesses()) + ran(
                    seq![crate::session::reset_command()],
                ),
                accesses: crate::program::prepare_accesses(),
                transactions: seq![crate::session::reset_command()],
                result: Err(crate::session::timeout_at(GLOBAL_RESET, e)),
            },
            Outcome::Completed { .. } => Trace {
                events: performed(crate::program::prepare_accesses()) + ran(
                    seq![crate::session::reset_command()] + reads_from(0, chip.reads),
                ),
                accesses: crate::program::prepare_accesses(),
                transactions: seq![crate::session::reset_command()] + reads_from(0, chip.reads),
                result: detect_verdict(read_result(chip.reads)),
            },
        },
{
    let state = DetectState::Resetting;
    let (after, task) = state.next(state.answer(chip));
    if let DetectState::Reading(read) = after {
        lemma_detect_reading(read, chip);
        lemma_made_bounds(chip.reads, 0, 4);
        assert(state.run(chip) == prepend(task, after.run(chip)));
        assert(reads_from(0, chip.reads) == seq![nth_read(0)] + reads_from(1, chip.reads));
    }
    assert(detect_trace(chip).accesses == crate::program::prepare_accesses());
}

/// Detection succeeds exactly when the reset and all four reads succeed and the
/// chip reports the vendor `AP_HEX_PSRAM_VENDOR_ID`.
pub proof fn law_detect_verifies_vendor(chip: Chip)
    ensures
        detect_trace(chip).result is Ok <==> {
            &&& chip.reset is Completed
            &&& (chip.reads)(0) is Completed
            &&& (chip.reads)(1) is Completed
            &&& (chip.reads)(2) is Completed
            &&& (chip.reads)(3) is Completed
            &&& snapshot(chip.reads).mr1@.vendor_id == 0x0D
        },
        detect_trace(chip).result matches Ok(regs) ==> regs.mr1@.vendor_id == 0x0D && regs
            == snapshot(chip.reads),
{
    law_detect(chip);
    reveal_with_fuel(made, 5);
}

/// The bytes read so far by the programming are those that the chip gave.
pub open spec fn programming(write: WriteState, writes: spec_fn(int) -> Outcome) -> bool {
    &&& 0 <= write.pending < 6
    &&& !write.failed
    &&& forall|i: int| 0 <= i < write.pending ==> #[trigger] writes(i) is Completed
    &&& write.pending >= 1 ==> write.mr0 == crate::session::byte(bytes(writes(0)), 0) && write.mr1
        == crate::session::byte(bytes(writes(0)), 1)
    &&& write.pending >= 2 ==> write.mr4 == crate::session::byte(bytes(writes(1)), 0)
        && write.mr4_next == crate::session::byte(bytes(writes(1)), 1)
    &&& write.pending >= 5 ==> write.mr8 == crate::session::byte(bytes(writes(4)), 0)
}

/// Number of transactions of the programming that succeed.
pub open spec fn succeeded(writes: spec_fn(int) -> Outcome) -> int {
    let n = made(writes, 0, 6);
    if writes(n - 1) is Failed {
        n - 1
    } else {
        n
    }
}

/// The snapshot `regs`, with the registers that were written as they were
/// written: `MR0` and `MR1` once three transactions succeeded, `MR4` once four did,
/// `MR8` once all six did.
pub open spec fn as_programmed(
    regs: ModeRegisters,
    writes: spec_fn(int) -> Outcome,
) -> ModeRegisters {
    let b = |i: int, j: int| crate::session::byte(bytes(writes(i)), j);
    let n = succeeded(writes);
    ModeRegisters {
        mr0: if n >= 3 {
            crate::session::patched_mr0(Mr0(b(0, 0)))
        } else {
            regs.mr0
        },
        mr1: if n >= 3 {
            Mr1(b(0, 1))
        } else {
            regs.mr1
        },
        mr4: if n >= 4 {
            crate::session::patched_mr4(Mr4(b(1, 0)))
        } else {
            regs.mr4
        },
        mr8: if n >= 6 {
            crate::session::patched_mr8(Mr8(b(4, 0)))
        } else {
            regs.mr8
        },
        ..regs
    }
}

proof fn lemma_init_writing(write: WriteState, regs: ModeRegisters, chip: Chip)
    requires
        programming(write, chip.writes),
    ensures
        InitState::Writing(write, regs).run(chip) == (Trace {
            events: ran(writes_from(write.pending + 1, chip.writes)) + performed(
                crate::bringup::window_accesses(),
            ),
            accesses: crate::bringup::window_accesses(),
            transactions: writes_from(write.pending + 1, chip.writes),
            result: Ok(as_programmed(regs, chip.writes)),
        }),
    decreases 6 - write.pending,
{
    lemma_made(chip.writes, write.pending, 6);
    lemma_made_bounds(chip.writes, write.pending + 1, 6);
    let state = InitState::Writing(write, regs);
    let (after, task) = state.next(state.answer(chip));
    if let InitState::Writing(next_write, _) = after {
        lemma_init_writing(next_write, regs, chip);
        assert(task.goal == Aim::Transact(nth_write(write.pending + 1, chip.writes)));
        assert(writes_from(write.pending + 1, chip.writes) == seq![
            nth_write(write.pending + 1, chip.writes),
        ] + writes_from(write.pending + 2, chip.writes));
        assert(state.run(chip) == prepend(task, after.run(chip)));
    } else {
        assert(writes_from(write.pending + 1, chip.writes) == Seq::<TransactionState>::empty());
    }
}

proof fn lemma_init_reading(read: ReadState, chip: Chip)
    requires
        in_progress(read, chip.reads),
    ensures
        InitState::Reading(read).run(chip) == (Trace {
            events: ran(reads_from(read.pending + 1, chip.reads)) + ran(
                writes_from(0, chip.writes),
            ) + performed(crate::bringup::window_accesses()),
            accesses: crate::bringup::window_accesses(),
            transactions: reads_from(read.pending + 1, chip.reads) + writes_from(0, chip.writes),
            result: Ok(
                as_programmed(
                    crate::bringup::read_or_zero(read_result(chip.reads)),
                    chip.writes,
                ),
            ),
        }),
    decreases 4 - read.pending,
{
    lemma_read_step(read, chip.reads);
    let state = InitState::Reading(read);
    let (after, task) = state.next(state.answer(chip));
    assert(state.run(chip) == prepend(task, after.run(chip)));
    match after {
        InitState::Reading(next_read) => {
            lemma_init_reading(next_read, chip);
            assert(reads_from(read.pending + 1, chip.reads) == seq![nth_read(read.pending + 1)]
                + reads_from(read.pending + 2, chip.reads));
        },
        InitState::Writing(write, regs) => {
            lemma_init_writing(write, regs, chip);
            lemma_made_bounds(chip.writes, 0, 6);
            assert(reads_from(read.pending + 1, chip.reads) == Seq::<TransactionState>::empty());
            assert(writes_from(0, chip.writes) == seq![nth_write(0, chip.writes)] + writes_from(
                1,
                chip.writes,
            ));
        },
        InitState::Finished => {},
    }
}

/// Bring-up does the same whatever the chip answers, in this order: it prepares the
/// buses, reads the mode registers as far as the reads succeed, programs the chip
/// as far as that succeeds, and only then opens the window. It never fails; it gives
/// the registers that were read, or zeros if a read failed, with those that were
/// programmed as they were left.
pub proof fn law_init(chip: Chip)
    ensures
        init_trace(chip) == (Trace {
            events: performed(crate::program::prepare_accesses()) + ran(
                reads_from(0, chip.reads),
            ) + ran(writes_from(0, chip.writes)) + performed(crate::bringup::window_accesses()),
            accesses: crate::program::prepare_accesses() + crate::bringup::window_accesses(),
            transactions: reads_from(0, chip.reads) + writes_from(0, chip.writes),
            result: Ok(
                as_programmed(
                    crate::bringup::read_or_zero(read_result(chip.reads)),
                    chip.writes,
                ),
            ),
        }),
{
    lemma_init_reading(ReadState::start(MspiId::Mspi3), chip);
    lemma_made_bounds(chip.reads, 0, 4);
    assert(reads_from(0, chip.reads) == seq![nth_read(0)] + reads_from(1, chip.reads));
}

/// The transaction reads mode registers through the command-side controller.
pub open spec fn reads_registers(t: TransactionState) -> bool {
    t == crate::session::mr_read(MspiId::Mspi3, t.request.addr, t.request.miso_bitlen)
}

/// The transaction writes mode registers through the command-side controller.
pub open spec fn writes_registers(t: TransactionState) -> bool {
    t == crate::session::mr_write(
        MspiId::Mspi3,
        t.request.addr,
        t.request.mosi_data[0],
        t.request.mosi_data[1],
    )
}

/// What every step of a bring-up keeps to, whatever the chip answers. A task that
/// runs a transaction makes no accesses, and the transaction reads or writes mode
/// registers through the command-side controller. Programming begins with a read,
/// and the snapshot is not taken up again after it. The window is opened by the
/// task that finishes, and only programming leads to that.
pub proof fn law_init_order(state: InitState, outcome: Outcome)
    requires
        state.wf(),
        state != InitState::Finished,
    ensures
        ({
            let (after, task) = state.next(outcome);
            &&& after.wf()
            &&& task.goal matches Aim::Transact(t) ==> {
                &&& task.accesses == Seq::<Access>::empty()
                &&& reads_registers(t) || writes_registers(t)
                &&& state is Reading ==> reads_registers(t)
            }
            &&& state is Writing ==> !(after is Reading)
            &&& task.goal is Finish <==> after == InitState::Finished
            &&& task.goal matches Aim::Finish(result) ==> {
                &&& state is Writing
                &&& result is Ok
                &&& task.accesses == crate::bringup::window_accesses()
            }
        }),
{
}

/// After a bring-up every address of the window leads to the PSRAM, in order and
/// from its first byte on, whatever the MMU held before and whatever the chip
/// answered. The caches are invalidated last, after the mapping.
pub proof fn law_init_opens_window(chip: Chip, mmu: Mmu, vaddr: int)
    requires
        PSRAM_VADDR_BASE <= vaddr < PSRAM_VADDR_BASE + PSRAM_VADDR_SIZE,
    ensures
        crate::program::translate(
            crate::program::mmu_after(mmu, init_trace(chip).accesses),
            vaddr,
        ) == Some(vaddr - PSRAM_VADDR_BASE),
        init_trace(chip).accesses.last() == (Access::InvalidateCaches {
            map: crate::program::CACHE_MAP_L2,
        }),
{
    law_init(chip);
    let prepare = crate::program::prepare_accesses();
    let cache_side = crate::program::cache_side_accesses();
    let map = crate::program::mmu_accesses(crate::program::window_pages());
    let invalidate = Access::InvalidateCaches { map: crate::program::CACHE_MAP_L2 };
    let all = init_trace(chip).accesses;
    let before = prepare + cache_side;
    assert(all.last() == invalidate);
    assert(all.drop_last() == before + map);
    crate::program::lemma_mmu_concat(mmu, before, map);
    crate::program::law_window_mapped(crate::program::mmu_after(mmu, before), vaddr);
}

/// A bring-up leaves in each field of the controllers what the preparation and
/// then the cache-side configuration leave in it, whatever the chip answered.
pub proof fn law_init_fields(chip: Chip, field: Field, before: Option<int>)
    requires
        field.on_device(),
    ensures
        crate::access::field_after(init_trace(chip).accesses, field, before)
            == crate::access::field_after(
            crate::program::cache_side_accesses(),
            field,
            crate::access::field_after(crate::program::prepare_accesses(), field, before),
        ),
{
    law_init(chip);
    let prepare = crate::program::prepare_accesses();
    let cache_side = crate::program::cache_side_accesses();
    let map = crate::program::mmu_accesses(crate::program::window_pages());
    let invalidate = seq![Access::InvalidateCaches { map: crate::program::CACHE_MAP_L2 }];
    let both = prepare + cache_side;
    let held = crate::access::field_after(both, field, before);
    assert(init_trace(chip).accesses == (both + map) + invalidate);
    crate::access::lemma_field_after_concat(both + map, invalidate, field, before);
    crate::access::lemma_field_after_concat(both, map, field, before);
    crate::access::lemma_field_after_concat(prepare, cache_side, field, before);
    crate::program::law_mapping_leaves_fields(field, held);
}

/// If the chip takes all of the programming, the bring-up reports it in sixteen
/// lane mode with 2048-byte wrapping bursts, fixed latency type and the latencies
/// of 200 MHz, and with the `MR1` that the programming read, whether or not the
/// snapshot succeeded.
pub proof fn law_init_programs_hex_mode(chip: Chip)
    requires
        forall|i: int| 0 <= i < 6 ==> #[trigger] (chip.writes)(i) is Completed,
    ensures
        init_trace(chip).result matches Ok(regs) && {
            &&& regs.mr0@.drive_str == 0
            &&& regs.mr0@.read_latency == 4
            &&& regs.mr0@.lt
            &&& regs.mr1 == Mr1(crate::session::byte(bytes((chip.writes)(0)), 1))
            &&& regs.mr4@.wr_latency == 1
            &&& regs.mr8@.bl == 3
            &&& !regs.mr8@.bt
            &&& regs.mr8@.rbx
            &&& regs.mr8@.x16
        },
{
    law_init(chip);
    lemma_made(chip.writes, 6, 6);
    lemma_made_bounds(chip.writes, 6, 6);
    assert((chip.writes)(5) is Completed);
    let b = |i: int| crate::session::byte(bytes((chip.writes)(i)), 0);
    crate::session::law_patch_fields(Mr0(b(0)), Mr4(b(1)), Mr8(b(4)));
}

/// On a chip that answers nothing, detection fails with the timeout of the reset,
/// while bring-up succeeds with an all-zero snapshot.
pub proof fn law_silent_chip(chip: Chip)
    requires
        chip.reset is Failed,
        (chip.reads)(0) is Failed,
        (chip.writes)(0) is Failed,
    ensures
        detect_trace(chip).result == Err::<ModeRegisters, PsramError>(
            crate::session::timeout_at(GLOBAL_RESET, chip.reset->Failed_0),
        ),
        init_trace(chip).result == Ok::<ModeRegisters, PsramError>(ModeRegisters::zero()),
{
    law_detect(chip);
    law_init(chip);
}

/// On a device whose command engine never becomes idle, detection gives up after
/// a million polls of the reset and reports the last content of the command
/// register.
pub proof fn law_unresponsive_device(answers: Answers, chip: Chip)
    requires
        forall|i: int| crate::transaction::busy(#[trigger] (answers.polls)(i)),
        chip.reset == crate::transaction::run(crate::session::reset_command(), answers),
    ensures
        detect_trace(chip).result == Err::<ModeRegisters, PsramError>(
            PsramError::TransactionTimeout {
                addr: 0xFFFF,
                iters: 1_000_000,
                cmd_reg: (answers.polls)(999_999),
            },
        ),
{
    law_detect(chip);
    let reset = crate::session::reset_command();
    crate::transaction::law_transaction_outcome(reset.request, reset.max_iters, answers, 1_000_000);
}

/// Exactly the first `n` of `most` transactions succeed, or all of them.
pub open spec fn first_succeed(outcomes: spec_fn(int) -> Outcome, n: int, most: int) -> bool {
    &&& 0 <= n <= most
    &&& forall|i: int| 0 <= i < n ==> #[trigger] outcomes(i) is Completed
    &&& n < most ==> outcomes(n) is Failed
}

/// A conversation makes one transaction more than succeed, or all.
proof fn lemma_made_count(outcomes: spec_fn(int) -> Outcome, n: int, most: int)
    requires
        first_succeed(outcomes, n, most),
        most > 0,
    ensures
        made(outcomes, 0, most) == if n < most {
            n + 1
        } else {
            most
        },
{
    lemma_made(outcomes, n, most);
    lemma_made_bounds(outcomes, n, most);
    if n == most {
        assert(outcomes(most - 1) is Completed);
    }
}

/// What detection gives, by the bytes that the chip sends. If the reset and all four
/// reads succeed, the registers are the bytes received, unchanged (a byte that did
/// not arrive is 0), provided that the low five bits of the second one are 0x0D; if
/// they are not, these bits are the vendor that is refused. Otherwise the first
/// transaction that fails decides: its timeout is given, with the address 0xFFFF for
/// the reset and 0, 2, 4 or 8 for a read.
pub proof fn law_detect_result(chip: Chip, n: int)
    requires
        first_succeed(chip.reads, n, 4),
    ensures
        ({
            let at = |o: Outcome, i: int|
                if i < o->Completed_miso.len() {
                    o->Completed_miso[i]
                } else {
                    0u8
                };
            let result = detect_trace(chip).result;
            match chip.reset {
                Outcome::Failed(TransactionError::Timeout { iters, cmd_reg_value }) => result
                    == Err::<ModeRegisters, PsramError>(
                    PsramError::TransactionTimeout {
                        addr: 0xFFFF,
                        iters,
                        cmd_reg: cmd_reg_value,
                    },
                ),
                Outcome::Completed { .. } => if n == 4 {
                    let vendor = at((chip.reads)(0), 1) % 32;
                    if vendor == 0x0D {
                        &&& result matches Ok(regs)
                        &&& regs.mr0.0 == at((chip.reads)(0), 0)
                        &&& regs.mr1.0 == at((chip.reads)(0), 1)
                        &&& regs.mr2.0 == at((chip.reads)(1), 0)
                        &&& regs.mr3.0 == at((chip.reads)(1), 1)
                        &&& regs.mr4.0 == at((chip.reads)(2), 0)
                        &&& regs.mr8.0 == at((chip.reads)(3), 0)
                    } else {
                        result == Err::<ModeRegisters, PsramError>(
                            PsramError::ChipDetectionFailed { reported_vendor_id: vendor },
                        )
                    }
                } else {
                    match (chip.reads)(n) {
                        Outcome::Failed(TransactionError::Timeout { iters, cmd_reg_value }) => {
                            &&& result matches Err(
                                PsramError::TransactionTimeout { addr, iters: count, cmd_reg },
                            )
                            &&& addr == if n == 3 {
                                8
                            } else {
                                2 * n
                            }
                            &&& count == iters
                            &&& cmd_reg == cmd_reg_value
                        },
                        Outcome::Completed { .. } => false,
                    }
                },
            }
        }),
{
    law_detect(chip);
    lemma_made_count(chip.reads, n, 4);
    if n == 4 {
        assert((chip.reads)(3) is Completed);
    }
}

/// If the reset and all four reads succeed with as many bytes as they ask for, the
/// chip is detected exactly when the low five bits of the second byte are 0x0D, and
/// the registers are then the received bytes.
pub proof fn law_detect_registers(chip: Chip)
    requires
        chip.reset is Completed,
        forall|i: int| 0 <= i < 4 ==> #[trigger] (chip.reads)(i) is Completed,
        (chip.reads)(0)->Completed_miso.len() == 2,
        (chip.reads)(1)->Completed_miso.len() == 2,
        (chip.reads)(2)->Completed_miso.len() == 1,
        (chip.reads)(3)->Completed_miso.len() == 1,
    ensures
        detect_trace(chip).result is Ok <==> (chip.reads)(0)->Completed_miso[1] % 32 == 0x0D,
        detect_trace(chip).result matches Ok(regs) ==> {
            &&& regs.mr0.0 == (chip.reads)(0)->Completed_miso[0]
            &&& regs.mr1.0 == (chip.reads)(0)->Completed_miso[1]
            &&& regs.mr2.0 == (chip.reads)(1)->Completed_miso[0]
            &&& regs.mr3.0 == (chip.reads)(1)->Completed_miso[1]
            &&& regs.mr4.0 == (chip.reads)(2)->Completed_miso[0]
            &&& regs.mr8.0 == (chip.reads)(3)->Completed_miso[0]
        },
{
    law_detect_result(chip, 4);
}

/// What detection sends: the reset, then, if that succeeds, a read of 16 bits at 0,
/// of 16 bits at 2, of 8 bits at 4 and of 8 bits at 8, up to the first that fails;
/// all through the command-side controller, and after the buses are prepared.
pub proof fn law_detect_sends(chip: Chip, n: int, k: int)
    requires
        first_succeed(chip.reads, n, 4),
    ensures
        ({
            let sent = detect_trace(chip).transactions;
            let reads = if chip.reset is Failed {
                0
            } else if n < 4 {
                n + 1
            } else {
                4
            };
            &&& sent.len() == 1 + reads
            &&& sent[0] == crate::session::reset_command()
            &&& 0 < k < sent.len() ==> {
                ||| k == 1 && crate::session::asks_for(sent[k], MspiId::Mspi3, 0, 16)
                ||| k == 2 && crate::session::asks_for(sent[k], MspiId::Mspi3, 2, 16)
                ||| k == 3 && crate::session::asks_for(sent[k], MspiId::Mspi3, 4, 8)
                ||| k == 4 && crate::session::asks_for(sent[k], MspiId::Mspi3, 8, 8)
            }
            &&& detect_trace(chip).accesses == crate::program::prepare_accesses()
            &&& detect_trace(chip).events == performed(crate::program::prepare_accesses()) + ran(
                sent,
            )
        }),
{
    law_detect(chip);
    lemma_made_count(chip.reads, n, 4);
}

/// What bring-up gives, by the bytes that the chip sends; `n` reads of the snapshot
/// succeed and `m` transactions of the programming. It never fails. `MR2` and `MR3`
/// are the bytes that the snapshot received at 2 and 3. `MR0`, `MR1`, `MR4` and `MR8`
/// are what the programming wrote, once it did: the fields of the configuration and
/// for the rest the bits that the programming received; else the bytes that the
/// snapshot received. Where the snapshot failed, its bytes count as 0.
pub proof fn law_init_result(chip: Chip, n: int, m: int)
    requires
        first_succeed(chip.reads, n, 4),
        first_succeed(chip.writes, m, 6),
    ensures
        ({
            let at = |o: Outcome, i: int|
                if i < o->Completed_miso.len() {
                    o->Completed_miso[i]
                } else {
                    0u8
                };
            let seen = |k: int, i: int|
                if n == 4 {
                    at((chip.reads)(k), i)
                } else {
                    0u8
                };
            let got = |k: int, i: int| at((chip.writes)(k), i);
            &&& init_trace(chip).result matches Ok(regs)
            &&& regs.mr2.0 == seen(1, 0)
            &&& regs.mr3.0 == seen(1, 1)
            &&& if m >= 3 {
                &&& regs.mr0.0 % 64 == 0x30
                &&& regs.mr0.0 / 64 == got(0, 0) / 64
                &&& regs.mr1.0 == got(0, 1)
            } else {
                &&& regs.mr0.0 == seen(0, 0)
                &&& regs.mr1.0 == seen(0, 1)
            }
            &&& if m >= 4 {
                &&& regs.mr4.0 / 32 == 1
                &&& regs.mr4.0 % 32 == got(1, 0) % 32
            } else {
                regs.mr4.0 == seen(2, 0)
            }
            &&& if m >= 6 {
                &&& regs.mr8.0 % 16 == 0x0B
                &&& (regs.mr8.0 / 16) % 4 == (got(4, 0) / 16) % 4
                &&& (regs.mr8.0 / 64) % 2 == 1
                &&& regs.mr8.0 / 128 == got(4, 0) / 128
            } else {
                regs.mr8.0 == seen(3, 0)
            }
        }),
{
    law_init(chip);
    lemma_made_count(chip.reads, n, 4);
    lemma_made_count(chip.writes, m, 6);
    if n == 4 {
        assert((chip.reads)(3) is Completed);
    }
    if m == 6 {
        assert((chip.writes)(5) is Completed);
    }
    assert(succeeded(chip.writes) == m);
}

/// Bring-up reports the registers that it never programs as they were read, whatever
/// becomes of the programming.
pub proof fn law_init_keeps_what_it_read(chip: Chip)
    requires
        forall|i: int| 0 <= i < 4 ==> #[trigger] (chip.reads)(i) is Completed,
        (chip.reads)(1)->Completed_miso.len() == 2,
    ensures
        init_trace(chip).result matches Ok(regs) && {
            &&& regs.mr2.0 == (chip.reads)(1)->Completed_miso[0]
            &&& regs.mr3.0 == (chip.reads)(1)->Completed_miso[1]
        },
{
    law_init(chip);
    lemma_made_count(chip.reads, 4, 4);
    assert((chip.reads)(3) is Completed);
}

/// What bring-up sends, after the buses are prepared and before the window is opened;
/// `n` reads of the snapshot succeed and `m` transactions of the programming. First
/// the reads of the snapshot up to the first that fails; then the programming up to
/// the first transaction that fails: the pairs at 0 and at 4 are read and written
/// back, their first byte patched, then `MR8` is read and written back patched.
/// All of it goes through the command-side controller.
pub proof fn law_init_sends(chip: Chip, n: int, m: int, k: int)
    requires
        first_succeed(chip.reads, n, 4),
        first_succeed(chip.writes, m, 6),
    ensures
        ({
            let at = |o: Outcome, i: int|
                if i < o->Completed_miso.len() {
                    o->Completed_miso[i]
                } else {
                    0u8
                };
            let got = |j: int, i: int| at((chip.writes)(j), i);
            let sent = init_trace(chip).transactions;
            let reads = if n < 4 {
                n + 1
            } else {
                4
            };
            let writes = if m < 6 {
                m + 1
            } else {
                6
            };
            let w = k - reads;
            &&& sent.len() == reads + writes
            &&& 0 <= k < reads ==> {
                ||| k == 0 && crate::session::asks_for(sent[k], MspiId::Mspi3, 0, 16)
                ||| k == 1 && crate::session::asks_for(sent[k], MspiId::Mspi3, 2, 16)
                ||| k == 2 && crate::session::asks_for(sent[k], MspiId::Mspi3, 4, 8)
                ||| k == 3 && crate::session::asks_for(sent[k], MspiId::Mspi3, 8, 8)
            }
            &&& 0 <= w < writes ==> {
                let b0 = sent[k].request.mosi_data[0];
                let b1 = sent[k].request.mosi_data[1];
                ||| w == 0 && crate::session::asks_for(sent[k], MspiId::Mspi3, 0, 16)
                ||| w == 1 && crate::session::asks_for(sent[k], MspiId::Mspi3, 4, 16)
                ||| w == 2 && crate::session::sends(sent[k], 0, b0, b1) && b0 % 64 == 0x30 && b0
                    / 64 == got(0, 0) / 64 && b1 == got(0, 1)
                ||| w == 3 && crate::session::sends(sent[k], 4, b0, b1) && b0 / 32 == 1 && b0 % 32
                    == got(1, 0) % 32 && b1 == got(1, 1)
                ||| w == 4 && crate::session::asks_for(sent[k], MspiId::Mspi3, 8, 8)
                ||| w == 5 && crate::session::sends(sent[k], 8, b0, b1) && b0 % 16 == 0x0B && (b0
                    / 16) % 4 == (got(4, 0) / 16) % 4 && (b0 / 64) % 2 == 1 && b0 / 128 == got(
                    4,
                    0,
                ) / 128 && b1 == 0
            }
            &&& init_trace(chip).events == performed(crate::program::prepare_accesses()) + ran(sent)
                + performed(crate::bringup::window_accesses())
        }),
{
    law_init(chip);
    lemma_made_count(chip.reads, n, 4);
    lemma_made_count(chip.writes, m, 6);
    let reads = reads_from(0, chip.reads);
    let writes = writes_from(0, chip.writes);
    assert(ran(reads) + ran(writes) == ran(reads + writes));
    assert(init_trace(chip).events == performed(crate::program::prepare_accesses()) + ran(
        reads + writes,
    ) + performed(crate::bringup::window_accesses()));
}

/// If the chip takes all of the programming, each programmed register is reported as
/// the byte that was sent for it.
pub proof fn law_init_reports_what_was_sent(chip: Chip, n: int)
    requires
        first_succeed(chip.reads, n, 4),
        forall|i: int| 0 <= i < 6 ==> #[trigger] (chip.writes)(i) is Completed,
    ensures
        ({
            let sent = init_trace(chip).transactions;
            let len = sent.len() as int;
            &&& init_trace(chip).result matches Ok(regs)
            &&& len >= 7
            &&& regs.mr0.0 == sent[len - 4].request.mosi_data[0]
            &&& regs.mr1.0 == sent[len - 4].request.mosi_data[1]
            &&& regs.mr4.0 == sent[len - 3].request.mosi_data[0]
            &&& regs.mr8.0 == sent[len - 1].request.mosi_data[0]
        }),
{
    law_init(chip);
    lemma_made_count(chip.reads, n, 4);
    lemma_made_count(chip.writes, 6, 6);
    assert((chip.writes)(5) is Completed);
}

/// A task is viewed as what it holds.
pub proof fn law_task_views(task: crate::bringup::Task)
    ensures
        task@.accesses == task.accesses@,
        match task.goal {
            crate::bringup::Goal::Transact(t) => task@.goal == Aim::Transact(t@),
            crate::bringup::Goal::Finish(r) => task@.goal == Aim::Finish(r),
        },
{
}

} // verus!
