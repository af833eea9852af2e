//! The state keeper: a cooperative state machine that feeds executed
//! transactions into the updates journal, consults the seal criteria after
//! each one, and closes miniblocks and L1 batches when a sealer fires.
//!
//! The keeper itself never performs I/O and never runs the VM. Its driver
//! executes a transaction on the VM, hands the keeper the outcome, and acts
//! on the returned [`TxOutcome`]: rejecting the transaction, rolling the VM
//! back, sealing the miniblock with a fresh timestamp from the I/O port, or
//! sealing the whole batch.

use vstd::prelude::*;

use crate::seal_criteria::{
    ConditionalSealer, SealCriterion, SealManager, SealResolution, UnexecutableReason,
    spec_any_batch_sealer_fires, spec_any_miniblock_sealer_fires, spec_combined_resolution,
    spec_criterion_resolution,
};
use crate::types::{
    BaseSystemContractsHashes, BlockGasCount, ExecutionMetrics, ExecutionMetricsForCriteria,
    StateKeeperConfig, Transaction, TransactionExecutionResult, TxExecutionResult,
    spec_block_base_cost,
};
use crate::updates::{L1BatchUpdates, MiniblockUpdates, UpdatesManager};

verus! {

/// How long a driver should wait on an empty transaction poll, so that the
/// time-driven miniblock sealers can fire even under zero traffic.
pub const POLL_WAIT_DURATION_MILLIS: u64 = 100;

/// All transactions of the given miniblocks, in order.
pub open spec fn spec_flat_txs(s: Seq<MiniblockUpdates>) -> Seq<TransactionExecutionResult>
    decreases s.len(),
{
    if s.len() == 0 {
        Seq::empty()
    } else {
        spec_flat_txs(s.drop_last()) + s.last().executed_transactions@
    }
}

/// Gas aggregate after charging `base` and then every transaction in turn.
pub open spec fn spec_gas_fold(
    base: BlockGasCount,
    txs: Seq<TransactionExecutionResult>,
) -> BlockGasCount
    decreases txs.len(),
{
    if txs.len() == 0 {
        base
    } else {
        spec_gas_fold(base, txs.drop_last()).spec_plus(txs.last().l1_gas)
    }
}

/// Metrics aggregate after every transaction in turn.
pub open spec fn spec_metrics_fold(
    base: ExecutionMetrics,
    txs: Seq<TransactionExecutionResult>,
) -> ExecutionMetrics
    decreases txs.len(),
{
    if txs.len() == 0 {
        base
    } else {
        spec_metrics_fold(base, txs.drop_last()).spec_plus(txs.last().execution_metrics)
    }
}

/// Miniblock numbers rise by exactly one and timestamps strictly increase
/// along the sequence.
pub open spec fn spec_chain_ok(s: Seq<MiniblockUpdates>) -> bool {
    forall|i: int|
        #![trigger s[i]]
        1 <= i < s.len() ==> s[i].number == s[i - 1].number + 1 && s[i - 1].timestamp
            < s[i].timestamp
}

/// A miniblock aggregate is consistent when its stored totals are the folds
/// of its own transactions.
pub open spec fn spec_miniblock_consistent(mb: MiniblockUpdates) -> bool {
    &&& mb.l1_gas_count == spec_gas_fold(BlockGasCount::spec_zero(), mb.executed_transactions@)
    &&& mb.block_execution_metrics == spec_metrics_fold(
        ExecutionMetrics::spec_zero(),
        mb.executed_transactions@,
    )
}

proof fn lemma_gas_fold_push(
    base: BlockGasCount,
    txs: Seq<TransactionExecutionResult>,
    x: TransactionExecutionResult,
)
    ensures
        spec_gas_fold(base, txs.push(x)) == spec_gas_fold(base, txs).spec_plus(x.l1_gas),
{
    assert(txs.push(x).drop_last() =~= txs);
    assert(txs.push(x).last() == x);
}

proof fn lemma_metrics_fold_push(
    base: ExecutionMetrics,
    txs: Seq<TransactionExecutionResult>,
    x: TransactionExecutionResult,
)
    ensures
        spec_metrics_fold(base, txs.push(x)) == spec_metrics_fold(base, txs).spec_plus(
            x.execution_metrics,
        ),
{
    assert(txs.push(x).drop_last() =~= txs);
    assert(txs.push(x).last() == x);
}

proof fn lemma_flat_txs_push(s: Seq<MiniblockUpdates>, mb: MiniblockUpdates)
    ensures
        spec_flat_txs(s.push(mb)) == spec_flat_txs(s) + mb.executed_transactions@,
{
    assert(s.push(mb).drop_last() =~= s);
    assert(s.push(mb).last() == mb);
}

/// The combined resolution is at least as severe as what any single listed
/// criterion resolves to.
proof fn lemma_combined_dominates(
    criteria: Seq<SealCriterion>,
    config: StateKeeperConfig,
    tx_count: int,
    block_gas: BlockGasCount,
    tx_gas: BlockGasCount,
    i: int,
)
    requires
        0 <= i < criteria.len(),
    ensures
        spec_combined_resolution(criteria, config, tx_count, block_gas, tx_gas).severity()
            >= spec_criterion_resolution(criteria[i], config, tx_count, block_gas, tx_gas).severity(),
    decreases criteria.len(),
{
    if i == criteria.len() - 1 {
    } else {
        lemma_combined_dominates(criteria.drop_last(), config, tx_count, block_gas, tx_gas, i);
        assert(criteria.drop_last()[i] == criteria[i]);
    }
}

/// One miniblock of a pending (not yet sealed) L1 batch, as the I/O port
/// restores it from durable storage: the transactions are fed back through
/// the VM, so each arrives with its execution deltas.
#[derive(Clone, Debug)]
pub struct PendingMiniblock {
    pub number: u32,
    pub timestamp: u64,
    pub txs: Vec<TransactionExecutionResult>,
}

/// An L1 batch that was open when the keeper last stopped: its sealed
/// miniblocks, in order, and the base system contract hashes it was opened
/// under.
#[derive(Clone, Debug)]
pub struct PendingBatchData {
    pub l1_batch_number: u32,
    pub base_system_contract_hashes: BaseSystemContractsHashes,
    pub miniblocks: Vec<PendingMiniblock>,
}

/// All transactions of the given pending miniblocks, in order.
pub open spec fn spec_flat_pending(s: Seq<PendingMiniblock>) -> Seq<TransactionExecutionResult>
    decreases s.len(),
{
    if s.len() == 0 {
        Seq::empty()
    } else {
        spec_flat_pending(s.drop_last()) + s.last().txs@
    }
}

/// Pending miniblock numbers rise by exactly one and timestamps strictly
/// increase.
pub open spec fn spec_pending_chain_ok(s: Seq<PendingMiniblock>) -> bool {
    forall|i: int|
        #![trigger s[i]]
        1 <= i < s.len() ==> s[i].number == s[i - 1].number + 1 && s[i - 1].timestamp
            < s[i].timestamp
}

/// Replaying the pending transactions overflows no aggregate at any step.
pub open spec fn spec_replay_fits(s: Seq<PendingMiniblock>) -> bool {
    forall|i: int, j: int|
        #![trigger s[i].txs@[j]]
        0 <= i < s.len() && 0 <= j < s[i].txs@.len() ==> {
            &&& spec_gas_fold(
                spec_block_base_cost(),
                spec_flat_pending(s.take(i)) + s[i].txs@.take(j),
            ).can_add(s[i].txs@[j].l1_gas)
            &&& spec_gas_fold(BlockGasCount::spec_zero(), s[i].txs@.take(j)).can_add(
                s[i].txs@[j].l1_gas,
            )
            &&& spec_metrics_fold(
                ExecutionMetrics::spec_zero(),
                spec_flat_pending(s.take(i)) + s[i].txs@.take(j),
            ).can_add(s[i].txs@[j].execution_metrics)
            &&& spec_metrics_fold(ExecutionMetrics::spec_zero(), s[i].txs@.take(j)).can_add(
                s[i].txs@[j].execution_metrics,
            )
        }
}

proof fn lemma_flat_pending_step(s: Seq<PendingMiniblock>, i: int)
    requires
        0 <= i < s.len(),
    ensures
        spec_flat_pending(s.take(i + 1)) == spec_flat_pending(s.take(i)) + s[i].txs@,
{
    assert(s.take(i + 1).drop_last() =~= s.take(i));
    assert(s.take(i + 1).last() == s[i]);
}

/// Miniblocks that match restored records pointwise inherit the restored
/// chain: numbers rising by one, timestamps strictly increasing.
proof fn lemma_journal_chain(journal: Seq<MiniblockUpdates>, pmbs: Seq<PendingMiniblock>)
    requires
        journal.len() <= pmbs.len(),
        spec_pending_chain_ok(pmbs),
        forall|k: int|
            0 <= k < journal.len() ==> (#[trigger] journal[k]).number == pmbs[k].number
                && journal[k].timestamp == pmbs[k].timestamp,
    ensures
        spec_chain_ok(journal),
{
    assert forall|i: int| 1 <= i < journal.len() implies (#[trigger] journal[i]).number
        == journal[i - 1].number + 1 && journal[i - 1].timestamp < journal[i].timestamp by {
        assert(pmbs[i].number == pmbs[i - 1].number + 1 && pmbs[i - 1].timestamp
            < pmbs[i].timestamp);
    }
}

/// Instantiates the overflow-safety of a whole replay at one miniblock,
/// phrased over the transactions already replayed.
proof fn lemma_replay_fits_at(
    s: Seq<PendingMiniblock>,
    i: int,
    base: Seq<TransactionExecutionResult>,
)
    requires
        spec_replay_fits(s),
        0 <= i < s.len(),
        base == spec_flat_pending(s.take(i)),
    ensures
        forall|j: int|
            0 <= j < s[i].txs@.len() ==> {
                &&& spec_gas_fold(spec_block_base_cost(), base + s[i].txs@.take(j)).can_add(
                    (#[trigger] s[i].txs@[j]).l1_gas,
                )
                &&& spec_gas_fold(BlockGasCount::spec_zero(), s[i].txs@.take(j)).can_add(
                    s[i].txs@[j].l1_gas,
                )
                &&& spec_metrics_fold(
                    ExecutionMetrics::spec_zero(),
                    base + s[i].txs@.take(j),
                ).can_add(s[i].txs@[j].execution_metrics)
                &&& spec_metrics_fold(ExecutionMetrics::spec_zero(), s[i].txs@.take(j)).can_add(
                    s[i].txs@[j].execution_metrics,
                )
            },
{
}

/// Replays one restored miniblock: feeds each of its transactions through
/// the updates journal, then seals it under the next miniblock's timestamp.
fn replay_miniblock(updates: &mut UpdatesManager, mb: &PendingMiniblock, next_ts: u64) -> (sealed:
    MiniblockUpdates)
    requires
        old(updates).wf(),
        old(updates).miniblock@ == MiniblockUpdates::spec_fresh(mb.number, mb.timestamp),
        mb.number < u32::MAX,
        next_ts > mb.timestamp,
        old(updates).l1_batch.l1_gas_count == spec_gas_fold(
            spec_block_base_cost(),
            old(updates).l1_batch.executed_transactions@,
        ),
        old(updates).l1_batch.block_execution_metrics == spec_metrics_fold(
            ExecutionMetrics::spec_zero(),
            old(updates).l1_batch.executed_transactions@,
        ),
        forall|j: int|
            0 <= j < mb.txs@.len() ==> {
                &&& spec_gas_fold(
                    spec_block_base_cost(),
                    old(updates).l1_batch.executed_transactions@ + mb.txs@.take(j),
                ).can_add((#[trigger] mb.txs@[j]).l1_gas)
                &&& spec_gas_fold(BlockGasCount::spec_zero(), mb.txs@.take(j)).can_add(
                    mb.txs@[j].l1_gas,
                )
                &&& spec_metrics_fold(
                    ExecutionMetrics::spec_zero(),
                    old(updates).l1_batch.executed_transactions@ + mb.txs@.take(j),
                ).can_add(mb.txs@[j].execution_metrics)
                &&& spec_metrics_fold(ExecutionMetrics::spec_zero(), mb.txs@.take(j)).can_add(
                    mb.txs@[j].execution_metrics,
                )
            },
    ensures
        final(updates).wf(),
        sealed.number == mb.number,
        sealed.timestamp == mb.timestamp,
        sealed.executed_transactions@ == mb.txs@,
        spec_miniblock_consistent(sealed),
        final(updates).miniblock@ == MiniblockUpdates::spec_fresh((mb.number + 1) as u32, next_ts),
        final(updates).base_system_contract_hashes == old(updates).base_system_contract_hashes,
        final(updates).l1_batch.executed_transactions@ == old(
            updates,
        ).l1_batch.executed_transactions@ + mb.txs@,
        final(updates).l1_batch.l1_gas_count == spec_gas_fold(
            spec_block_base_cost(),
            final(updates).l1_batch.executed_transactions@,
        ),
        final(updates).l1_batch.block_execution_metrics == spec_metrics_fold(
            ExecutionMetrics::spec_zero(),
            final(updates).l1_batch.executed_transactions@,
        ),
{
    let ghost base_txs = updates.l1_batch.executed_transactions@;
    let txs_len = mb.txs.len();
    let mut j: usize = 0;
    while j < txs_len
        invariant
            txs_len == mb.txs@.len(),
            j <= txs_len,
            updates.wf(),
            updates.base_system_contract_hashes == old(updates).base_system_contract_hashes,
            updates.miniblock.number == mb.number,
            updates.miniblock.timestamp == mb.timestamp,
            updates.miniblock.executed_transactions@ == mb.txs@.take(j as int),
            spec_miniblock_consistent(updates.miniblock),
            updates.l1_batch.executed_transactions@ == base_txs + mb.txs@.take(j as int),
            updates.l1_batch.l1_gas_count == spec_gas_fold(
                spec_block_base_cost(),
                updates.l1_batch.executed_transactions@,
            ),
            updates.l1_batch.block_execution_metrics == spec_metrics_fold(
                ExecutionMetrics::spec_zero(),
                updates.l1_batch.executed_transactions@,
            ),
            forall|k: int|
                0 <= k < mb.txs@.len() ==> {
                    &&& spec_gas_fold(spec_block_base_cost(), base_txs + mb.txs@.take(k)).can_add(
                        (#[trigger] mb.txs@[k]).l1_gas,
                    )
                    &&& spec_gas_fold(BlockGasCount::spec_zero(), mb.txs@.take(k)).can_add(
                        mb.txs@[k].l1_gas,
                    )
                    &&& spec_metrics_fold(
                        ExecutionMetrics::spec_zero(),
                        base_txs + mb.txs@.take(k),
                    ).can_add(mb.txs@[k].execution_metrics)
                    &&& spec_metrics_fold(ExecutionMetrics::spec_zero(), mb.txs@.take(k)).can_add(
                        mb.txs@[k].execution_metrics,
                    )
                },
        decreases txs_len - j,
    {
        let t = mb.txs[j];
        let ghost old_batch = updates.l1_batch.executed_transactions@;
        let ghost old_mini = updates.miniblock.executed_transactions@;
        updates.extend_from_executed_transaction(t.tx, t.l1_gas, t.execution_metrics);
        j = j + 1;
        proof {
            let record = TransactionExecutionResult {
                tx: t.tx,
                l1_gas: t.l1_gas,
                execution_metrics: t.execution_metrics,
            };
            assert(record == mb.txs@[j - 1]);
            assert(mb.txs@.take(j as int) =~= mb.txs@.take(j as int - 1).push(record));
            assert(updates.l1_batch.executed_transactions@ =~= base_txs + mb.txs@.take(j as int));
            lemma_gas_fold_push(spec_block_base_cost(), old_batch, record);
            lemma_gas_fold_push(BlockGasCount::spec_zero(), old_mini, record);
            lemma_metrics_fold_push(ExecutionMetrics::spec_zero(), old_batch, record);
            lemma_metrics_fold_push(ExecutionMetrics::spec_zero(), old_mini, record);
        }
    }
    proof {
        assert(mb.txs@.take(txs_len as int) =~= mb.txs@);
    }
    updates.seal_miniblock(next_ts)
}

/// What the driver must do after handing one executed transaction to the
/// keeper.
#[derive(Clone, Debug)]
pub enum TxOutcome {
    /// The transaction is in the batch. If `seal_miniblock_due`, a miniblock
    /// sealer fired: seal the miniblock (before the batch, if both are due).
    /// If `seal_batch_due`, close the batch next.
    Executed { seal_miniblock_due: bool, seal_batch_due: bool },
    /// The VM rejected the transaction: record the reason and go on. The
    /// batch is untouched.
    Rejected { reason: String },
    /// The transaction can never fit a batch: roll the VM back and reject it
    /// permanently. The batch is untouched.
    Unexecutable { reason: UnexecutableReason },
    /// The transaction does not fit this batch: roll the VM back, requeue
    /// the transaction, and seal the batch. The batch is untouched.
    ExcludeAndSeal,
    /// The bootloader tip ran out of gas: the batch is full. Roll the VM
    /// back, requeue the transaction, and seal the batch; the transaction
    /// contributed nothing to this batch.
    BatchFull,
}

/// What a poll with no transaction decided.
#[derive(Clone, Copy, PartialEq, Eq, Structural, Debug)]
pub struct PollOutcome {
    pub seal_miniblock_due: bool,
    pub seal_batch_due: bool,
}

/// Everything a sealed L1 batch hands to the I/O port: the batch aggregate
/// and its miniblocks, the trailing fictive one last.
#[derive(Debug)]
pub struct FinishedL1Batch {
    pub batch_number: u32,
    pub batch: L1BatchUpdates,
    pub miniblocks: Vec<MiniblockUpdates>,
}

/// The scheduling state machine. Owns the updates journal; the driver owns
/// the VM and the I/O port.
#[derive(Debug)]
pub struct StateKeeper {
    pub sealer: SealManager,
    pub updates: UpdatesManager,
    pub l1_batch_number: u32,
    /// Miniblocks of the current batch already sealed, in order.
    pub sealed_miniblocks: Vec<MiniblockUpdates>,
    /// Set once a sealer decided the batch must close; no further
    /// transaction is accepted until [`StateKeeper::seal_l1_batch`] runs.
    pub batch_seal_pending: bool,
    /// An explicit out-of-band request to seal the batch.
    pub external_seal_request: bool,
    /// Monotonic clock reading when the current miniblock was opened.
    pub miniblock_opened_at_millis: u64,
}

impl StateKeeper {
    /// Whether the conditional sealer carries the given criterion.
    pub open spec fn spec_has_criterion(self, c: SealCriterion) -> bool {
        match self.sealer.conditional_sealer {
            Option::Some(cs) => cs.sealers@.contains(c),
            Option::None => false,
        }
    }

    /// Sanity of the sealer configuration: a slots budget of at least one
    /// transaction, and a gas cap that the per-batch base cost fits under.
    pub open spec fn spec_sealer_config_ok(sealer: SealManager) -> bool {
        match sealer.conditional_sealer {
            Option::None => true,
            Option::Some(cs) => {
                &&& (cs.sealers@.contains(SealCriterion::Slots)
                    ==> cs.config.transaction_slots >= 1)
                &&& (cs.sealers@.contains(SealCriterion::Gas) ==> !spec_block_base_cost(
                ).spec_any_greater(cs.config.max_single_tx_gas as int))
            },
        }
    }

    /// Whether an unconditional batch sealer fires on the current state.
    pub open spec fn spec_unconditional_fires(self) -> bool {
        spec_any_batch_sealer_fires(
            self.sealer.unconditional_sealers@,
            self.updates.base_system_contract_hashes,
            self.external_seal_request,
        )
    }

    /// What the conditional sealer resolves for a transaction with these
    /// metrics, offered to the batch as it stands.
    pub open spec fn spec_tx_resolution(self, tx_metrics: ExecutionMetricsForCriteria)
        -> SealResolution {
        match self.sealer.conditional_sealer {
            Option::None => SealResolution::NoSeal,
            Option::Some(cs) => spec_combined_resolution(
                cs.sealers@,
                cs.config,
                self.updates.l1_batch.executed_transactions@.len() as int + 1,
                self.updates.l1_batch.l1_gas_count.spec_plus(tx_metrics.l1_gas),
                tx_metrics.l1_gas,
            ),
        }
    }

    /// The keeper's invariant.
    ///
    /// Beyond consistency of the journal it carries the two batch-level
    /// laws: with the slots criterion present the batch never holds more
    /// than `transaction_slots` transactions, and with the gas criterion
    /// present no component of the batch gas aggregate exceeds
    /// `max_single_tx_gas`.
    pub open spec fn wf(self) -> bool {
        &&& self.updates.wf()
        &&& Self::spec_sealer_config_ok(self.sealer)
        &&& spec_chain_ok(self.sealed_miniblocks@)
        &&& (self.sealed_miniblocks@.len() > 0 ==> self.updates.miniblock.number
            == self.sealed_miniblocks@.last().number + 1 && self.updates.miniblock.timestamp
            > self.sealed_miniblocks@.last().timestamp)
        &&& self.updates.l1_batch.executed_transactions@ == spec_flat_txs(self.sealed_miniblocks@)
            + self.updates.miniblock.executed_transactions@
        &&& self.updates.l1_batch.l1_gas_count == spec_gas_fold(
            spec_block_base_cost(),
            self.updates.l1_batch.executed_transactions@,
        )
        &&& self.updates.l1_batch.block_execution_metrics == spec_metrics_fold(
            ExecutionMetrics::spec_zero(),
            self.updates.l1_batch.executed_transactions@,
        )
        &&& spec_miniblock_consistent(self.updates.miniblock)
        &&& (forall|i: int|
            0 <= i < self.sealed_miniblocks@.len() ==> spec_miniblock_consistent(
                #[trigger] self.sealed_miniblocks@[i],
            ))
        &&& (self.spec_has_criterion(SealCriterion::Slots) ==> {
            let slots = self.sealer.conditional_sealer->Some_0.config.transaction_slots;
            &&& self.updates.l1_batch.executed_transactions@.len() <= slots
            &&& (!self.batch_seal_pending ==> self.updates.l1_batch.executed_transactions@.len()
                < slots)
        })
        &&& (self.spec_has_criterion(SealCriterion::Gas)
            ==> !self.updates.l1_batch.l1_gas_count.spec_any_greater(
            self.sealer.conditional_sealer->Some_0.config.max_single_tx_gas as int,
        ))
    }

    /// Opens a fresh keeper on a fresh batch.
    pub fn new(
        sealer: SealManager,
        l1_batch_number: u32,
        first_miniblock_number: u32,
        timestamp: u64,
        base_system_contract_hashes: BaseSystemContractsHashes,
        now_millis: u64,
    ) -> (r: StateKeeper)
        requires
            Self::spec_sealer_config_ok(sealer),
        ensures
            r.wf(),
            r.sealer == sealer,
            r.l1_batch_number == l1_batch_number,
            r.updates.l1_batch@ == L1BatchUpdates::spec_fresh(),
            r.updates.miniblock@ == MiniblockUpdates::spec_fresh(first_miniblock_number, timestamp),
            r.updates.base_system_contract_hashes == base_system_contract_hashes,
            r.sealed_miniblocks@.len() == 0,
            !r.external_seal_request,
            !r.batch_seal_pending,
            r.miniblock_opened_at_millis == now_millis,
    {
        let updates = UpdatesManager::new(
            first_miniblock_number,
            timestamp,
            base_system_contract_hashes,
        );
        StateKeeper {
            sealer,
            updates,
            l1_batch_number,
            sealed_miniblocks: Vec::new(),
            batch_seal_pending: false,
            external_seal_request: false,
            miniblock_opened_at_millis: now_millis,
        }
    }

    /// Posts an out-of-band request to seal the current batch; the next
    /// poll or inclusion will pick it up if an `ExternalRequest` sealer is
    /// installed.
    pub fn request_batch_seal(&mut self)
        requires
            old(self).wf(),
        ensures
            final(self).wf(),
            *final(self) == (StateKeeper { external_seal_request: true, ..*old(self) }),
    {
        self.external_seal_request = true;
    }

    /// Feeds one executed transaction to the keeper.
    ///
    /// A transaction the VM rejected, one no batch can hold, one excluded
    /// by a criterion, and one that ran the bootloader tip out of gas all
    /// leave the updates journal untouched: none of their deltas reaches
    /// the batch. Only a successful transaction that the criteria admit is
    /// appended, to the miniblock and the batch at once.
    pub fn process_tx(
        &mut self,
        tx: Transaction,
        exec_result: TxExecutionResult,
        now_millis: u64,
    ) -> (out: TxOutcome)
        requires
            old(self).wf(),
            !old(self).batch_seal_pending,
            old(self).updates.l1_batch.executed_transactions@.len() < usize::MAX,
            exec_result matches TxExecutionResult::Success { tx_metrics } ==> old(
                self,
            ).updates.can_extend(tx_metrics.l1_gas, tx_metrics.execution_metrics),
            // A criterion may exclude a transaction only from a batch that
            // already holds one: an excluded first transaction could never
            // be placed at all, and conditional sealers must not close
            // empty batches.
            exec_result matches TxExecutionResult::Success { tx_metrics } ==> !(old(
                self,
            ).spec_tx_resolution(tx_metrics) == SealResolution::ExcludeAndSeal && old(
                self,
            ).updates.l1_batch.executed_transactions@.len() == 0),
        ensures
            final(self).wf(),
            final(self).sealer == old(self).sealer,
            final(self).l1_batch_number == old(self).l1_batch_number,
            final(self).sealed_miniblocks@ == old(self).sealed_miniblocks@,
            final(self).external_seal_request == old(self).external_seal_request,
            final(self).miniblock_opened_at_millis == old(self).miniblock_opened_at_millis,
            exec_result matches TxExecutionResult::Rejected { reason } ==> *final(self) == *old(
                self,
            ) && out == (TxOutcome::Rejected { reason }),
            exec_result matches TxExecutionResult::BootloaderTipOutOfGas ==> final(self).updates
                == old(self).updates && final(self).batch_seal_pending && out matches
                TxOutcome::BatchFull,
            exec_result matches TxExecutionResult::Success { tx_metrics } ==> ({
                let res = old(self).spec_tx_resolution(tx_metrics);
                let record = TransactionExecutionResult {
                    tx,
                    l1_gas: tx_metrics.l1_gas,
                    execution_metrics: tx_metrics.execution_metrics,
                };
                &&& (res matches SealResolution::Unexecutable(r) ==> *final(self) == *old(self)
                    && out == (TxOutcome::Unexecutable { reason: r }))
                &&& (res == SealResolution::ExcludeAndSeal ==> final(self).updates == old(
                    self,
                ).updates && final(self).batch_seal_pending && out matches TxOutcome::ExcludeAndSeal)
                &&& ((res == SealResolution::NoSeal || res == SealResolution::IncludeAndSeal)
                    ==> {
                    &&& final(self).updates.l1_batch.executed_transactions@ == old(
                        self,
                    ).updates.l1_batch.executed_transactions@.push(record)
                    &&& final(self).updates.miniblock.executed_transactions@ == old(
                        self,
                    ).updates.miniblock.executed_transactions@.push(record)
                    &&& final(self).updates.l1_batch.l1_gas_count == old(
                        self,
                    ).updates.l1_batch.l1_gas_count.spec_plus(tx_metrics.l1_gas)
                    &&& final(self).updates.miniblock.l1_gas_count == old(
                        self,
                    ).updates.miniblock.l1_gas_count.spec_plus(tx_metrics.l1_gas)
                    &&& final(self).updates.miniblock.number == old(self).updates.miniblock.number
                    &&& final(self).updates.miniblock.timestamp == old(
                        self,
                    ).updates.miniblock.timestamp
                    &&& final(self).updates.base_system_contract_hashes == old(
                        self,
                    ).updates.base_system_contract_hashes
                    &&& final(self).batch_seal_pending == (res == SealResolution::IncludeAndSeal
                        || old(self).spec_unconditional_fires())
                    &&& out == (TxOutcome::Executed {
                        seal_miniblock_due: spec_any_miniblock_sealer_fires(
                            old(self).sealer.miniblock_sealers@,
                            old(self).updates.miniblock.executed_transactions@.len() as int + 1,
                            now_millis as int,
                            old(self).miniblock_opened_at_millis as int,
                        ),
                        seal_batch_due: final(self).batch_seal_pending,
                    })
                })
            }),
    {
        match exec_result {
            TxExecutionResult::Rejected { reason } => TxOutcome::Rejected { reason },
            TxExecutionResult::BootloaderTipOutOfGas => {
                self.batch_seal_pending = true;
                TxOutcome::BatchFull
            },
            TxExecutionResult::Success { tx_metrics } => {
                let tx_count = self.updates.l1_batch.executed_transactions.len() + 1;
                let projected = self.updates.l1_batch.l1_gas_count.plus(&tx_metrics.l1_gas);
                let resolution = match &self.sealer.conditional_sealer {
                    Option::None => SealResolution::NoSeal,
                    Option::Some(cs) => cs.should_seal_l1_batch(
                        tx_count,
                        &projected,
                        &tx_metrics.l1_gas,
                    ),
                };
                match resolution {
                    SealResolution::Unexecutable(reason) => {
                        return TxOutcome::Unexecutable { reason };
                    },
                    SealResolution::ExcludeAndSeal => {
                        self.batch_seal_pending = true;
                        return TxOutcome::ExcludeAndSeal;
                    },
                    _ => {},
                }
                let ghost pre = *self;
                self.updates.extend_from_executed_transaction(
                    tx,
                    tx_metrics.l1_gas,
                    tx_metrics.execution_metrics,
                );
                proof {
                    let record = TransactionExecutionResult {
                        tx,
                        l1_gas: tx_metrics.l1_gas,
                        execution_metrics: tx_metrics.execution_metrics,
                    };
                    let old_batch = pre.updates.l1_batch.executed_transactions@;
                    let old_mini = pre.updates.miniblock.executed_transactions@;
                    assert(spec_flat_txs(self.sealed_miniblocks@) + old_mini.push(record)
                        =~= (spec_flat_txs(self.sealed_miniblocks@) + old_mini).push(record));
                    lemma_gas_fold_push(spec_block_base_cost(), old_batch, record);
                    lemma_gas_fold_push(BlockGasCount::spec_zero(), old_mini, record);
                    lemma_metrics_fold_push(ExecutionMetrics::spec_zero(), old_batch, record);
                    lemma_metrics_fold_push(ExecutionMetrics::spec_zero(), old_mini, record);
                    if pre.spec_has_criterion(SealCriterion::Slots) {
                        let cs = pre.sealer.conditional_sealer->Some_0;
                        let i = choose|i: int|
                            0 <= i < cs.sealers@.len() && cs.sealers@[i] == SealCriterion::Slots;
                        lemma_combined_dominates(
                            cs.sealers@,
                            cs.config,
                            old_batch.len() as int + 1,
                            pre.updates.l1_batch.l1_gas_count.spec_plus(tx_metrics.l1_gas),
                            tx_metrics.l1_gas,
                            i,
                        );
                    }
                    if pre.spec_has_criterion(SealCriterion::Gas) {
                        let cs = pre.sealer.conditional_sealer->Some_0;
                        let i = choose|i: int|
                            0 <= i < cs.sealers@.len() && cs.sealers@[i] == SealCriterion::Gas;
                        lemma_combined_dominates(
                            cs.sealers@,
                            cs.config,
                            old_batch.len() as int + 1,
                            pre.updates.l1_batch.l1_gas_count.spec_plus(tx_metrics.l1_gas),
                            tx_metrics.l1_gas,
                            i,
                        );
                    }
                }
                let unconditional = self.sealer.should_seal_l1_batch_unconditionally(
                    &self.updates.base_system_contract_hashes,
                    self.external_seal_request,
                );
                let include_and_seal = match resolution {
                    SealResolution::IncludeAndSeal => true,
                    _ => false,
                };
                self.batch_seal_pending = include_and_seal || unconditional;
                let pending_len = self.updates.pending_executed_transactions_len();
                let seal_miniblock_due = self.sealer.should_seal_miniblock(
                    pending_len,
                    now_millis,
                    self.miniblock_opened_at_millis,
                );
                TxOutcome::Executed { seal_miniblock_due, seal_batch_due: self.batch_seal_pending }
            },
        }
    }

    /// A poll that found no transaction: evaluate the time-driven miniblock
    /// sealers and the unconditional batch sealers against the clock.
    pub fn poll_no_tx(&mut self, now_millis: u64) -> (out: PollOutcome)
        requires
            old(self).wf(),
        ensures
            final(self).wf(),
            *final(self) == (StateKeeper {
                batch_seal_pending: final(self).batch_seal_pending,
                ..*old(self)
            }),
            final(self).batch_seal_pending == (old(self).batch_seal_pending || old(
                self,
            ).spec_unconditional_fires()),
            out.seal_miniblock_due == spec_any_miniblock_sealer_fires(
                old(self).sealer.miniblock_sealers@,
                old(self).updates.miniblock.executed_transactions@.len() as int,
                now_millis as int,
                old(self).miniblock_opened_at_millis as int,
            ),
            out.seal_batch_due == final(self).batch_seal_pending,
    {
        let pending_len = self.updates.pending_executed_transactions_len();
        let seal_miniblock_due = self.sealer.should_seal_miniblock(
            pending_len,
            now_millis,
            self.miniblock_opened_at_millis,
        );
        let unconditional = self.sealer.should_seal_l1_batch_unconditionally(
            &self.updates.base_system_contract_hashes,
            self.external_seal_request,
        );
        if unconditional {
            self.batch_seal_pending = true;
        }
        PollOutcome { seal_miniblock_due, seal_batch_due: self.batch_seal_pending }
    }

    /// Seals the current miniblock and opens the next one, numbered one
    /// higher, with the timestamp the I/O port supplied. The sealed
    /// snapshot is appended to the journal; the batch aggregate is
    /// untouched.
    pub fn seal_miniblock(&mut self, new_timestamp: u64, now_millis: u64)
        requires
            old(self).wf(),
            old(self).updates.miniblock.executed_transactions@.len() > 0,
            old(self).updates.miniblock.number < u32::MAX,
            new_timestamp > old(self).updates.miniblock.timestamp,
        ensures
            final(self).wf(),
            final(self).sealer == old(self).sealer,
            final(self).l1_batch_number == old(self).l1_batch_number,
            final(self).batch_seal_pending == old(self).batch_seal_pending,
            final(self).external_seal_request == old(self).external_seal_request,
            final(self).sealed_miniblocks@ == old(self).sealed_miniblocks@.push(
                old(self).updates.miniblock,
            ),
            final(self).updates.l1_batch@ == old(self).updates.l1_batch@,
            final(self).updates.miniblock@ == MiniblockUpdates::spec_fresh(
                (old(self).updates.miniblock.number + 1) as u32,
                new_timestamp,
            ),
            final(self).updates.base_system_contract_hashes == old(
                self,
            ).updates.base_system_contract_hashes,
            final(self).miniblock_opened_at_millis == now_millis,
    {
        let ghost pre = *self;
        let sealed = self.updates.seal_miniblock(new_timestamp);
        self.sealed_miniblocks.push(sealed);
        self.miniblock_opened_at_millis = now_millis;
        proof {
            lemma_flat_txs_push(pre.sealed_miniblocks@, pre.updates.miniblock);
            assert(self.updates.l1_batch.executed_transactions@ =~= spec_flat_txs(
                self.sealed_miniblocks@,
            ) + self.updates.miniblock.executed_transactions@);
            assert(self.sealed_miniblocks@.last() == pre.updates.miniblock);
        }
    }

    /// Closes the batch: seals the current miniblock if it holds any
    /// transaction, lets the then-empty miniblock stand as the trailing
    /// fictive one, hands out the whole batch, and opens the next batch
    /// under the given timestamp and base system contract hashes.
    ///
    /// The returned miniblocks rise by one in number with strictly
    /// increasing timestamps; with the slots criterion installed the batch
    /// holds at most `transaction_slots` transactions, and with the gas
    /// criterion installed no component of its gas aggregate exceeds
    /// `max_single_tx_gas`.
    pub fn seal_l1_batch(
        &mut self,
        fictive_timestamp: u64,
        next_batch_timestamp: u64,
        next_hashes: BaseSystemContractsHashes,
        now_millis: u64,
    ) -> (finished: FinishedL1Batch)
        requires
            old(self).wf(),
            old(self).batch_seal_pending,
            old(self).l1_batch_number < u32::MAX,
            old(self).updates.miniblock.number + 2 <= u32::MAX,
            old(self).updates.miniblock.executed_transactions@.len() > 0 ==> fictive_timestamp
                > old(self).updates.miniblock.timestamp && next_batch_timestamp
                > fictive_timestamp,
            old(self).updates.miniblock.executed_transactions@.len() == 0
                ==> next_batch_timestamp > old(self).updates.miniblock.timestamp,
        ensures
            final(self).wf(),
            final(self).sealer == old(self).sealer,
            // The finished batch.
            finished.batch_number == old(self).l1_batch_number,
            finished.batch@ == old(self).updates.l1_batch@,
            spec_chain_ok(finished.miniblocks@),
            finished.miniblocks@.len() > 0,
            finished.miniblocks@.last().executed_transactions@.len() == 0,
            // A batch commit is observed whole: the batch's transactions
            // are exactly its miniblocks' transactions, in order.
            finished.batch.executed_transactions@ == spec_flat_txs(finished.miniblocks@),
            (old(self).updates.miniblock.executed_transactions@.len() > 0 ==> {
                &&& finished.miniblocks@ == old(self).sealed_miniblocks@.push(
                    old(self).updates.miniblock,
                ).push(finished.miniblocks@.last())
                &&& finished.miniblocks@.last()@ == MiniblockUpdates::spec_fresh(
                    (old(self).updates.miniblock.number + 1) as u32,
                    fictive_timestamp,
                )
            }),
            (old(self).updates.miniblock.executed_transactions@.len() == 0 ==> {
                &&& finished.miniblocks@ == old(self).sealed_miniblocks@.push(
                    old(self).updates.miniblock,
                )
                &&& finished.miniblocks@.last() == old(self).updates.miniblock
            }),
            // Law: with the slots criterion, a sealed batch never exceeds
            // the transaction budget.
            old(self).spec_has_criterion(SealCriterion::Slots)
                ==> finished.batch.executed_transactions@.len() <= old(
                self,
            ).sealer.conditional_sealer->Some_0.config.transaction_slots,
            // Law: with the gas criterion, no component of a sealed batch's
            // gas aggregate exceeds the cap.
            old(self).spec_has_criterion(SealCriterion::Gas)
                ==> !finished.batch.l1_gas_count.spec_any_greater(
                old(self).sealer.conditional_sealer->Some_0.config.max_single_tx_gas as int,
            ),
            // The next batch.
            final(self).l1_batch_number == old(self).l1_batch_number + 1,
            final(self).updates.l1_batch@ == L1BatchUpdates::spec_fresh(),
            final(self).updates.miniblock@ == MiniblockUpdates::spec_fresh(
                (finished.miniblocks@.last().number + 1) as u32,
                next_batch_timestamp,
            ),
            final(self).updates.base_system_contract_hashes == next_hashes,
            final(self).sealed_miniblocks@.len() == 0,
            !final(self).external_seal_request,
            !final(self).batch_seal_pending,
            final(self).miniblock_opened_at_millis == now_millis,
    {
        let ghost pre = *self;
        let pending = self.updates.pending_executed_transactions_len();
        if pending > 0 {
            let sealed = self.updates.seal_miniblock(fictive_timestamp);
            self.sealed_miniblocks.push(sealed);
            proof {
                lemma_flat_txs_push(pre.sealed_miniblocks@, pre.updates.miniblock);
            }
        }
        // The current miniblock is now empty: it is the fictive trailing
        // miniblock of the batch.
        let next_number = self.updates.miniblock.number + 1;
        let mut old_updates = UpdatesManager::new(next_number, next_batch_timestamp, next_hashes);
        core::mem::swap(&mut self.updates, &mut old_updates);
        let mut batch_miniblocks: Vec<MiniblockUpdates> = Vec::new();
        core::mem::swap(&mut self.sealed_miniblocks, &mut batch_miniblocks);
        let UpdatesManager { l1_batch, miniblock, .. } = old_updates;
        batch_miniblocks.push(miniblock);
        let finished = FinishedL1Batch {
            batch_number: self.l1_batch_number,
            batch: l1_batch,
            miniblocks: batch_miniblocks,
        };
        self.l1_batch_number = self.l1_batch_number + 1;
        self.external_seal_request = false;
        self.batch_seal_pending = false;
        self.miniblock_opened_at_millis = now_millis;
        proof {
            assert(self.updates.miniblock.executed_transactions@ =~= spec_flat_txs(
                self.sealed_miniblocks@,
            ) + self.updates.miniblock.executed_transactions@);
            if pending > 0 {
                assert(finished.miniblocks@.drop_last() =~= pre.sealed_miniblocks@.push(
                    pre.updates.miniblock,
                ));
                assert(finished.miniblocks@ == pre.sealed_miniblocks@.push(
                    pre.updates.miniblock,
                ).push(finished.miniblocks@.last()));
                lemma_flat_txs_push(pre.sealed_miniblocks@, pre.updates.miniblock);
                lemma_flat_txs_push(
                    pre.sealed_miniblocks@.push(pre.updates.miniblock),
                    finished.miniblocks@.last(),
                );
            } else {
                lemma_flat_txs_push(pre.sealed_miniblocks@, pre.updates.miniblock);
            }
            assert(finished.batch.executed_transactions@ =~= spec_flat_txs(
                finished.miniblocks@,
            ));
        }
        finished
    }

    /// Restores the keeper from a pending batch: replays every restored
    /// miniblock into a fresh updates journal — feeding each historical
    /// transaction back through [`UpdatesManager::extend_from_executed_transaction`]
    /// and sealing where the restored batch had sealed — then opens a fresh
    /// miniblock with the timestamp the I/O port supplies. No commits are
    /// issued: the restored miniblocks are already durable.
    ///
    /// If an unconditional sealer fires on the restored state (the base
    /// system contract hashes changed while the keeper was down), the batch
    /// is marked for sealing at once.
    #[verifier::rlimit(100)]
    pub fn from_pending_batch(
        sealer: SealManager,
        pending: PendingBatchData,
        next_miniblock_timestamp: u64,
        now_millis: u64,
    ) -> (r: StateKeeper)
        requires
            Self::spec_sealer_config_ok(sealer),
            pending.miniblocks@.len() > 0,
            spec_pending_chain_ok(pending.miniblocks@),
            spec_replay_fits(pending.miniblocks@),
            forall|i: int|
                0 <= i < pending.miniblocks@.len() ==> (#[trigger] pending.miniblocks@[i]).number
                    < u32::MAX,
            next_miniblock_timestamp > pending.miniblocks@.last().timestamp,
            // A batch this keeper left pending respects the budgets its
            // criteria enforce; restoring one that does not is refused.
            (match sealer.conditional_sealer {
                Option::Some(cs) => {
                    &&& (cs.sealers@.contains(SealCriterion::Slots) ==> spec_flat_pending(
                        pending.miniblocks@,
                    ).len() <= cs.config.transaction_slots)
                    &&& (cs.sealers@.contains(SealCriterion::Gas) ==> !spec_gas_fold(
                        spec_block_base_cost(),
                        spec_flat_pending(pending.miniblocks@),
                    ).spec_any_greater(cs.config.max_single_tx_gas as int))
                },
                Option::None => true,
            }),
        ensures
            r.wf(),
            r.sealer == sealer,
            r.l1_batch_number == pending.l1_batch_number,
            r.updates.base_system_contract_hashes == pending.base_system_contract_hashes,
            r.sealed_miniblocks@.len() == pending.miniblocks@.len(),
            forall|i: int|
                0 <= i < pending.miniblocks@.len() ==> {
                    &&& (#[trigger] r.sealed_miniblocks@[i]).number == pending.miniblocks@[i].number
                    &&& r.sealed_miniblocks@[i].timestamp == pending.miniblocks@[i].timestamp
                    &&& r.sealed_miniblocks@[i].executed_transactions@
                        == pending.miniblocks@[i].txs@
                },
            r.updates.l1_batch.executed_transactions@ == spec_flat_pending(pending.miniblocks@),
            r.updates.miniblock@ == MiniblockUpdates::spec_fresh(
                (pending.miniblocks@.last().number + 1) as u32,
                next_miniblock_timestamp,
            ),
            !r.external_seal_request,
            r.batch_seal_pending == (spec_any_batch_sealer_fires(
                sealer.unconditional_sealers@,
                pending.base_system_contract_hashes,
                false,
            ) || (match sealer.conditional_sealer {
                Option::Some(cs) => cs.sealers@.contains(SealCriterion::Slots)
                    && spec_flat_pending(pending.miniblocks@).len()
                    >= cs.config.transaction_slots,
                Option::None => false,
            })),
            r.miniblock_opened_at_millis == now_millis,
    {
        let ghost pmbs = pending.miniblocks@;
        let first_number = pending.miniblocks[0].number;
        let first_timestamp = pending.miniblocks[0].timestamp;
        let mut updates = UpdatesManager::new(
            first_number,
            first_timestamp,
            pending.base_system_contract_hashes,
        );
        let mut journal: Vec<MiniblockUpdates> = Vec::new();
        let n = pending.miniblocks.len();
        let mut i: usize = 0;
        while i < n
            invariant
                n == pmbs.len(),
                pending.miniblocks@ == pmbs,
                spec_pending_chain_ok(pmbs),
                spec_replay_fits(pmbs),
                forall|k: int| 0 <= k < pmbs.len() ==> (#[trigger] pmbs[k]).number < u32::MAX,
                next_miniblock_timestamp > pmbs.last().timestamp,
                i <= n,
                journal@.len() == i,
                forall|k: int|
                    0 <= k < i ==> {
                        &&& (#[trigger] journal@[k]).number == pmbs[k].number
                        &&& journal@[k].timestamp == pmbs[k].timestamp
                        &&& journal@[k].executed_transactions@ == pmbs[k].txs@
                        &&& spec_miniblock_consistent(journal@[k])
                    },
                updates.wf(),
                updates.base_system_contract_hashes == pending.base_system_contract_hashes,
                updates.miniblock@ == MiniblockUpdates::spec_fresh(
                    if i < n {
                        pmbs[i as int].number
                    } else {
                        ((pmbs.last().number + 1) as u32)
                    },
                    if i < n {
                        pmbs[i as int].timestamp
                    } else {
                        next_miniblock_timestamp
                    },
                ),
                updates.l1_batch.executed_transactions@ == spec_flat_pending(
                    pmbs.take(i as int),
                ),
                updates.l1_batch.l1_gas_count == spec_gas_fold(
                    spec_block_base_cost(),
                    updates.l1_batch.executed_transactions@,
                ),
                updates.l1_batch.block_execution_metrics == spec_metrics_fold(
                    ExecutionMetrics::spec_zero(),
                    updates.l1_batch.executed_transactions@,
                ),
            decreases n - i,
        {
            let next_ts = if i + 1 < n {
                pending.miniblocks[i + 1].timestamp
            } else {
                next_miniblock_timestamp
            };
            let mb = &pending.miniblocks[i];
            proof {
                lemma_replay_fits_at(pmbs, i as int, updates.l1_batch.executed_transactions@);
            }
            let sealed = replay_miniblock(&mut updates, mb, next_ts);
            journal.push(sealed);
            i = i + 1;
            proof {
                lemma_flat_pending_step(pmbs, i as int - 1);
            }
        }
        proof {
            assert(pmbs.take(n as int) =~= pmbs);
            lemma_journal_chain(journal@, pmbs);
            assert(journal@.last() == journal@[n - 1]);
        }
        let batch_len = updates.l1_batch.executed_transactions.len();
        let slots_full = match &sealer.conditional_sealer {
            Option::Some(cs) => {
                let mut found: bool = false;
                let mut k: usize = 0;
                while k < cs.sealers.len()
                    invariant
                        k <= cs.sealers@.len(),
                        found == exists|m: int|
                            0 <= m < k && cs.sealers@[m] == SealCriterion::Slots,
                    decreases cs.sealers@.len() - k,
                {
                    let is_slots = match cs.sealers[k] {
                        SealCriterion::Slots => true,
                        _ => false,
                    };
                    if is_slots {
                        found = true;
                    }
                    k = k + 1;
                }
                proof {
                    assert(found == cs.sealers@.contains(SealCriterion::Slots));
                }
                found && batch_len >= cs.config.transaction_slots
            },
            Option::None => false,
        };
        let unconditional = sealer.should_seal_l1_batch_unconditionally(
            &updates.base_system_contract_hashes,
            false,
        );
        let r = StateKeeper {
            sealer,
            updates,
            l1_batch_number: pending.l1_batch_number,
            sealed_miniblocks: journal,
            batch_seal_pending: unconditional || slots_full,
            external_seal_request: false,
            miniblock_opened_at_millis: now_millis,
        };
        proof {
            assert(r.updates.l1_batch.executed_transactions@ =~= spec_flat_txs(
                r.sealed_miniblocks@,
            ) + r.updates.miniblock.executed_transactions@) by {
                lemma_flat_matches(r.sealed_miniblocks@, pmbs);
            }
        }
        r
    }
}

/// Flattening sealed miniblocks or the pending records they were restored
/// from gives the same transactions, as long as they match pointwise.
proof fn lemma_flat_matches(journal: Seq<MiniblockUpdates>, pending: Seq<PendingMiniblock>)
    requires
        journal.len() == pending.len(),
        forall|k: int|
            0 <= k < journal.len() ==> (#[trigger] journal[k]).executed_transactions@
                == pending[k].txs@,
    ensures
        spec_flat_txs(journal) == spec_flat_pending(pending),
    decreases journal.len(),
{
    if journal.len() > 0 {
        lemma_flat_matches(journal.drop_last(), pending.drop_last());
        assert(journal.last().executed_transactions@ == pending[journal.len() - 1].txs@);
    }
}

/// Two sequences of miniblocks holding pointwise the same transactions
/// flatten to the same sequence of transactions.
proof fn lemma_flat_txs_pointwise(a: Seq<MiniblockUpdates>, b: Seq<MiniblockUpdates>)
    requires
        a.len() == b.len(),
        forall|k: int|
            0 <= k < a.len() ==> (#[trigger] a[k]).executed_transactions@
                == b[k].executed_transactions@,
    ensures
        spec_flat_txs(a) == spec_flat_txs(b),
    decreases a.len(),
{
    if a.len() > 0 {
        lemma_flat_txs_pointwise(a.drop_last(), b.drop_last());
        assert(a.last().executed_transactions@ == b[a.len() - 1].executed_transactions@);
    }
}

/// Law: consecutive miniblocks of a well-formed keeper — the sealed ones
/// and the one being built — carry numbers that rise by exactly one and
/// strictly increasing timestamps.
pub proof fn lemma_miniblock_monotonicity(k: StateKeeper)
    requires
        k.wf(),
    ensures
        forall|i: int|
            #![trigger k.sealed_miniblocks@[i]]
            1 <= i < k.sealed_miniblocks@.len() ==> k.sealed_miniblocks@[i].number
                == k.sealed_miniblocks@[i - 1].number + 1 && k.sealed_miniblocks@[i - 1].timestamp
                < k.sealed_miniblocks@[i].timestamp,
        k.sealed_miniblocks@.len() > 0 ==> k.updates.miniblock.number
            == k.sealed_miniblocks@.last().number + 1 && k.updates.miniblock.timestamp
            > k.sealed_miniblocks@.last().timestamp,
{
}

/// Law: with the slots criterion as the only conditional criterion, the
/// sealer seals the batch exactly when the transaction count, the pending
/// transaction included, reaches `transaction_slots` — so offering exactly
/// that many successful transactions seals the batch with all of them.
pub proof fn lemma_slots_seal_exact(
    cs: ConditionalSealer,
    tx_count: int,
    block_gas: BlockGasCount,
    tx_gas: BlockGasCount,
)
    requires
        cs.sealers@ =~= seq![SealCriterion::Slots],
    ensures
        cs.spec_resolution(tx_count, block_gas, tx_gas) == if tx_count
            >= cs.config.transaction_slots {
            SealResolution::IncludeAndSeal
        } else {
            SealResolution::NoSeal
        },
{
    assert(cs.sealers@.len() == 1);
    assert(cs.sealers@.last() == cs.sealers@[0]);
    assert(cs.sealers@[0] == seq![SealCriterion::Slots][0]);
    assert(cs.sealers@.drop_last() =~= Seq::<SealCriterion>::empty());
    assert(spec_combined_resolution(
        Seq::<SealCriterion>::empty(),
        cs.config,
        tx_count,
        block_gas,
        tx_gas,
    ) == SealResolution::NoSeal);
}

/// Law: a transaction whose own gas reaches the single-transaction share
/// of the gas cap never enters any batch. With the gas criterion installed
/// the conditional resolution is `Unexecutable`, whatever the other
/// criteria say, and the keeper then rejects the transaction permanently
/// and leaves the batch untouched.
pub proof fn lemma_oversized_tx_never_enters(
    k: StateKeeper,
    tx_metrics: ExecutionMetricsForCriteria,
)
    requires
        k.wf(),
        k.spec_has_criterion(SealCriterion::Gas),
        ({
            let cfg = k.sealer.conditional_sealer->Some_0.config;
            let bound = cfg.reject_tx_at_gas_percentage.spec_of_gas(cfg.max_single_tx_gas as int);
            tx_metrics.l1_gas.commit >= bound || tx_metrics.l1_gas.prove >= bound
                || tx_metrics.l1_gas.execute >= bound
        }),
    ensures
        k.spec_tx_resolution(tx_metrics) == SealResolution::Unexecutable(
            UnexecutableReason::TooMuchGas,
        ),
{
    let cs = k.sealer.conditional_sealer->Some_0;
    let i = choose|i: int| 0 <= i < cs.sealers@.len() && cs.sealers@[i] == SealCriterion::Gas;
    lemma_combined_dominates(
        cs.sealers@,
        cs.config,
        k.updates.l1_batch.executed_transactions@.len() as int + 1,
        k.updates.l1_batch.l1_gas_count.spec_plus(tx_metrics.l1_gas),
        tx_metrics.l1_gas,
        i,
    );
    let res = k.spec_tx_resolution(tx_metrics);
    assert(res.severity() >= 3);
    match res {
        SealResolution::Unexecutable(r) => {
            assert(r == UnexecutableReason::TooMuchGas);
        },
        _ => {
            assert(false);
        },
    }
}

/// Law: replay is idempotent. A keeper restored from a pending batch holds,
/// transaction for transaction and aggregate for aggregate, the batch state
/// the live keeper held when that batch's miniblocks were sealed: restoring
/// and stopping at once loses nothing and invents nothing.
pub proof fn lemma_replay_idempotent(live: StateKeeper, replayed: StateKeeper)
    requires
        live.wf(),
        replayed.wf(),
        // The live keeper stopped right after a miniblock seal: nothing
        // unsealed was in flight, so the pending batch held exactly the
        // sealed miniblocks.
        live.updates.miniblock.executed_transactions@.len() == 0,
        replayed.updates.miniblock.executed_transactions@.len() == 0,
        replayed.sealed_miniblocks@.len() == live.sealed_miniblocks@.len(),
        forall|i: int|
            0 <= i < live.sealed_miniblocks@.len() ==> (#[trigger] replayed.sealed_miniblocks@[i]).executed_transactions@
                == live.sealed_miniblocks@[i].executed_transactions@,
    ensures
        replayed.updates.l1_batch.executed_transactions@
            == live.updates.l1_batch.executed_transactions@,
        replayed.updates.l1_batch.l1_gas_count == live.updates.l1_batch.l1_gas_count,
        replayed.updates.l1_batch.block_execution_metrics
            == live.updates.l1_batch.block_execution_metrics,
        forall|i: int|
            0 <= i < live.sealed_miniblocks@.len() ==> (#[trigger] replayed.sealed_miniblocks@[i]).l1_gas_count
                == live.sealed_miniblocks@[i].l1_gas_count
                && replayed.sealed_miniblocks@[i].block_execution_metrics
                == live.sealed_miniblocks@[i].block_execution_metrics,
{
    lemma_flat_txs_pointwise(replayed.sealed_miniblocks@, live.sealed_miniblocks@);
    assert(replayed.updates.l1_batch.executed_transactions@ =~= spec_flat_txs(
        replayed.sealed_miniblocks@,
    ));
    assert(live.updates.l1_batch.executed_transactions@ =~= spec_flat_txs(
        live.sealed_miniblocks@,
    ));
}

} // verus!
