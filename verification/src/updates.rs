//! The updates manager: an append-only journal of per-transaction execution
//! deltas, rolled up into two views — the current miniblock and the current
//! L1 batch.
//!
//! Invariants kept here: a transaction is appended to both views at once,
//! so the miniblock's transactions are always the trailing segment of the
//! batch's; sealing a miniblock leaves the batch aggregate unchanged; the
//! batch aggregate is charged the per-batch base gas when it opens, and a
//! single transaction never is.

use vstd::prelude::*;

use crate::types::{
    BaseSystemContractsHashes, BlockGasCount, ExecutionMetrics, Transaction,
    TransactionExecutionResult, block_base_cost, spec_block_base_cost,
};

verus! {

/// Running aggregate of the miniblock being built.
#[derive(Clone, Debug)]
pub struct MiniblockUpdates {
    pub executed_transactions: Vec<TransactionExecutionResult>,
    pub l1_gas_count: BlockGasCount,
    pub block_execution_metrics: ExecutionMetrics,
    pub number: u32,
    pub timestamp: u64,
}

impl MiniblockUpdates {
    /// What a just-opened miniblock looks like.
    pub open spec fn spec_fresh(number: u32, timestamp: u64) -> MiniblockUpdatesView {
        MiniblockUpdatesView {
            executed_transactions: Seq::empty(),
            l1_gas_count: BlockGasCount::spec_zero(),
            block_execution_metrics: ExecutionMetrics::spec_zero(),
            number,
            timestamp,
        }
    }

    pub fn new(number: u32, timestamp: u64) -> (r: MiniblockUpdates)
        ensures
            r@ == MiniblockUpdates::spec_fresh(number, timestamp),
    {
        MiniblockUpdates {
            executed_transactions: Vec::new(),
            l1_gas_count: BlockGasCount { commit: 0, prove: 0, execute: 0 },
            block_execution_metrics: ExecutionMetrics {
                gas_used: 0,
                cycles_used: 0,
                computational_gas_used: 0,
            },
            number,
            timestamp,
        }
    }
}

/// Mathematical image of a miniblock aggregate.
pub ghost struct MiniblockUpdatesView {
    pub executed_transactions: Seq<TransactionExecutionResult>,
    pub l1_gas_count: BlockGasCount,
    pub block_execution_metrics: ExecutionMetrics,
    pub number: u32,
    pub timestamp: u64,
}

impl View for MiniblockUpdates {
    type V = MiniblockUpdatesView;

    open spec fn view(&self) -> MiniblockUpdatesView {
        MiniblockUpdatesView {
            executed_transactions: self.executed_transactions@,
            l1_gas_count: self.l1_gas_count,
            block_execution_metrics: self.block_execution_metrics,
            number: self.number,
            timestamp: self.timestamp,
        }
    }
}

/// Running aggregate of the L1 batch being built.
#[derive(Clone, Debug)]
pub struct L1BatchUpdates {
    pub executed_transactions: Vec<TransactionExecutionResult>,
    pub l1_gas_count: BlockGasCount,
    pub block_execution_metrics: ExecutionMetrics,
}

/// Mathematical image of a batch aggregate.
pub ghost struct L1BatchUpdatesView {
    pub executed_transactions: Seq<TransactionExecutionResult>,
    pub l1_gas_count: BlockGasCount,
    pub block_execution_metrics: ExecutionMetrics,
}

impl View for L1BatchUpdates {
    type V = L1BatchUpdatesView;

    open spec fn view(&self) -> L1BatchUpdatesView {
        L1BatchUpdatesView {
            executed_transactions: self.executed_transactions@,
            l1_gas_count: self.l1_gas_count,
            block_execution_metrics: self.block_execution_metrics,
        }
    }
}

impl L1BatchUpdates {
    /// What a just-opened batch aggregate looks like: no transactions, the
    /// base gas already charged.
    pub open spec fn spec_fresh() -> L1BatchUpdatesView {
        L1BatchUpdatesView {
            executed_transactions: Seq::empty(),
            l1_gas_count: spec_block_base_cost(),
            block_execution_metrics: ExecutionMetrics::spec_zero(),
        }
    }

    pub fn new() -> (r: L1BatchUpdates)
        ensures
            r@ == L1BatchUpdates::spec_fresh(),
    {
        L1BatchUpdates {
            executed_transactions: Vec::new(),
            l1_gas_count: block_base_cost(),
            block_execution_metrics: ExecutionMetrics {
                gas_used: 0,
                cycles_used: 0,
                computational_gas_used: 0,
            },
        }
    }
}

/// Journal of everything executed since the current batch opened, exposing
/// the miniblock and batch roll-up views.
#[derive(Clone, Debug)]
pub struct UpdatesManager {
    pub l1_batch: L1BatchUpdates,
    pub miniblock: MiniblockUpdates,
    pub base_system_contract_hashes: BaseSystemContractsHashes,
}

impl UpdatesManager {
    /// The miniblock's transactions are the trailing segment of the
    /// batch's: appends go to both views at once.
    pub open spec fn wf(self) -> bool {
        &&& self.miniblock.executed_transactions@.len()
            <= self.l1_batch.executed_transactions@.len()
        &&& self.miniblock.executed_transactions@ == self.l1_batch.executed_transactions@.skip(
            self.l1_batch.executed_transactions@.len()
                - self.miniblock.executed_transactions@.len(),
        )
    }

    /// Opens a fresh batch: the batch aggregate holds the base gas, the
    /// first miniblock is empty, and the base system contract hashes are
    /// snapshotted.
    pub fn new(
        first_miniblock_number: u32,
        timestamp: u64,
        base_system_contract_hashes: BaseSystemContractsHashes,
    ) -> (r: UpdatesManager)
        ensures
            r.wf(),
            r.l1_batch@ == L1BatchUpdates::spec_fresh(),
            r.miniblock@ == MiniblockUpdates::spec_fresh(first_miniblock_number, timestamp),
            r.base_system_contract_hashes == base_system_contract_hashes,
    {
        let r = UpdatesManager {
            l1_batch: L1BatchUpdates::new(),
            miniblock: MiniblockUpdates::new(first_miniblock_number, timestamp),
            base_system_contract_hashes,
        };
        proof {
            assert(r.miniblock.executed_transactions@ == r.l1_batch.executed_transactions@.skip(
                0,
            ));
        }
        r
    }

    /// Whether one more transaction with these deltas can be accounted
    /// without overflowing the aggregates.
    pub open spec fn can_extend(self, l1_gas: BlockGasCount, metrics: ExecutionMetrics) -> bool {
        &&& self.l1_batch.l1_gas_count.can_add(l1_gas)
        &&& self.miniblock.l1_gas_count.can_add(l1_gas)
        &&& self.l1_batch.block_execution_metrics.can_add(metrics)
        &&& self.miniblock.block_execution_metrics.can_add(metrics)
    }

    /// Appends an executed transaction to the miniblock and the batch
    /// aggregates at once.
    pub fn extend_from_executed_transaction(
        &mut self,
        tx: Transaction,
        tx_l1_gas: BlockGasCount,
        tx_execution_metrics: ExecutionMetrics,
    )
        requires
            old(self).wf(),
            old(self).can_extend(tx_l1_gas, tx_execution_metrics),
        ensures
            final(self).wf(),
            final(self).l1_batch.executed_transactions@ == old(
                self,
            ).l1_batch.executed_transactions@.push(
                TransactionExecutionResult {
                    tx,
                    l1_gas: tx_l1_gas,
                    execution_metrics: tx_execution_metrics,
                },
            ),
            final(self).miniblock.executed_transactions@ == old(
                self,
            ).miniblock.executed_transactions@.push(
                TransactionExecutionResult {
                    tx,
                    l1_gas: tx_l1_gas,
                    execution_metrics: tx_execution_metrics,
                },
            ),
            final(self).l1_batch.l1_gas_count == old(self).l1_batch.l1_gas_count.spec_plus(
                tx_l1_gas,
            ),
            final(self).miniblock.l1_gas_count == old(self).miniblock.l1_gas_count.spec_plus(
                tx_l1_gas,
            ),
            final(self).l1_batch.block_execution_metrics == old(
                self,
            ).l1_batch.block_execution_metrics.spec_plus(tx_execution_metrics),
            final(self).miniblock.block_execution_metrics == old(
                self,
            ).miniblock.block_execution_metrics.spec_plus(tx_execution_metrics),
            final(self).miniblock.number == old(self).miniblock.number,
            final(self).miniblock.timestamp == old(self).miniblock.timestamp,
            final(self).base_system_contract_hashes == old(self).base_system_contract_hashes,
    {
        let record = TransactionExecutionResult {
            tx,
            l1_gas: tx_l1_gas,
            execution_metrics: tx_execution_metrics,
        };
        self.l1_batch.executed_transactions.push(record);
        self.l1_batch.l1_gas_count = self.l1_batch.l1_gas_count.plus(&tx_l1_gas);
        self.l1_batch.block_execution_metrics = self.l1_batch.block_execution_metrics.plus(
            &tx_execution_metrics,
        );
        self.miniblock.executed_transactions.push(record);
        self.miniblock.l1_gas_count = self.miniblock.l1_gas_count.plus(&tx_l1_gas);
        self.miniblock.block_execution_metrics = self.miniblock.block_execution_metrics.plus(
            &tx_execution_metrics,
        );
        proof {
            let b = self.l1_batch.executed_transactions@;
            let m = self.miniblock.executed_transactions@;
            assert(m =~= b.skip(b.len() - m.len()));
        }
    }

    /// How many transactions have executed since the last miniblock seal.
    pub fn pending_executed_transactions_len(&self) -> (r: usize)
        ensures
            r == self.miniblock.executed_transactions@.len(),
    {
        self.miniblock.executed_transactions.len()
    }

    /// Closes the current miniblock and opens the next one, numbered one
    /// higher and carrying the timestamp the I/O port supplied. The batch
    /// aggregate is untouched; the returned snapshot is immutable from here
    /// on.
    pub fn seal_miniblock(&mut self, new_timestamp: u64) -> (sealed: MiniblockUpdates)
        requires
            old(self).wf(),
            old(self).miniblock.number < u32::MAX,
            new_timestamp > old(self).miniblock.timestamp,
        ensures
            final(self).wf(),
            sealed == old(self).miniblock,
            final(self).miniblock@ == MiniblockUpdates::spec_fresh(
                (old(self).miniblock.number + 1) as u32,
                new_timestamp,
            ),
            final(self).l1_batch == old(self).l1_batch,
            final(self).base_system_contract_hashes == old(self).base_system_contract_hashes,
    {
        let mut sealed = MiniblockUpdates::new(self.miniblock.number + 1, new_timestamp);
        core::mem::swap(&mut self.miniblock, &mut sealed);
        proof {
            let b = self.l1_batch.executed_transactions@;
            assert(self.miniblock.executed_transactions@ =~= b.skip(b.len() as int));
        }
        sealed
    }
}

} // verus!
