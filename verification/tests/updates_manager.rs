//! Tests for the updates manager: appends go to both views at once, a
//! miniblock seal leaves the batch aggregate alone, and the batch opens
//! charged with the base gas.

use sequencer_core::types::{
    BaseSystemContractsHashes, BlockGasCount, ExecutionMetrics, Transaction,
    BLOCK_COMMIT_BASE_COST, BLOCK_EXECUTE_BASE_COST, BLOCK_PROVE_BASE_COST,
};
use sequencer_core::updates::UpdatesManager;

fn tx(n: u64) -> Transaction {
    Transaction {
        hash: n,
        gas_limit: 1000,
        max_fee_per_gas: 1,
        max_priority_fee_per_gas: 0,
        gas_per_pubdata_limit: 1,
    }
}

fn metrics(gas_used: u64) -> ExecutionMetrics {
    ExecutionMetrics { gas_used, cycles_used: 2 * gas_used, computational_gas_used: gas_used }
}

fn hashes() -> BaseSystemContractsHashes {
    BaseSystemContractsHashes { bootloader: 5, default_aa: 6 }
}

#[test]
fn a_fresh_batch_is_charged_the_base_gas_only() {
    let updates = UpdatesManager::new(1, 10, hashes());
    assert_eq!(
        updates.l1_batch.l1_gas_count,
        BlockGasCount {
            commit: BLOCK_COMMIT_BASE_COST,
            prove: BLOCK_PROVE_BASE_COST,
            execute: BLOCK_EXECUTE_BASE_COST,
        }
    );
    assert!(updates.l1_batch.executed_transactions.is_empty());
    assert_eq!(updates.miniblock.l1_gas_count, BlockGasCount { commit: 0, prove: 0, execute: 0 });
    assert_eq!(updates.miniblock.number, 1);
    assert_eq!(updates.miniblock.timestamp, 10);
    assert_eq!(updates.base_system_contract_hashes, hashes());
}

#[test]
fn extend_appends_to_both_views_at_once() {
    let mut updates = UpdatesManager::new(1, 10, hashes());
    let gas = BlockGasCount { commit: 3, prove: 1, execute: 2 };
    updates.extend_from_executed_transaction(tx(1), gas, metrics(7));
    updates.extend_from_executed_transaction(tx(2), gas, metrics(5));

    assert_eq!(updates.pending_executed_transactions_len(), 2);
    assert_eq!(updates.l1_batch.executed_transactions.len(), 2);
    assert_eq!(updates.miniblock.executed_transactions, updates.l1_batch.executed_transactions);
    assert_eq!(
        updates.l1_batch.l1_gas_count,
        BlockGasCount {
            commit: BLOCK_COMMIT_BASE_COST + 6,
            prove: BLOCK_PROVE_BASE_COST + 2,
            execute: BLOCK_EXECUTE_BASE_COST + 4,
        }
    );
    assert_eq!(updates.miniblock.l1_gas_count, BlockGasCount { commit: 6, prove: 2, execute: 4 });
    assert_eq!(updates.l1_batch.block_execution_metrics.gas_used, 12);
    assert_eq!(updates.miniblock.block_execution_metrics.cycles_used, 24);
}

#[test]
fn sealing_a_miniblock_leaves_the_batch_aggregate_unchanged() {
    let mut updates = UpdatesManager::new(1, 10, hashes());
    let gas = BlockGasCount { commit: 3, prove: 0, execute: 0 };
    updates.extend_from_executed_transaction(tx(1), gas, metrics(7));
    let batch_before_txs = updates.l1_batch.executed_transactions.clone();
    let batch_before_gas = updates.l1_batch.l1_gas_count;

    let sealed = updates.seal_miniblock(11);

    assert_eq!(sealed.number, 1);
    assert_eq!(sealed.timestamp, 10);
    assert_eq!(sealed.executed_transactions.len(), 1);
    assert_eq!(sealed.l1_gas_count, gas);
    // The just-sealed snapshot stays immutable; the new miniblock is empty.
    assert_eq!(updates.miniblock.number, 2);
    assert_eq!(updates.miniblock.timestamp, 11);
    assert_eq!(updates.pending_executed_transactions_len(), 0);
    assert_eq!(updates.l1_batch.executed_transactions, batch_before_txs);
    assert_eq!(updates.l1_batch.l1_gas_count, batch_before_gas);
}
