//! Tests for the block reverter: the round trip back to an earlier batch,
//! the per-store guards, the finality check, and the L1 call parameters.

use sequencer_core::reverter::{
    AggregatedActionType, BlockReverter, BlockReverterEthConfig, BlockReverterFlags, CacheState,
    EthSenderRow, L1BatchRow, L1ExecutedBatchesRevert, MiniblockScopedRow, NodeState,
    PostgresState, ReceiptPollDecision, RevertError, RevertTransactionParams, TreeState,
    check_revert_receipt, counter_function_name,
};
use sequencer_core::types::L1BatchNumber;

fn row(miniblock: u32, payload: u64) -> MiniblockScopedRow {
    MiniblockScopedRow { miniblock, payload }
}

/// A node state that executed batches 0 (genesis), 1 and 2, with two
/// miniblocks per non-genesis batch and one row per table per miniblock.
fn state_at_batch_2() -> NodeState {
    NodeState {
        postgres: PostgresState {
            batches: vec![
                L1BatchRow { root_hash: 100, last_miniblock: 0 },
                L1BatchRow { root_hash: 101, last_miniblock: 2 },
                L1BatchRow { root_hash: 102, last_miniblock: 4 },
            ],
            transactions: vec![row(1, 11), row(2, 12), row(3, 13), row(4, 14)],
            events: vec![row(1, 21), row(2, 22), row(3, 23), row(4, 24)],
            l2_to_l1_logs: vec![row(1, 31), row(3, 33)],
            tokens: vec![row(2, 42)],
            factory_deps: vec![row(1, 51), row(4, 54)],
            storage_logs: vec![row(1, 61), row(2, 62), row(3, 63), row(4, 64)],
            eth_sender_txs: vec![
                EthSenderRow { id: 1, failed: false },
                EthSenderRow { id: 2, failed: true },
                EthSenderRow { id: 3, failed: false },
            ],
        },
        tree: TreeState { roots: vec![100, 101, 102] },
        sk_cache: CacheState { l1_batch_number: 3 },
        last_executed_on_l1: 1,
    }
}

/// What every store held when batch 1 was the newest.
fn state_at_batch_1() -> NodeState {
    NodeState {
        postgres: PostgresState {
            batches: vec![
                L1BatchRow { root_hash: 100, last_miniblock: 0 },
                L1BatchRow { root_hash: 101, last_miniblock: 2 },
            ],
            transactions: vec![row(1, 11), row(2, 12)],
            events: vec![row(1, 21), row(2, 22)],
            l2_to_l1_logs: vec![row(1, 31)],
            tokens: vec![row(2, 42)],
            factory_deps: vec![row(1, 51)],
            storage_logs: vec![row(1, 61), row(2, 62)],
            eth_sender_txs: vec![
                EthSenderRow { id: 1, failed: false },
                EthSenderRow { id: 2, failed: true },
                EthSenderRow { id: 3, failed: false },
            ],
        },
        tree: TreeState { roots: vec![100, 101] },
        sk_cache: CacheState { l1_batch_number: 2 },
        last_executed_on_l1: 1,
    }
}

fn eth_config() -> BlockReverterEthConfig {
    BlockReverterEthConfig::new(String::from("http://localhost:8545"), 7, 8, 9, 250)
}

#[test]
fn rollback_db_round_trip_restores_earlier_state() {
    let reverter = BlockReverter::new(None, L1ExecutedBatchesRevert::Disallowed);
    let mut state = state_at_batch_2();
    let result = reverter.rollback_db(&mut state, L1BatchNumber(1), BlockReverterFlags::all());
    assert_eq!(result, Ok(()));

    let expected = state_at_batch_1();
    assert_eq!(state.postgres.batches, expected.postgres.batches);
    assert_eq!(state.postgres.transactions, expected.postgres.transactions);
    assert_eq!(state.postgres.events, expected.postgres.events);
    assert_eq!(state.postgres.l2_to_l1_logs, expected.postgres.l2_to_l1_logs);
    assert_eq!(state.postgres.tokens, expected.postgres.tokens);
    assert_eq!(state.postgres.factory_deps, expected.postgres.factory_deps);
    assert_eq!(state.postgres.storage_logs, expected.postgres.storage_logs);
    assert_eq!(state.postgres.eth_sender_txs, expected.postgres.eth_sender_txs);
    assert_eq!(state.tree.roots, expected.tree.roots);
    assert_eq!(state.sk_cache, expected.sk_cache);
}

#[test]
fn rollback_beyond_finality_is_fatal_in_disallowed_mode() {
    let reverter = BlockReverter::new(None, L1ExecutedBatchesRevert::Disallowed);
    let mut state = state_at_batch_2();
    let before_batches = state.postgres.batches.clone();
    // Batch 1 is already executed on L1; asking to keep only batch 0
    // crosses the frontier.
    let result = reverter.rollback_db(&mut state, L1BatchNumber(0), BlockReverterFlags::all());
    assert_eq!(result, Err(RevertError::RevertBeyondFinality));
    assert_eq!(state.postgres.batches, before_batches);
    assert_eq!(state.tree.roots, vec![100, 101, 102]);
    assert_eq!(state.sk_cache, CacheState { l1_batch_number: 3 });
}

#[test]
fn rollback_beyond_finality_is_permitted_in_allowed_mode() {
    let reverter = BlockReverter::new(None, L1ExecutedBatchesRevert::Allowed);
    let mut state = state_at_batch_2();
    let result = reverter.rollback_db(&mut state, L1BatchNumber(0), BlockReverterFlags::all());
    assert_eq!(result, Ok(()));
    assert_eq!(state.postgres.batches.len(), 1);
    assert_eq!(state.tree.roots, vec![100]);
    assert_eq!(state.sk_cache, CacheState { l1_batch_number: 1 });
    assert!(state.postgres.transactions.is_empty());
}

#[test]
fn tree_root_mismatch_is_fatal_and_leaves_state_untouched() {
    let reverter = BlockReverter::new(None, L1ExecutedBatchesRevert::Disallowed);
    let mut state = state_at_batch_2();
    // Corrupt the tree's recorded root for batch 1.
    state.tree.roots[1] = 999;
    let result = reverter.rollback_db(&mut state, L1BatchNumber(1), BlockReverterFlags::all());
    assert_eq!(result, Err(RevertError::TreeRootMismatch));
    assert_eq!(state.tree.roots, vec![100, 999, 102]);
    assert_eq!(state.postgres.batches.len(), 3, "the relational store must not be touched");
}

#[test]
fn tree_already_behind_target_is_skipped() {
    let reverter = BlockReverter::new(None, L1ExecutedBatchesRevert::Disallowed);
    let mut state = state_at_batch_2();
    // The tree never saw batch 2; its root for batch 1 is irrelevant to
    // the guard.
    state.tree.roots = vec![100, 101];
    let result = reverter.rollback_db(&mut state, L1BatchNumber(1), BlockReverterFlags::all());
    assert_eq!(result, Ok(()));
    assert_eq!(state.tree.roots, vec![100, 101]);
    assert_eq!(state.postgres.batches.len(), 2);
}

#[test]
fn cache_at_target_is_skipped() {
    let reverter = BlockReverter::new(None, L1ExecutedBatchesRevert::Disallowed);
    let mut state = state_at_batch_2();
    state.sk_cache = CacheState { l1_batch_number: 2 };
    let result = reverter.rollback_db(&mut state, L1BatchNumber(1), BlockReverterFlags::all());
    assert_eq!(result, Ok(()));
    assert_eq!(state.sk_cache, CacheState { l1_batch_number: 2 });
}

#[test]
fn unflagged_stores_are_untouched() {
    let reverter = BlockReverter::new(None, L1ExecutedBatchesRevert::Disallowed);
    let mut state = state_at_batch_2();
    let flags = BlockReverterFlags { postgres: true, tree: false, sk_cache: false };
    let result = reverter.rollback_db(&mut state, L1BatchNumber(1), flags);
    assert_eq!(result, Ok(()));
    assert_eq!(state.tree.roots, vec![100, 101, 102]);
    assert_eq!(state.sk_cache, CacheState { l1_batch_number: 3 });
    assert_eq!(state.postgres.batches.len(), 2);
}

#[test]
fn rollback_is_idempotent() {
    let reverter = BlockReverter::new(None, L1ExecutedBatchesRevert::Disallowed);
    let mut state = state_at_batch_2();
    reverter.rollback_db(&mut state, L1BatchNumber(1), BlockReverterFlags::all()).unwrap();
    let after_first = state.clone();
    // A crashed invocation is simply re-run: every guard now skips.
    reverter.rollback_db(&mut state, L1BatchNumber(1), BlockReverterFlags::all()).unwrap();
    assert_eq!(state.postgres.batches, after_first.postgres.batches);
    assert_eq!(state.postgres.storage_logs, after_first.postgres.storage_logs);
    assert_eq!(state.tree.roots, after_first.tree.roots);
    assert_eq!(state.sk_cache, after_first.sk_cache);
}

#[test]
fn clear_failed_l1_transactions_drops_only_failed_rows() {
    let reverter = BlockReverter::new(None, L1ExecutedBatchesRevert::Disallowed);
    let mut state = state_at_batch_2();
    reverter.clear_failed_l1_transactions(&mut state.postgres);
    assert_eq!(
        state.postgres.eth_sender_txs,
        vec![EthSenderRow { id: 1, failed: false }, EthSenderRow { id: 3, failed: false }]
    );
    // The rest of the store is untouched.
    assert_eq!(state.postgres.batches.len(), 3);
}

#[test]
fn revert_transaction_parameters_are_exact() {
    let reverter =
        BlockReverter::new(Some(eth_config()), L1ExecutedBatchesRevert::Disallowed);
    let params = reverter.revert_transaction_params(L1BatchNumber(42), 250, 17, 5, 1_000);
    assert_eq!(
        params,
        RevertTransactionParams {
            to: 9,
            revert_blocks_arg: 42,
            chain_id: 5,
            nonce: 17,
            max_priority_fee_per_gas: 250,
            max_fee_per_gas: 1_250,
            gas: 5_000_000,
        }
    );
}

#[test]
fn receipt_poll_decisions() {
    assert_eq!(check_revert_receipt(None), ReceiptPollDecision::Retry);
    assert_eq!(check_revert_receipt(Some(Some(1))), ReceiptPollDecision::Confirmed);
    assert_eq!(check_revert_receipt(Some(Some(0))), ReceiptPollDecision::Failed);
    assert_eq!(check_revert_receipt(Some(None)), ReceiptPollDecision::Failed);
}

#[test]
fn counter_getter_names() {
    assert_eq!(counter_function_name(AggregatedActionType::CommitBlocks), "getTotalBlocksCommitted");
    assert_eq!(
        counter_function_name(AggregatedActionType::PublishProofBlocksOnchain),
        "getTotalBlocksVerified"
    );
    assert_eq!(counter_function_name(AggregatedActionType::ExecuteBlocks), "getTotalBlocksExecuted");
}

#[test]
fn suggested_values_come_from_the_contract_and_config() {
    let reverter =
        BlockReverter::new(Some(eth_config()), L1ExecutedBatchesRevert::Disallowed);
    let values = reverter.suggested_values(L1BatchNumber(7), 33);
    assert_eq!(values.last_executed_l1_batch_number, L1BatchNumber(7));
    assert_eq!(values.nonce, 33);
    assert_eq!(values.priority_fee, 250);
}
