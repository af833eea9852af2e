//! The block reverter: rolls the node's three stores — the relational
//! store, the Merkle tree, and the state-keeper cache — back to a chosen
//! L1 batch, in the one order that keeps a crash recoverable: tree first,
//! then cache, then the relational store. Each store carries its own guard,
//! so re-running the same invocation is safe.
//!
//! The stores themselves live behind drivers; this module works on a plain
//! model of their contents and decides everything: which rows survive,
//! which guard skips a store, when the revert must abort, and what the L1
//! revert transaction carries.

use vstd::prelude::*;

use crate::types::L1BatchNumber;

verus! {

/// Which stores a rollback touches.
#[derive(Clone, Copy, PartialEq, Eq, Structural, Debug)]
pub struct BlockReverterFlags {
    pub postgres: bool,
    pub tree: bool,
    pub sk_cache: bool,
}

impl BlockReverterFlags {
    /// All three stores.
    pub fn all() -> (r: BlockReverterFlags)
        ensures
            r.postgres && r.tree && r.sk_cache,
    {
        BlockReverterFlags { postgres: true, tree: true, sk_cache: true }
    }
}

/// Whether the reverter may cross the frontier of batches already executed
/// on L1. `Disallowed` aborts such an attempt; `Allowed` is for an external
/// replica that may diverge above the frontier and must repair itself.
#[derive(Clone, Copy, PartialEq, Eq, Structural, Debug)]
pub enum L1ExecutedBatchesRevert {
    Allowed,
    Disallowed,
}

/// Why a rollback refused to run.
#[derive(Clone, Copy, PartialEq, Eq, Structural, Debug)]
pub enum RevertError {
    /// The target batch lies below the last batch executed on L1 and the
    /// mode disallows crossing that frontier.
    RevertBeyondFinality,
    /// After reverting, the tree's root would not match the root the
    /// relational store holds for the target batch: state corruption.
    TreeRootMismatch,
}

/// A relational row scoped to the miniblock that wrote it. The payload
/// stands for whatever the row carries.
#[derive(Clone, Copy, PartialEq, Eq, Structural, Debug)]
pub struct MiniblockScopedRow {
    pub miniblock: u32,
    pub payload: u64,
}

/// One L1 batch row: its state root and the last miniblock it contains.
#[derive(Clone, Copy, PartialEq, Eq, Structural, Debug)]
pub struct L1BatchRow {
    pub root_hash: u64,
    pub last_miniblock: u32,
}

/// A row of the eth-sender table.
#[derive(Clone, Copy, PartialEq, Eq, Structural, Debug)]
pub struct EthSenderRow {
    pub id: u64,
    pub failed: bool,
}

/// The relational store: batch `i` sits at index `i` of `batches` (index 0
/// is the genesis batch); every other table holds rows scoped to the
/// miniblock that wrote them. The executed-transactions table keeps one row
/// per included transaction; dropping such a row puts the transaction back
/// in the mempool.
#[derive(Clone, Debug)]
pub struct PostgresState {
    pub batches: Vec<L1BatchRow>,
    pub transactions: Vec<MiniblockScopedRow>,
    pub events: Vec<MiniblockScopedRow>,
    pub l2_to_l1_logs: Vec<MiniblockScopedRow>,
    pub tokens: Vec<MiniblockScopedRow>,
    pub factory_deps: Vec<MiniblockScopedRow>,
    pub storage_logs: Vec<MiniblockScopedRow>,
    pub eth_sender_txs: Vec<EthSenderRow>,
}

/// The Merkle tree: `roots[i]` is its root after batch `i`.
#[derive(Clone, Debug)]
pub struct TreeState {
    pub roots: Vec<u64>,
}

/// The state-keeper cache: the first batch it has not absorbed yet.
#[derive(Clone, Copy, PartialEq, Eq, Structural, Debug)]
pub struct CacheState {
    pub l1_batch_number: u32,
}

/// The three stores together, and the L1 finality frontier.
#[derive(Clone, Debug)]
pub struct NodeState {
    pub postgres: PostgresState,
    pub tree: TreeState,
    pub sk_cache: CacheState,
    pub last_executed_on_l1: u32,
}

/// The rows that survive a rollback: those written at or below the cutoff
/// miniblock, in their original order.
pub open spec fn spec_kept_rows(rows: Seq<MiniblockScopedRow>, cutoff: u32) -> Seq<
    MiniblockScopedRow,
>
    decreases rows.len(),
{
    if rows.len() == 0 {
        rows
    } else {
        let prefix = spec_kept_rows(rows.drop_last(), cutoff);
        if rows.last().miniblock <= cutoff {
            prefix.push(rows.last())
        } else {
            prefix
        }
    }
}

/// The eth-sender rows that survive clearing: those not marked failed.
pub open spec fn spec_kept_eth_rows(rows: Seq<EthSenderRow>) -> Seq<EthSenderRow>
    decreases rows.len(),
{
    if rows.len() == 0 {
        rows
    } else {
        let prefix = spec_kept_eth_rows(rows.drop_last());
        if !rows.last().failed {
            prefix.push(rows.last())
        } else {
            prefix
        }
    }
}

proof fn lemma_kept_rows_all_kept(rows: Seq<MiniblockScopedRow>, cutoff: u32)
    requires
        forall|i: int| 0 <= i < rows.len() ==> (#[trigger] rows[i]).miniblock <= cutoff,
    ensures
        spec_kept_rows(rows, cutoff) == rows,
    decreases rows.len(),
{
    if rows.len() > 0 {
        lemma_kept_rows_all_kept(rows.drop_last(), cutoff);
        assert(spec_kept_rows(rows, cutoff) =~= rows);
    }
}

proof fn lemma_kept_rows_concat(a: Seq<MiniblockScopedRow>, b: Seq<MiniblockScopedRow>, cutoff: u32)
    ensures
        spec_kept_rows(a + b, cutoff) == spec_kept_rows(a, cutoff) + spec_kept_rows(b, cutoff),
    decreases b.len(),
{
    if b.len() == 0 {
        assert(a + b =~= a);
        assert(spec_kept_rows(a, cutoff) + spec_kept_rows(b, cutoff) =~= spec_kept_rows(
            a,
            cutoff,
        ));
    } else {
        lemma_kept_rows_concat(a, b.drop_last(), cutoff);
        assert((a + b).drop_last() =~= a + b.drop_last());
        assert((a + b).last() == b.last());
    }
}

/// Rolling back rows written above the cutoff after rows written at or
/// below it restores exactly the earlier rows.
proof fn lemma_kept_rows_round_trip(
    a: Seq<MiniblockScopedRow>,
    b: Seq<MiniblockScopedRow>,
    cutoff: u32,
)
    requires
        forall|i: int| 0 <= i < a.len() ==> (#[trigger] a[i]).miniblock <= cutoff,
        forall|i: int| 0 <= i < b.len() ==> (#[trigger] b[i]).miniblock > cutoff,
    ensures
        spec_kept_rows(a + b, cutoff) == a,
    decreases b.len(),
{
    lemma_kept_rows_concat(a, b, cutoff);
    lemma_kept_rows_all_kept(a, cutoff);
    assert(spec_kept_rows(b, cutoff) =~= Seq::<MiniblockScopedRow>::empty()) by {
        lemma_kept_rows_none_kept(b, cutoff);
    }
    assert(a + Seq::<MiniblockScopedRow>::empty() =~= a);
}

proof fn lemma_kept_rows_none_kept(rows: Seq<MiniblockScopedRow>, cutoff: u32)
    requires
        forall|i: int| 0 <= i < rows.len() ==> (#[trigger] rows[i]).miniblock > cutoff,
    ensures
        spec_kept_rows(rows, cutoff) == Seq::<MiniblockScopedRow>::empty(),
    decreases rows.len(),
{
    if rows.len() > 0 {
        lemma_kept_rows_none_kept(rows.drop_last(), cutoff);
    }
}

/// Drops every row written above the cutoff miniblock, keeping the order
/// of the rest.
fn cut_rows(rows: &mut Vec<MiniblockScopedRow>, cutoff: u32)
    ensures
        final(rows)@ == spec_kept_rows(old(rows)@, cutoff),
{
    let mut kept: Vec<MiniblockScopedRow> = Vec::new();
    let mut i: usize = 0;
    while i < rows.len()
        invariant
            i <= rows@.len(),
            kept@ == spec_kept_rows(rows@.take(i as int), cutoff),
        decreases rows@.len() - i,
    {
        let row = rows[i];
        if row.miniblock <= cutoff {
            kept.push(row);
        }
        i = i + 1;
        proof {
            assert(rows@.take(i as int).drop_last() =~= rows@.take(i as int - 1));
            assert(rows@.take(i as int).last() == rows@[i as int - 1]);
        }
    }
    proof {
        assert(rows@.take(rows@.len() as int) =~= rows@);
    }
    core::mem::swap(rows, &mut kept);
}

/// Configuration for issuing the L1 revert transaction, held as the plain
/// values the revert logic reads. Deriving the operator address from the
/// private key, and the key itself, stay with the signer outside this
/// module.
#[derive(Clone, Debug)]
pub struct BlockReverterEthConfig {
    pub eth_client_url: String,
    pub reverter_address: u64,
    pub diamond_proxy_addr: u64,
    pub validator_timelock_addr: u64,
    pub default_priority_fee_per_gas: u64,
}

impl BlockReverterEthConfig {
    pub fn new(
        eth_client_url: String,
        reverter_address: u64,
        diamond_proxy_addr: u64,
        validator_timelock_addr: u64,
        default_priority_fee_per_gas: u64,
    ) -> (r: BlockReverterEthConfig)
        ensures
            r.eth_client_url@ == eth_client_url@,
            r.reverter_address == reverter_address,
            r.diamond_proxy_addr == diamond_proxy_addr,
            r.validator_timelock_addr == validator_timelock_addr,
            r.default_priority_fee_per_gas == default_priority_fee_per_gas,
    {
        BlockReverterEthConfig {
            eth_client_url,
            reverter_address,
            diamond_proxy_addr,
            validator_timelock_addr,
            default_priority_fee_per_gas,
        }
    }
}

/// The rollup counters the diamond proxy exposes.
#[derive(Clone, Copy, PartialEq, Eq, Structural, Debug)]
pub enum AggregatedActionType {
    CommitBlocks,
    PublishProofBlocksOnchain,
    ExecuteBlocks,
}

/// The diamond-proxy getter that reports the counter for the given
/// aggregated action.
pub fn counter_function_name(op: AggregatedActionType) -> (r: &'static str)
    ensures
        op == AggregatedActionType::CommitBlocks ==> r@ == "getTotalBlocksCommitted"@,
        op == AggregatedActionType::PublishProofBlocksOnchain ==> r@ == "getTotalBlocksVerified"@,
        op == AggregatedActionType::ExecuteBlocks ==> r@ == "getTotalBlocksExecuted"@,
{
    match op {
        AggregatedActionType::CommitBlocks => "getTotalBlocksCommitted",
        AggregatedActionType::PublishProofBlocksOnchain => "getTotalBlocksVerified",
        AggregatedActionType::ExecuteBlocks => "getTotalBlocksExecuted",
    }
}

/// Everything the signer needs for the `revertBlocks` call to the
/// validator timelock.
#[derive(Clone, Copy, PartialEq, Eq, Structural, Debug)]
pub struct RevertTransactionParams {
    pub to: u64,
    pub revert_blocks_arg: u32,
    pub chain_id: u64,
    pub nonce: u64,
    pub max_priority_fee_per_gas: u64,
    pub max_fee_per_gas: u128,
    pub gas: u64,
}

/// What one receipt poll of the L1 revert transaction decides.
#[derive(Clone, Copy, PartialEq, Eq, Structural, Debug)]
pub enum ReceiptPollDecision {
    /// No receipt yet: wait and poll again.
    Retry,
    /// The transaction succeeded.
    Confirmed,
    /// The receipt reports anything but success: fatal, the revert
    /// transaction itself reverted.
    Failed,
}

/// Decides one poll of the revert transaction's receipt. `None` means no
/// receipt was available; the inner value is the receipt's status field.
pub fn check_revert_receipt(receipt_status: Option<Option<u64>>) -> (r: ReceiptPollDecision)
    ensures
        receipt_status matches Option::None ==> r == ReceiptPollDecision::Retry,
        receipt_status == Option::Some(Option::Some(1u64)) ==> r == ReceiptPollDecision::Confirmed,
        receipt_status matches Option::Some(s) && s != Option::Some(1u64) ==> r
            == ReceiptPollDecision::Failed,
{
    match receipt_status {
        Option::None => ReceiptPollDecision::Retry,
        Option::Some(Option::Some(1u64)) => ReceiptPollDecision::Confirmed,
        Option::Some(_) => ReceiptPollDecision::Failed,
    }
}

/// Suggested starting point for an operator-driven rollback.
#[derive(Clone, Copy, PartialEq, Eq, Structural, Debug)]
pub struct SuggestedRollbackValues {
    pub last_executed_l1_batch_number: L1BatchNumber,
    pub nonce: u64,
    pub priority_fee: u64,
}

/// Performs a rollback of the node's state: a rare, manual intervention
/// when the operator decides to abandon unfinalized batches, and the
/// external node's way to repair itself after a rollback on the main node.
#[derive(Clone, Debug)]
pub struct BlockReverter {
    pub eth_config: Option<BlockReverterEthConfig>,
    pub executed_batches_revert_mode: L1ExecutedBatchesRevert,
}

/// The exact effect of a completed [`BlockReverter::rollback_db`] call on
/// the store model: each flagged store holds what its guard and cut
/// prescribe, and unflagged stores are untouched.
pub open spec fn spec_rollback_applied(
    pre: NodeState,
    post: NodeState,
    target: u32,
    flags: BlockReverterFlags,
) -> bool {
    let cutoff = pre.postgres.batches@[target as int].last_miniblock;
    &&& post.tree.roots@ == if flags.tree && pre.tree.roots@.len() > target + 1 {
        pre.tree.roots@.take(target + 1)
    } else {
        pre.tree.roots@
    }
    &&& post.sk_cache.l1_batch_number == if flags.sk_cache && pre.sk_cache.l1_batch_number
        > target + 1 {
        (target + 1) as u32
    } else {
        pre.sk_cache.l1_batch_number
    }
    &&& post.postgres.batches@ == if flags.postgres {
        pre.postgres.batches@.take(target + 1)
    } else {
        pre.postgres.batches@
    }
    &&& post.postgres.transactions@ == if flags.postgres {
        spec_kept_rows(pre.postgres.transactions@, cutoff)
    } else {
        pre.postgres.transactions@
    }
    &&& post.postgres.events@ == if flags.postgres {
        spec_kept_rows(pre.postgres.events@, cutoff)
    } else {
        pre.postgres.events@
    }
    &&& post.postgres.l2_to_l1_logs@ == if flags.postgres {
        spec_kept_rows(pre.postgres.l2_to_l1_logs@, cutoff)
    } else {
        pre.postgres.l2_to_l1_logs@
    }
    &&& post.postgres.tokens@ == if flags.postgres {
        spec_kept_rows(pre.postgres.tokens@, cutoff)
    } else {
        pre.postgres.tokens@
    }
    &&& post.postgres.factory_deps@ == if flags.postgres {
        spec_kept_rows(pre.postgres.factory_deps@, cutoff)
    } else {
        pre.postgres.factory_deps@
    }
    &&& post.postgres.storage_logs@ == if flags.postgres {
        spec_kept_rows(pre.postgres.storage_logs@, cutoff)
    } else {
        pre.postgres.storage_logs@
    }
    &&& post.postgres.eth_sender_txs@ == pre.postgres.eth_sender_txs@
    &&& post.last_executed_on_l1 == pre.last_executed_on_l1
}

impl BlockReverter {
    pub fn new(
        eth_config: Option<BlockReverterEthConfig>,
        executed_batches_revert_mode: L1ExecutedBatchesRevert,
    ) -> (r: BlockReverter)
        ensures
            r.eth_config == eth_config,
            r.executed_batches_revert_mode == executed_batches_revert_mode,
    {
        BlockReverter { eth_config, executed_batches_revert_mode }
    }

    /// Rolls the flagged stores back so that `last_l1_batch_to_keep` is the
    /// newest batch any of them knows.
    ///
    /// In `Disallowed` mode the call aborts, leaving every store untouched,
    /// when the target lies below the L1 finality frontier. The tree is
    /// reverted first — and only persisted once its reverted root matches
    /// the root the relational store holds for the target batch — then the
    /// cache, then the relational store; each store skips the work if it is
    /// already at or below the target, so a crashed invocation can simply
    /// be re-run.
    pub fn rollback_db(
        &self,
        state: &mut NodeState,
        last_l1_batch_to_keep: L1BatchNumber,
        flags: BlockReverterFlags,
    ) -> (r: Result<(), RevertError>)
        requires
            last_l1_batch_to_keep.0 < u32::MAX,
            last_l1_batch_to_keep.0 < old(state).postgres.batches@.len(),
            old(state).tree.roots@.len() >= 1,
        ensures
            ({
                let target = last_l1_batch_to_keep.0;
                let finality_violated = self.executed_batches_revert_mode
                    == L1ExecutedBatchesRevert::Disallowed && target < old(
                    state,
                ).last_executed_on_l1;
                let tree_mismatch = flags.tree && !finality_violated && old(
                    state,
                ).tree.roots@.len() > target + 1 && old(state).tree.roots@[target as int] != old(
                    state,
                ).postgres.batches@[target as int].root_hash;
                &&& (finality_violated ==> r == Result::<(), RevertError>::Err(
                    RevertError::RevertBeyondFinality,
                ) && *final(state) == *old(state))
                &&& (tree_mismatch ==> r == Result::<(), RevertError>::Err(
                    RevertError::TreeRootMismatch,
                ) && *final(state) == *old(state))
                &&& (!finality_violated && !tree_mismatch ==> r == Result::<
                    (),
                    RevertError,
                >::Ok(()) && spec_rollback_applied(*old(state), *final(state), target, flags))
            }),
    {
        let target = last_l1_batch_to_keep.0;
        if matches!(self.executed_batches_revert_mode, L1ExecutedBatchesRevert::Disallowed) {
            if target < state.last_executed_on_l1 {
                return Result::Err(RevertError::RevertBeyondFinality);
            }
        }
        // Tree first, to keep the state recoverable.
        match self.rollback_rocks_dbs(state, last_l1_batch_to_keep, flags.tree, flags.sk_cache) {
            Result::Ok(()) => {},
            Result::Err(e) => {
                return Result::Err(e);
            },
        }
        if flags.postgres {
            Self::rollback_postgres(&mut state.postgres, last_l1_batch_to_keep);
        }
        Result::Ok(())
    }

    /// Reverts the two embedded KV stores: the Merkle tree, then the
    /// state-keeper cache.
    fn rollback_rocks_dbs(
        &self,
        state: &mut NodeState,
        last_l1_batch_to_keep: L1BatchNumber,
        rollback_tree: bool,
        rollback_sk_cache: bool,
    ) -> (r: Result<(), RevertError>)
        requires
            last_l1_batch_to_keep.0 < u32::MAX,
            last_l1_batch_to_keep.0 < old(state).postgres.batches@.len(),
            old(state).tree.roots@.len() >= 1,
        ensures
            ({
                let target = last_l1_batch_to_keep.0;
                let tree_mismatch = rollback_tree && old(state).tree.roots@.len() > target + 1
                    && old(state).tree.roots@[target as int] != old(
                    state,
                ).postgres.batches@[target as int].root_hash;
                &&& (tree_mismatch ==> r == Result::<(), RevertError>::Err(
                    RevertError::TreeRootMismatch,
                ) && *final(state) == *old(state))
                &&& (!tree_mismatch ==> {
                    &&& r == Result::<(), RevertError>::Ok(())
                    &&& final(state).tree.roots@ == if rollback_tree && old(
                        state,
                    ).tree.roots@.len() > target + 1 {
                        old(state).tree.roots@.take(target + 1)
                    } else {
                        old(state).tree.roots@
                    }
                    &&& final(state).sk_cache.l1_batch_number == if rollback_sk_cache && old(
                        state,
                    ).sk_cache.l1_batch_number > target + 1 {
                        (target + 1) as u32
                    } else {
                        old(state).sk_cache.l1_batch_number
                    }
                    &&& final(state).postgres == old(state).postgres
                    &&& final(state).last_executed_on_l1 == old(state).last_executed_on_l1
                })
            }),
    {
        if rollback_tree {
            // The root the relational store holds for the target batch.
            let storage_root_hash = state.postgres.batches[last_l1_batch_to_keep.0 as usize]
                .root_hash;
            match Self::rollback_new_tree(&mut state.tree, last_l1_batch_to_keep, storage_root_hash)
             {
                Result::Ok(()) => {},
                Result::Err(e) => {
                    return Result::Err(e);
                },
            }
        }
        if rollback_sk_cache {
            Self::rollback_state_keeper_cache(&mut state.sk_cache, last_l1_batch_to_keep);
        }
        Result::Ok(())
    }

    /// Reverts the Merkle tree to the target batch. A tree already at or
    /// below the target is left alone; otherwise the tree is cut back and
    /// persisted only if its reverted root matches the root the relational
    /// store recorded for that batch.
    fn rollback_new_tree(
        tree: &mut TreeState,
        last_l1_batch_to_keep: L1BatchNumber,
        storage_root_hash: u64,
    ) -> (r: Result<(), RevertError>)
        requires
            last_l1_batch_to_keep.0 < u32::MAX,
            old(tree).roots@.len() >= 1,
        ensures
            ({
                let target = last_l1_batch_to_keep.0;
                &&& (old(tree).roots@.len() <= target + 1 ==> r == Result::<
                    (),
                    RevertError,
                >::Ok(()) && *final(tree) == *old(tree))
                &&& (old(tree).roots@.len() > target + 1 && old(tree).roots@[target as int]
                    != storage_root_hash ==> r == Result::<(), RevertError>::Err(
                    RevertError::TreeRootMismatch,
                ) && *final(tree) == *old(tree))
                &&& (old(tree).roots@.len() > target + 1 && old(tree).roots@[target as int]
                    == storage_root_hash ==> r == Result::<(), RevertError>::Ok(())
                    && final(tree).roots@ == old(tree).roots@.take(target + 1))
            }),
    {
        let target = last_l1_batch_to_keep.0;
        // The tree's current block number is the newest batch it holds.
        if tree.roots.len() - 1 <= target as usize {
            // The tree is behind the batch to revert to: nothing to do.
            return Result::Ok(());
        }
        let reverted_root = tree.roots[target as usize];
        if reverted_root != storage_root_hash {
            return Result::Err(RevertError::TreeRootMismatch);
        }
        tree.roots.truncate(target as usize + 1);
        Result::Ok(())
    }

    /// Reverts the state-keeper cache: only if it has absorbed batches past
    /// the target does it walk back to `target + 1`.
    fn rollback_state_keeper_cache(sk_cache: &mut CacheState, last_l1_batch_to_keep: L1BatchNumber)
        requires
            last_l1_batch_to_keep.0 < u32::MAX,
        ensures
            final(sk_cache).l1_batch_number == if old(sk_cache).l1_batch_number
                > last_l1_batch_to_keep.0 + 1 {
                (last_l1_batch_to_keep.0 + 1) as u32
            } else {
                old(sk_cache).l1_batch_number
            },
    {
        if sk_cache.l1_batch_number > last_l1_batch_to_keep.0 + 1 {
            sk_cache.l1_batch_number = last_l1_batch_to_keep.0 + 1;
        }
    }

    /// Reverts the relational store in one transaction: everything written
    /// by a miniblock past the target batch's last miniblock is dropped, in
    /// the order transactions, events, L2-to-L1 logs, tokens, factory
    /// dependencies, storage logs, then the batch and miniblock rows
    /// themselves. Dropping a transaction row returns that transaction to
    /// the mempool.
    fn rollback_postgres(postgres: &mut PostgresState, last_l1_batch_to_keep: L1BatchNumber)
        requires
            last_l1_batch_to_keep.0 < old(postgres).batches@.len(),
        ensures
            ({
                let cutoff = old(postgres).batches@[last_l1_batch_to_keep.0 as int].last_miniblock;
                &&& final(postgres).batches@ == old(postgres).batches@.take(
                    last_l1_batch_to_keep.0 + 1,
                )
                &&& final(postgres).transactions@ == spec_kept_rows(
                    old(postgres).transactions@,
                    cutoff,
                )
                &&& final(postgres).events@ == spec_kept_rows(old(postgres).events@, cutoff)
                &&& final(postgres).l2_to_l1_logs@ == spec_kept_rows(
                    old(postgres).l2_to_l1_logs@,
                    cutoff,
                )
                &&& final(postgres).tokens@ == spec_kept_rows(old(postgres).tokens@, cutoff)
                &&& final(postgres).factory_deps@ == spec_kept_rows(
                    old(postgres).factory_deps@,
                    cutoff,
                )
                &&& final(postgres).storage_logs@ == spec_kept_rows(
                    old(postgres).storage_logs@,
                    cutoff,
                )
                &&& final(postgres).eth_sender_txs@ == old(postgres).eth_sender_txs@
            }),
    {
        let last_miniblock_to_keep = postgres.batches[last_l1_batch_to_keep.0 as usize]
            .last_miniblock;
        cut_rows(&mut postgres.transactions, last_miniblock_to_keep);
        cut_rows(&mut postgres.events, last_miniblock_to_keep);
        cut_rows(&mut postgres.l2_to_l1_logs, last_miniblock_to_keep);
        cut_rows(&mut postgres.tokens, last_miniblock_to_keep);
        cut_rows(&mut postgres.factory_deps, last_miniblock_to_keep);
        cut_rows(&mut postgres.storage_logs, last_miniblock_to_keep);
        let batch_count = postgres.batches.len();
        proof {
            assert(postgres.batches@ == old(postgres).batches@);
            assert((last_l1_batch_to_keep.0 as usize) < batch_count);
        }
        postgres.batches.truncate(last_l1_batch_to_keep.0 as usize + 1);
    }

    /// Builds the `revertBlocks(last_l1_batch_to_keep)` call to the
    /// validator timelock, with EIP-1559 fees
    /// `(priority_fee, base_fee + priority_fee)` and a fixed gas budget.
    pub fn revert_transaction_params(
        &self,
        last_l1_batch_to_keep: L1BatchNumber,
        priority_fee_per_gas: u64,
        nonce: u64,
        chain_id: u64,
        base_fee_per_gas: u64,
    ) -> (r: RevertTransactionParams)
        requires
            self.eth_config matches Option::Some(_),
        ensures
            self.eth_config matches Option::Some(cfg) ==> r == (RevertTransactionParams {
                to: cfg.validator_timelock_addr,
                revert_blocks_arg: last_l1_batch_to_keep.0,
                chain_id,
                nonce,
                max_priority_fee_per_gas: priority_fee_per_gas,
                max_fee_per_gas: (base_fee_per_gas as u128 + priority_fee_per_gas as u128) as u128,
                gas: 5_000_000,
            }),
    {
        let cfg = match &self.eth_config {
            Option::Some(cfg) => cfg,
            Option::None => unreached(),
        };
        RevertTransactionParams {
            to: cfg.validator_timelock_addr,
            revert_blocks_arg: last_l1_batch_to_keep.0,
            chain_id,
            nonce,
            max_priority_fee_per_gas: priority_fee_per_gas,
            max_fee_per_gas: base_fee_per_gas as u128 + priority_fee_per_gas as u128,
            gas: 5_000_000,
        }
    }

    /// Assembles the operator's suggested rollback values from the executed
    /// counter read off the diamond proxy and the account's pending nonce.
    pub fn suggested_values(
        &self,
        last_executed_l1_batch_number: L1BatchNumber,
        nonce: u64,
    ) -> (r: SuggestedRollbackValues)
        requires
            self.eth_config matches Option::Some(_),
        ensures
            self.eth_config matches Option::Some(cfg) ==> r == (SuggestedRollbackValues {
                last_executed_l1_batch_number,
                nonce,
                priority_fee: cfg.default_priority_fee_per_gas,
            }),
    {
        let cfg = match &self.eth_config {
            Option::Some(cfg) => cfg,
            Option::None => unreached(),
        };
        SuggestedRollbackValues {
            last_executed_l1_batch_number,
            nonce,
            priority_fee: cfg.default_priority_fee_per_gas,
        }
    }

    /// Removes the rows marked failed from the eth-sender table, so that
    /// after a rollback the sender can retry cleanly.
    pub fn clear_failed_l1_transactions(&self, postgres: &mut PostgresState)
        ensures
            final(postgres).eth_sender_txs@ == spec_kept_eth_rows(old(postgres).eth_sender_txs@),
            final(postgres).batches@ == old(postgres).batches@,
            final(postgres).transactions@ == old(postgres).transactions@,
            final(postgres).events@ == old(postgres).events@,
            final(postgres).l2_to_l1_logs@ == old(postgres).l2_to_l1_logs@,
            final(postgres).tokens@ == old(postgres).tokens@,
            final(postgres).factory_deps@ == old(postgres).factory_deps@,
            final(postgres).storage_logs@ == old(postgres).storage_logs@,
    {
        let mut kept: Vec<EthSenderRow> = Vec::new();
        let mut i: usize = 0;
        while i < postgres.eth_sender_txs.len()
            invariant
                i <= postgres.eth_sender_txs@.len(),
                kept@ == spec_kept_eth_rows(postgres.eth_sender_txs@.take(i as int)),
            decreases postgres.eth_sender_txs@.len() - i,
        {
            let row = postgres.eth_sender_txs[i];
            if !row.failed {
                kept.push(row);
            }
            i = i + 1;
            proof {
                assert(postgres.eth_sender_txs@.take(i as int).drop_last()
                    =~= postgres.eth_sender_txs@.take(i as int - 1));
                assert(postgres.eth_sender_txs@.take(i as int).last()
                    == postgres.eth_sender_txs@[i as int - 1]);
            }
        }
        proof {
            assert(postgres.eth_sender_txs@.take(postgres.eth_sender_txs@.len() as int)
                =~= postgres.eth_sender_txs@);
        }
        core::mem::swap(&mut postgres.eth_sender_txs, &mut kept);
    }
}

/// How a node state at batch `target` relates to one that then executed
/// further batches: every table grew by rows scoped above the earlier
/// cutoff, the batch rows and tree roots grew by later batches, and the
/// cache moved forward.
pub open spec fn spec_node_extends(s0: NodeState, s1: NodeState, target: u32) -> bool {
    let cutoff = s0.postgres.batches@[target as int].last_miniblock;
    &&& s0.postgres.batches@.len() == target + 1
    &&& s1.postgres.batches@.len() >= target + 1
    &&& s1.postgres.batches@.take(target + 1) == s0.postgres.batches@
    &&& spec_table_extends(s0.postgres.transactions@, s1.postgres.transactions@, cutoff)
    &&& spec_table_extends(s0.postgres.events@, s1.postgres.events@, cutoff)
    &&& spec_table_extends(s0.postgres.l2_to_l1_logs@, s1.postgres.l2_to_l1_logs@, cutoff)
    &&& spec_table_extends(s0.postgres.tokens@, s1.postgres.tokens@, cutoff)
    &&& spec_table_extends(s0.postgres.factory_deps@, s1.postgres.factory_deps@, cutoff)
    &&& spec_table_extends(s0.postgres.storage_logs@, s1.postgres.storage_logs@, cutoff)
    &&& s1.postgres.eth_sender_txs@ == s0.postgres.eth_sender_txs@
    &&& s0.tree.roots@.len() == target + 1
    &&& s1.tree.roots@.len() >= target + 1
    &&& s1.tree.roots@.take(target + 1) == s0.tree.roots@
    &&& s0.sk_cache.l1_batch_number == target + 1
    &&& s1.sk_cache.l1_batch_number >= target + 1
    &&& s1.tree.roots@[target as int] == s1.postgres.batches@[target as int].root_hash
    &&& s1.last_executed_on_l1 == s0.last_executed_on_l1
}

/// A table extends another when the old rows, all scoped at or below the
/// cutoff, are a prefix and every added row is scoped above it.
pub open spec fn spec_table_extends(
    before: Seq<MiniblockScopedRow>,
    after: Seq<MiniblockScopedRow>,
    cutoff: u32,
) -> bool {
    &&& after.len() >= before.len()
    &&& after.take(before.len() as int) == before
    &&& (forall|i: int| 0 <= i < before.len() ==> (#[trigger] before[i]).miniblock <= cutoff)
    &&& (forall|i: int|
        before.len() <= i < after.len() ==> (#[trigger] after[i]).miniblock > cutoff)
}

proof fn lemma_table_round_trip(
    before: Seq<MiniblockScopedRow>,
    after: Seq<MiniblockScopedRow>,
    cutoff: u32,
)
    requires
        spec_table_extends(before, after, cutoff),
    ensures
        spec_kept_rows(after, cutoff) == before,
{
    let added = after.skip(before.len() as int);
    assert(after =~= before + added);
    assert(forall|i: int| 0 <= i < added.len() ==> (#[trigger] added[i]).miniblock > cutoff);
    lemma_kept_rows_round_trip(before, added, cutoff);
}

/// Law: the reverter round-trips. If the node, at batch `target`, went on
/// to execute further batches, then rolling every store back to `target`
/// restores for each store exactly the contents observed live at `target`:
/// every read query sees the earlier state again.
pub proof fn lemma_rollback_round_trip(s0: NodeState, s1: NodeState, s2: NodeState, target: u32)
    requires
        spec_node_extends(s0, s1, target),
        spec_rollback_applied(
            s1,
            s2,
            target,
            BlockReverterFlags { postgres: true, tree: true, sk_cache: true },
        ),
    ensures
        s2.postgres.batches@ == s0.postgres.batches@,
        s2.postgres.transactions@ == s0.postgres.transactions@,
        s2.postgres.events@ == s0.postgres.events@,
        s2.postgres.l2_to_l1_logs@ == s0.postgres.l2_to_l1_logs@,
        s2.postgres.tokens@ == s0.postgres.tokens@,
        s2.postgres.factory_deps@ == s0.postgres.factory_deps@,
        s2.postgres.storage_logs@ == s0.postgres.storage_logs@,
        s2.postgres.eth_sender_txs@ == s0.postgres.eth_sender_txs@,
        s2.tree.roots@ == s0.tree.roots@,
        s2.sk_cache == s0.sk_cache,
{
    let cutoff = s1.postgres.batches@[target as int].last_miniblock;
    assert(s1.postgres.batches@[target as int] == s0.postgres.batches@[target as int]);
    assert(cutoff == s0.postgres.batches@[target as int].last_miniblock);
    lemma_table_round_trip(s0.postgres.transactions@, s1.postgres.transactions@, cutoff);
    lemma_table_round_trip(s0.postgres.events@, s1.postgres.events@, cutoff);
    lemma_table_round_trip(s0.postgres.l2_to_l1_logs@, s1.postgres.l2_to_l1_logs@, cutoff);
    lemma_table_round_trip(s0.postgres.tokens@, s1.postgres.tokens@, cutoff);
    lemma_table_round_trip(s0.postgres.factory_deps@, s1.postgres.factory_deps@, cutoff);
    lemma_table_round_trip(s0.postgres.storage_logs@, s1.postgres.storage_logs@, cutoff);
    if s1.tree.roots@.len() > target + 1 {
        assert(s2.tree.roots@ =~= s0.tree.roots@);
    } else {
        assert(s1.tree.roots@.take(target + 1) =~= s1.tree.roots@);
    }
}

} // verus!
