//! Seal criteria: pure predicates deciding whether a miniblock or an L1
//! batch must close given the running aggregates.
//!
//! A conditional sealer holds a configuration and an ordered list of
//! criteria; each criterion returns a [`SealResolution`], and the most
//! restrictive outcome wins (`Unexecutable > ExcludeAndSeal > IncludeAndSeal
//! > NoSeal`). A seal manager composes the conditional sealer with
//! unconditional batch sealers and miniblock sealers.

use vstd::prelude::*;

use crate::types::{BaseSystemContractsHashes, BlockGasCount, StateKeeperConfig};

verus! {

/// Why a transaction can never be included in any batch.
#[derive(Clone, Copy, PartialEq, Eq, Structural, Debug)]
pub enum UnexecutableReason {
    /// The transaction alone exceeds the share of the batch gas budget a
    /// single transaction may take.
    TooMuchGas,
}

/// What a seal criterion decides about the transaction that just executed.
#[derive(Clone, Copy, PartialEq, Eq, Structural, Debug)]
pub enum SealResolution {
    /// The batch may go on.
    NoSeal,
    /// Include this transaction, then seal the batch.
    IncludeAndSeal,
    /// The transaction does not fit: roll it back, seal the batch, retry the
    /// transaction in the next batch.
    ExcludeAndSeal,
    /// The transaction alone cannot fit any batch: reject it permanently.
    Unexecutable(UnexecutableReason),
}

impl SealResolution {
    /// How restrictive a resolution is; the combination rule keeps the
    /// highest value.
    pub open spec fn severity(self) -> int {
        match self {
            SealResolution::NoSeal => 0,
            SealResolution::IncludeAndSeal => 1,
            SealResolution::ExcludeAndSeal => 2,
            SealResolution::Unexecutable(_) => 3,
        }
    }

    pub open spec fn spec_stricter(self, other: SealResolution) -> SealResolution {
        if other.severity() > self.severity() {
            other
        } else {
            self
        }
    }

    /// The more restrictive of the two resolutions; on a tie, `self` wins,
    /// so that criteria earlier in the list take precedence.
    pub fn stricter(self, other: SealResolution) -> (r: SealResolution)
        ensures
            r == self.spec_stricter(other),
    {
        let self_sev: u8 = match self {
            SealResolution::NoSeal => 0,
            SealResolution::IncludeAndSeal => 1,
            SealResolution::ExcludeAndSeal => 2,
            SealResolution::Unexecutable(_) => 3,
        };
        let other_sev: u8 = match other {
            SealResolution::NoSeal => 0,
            SealResolution::IncludeAndSeal => 1,
            SealResolution::ExcludeAndSeal => 2,
            SealResolution::Unexecutable(_) => 3,
        };
        if other_sev > self_sev {
            other
        } else {
            self
        }
    }

    /// Whether this resolution closes the batch.
    pub open spec fn spec_should_seal(self) -> bool {
        self == SealResolution::IncludeAndSeal || self == SealResolution::ExcludeAndSeal
    }

    pub fn should_seal(&self) -> (r: bool)
        ensures
            r == self.spec_should_seal(),
    {
        match self {
            SealResolution::IncludeAndSeal => true,
            SealResolution::ExcludeAndSeal => true,
            _ => false,
        }
    }
}

/// A conditional seal criterion. Each is given the configuration, the
/// number of transactions the batch would hold with the pending one
/// included, the batch gas aggregate projected after the pending
/// transaction, and the pending transaction's own gas.
#[derive(Clone, Copy, PartialEq, Eq, Structural, Debug)]
pub enum SealCriterion {
    /// Seals once the batch holds `transaction_slots` transactions.
    Slots,
    /// Seals on the gas budget; rejects transactions that alone exceed the
    /// single-transaction share of it.
    Gas,
}

/// Resolution of the slots criterion: include and seal exactly when the
/// batch, with the pending transaction, reaches `transaction_slots`.
pub open spec fn spec_slots_resolution(config: StateKeeperConfig, tx_count: int) -> SealResolution {
    if tx_count >= config.transaction_slots {
        SealResolution::IncludeAndSeal
    } else {
        SealResolution::NoSeal
    }
}

/// Resolution of the gas criterion.
///
/// The transaction alone is held against
/// `reject_tx_at_gas_percentage * max_single_tx_gas`, inclusively: a
/// transaction whose gas reaches the bound is unexecutable. The projected
/// batch total is held against `max_single_tx_gas` (exclude the transaction
/// and seal) and against `close_block_at_gas_percentage * max_single_tx_gas`
/// (include it and seal), both strictly.
pub open spec fn spec_gas_resolution(
    config: StateKeeperConfig,
    block_gas: BlockGasCount,
    tx_gas: BlockGasCount,
) -> SealResolution {
    let tx_bound = config.reject_tx_at_gas_percentage.spec_of_gas(config.max_single_tx_gas as int);
    let block_bound = config.close_block_at_gas_percentage.spec_of_gas(
        config.max_single_tx_gas as int,
    );
    if tx_gas.commit >= tx_bound || tx_gas.prove >= tx_bound || tx_gas.execute >= tx_bound {
        SealResolution::Unexecutable(UnexecutableReason::TooMuchGas)
    } else if block_gas.spec_any_greater(config.max_single_tx_gas as int) {
        SealResolution::ExcludeAndSeal
    } else if block_gas.spec_any_greater(block_bound) {
        SealResolution::IncludeAndSeal
    } else {
        SealResolution::NoSeal
    }
}

/// What a single criterion resolves to.
pub open spec fn spec_criterion_resolution(
    criterion: SealCriterion,
    config: StateKeeperConfig,
    tx_count: int,
    block_gas: BlockGasCount,
    tx_gas: BlockGasCount,
) -> SealResolution {
    match criterion {
        SealCriterion::Slots => spec_slots_resolution(config, tx_count),
        SealCriterion::Gas => spec_gas_resolution(config, block_gas, tx_gas),
    }
}

impl SealCriterion {
    pub fn should_seal(
        &self,
        config: &StateKeeperConfig,
        tx_count: usize,
        block_gas: &BlockGasCount,
        tx_gas: &BlockGasCount,
    ) -> (r: SealResolution)
        ensures
            r == spec_criterion_resolution(*self, *config, tx_count as int, *block_gas, *tx_gas),
    {
        match self {
            SealCriterion::Slots => {
                if tx_count >= config.transaction_slots {
                    SealResolution::IncludeAndSeal
                } else {
                    SealResolution::NoSeal
                }
            },
            SealCriterion::Gas => {
                let tx_bound = config.reject_tx_at_gas_percentage.of_gas(config.max_single_tx_gas);
                let block_bound = config.close_block_at_gas_percentage.of_gas(
                    config.max_single_tx_gas,
                );
                if tx_gas.commit as u64 >= tx_bound || tx_gas.prove as u64 >= tx_bound
                    || tx_gas.execute as u64 >= tx_bound {
                    SealResolution::Unexecutable(UnexecutableReason::TooMuchGas)
                } else if block_gas.any_greater(config.max_single_tx_gas) {
                    SealResolution::ExcludeAndSeal
                } else if block_gas.commit as u64 > block_bound || block_gas.prove as u64
                    > block_bound || block_gas.execute as u64 > block_bound {
                    SealResolution::IncludeAndSeal
                } else {
                    SealResolution::NoSeal
                }
            },
        }
    }
}

/// The combined resolution of an ordered list of criteria: the most
/// restrictive outcome, the earliest criterion winning ties.
pub open spec fn spec_combined_resolution(
    criteria: Seq<SealCriterion>,
    config: StateKeeperConfig,
    tx_count: int,
    block_gas: BlockGasCount,
    tx_gas: BlockGasCount,
) -> SealResolution
    decreases criteria.len(),
{
    if criteria.len() == 0 {
        SealResolution::NoSeal
    } else {
        spec_combined_resolution(criteria.drop_last(), config, tx_count, block_gas, tx_gas)
            .spec_stricter(
            spec_criterion_resolution(criteria.last(), config, tx_count, block_gas, tx_gas),
        )
    }
}

/// Holds the configuration and the ordered criteria that may close a batch
/// on the transaction that just executed.
#[derive(Clone, Debug)]
pub struct ConditionalSealer {
    pub config: StateKeeperConfig,
    pub sealers: Vec<SealCriterion>,
}

impl ConditionalSealer {
    pub fn with_sealers(config: StateKeeperConfig, sealers: Vec<SealCriterion>) -> (r:
        ConditionalSealer)
        ensures
            r.config == config,
            r.sealers@ == sealers@,
    {
        ConditionalSealer { config, sealers }
    }

    pub open spec fn spec_resolution(
        self,
        tx_count: int,
        block_gas: BlockGasCount,
        tx_gas: BlockGasCount,
    ) -> SealResolution {
        spec_combined_resolution(self.sealers@, self.config, tx_count, block_gas, tx_gas)
    }

    /// Evaluates every criterion in order and combines the outcomes.
    pub fn should_seal_l1_batch(
        &self,
        tx_count: usize,
        block_gas: &BlockGasCount,
        tx_gas: &BlockGasCount,
    ) -> (r: SealResolution)
        ensures
            r == self.spec_resolution(tx_count as int, *block_gas, *tx_gas),
    {
        let mut resolution = SealResolution::NoSeal;
        let mut i: usize = 0;
        while i < self.sealers.len()
            invariant
                i <= self.sealers.len(),
                resolution == spec_combined_resolution(
                    self.sealers@.take(i as int),
                    self.config,
                    tx_count as int,
                    *block_gas,
                    *tx_gas,
                ),
            decreases self.sealers.len() - i,
        {
            let next = self.sealers[i].should_seal(&self.config, tx_count, block_gas, tx_gas);
            resolution = resolution.stricter(next);
            i = i + 1;
            proof {
                assert(self.sealers@.take(i as int).drop_last() == self.sealers@.take(
                    i as int - 1,
                ));
                assert(self.sealers@.take(i as int).last() == self.sealers@[i as int - 1]);
            }
        }
        proof {
            assert(self.sealers@.take(self.sealers@.len() as int) == self.sealers@);
        }
        resolution
    }
}

/// A sealer that can close a batch regardless of the conditional criteria.
#[derive(Clone, Copy, PartialEq, Eq, Structural, Debug)]
pub enum BatchSealer {
    /// Never fires; a placeholder for nodes that seal on criteria alone.
    Never,
    /// Fires when the base system contract hashes the node runs with differ
    /// from the ones the open batch was started under.
    CodeHashesChanged { expected: BaseSystemContractsHashes },
    /// Fires when an explicit seal request has been posted to the keeper.
    ExternalRequest,
}

/// Whether one unconditional batch sealer fires.
pub open spec fn spec_batch_sealer_fires(
    sealer: BatchSealer,
    batch_hashes: BaseSystemContractsHashes,
    external_request: bool,
) -> bool {
    match sealer {
        BatchSealer::Never => false,
        BatchSealer::CodeHashesChanged { expected } => expected != batch_hashes,
        BatchSealer::ExternalRequest => external_request,
    }
}

/// A sealer that closes the current miniblock.
#[derive(Clone, Copy, PartialEq, Eq, Structural, Debug)]
pub enum MiniblockSealer {
    /// Fires once the miniblock holds at least `threshold` transactions.
    PendingTxCount { threshold: usize },
    /// Fires once `millis` have passed since the miniblock was opened, if it
    /// holds any transaction at all.
    Timeout { millis: u64 },
}

/// Whether one miniblock sealer fires. An empty miniblock is never sealed
/// by these; the trailing fictive miniblock of a batch is the keeper's own
/// business.
pub open spec fn spec_miniblock_sealer_fires(
    sealer: MiniblockSealer,
    pending_txs: int,
    now_millis: int,
    opened_at_millis: int,
) -> bool {
    match sealer {
        MiniblockSealer::PendingTxCount { threshold } => pending_txs > 0 && pending_txs
            >= threshold,
        MiniblockSealer::Timeout { millis } => pending_txs > 0 && now_millis >= opened_at_millis
            + millis,
    }
}

/// Composes the conditional sealer (absent on a read-only replica), the
/// unconditional batch sealers, and the miniblock sealers.
#[derive(Clone, Debug)]
pub struct SealManager {
    pub conditional_sealer: Option<ConditionalSealer>,
    pub unconditional_sealers: Vec<BatchSealer>,
    pub miniblock_sealers: Vec<MiniblockSealer>,
}

/// Whether any unconditional batch sealer fires.
pub open spec fn spec_any_batch_sealer_fires(
    sealers: Seq<BatchSealer>,
    batch_hashes: BaseSystemContractsHashes,
    external_request: bool,
) -> bool {
    exists|i: int|
        0 <= i < sealers.len() && spec_batch_sealer_fires(
            sealers[i],
            batch_hashes,
            external_request,
        )
}

/// Whether any miniblock sealer fires.
pub open spec fn spec_any_miniblock_sealer_fires(
    sealers: Seq<MiniblockSealer>,
    pending_txs: int,
    now_millis: int,
    opened_at_millis: int,
) -> bool {
    exists|i: int|
        0 <= i < sealers.len() && spec_miniblock_sealer_fires(
            sealers[i],
            pending_txs,
            now_millis,
            opened_at_millis,
        )
}

impl SealManager {
    pub fn custom(
        conditional_sealer: Option<ConditionalSealer>,
        unconditional_sealers: Vec<BatchSealer>,
        miniblock_sealers: Vec<MiniblockSealer>,
    ) -> (r: SealManager)
        ensures
            r.conditional_sealer == conditional_sealer,
            r.unconditional_sealers@ == unconditional_sealers@,
            r.miniblock_sealers@ == miniblock_sealers@,
    {
        SealManager { conditional_sealer, unconditional_sealers, miniblock_sealers }
    }

    /// The batch sealer that fires when the node's base system contract
    /// hashes no longer match the open batch's.
    pub fn code_hash_batch_sealer(hashes: BaseSystemContractsHashes) -> (r: BatchSealer)
        ensures
            r == (BatchSealer::CodeHashesChanged { expected: hashes }),
    {
        BatchSealer::CodeHashesChanged { expected: hashes }
    }

    pub fn should_seal_l1_batch_unconditionally(
        &self,
        batch_hashes: &BaseSystemContractsHashes,
        external_request: bool,
    ) -> (r: bool)
        ensures
            r == spec_any_batch_sealer_fires(
                self.unconditional_sealers@,
                *batch_hashes,
                external_request,
            ),
    {
        let mut i: usize = 0;
        while i < self.unconditional_sealers.len()
            invariant
                i <= self.unconditional_sealers.len(),
                forall|j: int|
                    0 <= j < i ==> !spec_batch_sealer_fires(
                        self.unconditional_sealers@[j],
                        *batch_hashes,
                        external_request,
                    ),
            decreases self.unconditional_sealers.len() - i,
        {
            let fires = match &self.unconditional_sealers[i] {
                BatchSealer::Never => false,
                BatchSealer::CodeHashesChanged { expected } => !(expected.bootloader
                    == batch_hashes.bootloader && expected.default_aa == batch_hashes.default_aa),
                BatchSealer::ExternalRequest => external_request,
            };
            if fires {
                return true;
            }
            i = i + 1;
        }
        false
    }

    pub fn should_seal_miniblock(
        &self,
        pending_txs: usize,
        now_millis: u64,
        opened_at_millis: u64,
    ) -> (r: bool)
        ensures
            r == spec_any_miniblock_sealer_fires(
                self.miniblock_sealers@,
                pending_txs as int,
                now_millis as int,
                opened_at_millis as int,
            ),
    {
        let mut i: usize = 0;
        while i < self.miniblock_sealers.len()
            invariant
                i <= self.miniblock_sealers.len(),
                forall|j: int|
                    0 <= j < i ==> !spec_miniblock_sealer_fires(
                        self.miniblock_sealers@[j],
                        pending_txs as int,
                        now_millis as int,
                        opened_at_millis as int,
                    ),
            decreases self.miniblock_sealers.len() - i,
        {
            let fires = match &self.miniblock_sealers[i] {
                MiniblockSealer::PendingTxCount { threshold } => pending_txs > 0 && pending_txs
                    >= *threshold,
                MiniblockSealer::Timeout { millis } => pending_txs > 0 && (now_millis as u128)
                    >= (opened_at_millis as u128) + (*millis as u128),
            };
            if fires {
                return true;
            }
            i = i + 1;
        }
        false
    }
}

} // verus!
