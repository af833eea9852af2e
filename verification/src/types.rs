//! Plain data carried through the state keeper: block numbers, gas
//! accounting, transactions and per-transaction execution results.

use vstd::prelude::*;

verus! {

/// Identifier of an L1 batch: a monotone 32-bit counter.
#[derive(Clone, Copy, PartialEq, Eq, Structural, Debug)]
pub struct L1BatchNumber(pub u32);

/// Identifier of a miniblock: a monotone 32-bit counter, globally unique
/// across all batches.
#[derive(Clone, Copy, PartialEq, Eq, Structural, Debug)]
pub struct MiniblockNumber(pub u32);

/// Gas charged on L1 for each of the three stages a batch goes through.
pub const BLOCK_COMMIT_BASE_COST: u32 = 31_000;
pub const BLOCK_PROVE_BASE_COST: u32 = 7_000;
pub const BLOCK_EXECUTE_BASE_COST: u32 = 30_000;

/// L1 gas needed to commit, prove and execute a set of transactions.
#[derive(Clone, Copy, PartialEq, Eq, Structural, Debug)]
pub struct BlockGasCount {
    pub commit: u32,
    pub prove: u32,
    pub execute: u32,
}

impl BlockGasCount {
    /// Whether any component exceeds `bound`.
    pub open spec fn spec_any_greater(self, bound: int) -> bool {
        self.commit > bound || self.prove > bound || self.execute > bound
    }

    pub fn any_greater(&self, bound: u32) -> (r: bool)
        ensures
            r == self.spec_any_greater(bound as int),
    {
        self.commit > bound || self.prove > bound || self.execute > bound
    }

    /// Whether the componentwise sum with `other` stays within `u32`.
    pub open spec fn can_add(self, other: BlockGasCount) -> bool {
        &&& self.commit + other.commit <= u32::MAX
        &&& self.prove + other.prove <= u32::MAX
        &&& self.execute + other.execute <= u32::MAX
    }

    pub open spec fn spec_plus(self, other: BlockGasCount) -> BlockGasCount {
        BlockGasCount {
            commit: (self.commit + other.commit) as u32,
            prove: (self.prove + other.prove) as u32,
            execute: (self.execute + other.execute) as u32,
        }
    }

    /// Componentwise sum.
    pub fn plus(&self, other: &BlockGasCount) -> (r: BlockGasCount)
        requires
            self.can_add(*other),
        ensures
            r == self.spec_plus(*other),
    {
        BlockGasCount {
            commit: self.commit + other.commit,
            prove: self.prove + other.prove,
            execute: self.execute + other.execute,
        }
    }

    pub open spec fn spec_zero() -> BlockGasCount {
        BlockGasCount { commit: 0, prove: 0, execute: 0 }
    }

    pub fn zero() -> (r: BlockGasCount)
        ensures
            r == BlockGasCount::spec_zero(),
    {
        BlockGasCount { commit: 0, prove: 0, execute: 0 }
    }
}

/// The gas a batch is charged before it holds a single transaction.
pub open spec fn spec_block_base_cost() -> BlockGasCount {
    BlockGasCount {
        commit: BLOCK_COMMIT_BASE_COST,
        prove: BLOCK_PROVE_BASE_COST,
        execute: BLOCK_EXECUTE_BASE_COST,
    }
}

pub fn block_base_cost() -> (r: BlockGasCount)
    ensures
        r == spec_block_base_cost(),
{
    BlockGasCount {
        commit: BLOCK_COMMIT_BASE_COST,
        prove: BLOCK_PROVE_BASE_COST,
        execute: BLOCK_EXECUTE_BASE_COST,
    }
}

/// A fraction of a gas bound, in thousandths, so that every bound the seal
/// criteria derive from it is an exact integer.
#[derive(Clone, Copy, PartialEq, Eq, Structural, Debug)]
pub struct GasFraction {
    pub per_mille: u32,
}

impl GasFraction {
    /// The bound this fraction cuts out of `gas`, rounded down.
    pub open spec fn spec_of_gas(self, gas: int) -> int {
        (gas * self.per_mille) / 1000
    }

    pub fn of_gas(&self, gas: u32) -> (r: u64)
        ensures
            r == self.spec_of_gas(gas as int),
    {
        proof {
            assert((gas as int) * (self.per_mille as int) <= 0xffff_ffff * 0xffff_ffff)
                by (nonlinear_arith)
                requires
                    gas <= 0xffff_ffffu32,
                    self.per_mille <= 0xffff_ffffu32,
            ;
        }
        ((gas as u64) * (self.per_mille as u64)) / 1000
    }
}

/// Hashes of the base system contracts (bootloader and default account
/// abstraction) a batch was opened under.
#[derive(Clone, Copy, PartialEq, Eq, Structural, Debug)]
pub struct BaseSystemContractsHashes {
    pub bootloader: u64,
    pub default_aa: u64,
}

/// Configuration the conditional seal criteria read.
#[derive(Clone, Copy, PartialEq, Eq, Structural, Debug)]
pub struct StateKeeperConfig {
    pub transaction_slots: usize,
    pub max_single_tx_gas: u32,
    pub reject_tx_at_gas_percentage: GasFraction,
    pub close_block_at_gas_percentage: GasFraction,
}

/// A transaction as the keeper sees it: a unique hash and a declared gas
/// envelope. The VM alone decides what executing it does.
#[derive(Clone, Copy, PartialEq, Eq, Structural, Debug)]
pub struct Transaction {
    pub hash: u64,
    pub gas_limit: u64,
    pub max_fee_per_gas: u64,
    pub max_priority_fee_per_gas: u64,
    pub gas_per_pubdata_limit: u64,
}

/// Aggregated measures of one execution, beyond L1 gas.
#[derive(Clone, Copy, PartialEq, Eq, Structural, Debug)]
pub struct ExecutionMetrics {
    pub gas_used: u64,
    pub cycles_used: u64,
    pub computational_gas_used: u64,
}

impl ExecutionMetrics {
    pub open spec fn can_add(self, other: ExecutionMetrics) -> bool {
        &&& self.gas_used + other.gas_used <= u64::MAX
        &&& self.cycles_used + other.cycles_used <= u64::MAX
        &&& self.computational_gas_used + other.computational_gas_used <= u64::MAX
    }

    pub open spec fn spec_plus(self, other: ExecutionMetrics) -> ExecutionMetrics {
        ExecutionMetrics {
            gas_used: (self.gas_used + other.gas_used) as u64,
            cycles_used: (self.cycles_used + other.cycles_used) as u64,
            computational_gas_used: (self.computational_gas_used
                + other.computational_gas_used) as u64,
        }
    }

    pub fn plus(&self, other: &ExecutionMetrics) -> (r: ExecutionMetrics)
        requires
            self.can_add(*other),
        ensures
            r == self.spec_plus(*other),
    {
        ExecutionMetrics {
            gas_used: self.gas_used + other.gas_used,
            cycles_used: self.cycles_used + other.cycles_used,
            computational_gas_used: self.computational_gas_used + other.computational_gas_used,
        }
    }

    pub open spec fn spec_zero() -> ExecutionMetrics {
        ExecutionMetrics { gas_used: 0, cycles_used: 0, computational_gas_used: 0 }
    }

    pub fn zero() -> (r: ExecutionMetrics)
        ensures
            r == ExecutionMetrics::spec_zero(),
    {
        ExecutionMetrics { gas_used: 0, cycles_used: 0, computational_gas_used: 0 }
    }
}

/// What the seal criteria are shown about one executed transaction.
#[derive(Clone, Copy, PartialEq, Eq, Structural, Debug)]
pub struct ExecutionMetricsForCriteria {
    pub l1_gas: BlockGasCount,
    pub execution_metrics: ExecutionMetrics,
}

/// Outcome the VM reports for one transaction.
#[derive(Clone, Debug)]
pub enum TxExecutionResult {
    /// The transaction executed; its deltas may enter the running aggregates.
    Success { tx_metrics: ExecutionMetricsForCriteria },
    /// The VM refused the transaction; state did not advance.
    Rejected { reason: String },
    /// The bootloader epilogue ran out of gas: the batch is full, the
    /// transaction must be rolled back and retried in the next batch.
    BootloaderTipOutOfGas,
}

/// A transaction together with the deltas its execution contributed.
#[derive(Clone, Copy, PartialEq, Eq, Structural, Debug)]
pub struct TransactionExecutionResult {
    pub tx: Transaction,
    pub l1_gas: BlockGasCount,
    pub execution_metrics: ExecutionMetrics,
}

} // verus!
