//! Tests pinning the seal criteria formulas down on exact values.

use sequencer_core::seal_criteria::{
    ConditionalSealer, SealCriterion, SealResolution, UnexecutableReason,
};
use sequencer_core::types::{BlockGasCount, GasFraction, StateKeeperConfig};

fn gas_config(max: u32, reject_per_mille: u32, close_per_mille: u32) -> StateKeeperConfig {
    StateKeeperConfig {
        transaction_slots: 100,
        max_single_tx_gas: max,
        reject_tx_at_gas_percentage: GasFraction { per_mille: reject_per_mille },
        close_block_at_gas_percentage: GasFraction { per_mille: close_per_mille },
    }
}

fn gas(commit: u32, prove: u32, execute: u32) -> BlockGasCount {
    BlockGasCount { commit, prove, execute }
}

#[test]
fn gas_fraction_bound_is_an_exact_integer() {
    let half = GasFraction { per_mille: 500 };
    assert_eq!(half.of_gas(62_002), 31_001);
    assert_eq!(half.of_gas(62_000), 31_000);
    let full = GasFraction { per_mille: 1000 };
    assert_eq!(full.of_gas(62_002), 62_002);
}

#[test]
fn slots_criterion_seals_exactly_at_the_budget() {
    let config = gas_config(6_000_000, 1000, 950);
    let config = StateKeeperConfig { transaction_slots: 2, ..config };
    let zero = gas(0, 0, 0);
    assert_eq!(
        SealCriterion::Slots.should_seal(&config, 1, &zero, &zero),
        SealResolution::NoSeal
    );
    assert_eq!(
        SealCriterion::Slots.should_seal(&config, 2, &zero, &zero),
        SealResolution::IncludeAndSeal
    );
    assert_eq!(
        SealCriterion::Slots.should_seal(&config, 3, &zero, &zero),
        SealResolution::IncludeAndSeal
    );
}

#[test]
fn gas_criterion_block_bound_is_strict() {
    let config = gas_config(62_002, 1000, 500);
    let tx_gas = gas(1, 0, 0);
    // Projected total right at the close bound: the batch stays open.
    assert_eq!(
        SealCriterion::Gas.should_seal(&config, 1, &gas(31_001, 7_000, 30_000), &tx_gas),
        SealResolution::NoSeal
    );
    // One unit over the bound: include the transaction, then seal.
    assert_eq!(
        SealCriterion::Gas.should_seal(&config, 2, &gas(31_002, 7_000, 30_000), &tx_gas),
        SealResolution::IncludeAndSeal
    );
}

#[test]
fn gas_criterion_excludes_when_total_exceeds_the_cap() {
    let config = gas_config(62_002, 1000, 500);
    let tx_gas = gas(1, 0, 0);
    assert_eq!(
        SealCriterion::Gas.should_seal(&config, 5, &gas(62_003, 7_000, 30_000), &tx_gas),
        SealResolution::ExcludeAndSeal
    );
}

#[test]
fn gas_criterion_rejects_a_transaction_at_the_bound_inclusively() {
    let config = gas_config(62_002, 1000, 500);
    // A transaction whose own gas equals the full cap is unexecutable.
    assert_eq!(
        SealCriterion::Gas.should_seal(&config, 1, &gas(62_002, 0, 0), &gas(62_002, 0, 0)),
        SealResolution::Unexecutable(UnexecutableReason::TooMuchGas)
    );
    // One unit below the bound passes the rejection check; the batch total
    // over the cap then excludes the transaction.
    assert_eq!(
        SealCriterion::Gas.should_seal(&config, 1, &gas(62_003, 0, 0), &gas(62_001, 0, 0)),
        SealResolution::ExcludeAndSeal
    );
}

#[test]
fn resolution_ordering_is_most_restrictive_first() {
    let unexecutable = SealResolution::Unexecutable(UnexecutableReason::TooMuchGas);
    assert_eq!(
        SealResolution::NoSeal.stricter(SealResolution::IncludeAndSeal),
        SealResolution::IncludeAndSeal
    );
    assert_eq!(
        SealResolution::IncludeAndSeal.stricter(SealResolution::ExcludeAndSeal),
        SealResolution::ExcludeAndSeal
    );
    assert_eq!(SealResolution::ExcludeAndSeal.stricter(unexecutable), unexecutable);
    assert_eq!(unexecutable.stricter(SealResolution::NoSeal), unexecutable);
    assert!(SealResolution::IncludeAndSeal.should_seal());
    assert!(SealResolution::ExcludeAndSeal.should_seal());
    assert!(!SealResolution::NoSeal.should_seal());
    assert!(!unexecutable.should_seal());
}

#[test]
fn conditional_sealer_combines_criteria_in_order() {
    let config = StateKeeperConfig { transaction_slots: 3, ..gas_config(62_000, 1000, 500) };
    let sealer = ConditionalSealer::with_sealers(
        config,
        vec![SealCriterion::Gas, SealCriterion::Slots],
    );
    // Slots says seal, gas says nothing: the stricter outcome wins.
    assert_eq!(
        sealer.should_seal_l1_batch(3, &gas(31_000, 0, 0), &gas(0, 0, 0)),
        SealResolution::IncludeAndSeal
    );
    // Gas excludes even though slots would include.
    assert_eq!(
        sealer.should_seal_l1_batch(3, &gas(62_001, 0, 0), &gas(10, 0, 0)),
        SealResolution::ExcludeAndSeal
    );
    // Nobody fires.
    assert_eq!(
        sealer.should_seal_l1_batch(1, &gas(31_000, 0, 0), &gas(0, 0, 0)),
        SealResolution::NoSeal
    );
    // An empty criterion list never seals.
    let empty = ConditionalSealer::with_sealers(config, vec![]);
    assert_eq!(
        empty.should_seal_l1_batch(1000, &gas(62_000, 62_000, 62_000), &gas(62_000, 0, 0)),
        SealResolution::NoSeal
    );
}
