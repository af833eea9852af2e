//! Core of a zkRollup sequencer node: the state keeper, which orders L2
//! transactions into miniblocks and L1 batches under a set of seal criteria,
//! and the block reverter, which rolls the node's stores back to an earlier
//! batch without crossing the L1 finality frontier.

pub mod types;
pub mod seal_criteria;
pub mod updates;
pub mod keeper;
pub mod reverter;
pub mod prover;
