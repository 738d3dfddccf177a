//! The accounts that the wallet keeps: the multi-sig itself, its transactions,
//! the instructions a transaction runs, and the record of each vote.

pub mod multisig;
pub mod transaction;
pub mod tx_data;
pub mod vote_record;
