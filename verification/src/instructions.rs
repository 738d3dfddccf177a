//! The wallet's instructions, each as a function from the accounts it reads and
//! its arguments to the accounts it writes or the error that refuses it.

pub mod account_checks;
pub mod create_multisig;
pub mod create_transaction;
pub mod create_tx_data;
pub mod create_versioned_tx_data;
pub mod add_tx_data;
pub mod finalize_tx_data;
pub mod vote_transaction;
pub mod accept_transaction;
pub mod execute_transaction;
pub mod change_multisig;
pub mod change_multisig_realloc;
