//! Closing the instruction list of a proposed transaction and opening it for votes.

use vstd::prelude::*;
use crate::errors::Errors;
use crate::key::Pubkey;
use crate::instructions::add_tx_data::{check_tx_data_edit, tx_data_edit_error};
use crate::instructions::create_tx_data::opened_for_vote;
use crate::state::multisig::{MultiSig, outcome};
use crate::state::transaction::{Transaction, TransactionStatus};
use crate::state::tx_data::TxData;

verus! {

/// Opens a transaction whose instructions are complete for votes.
pub fn finalize_tx_data_handler(
    transaction: &mut Transaction,
    tx_data: &TxData,
    multi_sig: &MultiSig,
    multi_sig_key: Pubkey,
    transaction_key: Pubkey,
    signer: Pubkey,
) -> (r: Result<(), Errors>)
    ensures
        r == outcome(
            tx_data_edit_error(
                old(transaction)@,
                multi_sig_key,
                multi_sig.version,
                transaction_key,
                tx_data.transaction,
                signer,
            ),
        ),
        r is Ok ==> final(transaction)@ =~~= opened_for_vote(old(transaction)@),
        r is Err ==> final(transaction)@ =~~= old(transaction)@,
{
    match check_tx_data_edit(
        transaction,
        tx_data,
        multi_sig,
        &multi_sig_key,
        &transaction_key,
        &signer,
    ) {
        Err(e) => {
            return Err(e);
        },
        Ok(()) => {},
    }
    transaction.status = TransactionStatus::Vote;
    Ok(())
}

} // verus!
