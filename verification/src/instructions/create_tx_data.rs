//! Storing the instructions of a proposed transaction, given by address.

use vstd::prelude::*;
use crate::errors::Errors;
use crate::key::Pubkey;
use crate::instructions::account_checks::{
    address_error, check_address, check_transaction, first_error, transaction_error,
};
use crate::state::multisig::{MultiSig, outcome};
use crate::state::transaction::{Transaction, TransactionStatus, TransactionView};
use crate::state::tx_data::{InstructionData, TxData, TxDataView, instructions_view};

verus! {

/// First failure of storing instructions for a transaction: the transaction
/// belongs to the multi-sig, has no instructions yet, is current, and the
/// signer created it.
pub open spec fn create_tx_data_error(
    tx: TransactionView,
    ms_key: Pubkey,
    ms_version: u32,
    signer: Pubkey,
) -> Option<Errors> {
    first_error(
        transaction_error(
            tx,
            ms_key,
            ms_version,
            TransactionStatus::Initiated,
            Errors::AlreadyInitiated,
            true,
        ),
        address_error(signer, tx.owner, Errors::InvalidOwner),
    )
}

/// Checks the accounts of an instruction that stores a transaction's instructions.
pub fn check_create_tx_data(
    transaction: &Transaction,
    multi_sig: &MultiSig,
    multi_sig_key: &Pubkey,
    signer: &Pubkey,
) -> (r: Result<(), Errors>)
    ensures
        r == outcome(create_tx_data_error(transaction@, *multi_sig_key, multi_sig.version, *signer)),
{
    match check_transaction(
        transaction,
        multi_sig_key,
        multi_sig.version,
        TransactionStatus::Initiated,
        Errors::AlreadyInitiated,
        true,
    ) {
        Err(e) => {
            return Err(e);
        },
        Ok(()) => {},
    }
    check_address(signer, &transaction.owner, Errors::InvalidOwner)
}

/// The transaction once its instructions are stored: open for votes.
pub open spec fn opened_for_vote(tx: TransactionView) -> TransactionView {
    TransactionView { status: TransactionStatus::Vote, ..tx }
}

/// Stores the instructions of a proposed transaction and opens it for votes.
pub fn create_tx_data_handler(
    transaction: &mut Transaction,
    multi_sig: &MultiSig,
    multi_sig_key: Pubkey,
    transaction_key: Pubkey,
    signer: Pubkey,
    bump: u8,
    instructions: Vec<InstructionData>,
) -> (r: Result<TxData, Errors>)
    ensures
        create_tx_data_error(old(transaction)@, multi_sig_key, multi_sig.version, signer) matches Some(e)
            ==> r == Err::<TxData, Errors>(e) && final(transaction)@ =~~= old(transaction)@,
        create_tx_data_error(old(transaction)@, multi_sig_key, multi_sig.version, signer) is None
            ==> r is Ok,
        r matches Ok(d) ==> final(transaction)@ =~~= opened_for_vote(old(transaction)@)
            && d@ =~~= (TxDataView {
            transaction: transaction_key,
            instructions: instructions_view(instructions@),
            bump,
            lookup_table: None,
        }),
{
    match check_create_tx_data(transaction, multi_sig, &multi_sig_key, &signer) {
        Err(e) => {
            return Err(e);
        },
        Ok(()) => {},
    }
    transaction.status = TransactionStatus::Vote;
    let d = TxData::new(transaction_key, instructions, bump, None);
    Ok(d)
}

} // verus!
