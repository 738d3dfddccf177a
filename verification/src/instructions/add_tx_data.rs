//! Adding accounts to one stored instruction of a proposed transaction.

use vstd::prelude::*;
use crate::errors::Errors;
use crate::key::Pubkey;
use crate::instructions::account_checks::{
    address_error, check_address, check_transaction, first_error, transaction_error,
};
use crate::state::multisig::{MultiSig, outcome};
use crate::state::transaction::{Transaction, TransactionStatus, TransactionView};
use crate::state::tx_data::{InstructionAccount, TxData, TxDataView, keys_added};

verus! {

/// First failure of the account checks of adding instruction accounts: the
/// transaction belongs to the multi-sig, is still open for its instructions,
/// is current, owns the instruction data, and the signer created it.
pub open spec fn tx_data_edit_error(
    tx: TransactionView,
    ms_key: Pubkey,
    ms_version: u32,
    tx_key: Pubkey,
    td_transaction: Pubkey,
    signer: Pubkey,
) -> Option<Errors> {
    first_error(
        transaction_error(
            tx,
            ms_key,
            ms_version,
            TransactionStatus::Initiated,
            Errors::AlreadyFinalized,
            true,
        ),
        first_error(
            address_error(tx_key, td_transaction, Errors::InvalidTxData),
            address_error(signer, tx.owner, Errors::InvalidCreator),
        ),
    )
}

/// Checks the accounts of an instruction that edits or closes a transaction's
/// stored instructions.
pub fn check_tx_data_edit(
    transaction: &Transaction,
    tx_data: &TxData,
    multi_sig: &MultiSig,
    multi_sig_key: &Pubkey,
    transaction_key: &Pubkey,
    signer: &Pubkey,
) -> (r: Result<(), Errors>)
    ensures
        r == outcome(
            tx_data_edit_error(
                transaction@,
                *multi_sig_key,
                multi_sig.version,
                *transaction_key,
                tx_data.transaction,
                *signer,
            ),
        ),
{
    match check_transaction(
        transaction,
        multi_sig_key,
        multi_sig.version,
        TransactionStatus::Initiated,
        Errors::AlreadyFinalized,
        true,
    ) {
        Err(e) => {
            return Err(e);
        },
        Ok(()) => {},
    }
    match check_address(transaction_key, &tx_data.transaction, Errors::InvalidTxData) {
        Err(e) => {
            return Err(e);
        },
        Ok(()) => {},
    }
    check_address(signer, &transaction.owner, Errors::InvalidCreator)
}

/// First failure of adding accounts to instruction `index`: the checks of the
/// accounts, then that the instruction exists.
pub open spec fn add_tx_data_error(
    tx: TransactionView,
    ms_key: Pubkey,
    ms_version: u32,
    tx_key: Pubkey,
    td: TxDataView,
    signer: Pubkey,
    index: int,
) -> Option<Errors> {
    first_error(
        tx_data_edit_error(tx, ms_key, ms_version, tx_key, td.transaction, signer),
        if td.instructions.len() <= index {
            Some(Errors::InvalidTxDataIndex)
        } else {
            None
        },
    )
}

/// Adds `keys` to the accounts of stored instruction `instruction_index`.
pub fn add_tx_data_handler(
    transaction: &Transaction,
    tx_data: &mut TxData,
    multi_sig: &MultiSig,
    multi_sig_key: Pubkey,
    transaction_key: Pubkey,
    signer: Pubkey,
    keys: Vec<InstructionAccount>,
    instruction_index: u8,
) -> (r: Result<(), Errors>)
    ensures
        r == outcome(
            add_tx_data_error(
                transaction@,
                multi_sig_key,
                multi_sig.version,
                transaction_key,
                old(tx_data)@,
                signer,
                instruction_index as int,
            ),
        ),
        r is Ok ==> final(tx_data)@ =~~= keys_added(old(tx_data)@, instruction_index as int, keys@),
        r is Err ==> final(tx_data)@ =~~= old(tx_data)@,
{
    match check_tx_data_edit(
        transaction,
        tx_data,
        multi_sig,
        &multi_sig_key,
        &transaction_key,
        &signer,
    ) {
        Err(e) => {
            return Err(e);
        },
        Ok(()) => {},
    }
    let i_index = instruction_index as usize;
    if !(tx_data.instructions.len() > i_index) {
        return Err(Errors::InvalidTxDataIndex);
    }
    let ghost before = tx_data@;
    let ghost added = keys@;
    let mut keys = keys;
    tx_data.instructions[i_index].keys.append(&mut keys);
    proof {
        assert(tx_data@ =~~= keys_added(before, i_index as int, added));
    }
    Ok(())
}

} // verus!
