//! Storing the instructions of a proposed transaction, given by places among
//! the accounts passed along with the call.

use vstd::prelude::*;
use crate::errors::Errors;
use crate::key::Pubkey;
use crate::instructions::create_tx_data::{check_create_tx_data, create_tx_data_error, opened_for_vote};
use crate::state::multisig::MultiSig;
use crate::state::transaction::{Transaction, TransactionStatus};
use crate::state::tx_data::{
    InstructionAccount, InstructionData, InstructionDataView, TxData, TxDataView,
    VersionedInstructionAccount, VersionedInstructionData, VersionedInstructionDataView,
    copy_bytes, instructions_view, versioned_view,
};

verus! {

/// Every place that the versioned instructions name is one of `n` accounts.
pub open spec fn indices_in_range(ixs: Seq<VersionedInstructionDataView>, n: int) -> bool {
    forall|i: int|
        0 <= i < ixs.len() ==> (#[trigger] ixs[i]).program_id_index < n && forall|j: int|
            0 <= j < ixs[i].keys.len() ==> (#[trigger] ixs[i].keys[j]).pubkey_index < n
}

/// An account of a versioned instruction, given by its address.
pub open spec fn resolved_account(k: VersionedInstructionAccount, accounts: Seq<Pubkey>) -> InstructionAccount {
    InstructionAccount {
        pubkey: accounts[k.pubkey_index as int],
        is_signer: k.is_signer,
        is_writable: k.is_writable,
    }
}

/// A versioned instruction with its program and accounts given by address.
pub open spec fn resolved_instruction(
    ix: VersionedInstructionDataView,
    accounts: Seq<Pubkey>,
) -> InstructionDataView {
    InstructionDataView {
        program_id: accounts[ix.program_id_index as int],
        data: ix.data,
        keys: ix.keys.map_values(|k: VersionedInstructionAccount| resolved_account(k, accounts)),
    }
}

/// Versioned instructions with programs and accounts given by address.
pub open spec fn resolved(
    ixs: Seq<VersionedInstructionDataView>,
    accounts: Seq<Pubkey>,
) -> Seq<InstructionDataView> {
    ixs.map_values(|ix: VersionedInstructionDataView| resolved_instruction(ix, accounts))
}

/// Looks up the program and the accounts of each versioned instruction among
/// the accounts passed along with the call.
pub fn resolve_versioned_instructions(
    versioned_ixs: &Vec<VersionedInstructionData>,
    accounts: &Vec<Pubkey>,
) -> (r: Vec<InstructionData>)
    requires
        indices_in_range(versioned_view(versioned_ixs@), accounts@.len() as int),
    ensures
        instructions_view(r@) =~~= resolved(versioned_view(versioned_ixs@), accounts@),
{
    let ghost vv = versioned_view(versioned_ixs@);
    let mut instructions: Vec<InstructionData> = Vec::new();
    let mut i: usize = 0;
    while i < versioned_ixs.len()
        invariant
            0 <= i <= versioned_ixs.len(),
            vv == versioned_view(versioned_ixs@),
            indices_in_range(vv, accounts@.len() as int),
            instructions@.len() == i,
            forall|j: int| 0 <= j < i ==> #[trigger] instructions@[j]@ =~~= resolved_instruction(
                vv[j],
                accounts@,
            ),
        decreases versioned_ixs.len() - i,
    {
        let instruction = &versioned_ixs[i];
        proof {
            assert(vv[i as int] == instruction@);
        }
        let mut keys: Vec<InstructionAccount> = Vec::new();
        let mut j: usize = 0;
        while j < instruction.keys.len()
            invariant
                0 <= j <= instruction.keys.len(),
                instruction@ == vv[i as int],
                indices_in_range(vv, accounts@.len() as int),
                0 <= i < vv.len(),
                keys@.len() == j,
                forall|a: int| 0 <= a < j ==> #[trigger] keys@[a] == resolved_account(
                    instruction.keys@[a],
                    accounts@,
                ),
            decreases instruction.keys.len() - j,
        {
            let account = instruction.keys[j];
            proof {
                assert(vv[i as int].keys[j as int] == account);
            }
            keys.push(
                InstructionAccount {
                    pubkey: accounts[account.pubkey_index as usize],
                    is_signer: account.is_signer,
                    is_writable: account.is_writable,
                },
            );
            j = j + 1;
        }
        let ix_data = InstructionData {
            program_id: accounts[instruction.program_id_index as usize],
            data: copy_bytes(&instruction.data),
            keys,
        };
        proof {
            assert(ix_data@ =~~= resolved_instruction(vv[i as int], accounts@));
        }
        instructions.push(ix_data);
        i = i + 1;
    }
    proof {
        assert(instructions_view(instructions@) =~~= resolved(vv, accounts@));
    }
    instructions
}

/// Stores the instructions of a proposed transaction, looking up their programs
/// and accounts among `remaining_accounts`, and opens it for votes.
pub fn create_versioned_tx_data_handler(
    transaction: &mut Transaction,
    multi_sig: &MultiSig,
    multi_sig_key: Pubkey,
    transaction_key: Pubkey,
    signer: Pubkey,
    bump: u8,
    versioned_ixs: Vec<VersionedInstructionData>,
    lookup_table: Option<Pubkey>,
    remaining_accounts: &Vec<Pubkey>,
) -> (r: Result<TxData, Errors>)
    requires
        create_tx_data_error(old(transaction)@, multi_sig_key, multi_sig.version, signer) is None
            ==> indices_in_range(versioned_view(versioned_ixs@), remaining_accounts@.len() as int),
    ensures
        create_tx_data_error(old(transaction)@, multi_sig_key, multi_sig.version, signer) matches Some(e)
            ==> r == Err::<TxData, Errors>(e) && final(transaction)@ =~~= old(transaction)@,
        create_tx_data_error(old(transaction)@, multi_sig_key, multi_sig.version, signer) is None
            ==> r is Ok,
        r matches Ok(d) ==> final(transaction)@ =~~= opened_for_vote(old(transaction)@)
            && d@ =~~= (TxDataView {
            transaction: transaction_key,
            instructions: resolved(versioned_view(versioned_ixs@), remaining_accounts@),
            bump,
            lookup_table,
        }),
{
    match check_create_tx_data(transaction, multi_sig, &multi_sig_key, &signer) {
        Err(e) => {
            return Err(e);
        },
        Ok(()) => {},
    }
    let instructions = resolve_versioned_instructions(&versioned_ixs, remaining_accounts);
    transaction.status = TransactionStatus::Vote;
    let d = TxData::new(transaction_key, instructions, bump, lookup_table);
    Ok(d)
}

} // verus!
