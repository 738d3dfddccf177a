//! Running an accepted transaction: the checks before it, the preparation of
//! each of its instructions for the call, and its final status.

use vstd::prelude::*;
use crate::errors::Errors;
use crate::key::{Pubkey, keys_equal, keys_sorted};
use crate::instructions::account_checks::{
    address_error, check_address, check_owner, check_transaction, first_error, owner_error,
    transaction_error,
};
use crate::program::{program_id, program_id_bytes};
use crate::state::multisig::{MultiSig, MultiSigView, outcome};
use crate::state::transaction::{Transaction, TransactionStatus, TransactionView};
use crate::state::tx_data::{InstructionAccount, copy_bytes, InstructionData, InstructionDataView, TxData};

verus! {

/// Where an account handed to a prepared instruction comes from.
#[derive(Clone, Copy, Debug, PartialEq, Eq, Structural)]
pub enum AccountSource {
    /// The account at this place among the accounts passed along with the call.
    Remaining(usize),
    /// The signer of the executing instruction.
    Signer,
}

/// Why an instruction of a transaction could not be prepared.
#[derive(Clone, Copy, Debug, PartialEq, Eq, Structural)]
pub enum ExecuteError {
    /// The accounts passed along with the call ran out.
    NotEnoughAccountKeys,
    /// A check of the wallet failed.
    Program(Errors),
    /// An instruction that changes the multi-sig's size names fewer than three
    /// accounts, so there is no payer account to hand to the executing signer;
    /// the program aborts there.
    PayerAccountMissing,
}

/// An instruction ready to be called, with the source of each account handed to
/// the call: first the program, then the instruction's accounts in order.
#[derive(Clone, Debug)]
pub struct PreparedInstruction {
    pub instruction: InstructionData,
    pub account_sources: Vec<AccountSource>,
}

/// The first eight bytes of this program's `execute_transaction` instruction.
pub open spec fn execute_discriminator() -> Seq<u8> {
    seq![0xe7u8, 0xad, 0x31, 0x5b, 0xeb, 0x18, 0x44, 0x13]
}

/// The first eight bytes of this program's `change_multisig_realloc` instruction.
pub open spec fn realloc_discriminator() -> Seq<u8> {
    seq![0x98u8, 0x5a, 0x30, 0x68, 0x6b, 0x7a, 0x0b, 0x71]
}

/// Beginning with the `change_multisig_realloc` tag is beginning with its eight bytes.
pub proof fn lemma_realloc_tag_literal(data: Seq<u8>)
    ensures
        starts_with(data, realloc_discriminator()) == (data.len() >= 8 && data.take(8) == seq![
            0x98u8,
            0x5a,
            0x30,
            0x68,
            0x6b,
            0x7a,
            0x0b,
            0x71,
        ]),
{
    assert(realloc_discriminator().len() == 8);
}

/// Beginning with the `execute_transaction` tag is beginning with its eight bytes.
pub proof fn lemma_execute_tag_literal(data: Seq<u8>)
    ensures
        starts_with(data, execute_discriminator()) == (data.len() >= 8 && data.take(8) == seq![
            0xe7u8,
            0xad,
            0x31,
            0x5b,
            0xeb,
            0x18,
            0x44,
            0x13,
        ]),
{
    assert(execute_discriminator().len() == 8);
}

/// `data` begins with `tag`.
pub open spec fn starts_with(data: Seq<u8>, tag: Seq<u8>) -> bool {
    data.len() >= tag.len() && data.take(tag.len() as int) == tag
}

/// First failure of the checks of executing a transaction: it belongs to the
/// multi-sig, is accepted, owns the instruction data, and the signer is an
/// owner of stratum `owner_stratum`.
pub open spec fn execute_error(
    tx: TransactionView,
    td_transaction: Pubkey,
    ms: MultiSigView,
    ms_key: Pubkey,
    tx_key: Pubkey,
    signer: Pubkey,
    owner_stratum: int,
) -> Option<Errors> {
    first_error(
        transaction_error(
            tx,
            ms_key,
            ms.version,
            TransactionStatus::Accepted,
            Errors::NotAccepted,
            false,
        ),
        first_error(
            address_error(tx_key, td_transaction, Errors::InvalidTxData),
            owner_error(ms, signer, owner_stratum),
        ),
    )
}

/// Checks the accounts of executing a transaction.
pub fn check_execute(
    transaction: &Transaction,
    tx_data: &TxData,
    multi_sig: &MultiSig,
    multi_sig_key: &Pubkey,
    transaction_key: &Pubkey,
    signer: &Pubkey,
    owner_stratum: u8,
) -> (r: Result<(), Errors>)
    requires
        owner_stratum < multi_sig.strata.len() ==> keys_sorted(
            multi_sig@.strata[owner_stratum as int].owners,
        ),
    ensures
        r == outcome(
            execute_error(
                transaction@,
                tx_data.transaction,
                multi_sig@,
                *multi_sig_key,
                *transaction_key,
                *signer,
                owner_stratum as int,
            ),
        ),
{
    match check_transaction(
        transaction,
        multi_sig_key,
        multi_sig.version,
        TransactionStatus::Accepted,
        Errors::NotAccepted,
        false,
    ) {
        Err(e) => {
            return Err(e);
        },
        Ok(()) => {},
    }
    match check_address(transaction_key, &tx_data.transaction, Errors::InvalidTxData) {
        Err(e) => {
            return Err(e);
        },
        Ok(()) => {},
    }
    check_owner(multi_sig, signer, owner_stratum)
}

/// First failure among the accounts of instruction `ix` from its `j`-th on,
/// when its accounts are taken from `accounts` after the program at `cursor`.
pub open spec fn key_failure(
    ix: InstructionDataView,
    accounts: Seq<Pubkey>,
    cursor: int,
    j: int,
) -> Option<ExecuteError>
    decreases ix.keys.len() - j,
{
    if j < 0 || j >= ix.keys.len() {
        None
    } else if cursor + 1 + j >= accounts.len() {
        Some(ExecuteError::NotEnoughAccountKeys)
    } else if accounts[cursor + 1 + j] != ix.keys[j].pubkey {
        Some(ExecuteError::Program(Errors::InvalidInstructionAccount))
    } else {
        key_failure(ix, accounts, cursor, j + 1)
    }
}

proof fn lemma_key_failure_kinds(ix: InstructionDataView, accounts: Seq<Pubkey>, cursor: int, j: int)
    ensures
        key_failure(ix, accounts, cursor, j) != Some(ExecuteError::PayerAccountMissing),
    decreases ix.keys.len() - j,
{
    if 0 <= j < ix.keys.len() {
        lemma_key_failure_kinds(ix, accounts, cursor, j + 1);
    }
}

/// Checking the accounts only ever finds a missing or a wrong account.
pub proof fn lemma_accounts_error_kinds(ix: InstructionDataView, accounts: Seq<Pubkey>, cursor: int)
    ensures
        accounts_error(ix, accounts, cursor) != Some(ExecuteError::PayerAccountMissing),
{
    lemma_key_failure_kinds(ix, accounts, cursor, 0);
}

/// First failure of taking the program and the accounts of `ix` from
/// `accounts` at `cursor`: each must be the next one passed.
pub open spec fn accounts_error(ix: InstructionDataView, accounts: Seq<Pubkey>, cursor: int) -> Option<
    ExecuteError,
> {
    if cursor >= accounts.len() {
        Some(ExecuteError::NotEnoughAccountKeys)
    } else if accounts[cursor] != ix.program_id {
        Some(ExecuteError::Program(Errors::InvalidInstructionAccount))
    } else {
        key_failure(ix, accounts, cursor, 0)
    }
}

/// The instruction calls this program itself with the instruction that changes
/// the multi-sig's size; its payer becomes the executing signer.
pub open spec fn pays_by_signer(ix: InstructionDataView, self_id: Seq<u8>) -> bool {
    ix.program_id.bytes@ == self_id && starts_with(ix.data, realloc_discriminator())
}

/// First failure of preparing `ix` with the accounts from `cursor` on: the
/// program and each account must be the next one passed, the instruction may
/// not execute a transaction of this program, and one that changes the
/// multi-sig's size must name the account whose payer it replaces.
pub open spec fn step_error(
    ix: InstructionDataView,
    accounts: Seq<Pubkey>,
    cursor: int,
    self_id: Seq<u8>,
) -> Option<ExecuteError> {
    if accounts_error(ix, accounts, cursor) is Some {
        accounts_error(ix, accounts, cursor)
    } else if ix.program_id.bytes@ == self_id && starts_with(ix.data, execute_discriminator()) {
        Some(ExecuteError::Program(Errors::InvalidInstruction))
    } else if pays_by_signer(ix, self_id) && ix.keys.len() < 3 {
        Some(ExecuteError::PayerAccountMissing)
    } else {
        None
    }
}

/// The accounts of a prepared instruction: the executing signer pays when the
/// instruction changes the multi-sig's size.
pub open spec fn prepared_keys(
    ix: InstructionDataView,
    self_id: Seq<u8>,
    signer: Pubkey,
) -> Seq<InstructionAccount> {
    if pays_by_signer(ix, self_id) {
        ix.keys.update(2, InstructionAccount { pubkey: signer, is_signer: true, is_writable: true })
    } else {
        ix.keys
    }
}

/// The sources of the accounts handed to a prepared instruction.
pub open spec fn prepared_sources(
    ix: InstructionDataView,
    cursor: int,
    self_id: Seq<u8>,
) -> Seq<AccountSource> {
    let base = Seq::new(
        (ix.keys.len() + 1) as nat,
        |j: int| AccountSource::Remaining((cursor + j) as usize),
    );
    if pays_by_signer(ix, self_id) {
        base.update(3, AccountSource::Signer)
    } else {
        base
    }
}

fn execute_tag() -> (t: Vec<u8>)
    ensures
        t@ == execute_discriminator(),
{
    let t: Vec<u8> = vec![0xe7u8, 0xad, 0x31, 0x5b, 0xeb, 0x18, 0x44, 0x13];
    proof {
        assert(t@ =~= execute_discriminator());
    }
    t
}

fn realloc_tag() -> (t: Vec<u8>)
    ensures
        t@ == realloc_discriminator(),
{
    let t: Vec<u8> = vec![0x98u8, 0x5a, 0x30, 0x68, 0x6b, 0x7a, 0x0b, 0x71];
    proof {
        assert(t@ =~= realloc_discriminator());
    }
    t
}

/// Whether `data` begins with `tag`.
fn has_prefix(data: &Vec<u8>, tag: &Vec<u8>) -> (r: bool)
    ensures
        r == starts_with(data@, tag@),
{
    if data.len() < tag.len() {
        return false;
    }
    let mut i: usize = 0;
    while i < tag.len()
        invariant
            0 <= i <= tag.len() <= data.len(),
            forall|j: int| 0 <= j < i ==> data@[j] == tag@[j],
        decreases tag.len() - i,
    {
        if data[i] != tag[i] {
            proof {
                assert(data@.take(tag@.len() as int)[i as int] != tag@[i as int]);
            }
            return false;
        }
        i = i + 1;
    }
    proof {
        assert(data@.take(tag@.len() as int) =~= tag@);
    }
    true
}

/// Checks that the program and the accounts of `ix_data` are the next ones
/// passed from `cursor` on, and returns the place of the next unused account.
pub fn check_instruction_accounts(
    ix_data: &InstructionData,
    remaining_accounts: &Vec<Pubkey>,
    cursor: usize,
) -> (r: Result<usize, ExecuteError>)
    ensures
        accounts_error(ix_data@, remaining_accounts@, cursor as int) matches Some(e) ==> r == Err::<
            usize,
            ExecuteError,
        >(e),
        accounts_error(ix_data@, remaining_accounts@, cursor as int) is None ==> r is Ok,
        r matches Ok(next) ==> next == cursor + 1 + ix_data.keys.len(),
{
    let ghost ix = ix_data@;
    let ghost accounts = remaining_accounts@;
    if cursor >= remaining_accounts.len() {
        return Err(ExecuteError::NotEnoughAccountKeys);
    }
    if !keys_equal(&remaining_accounts[cursor], &ix_data.program_id) {
        return Err(ExecuteError::Program(Errors::InvalidInstructionAccount));
    }
    let mut j: usize = 0;
    while j < ix_data.keys.len()
        invariant
            0 <= j <= ix_data.keys.len(),
            ix == ix_data@,
            accounts == remaining_accounts@,
            accounts.len() == remaining_accounts.len(),
            cursor < accounts.len(),
            accounts[cursor as int] == ix.program_id,
            key_failure(ix, accounts, cursor as int, 0) == key_failure(
                ix,
                accounts,
                cursor as int,
                j as int,
            ),
            cursor + 1 + j <= accounts.len(),
        decreases ix_data.keys.len() - j,
    {
        let next = cursor + 1 + j;
        if next >= remaining_accounts.len() {
            return Err(ExecuteError::NotEnoughAccountKeys);
        }
        if !keys_equal(&ix_data.keys[j].pubkey, &remaining_accounts[next]) {
            return Err(ExecuteError::Program(Errors::InvalidInstructionAccount));
        }
        j = j + 1;
    }
    Ok(cursor + 1 + j)
}

/// Prepares one instruction of an accepted transaction for its call: takes its
/// program and accounts from `remaining_accounts` at `cursor`, checks that they
/// are the ones the instruction names, refuses an instruction that would
/// execute a transaction of this program, and makes the executing signer the
/// payer of an instruction that changes the multi-sig's size. Returns the
/// prepared instruction and the place of the next unused account.
pub fn prepare_instruction(
    ix_data: &InstructionData,
    remaining_accounts: &Vec<Pubkey>,
    cursor: usize,
    signer: &Pubkey,
) -> (r: Result<(PreparedInstruction, usize), ExecuteError>)
    ensures
        step_error(ix_data@, remaining_accounts@, cursor as int, program_id_bytes()) matches Some(e)
            ==> r == Err::<(PreparedInstruction, usize), ExecuteError>(e),
        step_error(ix_data@, remaining_accounts@, cursor as int, program_id_bytes()) is None
            ==> r is Ok,
        r matches Ok((p, next)) ==> next == cursor + 1 + ix_data.keys.len()
            && p.instruction.program_id == ix_data.program_id && p.instruction.data@
            == ix_data.data@ && p.instruction.keys@ == prepared_keys(
            ix_data@,
            program_id_bytes(),
            *signer,
        ) && p.account_sources@ == prepared_sources(ix_data@, cursor as int, program_id_bytes()),
{
    let ghost ix = ix_data@;
    let next_cursor = match check_instruction_accounts(ix_data, remaining_accounts, cursor) {
        Err(e) => {
            return Err(e);
        },
        Ok(n) => n,
    };
    let program_key = ix_data.program_id;
    let mut sources: Vec<AccountSource> = Vec::new();
    let mut j: usize = 0;
    while j <= ix_data.keys.len()
        invariant
            0 <= j <= ix_data.keys.len() + 1,
            next_cursor == cursor + 1 + ix_data.keys.len(),
            sources@.len() == j,
            forall|a: int| 0 <= a < j ==> sources@[a] == AccountSource::Remaining((cursor + a) as usize),
        decreases ix_data.keys.len() + 1 - j,
    {
        sources.push(AccountSource::Remaining(cursor + j));
        j = j + 1;
    }
    let self_id = program_id();
    let is_self = keys_equal(&program_key, &self_id);
    proof {
        assert(is_self == (ix.program_id.bytes@ == program_id_bytes())) by {
            if ix.program_id.bytes@ == program_id_bytes() {
                crate::key::lemma_key_bytes_eq(ix.program_id, self_id);
            }
        }
    }
    let mut keys: Vec<InstructionAccount> = Vec::new();
    let mut a: usize = 0;
    while a < ix_data.keys.len()
        invariant
            0 <= a <= ix_data.keys.len(),
            keys@ =~= ix_data.keys@.take(a as int),
        decreases ix_data.keys.len() - a,
    {
        keys.push(ix_data.keys[a]);
        a = a + 1;
    }
    proof {
        assert(keys@ =~= ix_data.keys@);
    }
    if is_self {
        let exec_tag = execute_tag();
        if has_prefix(&ix_data.data, &exec_tag) {
            return Err(ExecuteError::Program(Errors::InvalidInstruction));
        }
        let realloc = realloc_tag();
        if has_prefix(&ix_data.data, &realloc) {
            if ix_data.keys.len() < 3 {
                return Err(ExecuteError::PayerAccountMissing);
            }
            sources.set(3, AccountSource::Signer);
            keys.set(2, InstructionAccount { pubkey: *signer, is_signer: true, is_writable: true });
        }
    }
    let prepared = PreparedInstruction {
        instruction: InstructionData {
            program_id: ix_data.program_id,
            data: copy_bytes(&ix_data.data),
            keys,
        },
        account_sources: sources,
    };
    proof {
        assert(prepared.account_sources@ =~= prepared_sources(ix, cursor as int, program_id_bytes()));
        assert(prepared.instruction.keys@ =~= prepared_keys(ix, program_id_bytes(), *signer));
    }
    Ok((prepared, next_cursor))
}

/// Where the program of instruction `k` of `ixs` stands among the accounts
/// passed along: each earlier instruction uses up its program and its accounts.
pub open spec fn instruction_cursor(ixs: Seq<InstructionDataView>, k: int) -> int
    decreases k,
{
    if k <= 0 {
        0
    } else {
        instruction_cursor(ixs, k - 1) + 1 + ixs[k - 1].keys.len()
    }
}

/// The first instruction, from `k` on, whose preparation fails at its cursor;
/// the number of instructions when none does.
pub open spec fn first_failing_step(
    ixs: Seq<InstructionDataView>,
    accounts: Seq<Pubkey>,
    self_id: Seq<u8>,
    k: nat,
) -> nat
    decreases ixs.len() - k,
{
    if k >= ixs.len() {
        ixs.len()
    } else if step_error(ixs[k as int], accounts, instruction_cursor(ixs, k as int), self_id) is Some {
        k
    } else {
        first_failing_step(ixs, accounts, self_id, k + 1)
    }
}

/// `p` is instruction `ix` prepared with its accounts taken from `cursor` on.
pub open spec fn prepared_as(
    p: PreparedInstruction,
    ix: InstructionDataView,
    cursor: int,
    signer: Pubkey,
) -> bool {
    &&& p.instruction@ == (InstructionDataView {
        keys: prepared_keys(ix, program_id_bytes(), signer),
        ..ix
    })
    &&& p.account_sources@ == prepared_sources(ix, cursor, program_id_bytes())
}

proof fn lemma_first_failing_step_skip(
    ixs: Seq<InstructionDataView>,
    accounts: Seq<Pubkey>,
    self_id: Seq<u8>,
    k: nat,
)
    requires
        k <= ixs.len(),
        forall|j: int|
            0 <= j < k ==> step_error(#[trigger] ixs[j], accounts, instruction_cursor(ixs, j), self_id)
                is None,
    ensures
        first_failing_step(ixs, accounts, self_id, 0) == first_failing_step(ixs, accounts, self_id, k),
    decreases k,
{
    if k > 0 {
        let p = (k - 1) as nat;
        lemma_first_failing_step_skip(ixs, accounts, self_id, p);
        assert(step_error(ixs[p as int], accounts, instruction_cursor(ixs, p as int), self_id) is None);
    }
}

/// Prepares the instructions of an accepted transaction in order, each taking
/// its program and accounts from `remaining_accounts` right after those of the
/// one before it. Returns the instructions prepared up to the first one that
/// cannot be, and that one's failure; `None` when every instruction was
/// prepared.
pub fn prepare_all(tx_data: &TxData, remaining_accounts: &Vec<Pubkey>, signer: &Pubkey) -> (r: (
    Vec<PreparedInstruction>,
    Option<ExecuteError>,
))
    ensures
        r.0@.len() == first_failing_step(
            tx_data@.instructions,
            remaining_accounts@,
            program_id_bytes(),
            0,
        ),
        forall|i: int|
            0 <= i < r.0@.len() ==> prepared_as(
                #[trigger] r.0@[i],
                tx_data@.instructions[i],
                instruction_cursor(tx_data@.instructions, i),
                *signer,
            ),
        r.0@.len() < tx_data@.instructions.len() ==> r.1 == step_error(
            tx_data@.instructions[r.0@.len() as int],
            remaining_accounts@,
            instruction_cursor(tx_data@.instructions, r.0@.len() as int),
            program_id_bytes(),
        ),
        r.0@.len() == tx_data@.instructions.len() ==> r.1 is None,
{
    let ghost ixs = tx_data@.instructions;
    let ghost accounts = remaining_accounts@;
    let mut prepared: Vec<PreparedInstruction> = Vec::new();
    let mut cursor: usize = 0;
    let mut k: usize = 0;
    while k < tx_data.instructions.len()
        invariant
            0 <= k <= tx_data.instructions.len(),
            ixs == tx_data@.instructions,
            ixs.len() == tx_data.instructions.len(),
            accounts == remaining_accounts@,
            prepared@.len() == k,
            cursor == instruction_cursor(ixs, k as int),
            forall|j: int|
                0 <= j < k ==> step_error(#[trigger] ixs[j], accounts, instruction_cursor(ixs, j), program_id_bytes())
                    is None,
            forall|i: int|
                0 <= i < k ==> prepared_as(#[trigger] prepared@[i], ixs[i], instruction_cursor(ixs, i), *signer),
        decreases tx_data.instructions.len() - k,
    {
        proof {
            assert(tx_data.instructions@[k as int]@ == ixs[k as int]);
        }
        match prepare_instruction(&tx_data.instructions[k], remaining_accounts, cursor, signer) {
            Err(e) => {
                proof {
                    lemma_first_failing_step_skip(ixs, accounts, program_id_bytes(), k as nat);
                }
                return (prepared, Some(e));
            },
            Ok((p, next)) => {
                proof {
                    assert(p.instruction@ =~= (InstructionDataView {
                        keys: prepared_keys(ixs[k as int], program_id_bytes(), *signer),
                        ..ixs[k as int]
                    }));
                }
                prepared.push(p);
                cursor = next;
            },
        }
        k = k + 1;
    }
    proof {
        lemma_first_failing_step_skip(ixs, accounts, program_id_bytes(), k as nat);
    }
    (prepared, None)
}

/// Marks a transaction whose instructions all ran as executed.
pub fn complete_execution(transaction: &mut Transaction)
    ensures
        final(transaction)@ =~~= (TransactionView {
            status: TransactionStatus::Executed,
            ..old(transaction)@
        }),
{
    transaction.status = TransactionStatus::Executed;
}

} // verus!
