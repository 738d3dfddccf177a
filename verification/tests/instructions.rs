use cordelia::errors::Errors;
use cordelia::instructions::accept_transaction::accept_transaction_handler;
use cordelia::instructions::add_tx_data::add_tx_data_handler;
use cordelia::instructions::change_multisig::change_multisig_handler;
use cordelia::instructions::change_multisig_realloc::change_multisig_realloc_handler;
use cordelia::instructions::create_multisig::{
    check_multisig_params, create_multisig_handler, create_multisig_with_authority,
};
use cordelia::instructions::create_transaction::{check_create_transaction, create_transaction_handler};
use cordelia::instructions::create_tx_data::create_tx_data_handler;
use cordelia::instructions::create_versioned_tx_data::{
    create_versioned_tx_data_handler, resolve_versioned_instructions,
};
use cordelia::instructions::execute_transaction::{
    check_execute, check_instruction_accounts, complete_execution, prepare_all, prepare_instruction,
    AccountSource, ExecuteError,
};
use cordelia::instructions::finalize_tx_data::finalize_tx_data_handler;
use cordelia::instructions::vote_transaction::vote_transaction_handler;
use cordelia::key::Pubkey;
use cordelia::program::{authority_seeds, find_authority, program_id};
use cordelia::state::multisig::{ChangeReallocType, ChangeType, MultiSig, Stratum};
use cordelia::state::transaction::{Transaction, TransactionStatus};
use cordelia::state::tx_data::{
    InstructionAccount, InstructionData, TxData, VersionedInstructionAccount,
    VersionedInstructionData,
};

fn key(first: u8, last: u8) -> Pubkey {
    let mut b = [0u8; 32];
    b[0] = first;
    b[31] = last;
    Pubkey::new_from_array(b)
}

fn stratum(owners: Vec<Pubkey>, m: u16) -> Stratum {
    Stratum { owners, m, active: true }
}

const MS_KEY: (u8, u8) = (50, 50);

fn ms_key() -> Pubkey {
    key(MS_KEY.0, MS_KEY.1)
}

fn wallet() -> MultiSig {
    create_multisig_handler(
        ms_key(),
        key(9, 9),
        254,
        vec![stratum(vec![key(2, 0), key(1, 0)], 2), stratum(vec![key(3, 0), key(4, 0)], 1)],
        "team".to_string(),
    )
    .unwrap()
}

fn proposed(ms: &mut MultiSig) -> Transaction {
    create_transaction_handler(ms, ms_key(), key(1, 0), 0, 7, "pay".to_string()).unwrap()
}

fn ix(program: Pubkey, data: Vec<u8>, keys: Vec<Pubkey>) -> InstructionData {
    InstructionData {
        program_id: program,
        data,
        keys: keys
            .into_iter()
            .map(|k| InstructionAccount { pubkey: k, is_signer: false, is_writable: true })
            .collect(),
    }
}

#[test]
fn create_multisig_sorts_owners_and_finds_authority() {
    let ms = wallet();
    assert_eq!(ms.strata[0].owners[0].bytes[0], 1);
    assert_eq!(ms.strata[0].owners[1].bytes[0], 2);
    assert_eq!(ms.creator.bytes[0], 9);
    assert_eq!(ms.multisig_bump, 254);
    assert_eq!(ms.transaction_count, 0);
    assert_eq!(ms.version, 0);
    assert!(ms.strata.iter().all(|s| s.active));
    let program = anchor_lang::solana_program::pubkey::Pubkey::new_from_array(program_id().bytes);
    let (_, expected_bump) = anchor_lang::solana_program::pubkey::Pubkey::find_program_address(
        &[b"authority", &ms_key().bytes],
        &program,
    );
    assert_eq!(ms.authority_bump, expected_bump);
    let (address, bump) = find_authority(&ms_key()).unwrap();
    assert_eq!(bump, expected_bump);
    let (expected_address, _) = anchor_lang::solana_program::pubkey::Pubkey::find_program_address(
        &[b"authority", &ms_key().bytes],
        &program,
    );
    assert_eq!(address.bytes, expected_address.to_bytes());
}

#[test]
fn program_id_and_seeds() {
    let id = anchor_lang::solana_program::pubkey::Pubkey::new_from_array(program_id().bytes);
    assert_eq!(id.to_string(), "2h4ZQdRQESZETBWh6mC9pgLGca8ytMR5GcCqMsUACyyY");
    let seeds = authority_seeds(&key(7, 8));
    assert_eq!(seeds[0], b"authority".to_vec());
    assert_eq!(seeds[1], key(7, 8).bytes.to_vec());
}

#[test]
fn create_multisig_errors_in_order() {
    let s = |owners: Vec<Pubkey>, m: u16| stratum(owners, m);
    assert_eq!(
        check_multisig_params(&vec![s(vec![key(1, 0)], 1)], &"a".repeat(26)),
        Err(Errors::InvalidNameLen)
    );
    assert_eq!(check_multisig_params(&vec![s(vec![key(1, 0)], 1)], &"a".repeat(25)), Ok(()));
    assert_eq!(check_multisig_params(&vec![], &"n".to_string()), Err(Errors::InvalidStrataLen));
    let many: Vec<Stratum> = (0..257u32).map(|i| s(vec![key((i % 256) as u8, (i / 256) as u8 + 1)], 1)).collect();
    assert_eq!(check_multisig_params(&many, &"n".to_string()), Err(Errors::InvalidStrataLen));
    let most: Vec<Stratum> = (0..256u32).map(|i| s(vec![key(i as u8, 1)], 1)).collect();
    assert_eq!(check_multisig_params(&most, &"n".to_string()), Ok(()));
    // the name is measured in characters
    assert_eq!(check_multisig_params(&vec![s(vec![key(1, 0)], 1)], &"\u{e9}".repeat(25)), Ok(()));
    assert_eq!(
        check_multisig_params(&vec![s(vec![key(1, 0)], 1)], &"\u{e9}".repeat(26)),
        Err(Errors::InvalidNameLen)
    );
    assert_eq!(
        check_multisig_params(&vec![s(vec![], 0)], &"n".to_string()),
        Err(Errors::InvalidOwnersCount)
    );
    assert_eq!(
        check_multisig_params(&vec![s(vec![key(1, 0)], 0)], &"n".to_string()),
        Err(Errors::ThresholdZero)
    );
    assert_eq!(
        check_multisig_params(&vec![s(vec![key(1, 0), key(1, 0)], 1)], &"n".to_string()),
        Err(Errors::DuplicateOwner)
    );
    assert_eq!(
        check_multisig_params(&vec![s(vec![key(1, 0)], 1), s(vec![key(2, 0), key(1, 0)], 1)], &"n".to_string()),
        Err(Errors::DuplicateOwner)
    );
    assert_eq!(
        check_multisig_params(&vec![s(vec![key(1, 0)], 2)], &"n".to_string()),
        Err(Errors::ThresholdExceeds)
    );
    // the first stratum's threshold is checked before its duplicates
    assert_eq!(
        check_multisig_params(&vec![s(vec![key(1, 0), key(1, 0)], 0)], &"n".to_string()),
        Err(Errors::ThresholdZero)
    );
    // a later stratum may have a zero threshold
    assert_eq!(
        check_multisig_params(&vec![s(vec![key(1, 0)], 1), s(vec![key(2, 0)], 0)], &"n".to_string()),
        Ok(())
    );
    // strata are checked in order: a repeat in the first is found before an empty later stratum
    assert_eq!(
        check_multisig_params(&vec![s(vec![key(1, 0), key(1, 0)], 1), s(vec![], 0)], &"n".to_string()),
        Err(Errors::DuplicateOwner)
    );
}

#[test]
fn create_multisig_without_authority_address() {
    let r = create_multisig_with_authority(
        vec![stratum(vec![key(1, 0)], 1)],
        "n".to_string(),
        key(2, 2),
        1,
        None,
    );
    assert!(matches!(r, Err(Errors::AuthorityBumpNotFound)));
    let r = create_multisig_with_authority(
        vec![stratum(vec![key(1, 0)], 1)],
        "n".to_string(),
        key(2, 2),
        1,
        Some((key(3, 3), 200)),
    )
    .unwrap();
    assert_eq!(r.authority_bump, 200);
    let r = create_multisig_with_authority(vec![], "n".to_string(), key(2, 2), 1, Some((key(3, 3), 200)));
    assert!(matches!(r, Err(Errors::InvalidStrataLen)));
}

#[test]
fn create_transaction_counts_and_checks() {
    let mut ms = wallet();
    let t = proposed(&mut ms);
    assert_eq!(t.transaction_num, 0);
    assert_eq!(t.accepted, vec![0, 0]);
    assert_eq!(t.status, TransactionStatus::Initiated);
    assert_eq!(t.multi_sig.bytes[0], MS_KEY.0);
    assert_eq!(ms.transaction_count, 1);
    let t2 = proposed(&mut ms);
    assert_eq!(t2.transaction_num, 1);
    assert_eq!(ms.transaction_count, 2);
    let r = create_transaction_handler(&mut ms, ms_key(), key(1, 0), 2, 7, "x".to_string());
    assert!(matches!(r, Err(Errors::InvalidStratumNumber)));
    let r = create_transaction_handler(&mut ms, ms_key(), key(3, 0), 0, 7, "x".to_string());
    assert!(matches!(r, Err(Errors::InvalidOwner)));
    let r = create_transaction_handler(&mut ms, ms_key(), key(1, 0), 0, 7, "d".repeat(141));
    assert!(matches!(r, Err(Errors::InvalidDescriptionLen)));
    assert_eq!(ms.transaction_count, 2);
}

#[test]
fn create_transaction_checks_come_before_the_count() {
    let ms = wallet();
    assert_eq!(check_create_transaction(&ms, &key(1, 0), 0, &"x".to_string()), Ok(()));
    assert_eq!(check_create_transaction(&ms, &key(1, 0), 2, &"x".to_string()), Err(Errors::InvalidStratumNumber));
    assert_eq!(check_create_transaction(&ms, &key(3, 0), 0, &"x".to_string()), Err(Errors::InvalidOwner));
    assert_eq!(check_create_transaction(&ms, &key(3, 0), 0, &"d".repeat(141)), Err(Errors::InvalidOwner));
    assert_eq!(check_create_transaction(&ms, &key(1, 0), 0, &"d".repeat(141)), Err(Errors::InvalidDescriptionLen));
    assert_eq!(check_create_transaction(&ms, &key(1, 0), 0, &"d".repeat(140)), Ok(()));
    let mut full = wallet();
    full.transaction_count = u32::MAX;
    let r = create_transaction_handler(&mut full, ms_key(), key(3, 0), 0, 7, "x".to_string());
    assert!(matches!(r, Err(Errors::InvalidOwner)));
    assert_eq!(full.transaction_count, u32::MAX);
}

#[test]
fn tx_data_checks() {
    let mut ms = wallet();
    let mut t = proposed(&mut ms);
    let r = create_tx_data_handler(&mut t, &ms, key(7, 7), key(60, 0), key(1, 0), 1, vec![]);
    assert!(matches!(r, Err(Errors::InvalidTransaction)));
    let r = create_tx_data_handler(&mut t, &ms, ms_key(), key(60, 0), key(2, 0), 1, vec![]);
    assert!(matches!(r, Err(Errors::InvalidOwner)));
    assert_eq!(t.status, TransactionStatus::Initiated);
    let d = create_tx_data_handler(&mut t, &ms, ms_key(), key(60, 0), key(1, 0), 1, vec![ix(key(70, 0), vec![1], vec![key(71, 0)])]).unwrap();
    assert_eq!(t.status, TransactionStatus::Vote);
    assert_eq!(d.transaction.bytes[0], 60);
    assert_eq!(d.instructions.len(), 1);
    assert!(d.lookup_table.is_none());
    let r = create_tx_data_handler(&mut t, &ms, ms_key(), key(60, 0), key(1, 0), 1, vec![]);
    assert!(matches!(r, Err(Errors::AlreadyInitiated)));
    let mut t2 = proposed(&mut ms);
    ms.version = 1;
    let r = create_tx_data_handler(&mut t2, &ms, ms_key(), key(61, 0), key(1, 0), 1, vec![]);
    assert!(matches!(r, Err(Errors::VersionOutdated)));
}

#[test]
fn versioned_instructions_are_resolved() {
    let remaining = vec![key(80, 0), key(81, 0), key(82, 0)];
    let vix = VersionedInstructionData {
        program_id_index: 2,
        data: vec![5, 6],
        keys: vec![
            VersionedInstructionAccount { pubkey_index: 0, is_signer: true, is_writable: false },
            VersionedInstructionAccount { pubkey_index: 1, is_signer: false, is_writable: true },
        ],
    };
    let out = resolve_versioned_instructions(&vec![vix.clone()], &remaining);
    assert_eq!(out[0].program_id.bytes[0], 82);
    assert_eq!(out[0].data, vec![5, 6]);
    assert_eq!(out[0].keys[0].pubkey.bytes[0], 80);
    assert!(out[0].keys[0].is_signer && !out[0].keys[0].is_writable);
    assert_eq!(out[0].keys[1].pubkey.bytes[0], 81);
    let mut ms = wallet();
    let mut t = proposed(&mut ms);
    let d = create_versioned_tx_data_handler(&mut t, &ms, ms_key(), key(60, 0), key(1, 0), 3, vec![vix], Some(key(90, 0)), &remaining).unwrap();
    assert_eq!(t.status, TransactionStatus::Vote);
    assert_eq!(d.lookup_table.unwrap().bytes[0], 90);
    assert_eq!(d.instructions[0].program_id.bytes[0], 82);
}

#[test]
fn add_and_finalize_tx_data() {
    let mut ms = wallet();
    let t = proposed(&mut ms);
    let mut d = TxData::new(key(60, 0), vec![ix(key(70, 0), vec![], vec![key(71, 0)])], 1, None);
    let extra = vec![InstructionAccount { pubkey: key(72, 0), is_signer: false, is_writable: false }];
    let r = add_tx_data_handler(&t, &mut d, &ms, ms_key(), key(61, 0), key(1, 0), extra.clone(), 0);
    assert_eq!(r, Err(Errors::InvalidTxData));
    let r = add_tx_data_handler(&t, &mut d, &ms, ms_key(), key(60, 0), key(2, 0), extra.clone(), 0);
    assert_eq!(r, Err(Errors::InvalidCreator));
    let r = add_tx_data_handler(&t, &mut d, &ms, ms_key(), key(60, 0), key(1, 0), extra.clone(), 2);
    assert_eq!(r, Err(Errors::InvalidTxDataIndex));
    let r = add_tx_data_handler(&t, &mut d, &ms, ms_key(), key(60, 0), key(1, 0), extra.clone(), 1);
    assert_eq!(r, Err(Errors::InvalidTxDataIndex));
    assert_eq!(d.instructions.len(), 1);
    assert_eq!(d.instructions[0].keys.len(), 1);
    let expected_size = d.realloc_bytes(&extra);
    let r = add_tx_data_handler(&t, &mut d, &ms, ms_key(), key(60, 0), key(1, 0), extra.clone(), 0);
    assert_eq!(r, Ok(()));
    assert_eq!(
        TxData::len(cordelia::state::tx_data::TransactionType::Legacy { data: d.instructions.clone() }),
        expected_size
    );
    assert_eq!(d.instructions[0].keys.len(), 2);
    assert_eq!(d.instructions[0].keys[1].pubkey.bytes[0], 72);
    let mut t = t;
    assert_eq!(finalize_tx_data_handler(&mut t, &d, &ms, ms_key(), key(61, 0), key(1, 0)), Err(Errors::InvalidTxData));
    assert_eq!(finalize_tx_data_handler(&mut t, &d, &ms, ms_key(), key(60, 0), key(2, 0)), Err(Errors::InvalidCreator));
    assert_eq!(finalize_tx_data_handler(&mut t, &d, &ms, ms_key(), key(60, 0), key(1, 0)), Ok(()));
    assert_eq!(t.status, TransactionStatus::Vote);
    assert_eq!(finalize_tx_data_handler(&mut t, &d, &ms, ms_key(), key(60, 0), key(1, 0)), Err(Errors::AlreadyFinalized));
    let r = add_tx_data_handler(&t, &mut d, &ms, ms_key(), key(60, 0), key(1, 0), extra, 0);
    assert_eq!(r, Err(Errors::AlreadyFinalized));
}

#[test]
fn votes_and_rejection() {
    let mut ms = wallet();
    let mut t = proposed(&mut ms);
    let r = vote_transaction_handler(&mut t, &ms, ms_key(), key(60, 0), key(1, 0), 0, true);
    assert!(matches!(r, Err(Errors::NotVoteStatus)));
    t.status = TransactionStatus::Vote;
    let rec = vote_transaction_handler(&mut t, &ms, ms_key(), key(60, 0), key(1, 0), 0, true).unwrap();
    assert_eq!(rec.owner.bytes[0], 1);
    assert_eq!(rec.transaction.bytes[0], 60);
    assert_eq!(t.accepted, vec![1, 0]);
    let r = vote_transaction_handler(&mut t, &ms, ms_key(), key(60, 0), key(3, 0), 0, true);
    assert!(matches!(r, Err(Errors::InvalidOwner)));
    let r = vote_transaction_handler(&mut t, &ms, ms_key(), key(60, 0), key(3, 0), 5, true);
    assert!(matches!(r, Err(Errors::InvalidStratumNumber)));
    // stratum 1 has 2 owners and threshold 1: one rejection can be taken, the second rejects
    vote_transaction_handler(&mut t, &ms, ms_key(), key(60, 0), key(3, 0), 1, false).unwrap();
    assert_eq!(t.rejected, vec![0, 1]);
    assert_eq!(t.status, TransactionStatus::Vote);
    vote_transaction_handler(&mut t, &ms, ms_key(), key(60, 0), key(4, 0), 1, false).unwrap();
    assert_eq!(t.rejected, vec![0, 2]);
    assert_eq!(t.status, TransactionStatus::Rejected);
    let r = vote_transaction_handler(&mut t, &ms, ms_key(), key(60, 0), key(2, 0), 0, true);
    assert!(matches!(r, Err(Errors::NotVoteStatus)));
}

#[test]
fn accept_needs_every_active_threshold() {
    let mut ms = wallet();
    let mut t = proposed(&mut ms);
    t.status = TransactionStatus::Vote;
    vote_transaction_handler(&mut t, &ms, ms_key(), key(60, 0), key(1, 0), 0, true).unwrap();
    vote_transaction_handler(&mut t, &ms, ms_key(), key(60, 0), key(2, 0), 0, true).unwrap();
    assert_eq!(accept_transaction_handler(&mut t, &ms, ms_key(), key(1, 0), 0), Err(Errors::InsufficientVotes));
    assert_eq!(t.status, TransactionStatus::Vote);
    vote_transaction_handler(&mut t, &ms, ms_key(), key(60, 0), key(4, 0), 1, true).unwrap();
    assert_eq!(accept_transaction_handler(&mut t, &ms, ms_key(), key(5, 0), 0), Err(Errors::InvalidOwner));
    assert_eq!(accept_transaction_handler(&mut t, &ms, ms_key(), key(4, 0), 1), Ok(()));
    assert_eq!(t.status, TransactionStatus::Accepted);
    assert_eq!(accept_transaction_handler(&mut t, &ms, ms_key(), key(4, 0), 1), Err(Errors::NotVoteStatus));
}

#[test]
fn inactive_strata_are_not_counted() {
    let mut ms = wallet();
    change_multisig_handler(&mut ms, ChangeType::ChangeM { new_m: 0 }, 1).unwrap();
    change_multisig_handler(&mut ms, ChangeType::DeactivateStratum, 1).unwrap();
    let mut t = proposed(&mut ms);
    t.status = TransactionStatus::Vote;
    vote_transaction_handler(&mut t, &ms, ms_key(), key(60, 0), key(1, 0), 0, true).unwrap();
    vote_transaction_handler(&mut t, &ms, ms_key(), key(60, 0), key(2, 0), 0, true).unwrap();
    assert_eq!(accept_transaction_handler(&mut t, &ms, ms_key(), key(2, 0), 0), Ok(()));
}

#[test]
fn execution_checks_and_preparation() {
    let mut ms = wallet();
    let mut t = proposed(&mut ms);
    let d = TxData::new(key(60, 0), vec![ix(key(70, 0), vec![9], vec![key(71, 0)])], 1, None);
    assert_eq!(check_execute(&t, &d, &ms, &ms_key(), &key(60, 0), &key(1, 0), 0), Err(Errors::NotAccepted));
    t.status = TransactionStatus::Accepted;
    assert_eq!(check_execute(&t, &d, &ms, &ms_key(), &key(61, 0), &key(1, 0), 0), Err(Errors::InvalidTxData));
    assert_eq!(check_execute(&t, &d, &ms, &ms_key(), &key(60, 0), &key(3, 0), 0), Err(Errors::InvalidOwner));
    assert_eq!(check_execute(&t, &d, &ms, &key(1, 1), &key(60, 0), &key(1, 0), 0), Err(Errors::InvalidTransaction));
    assert_eq!(check_execute(&t, &d, &ms, &ms_key(), &key(60, 0), &key(1, 0), 0), Ok(()));
    // execution does not look at the version
    ms.version = 5;
    assert_eq!(check_execute(&t, &d, &ms, &ms_key(), &key(60, 0), &key(1, 0), 0), Ok(()));

    let remaining = vec![key(70, 0), key(71, 0), key(70, 0)];
    let (p, next) = prepare_instruction(&d.instructions[0], &remaining, 0, &key(1, 0)).unwrap();
    assert_eq!(next, 2);
    assert_eq!(p.account_sources, vec![AccountSource::Remaining(0), AccountSource::Remaining(1)]);
    assert_eq!(p.instruction.data, vec![9]);
    assert_eq!(p.instruction.keys[0].pubkey.bytes[0], 71);
    assert_eq!(prepare_instruction(&d.instructions[0], &remaining, 2, &key(1, 0)).err(), Some(ExecuteError::NotEnoughAccountKeys));
    assert_eq!(prepare_instruction(&d.instructions[0], &remaining, 3, &key(1, 0)).err(), Some(ExecuteError::NotEnoughAccountKeys));
    assert_eq!(prepare_instruction(&d.instructions[0], &remaining, 1, &key(1, 0)).err(), Some(ExecuteError::Program(Errors::InvalidInstructionAccount)));
    assert_eq!(check_instruction_accounts(&d.instructions[0], &remaining, 0), Ok(2));
    assert_eq!(check_instruction_accounts(&d.instructions[0], &remaining, 2), Err(ExecuteError::NotEnoughAccountKeys));
    let wrong_key = vec![key(70, 0), key(72, 0)];
    assert_eq!(check_instruction_accounts(&d.instructions[0], &wrong_key, 0), Err(ExecuteError::Program(Errors::InvalidInstructionAccount)));
    assert_eq!(prepare_instruction(&d.instructions[0], &wrong_key, 0, &key(1, 0)).err(), Some(ExecuteError::Program(Errors::InvalidInstructionAccount)));
    complete_execution(&mut t);
    assert_eq!(t.status, TransactionStatus::Executed);
}

#[test]
fn self_calls_are_guarded() {
    let me = program_id();
    let exec_call = ix(me, vec![0xe7, 0xad, 0x31, 0x5b, 0xeb, 0x18, 0x44, 0x13, 0], vec![]);
    assert_eq!(prepare_instruction(&exec_call, &vec![me], 0, &key(1, 0)).err(), Some(ExecuteError::Program(Errors::InvalidInstruction)));
    let keys = vec![key(10, 0), key(11, 0), key(12, 0), key(13, 0)];
    let realloc_call = ix(me, vec![0x98, 0x5a, 0x30, 0x68, 0x6b, 0x7a, 0x0b, 0x71, 1, 2], keys.clone());
    let mut remaining = vec![me];
    remaining.extend(keys.clone());
    let (p, next) = prepare_instruction(&realloc_call, &remaining, 0, &key(1, 0)).unwrap();
    assert_eq!(next, 5);
    assert_eq!(p.account_sources, vec![
        AccountSource::Remaining(0),
        AccountSource::Remaining(1),
        AccountSource::Remaining(2),
        AccountSource::Signer,
        AccountSource::Remaining(4),
    ]);
    assert_eq!(p.instruction.keys[2].pubkey.bytes[0], 1);
    assert!(p.instruction.keys[2].is_signer && p.instruction.keys[2].is_writable);
    assert_eq!(p.instruction.keys[1].pubkey.bytes[0], 11);
    // the same data sent to another program is passed on untouched
    let other = ix(key(70, 0), realloc_call.data.clone(), keys.clone());
    let mut remaining = vec![key(70, 0)];
    remaining.extend(keys);
    let (p, _) = prepare_instruction(&other, &remaining, 0, &key(1, 0)).unwrap();
    assert_eq!(p.account_sources[3], AccountSource::Remaining(3));
    assert_eq!(p.instruction.keys[2].pubkey.bytes[0], 12);
    // a size change naming too few accounts has no payer to replace
    let short_realloc = ix(me, vec![0x98, 0x5a, 0x30, 0x68, 0x6b, 0x7a, 0x0b, 0x71], vec![key(10, 0), key(11, 0)]);
    let remaining = vec![me, key(10, 0), key(11, 0)];
    assert_eq!(prepare_instruction(&short_realloc, &remaining, 0, &key(1, 0)).err(), Some(ExecuteError::PayerAccountMissing));
}

#[test]
fn all_instructions_are_prepared_in_turn() {
    let first = ix(key(70, 0), vec![1], vec![key(71, 0), key(72, 0)]);
    let second = ix(key(80, 0), vec![2, 3], vec![key(81, 0)]);
    let third = ix(key(90, 0), vec![], vec![]);
    let d = TxData::new(key(60, 0), vec![first, second, third], 1, None);
    let remaining = vec![key(70, 0), key(71, 0), key(72, 0), key(80, 0), key(81, 0), key(90, 0)];
    let (list, stop) = prepare_all(&d, &remaining, &key(1, 0));
    assert_eq!(stop, None);
    assert_eq!(list.len(), 3);
    assert_eq!(list[0].account_sources, vec![AccountSource::Remaining(0), AccountSource::Remaining(1), AccountSource::Remaining(2)]);
    assert_eq!(list[1].account_sources, vec![AccountSource::Remaining(3), AccountSource::Remaining(4)]);
    assert_eq!(list[2].account_sources, vec![AccountSource::Remaining(5)]);
    assert_eq!(list[1].instruction.data, vec![2, 3]);
    assert_eq!(list[1].instruction.program_id.bytes[0], 80);
    // the second instruction's account is not the one passed: the first stays prepared
    let wrong = vec![key(70, 0), key(71, 0), key(72, 0), key(80, 0), key(99, 0), key(90, 0)];
    let (list, stop) = prepare_all(&d, &wrong, &key(1, 0));
    assert_eq!(list.len(), 1);
    assert_eq!(stop, Some(ExecuteError::Program(Errors::InvalidInstructionAccount)));
    // the accounts run out before the third instruction
    let (list, stop) = prepare_all(&d, &remaining[..5].to_vec(), &key(1, 0));
    assert_eq!(list.len(), 2);
    assert_eq!(stop, Some(ExecuteError::NotEnoughAccountKeys));
    let empty = TxData::new(key(60, 0), vec![], 1, None);
    let (list, stop) = prepare_all(&empty, &vec![], &key(1, 0));
    assert!(list.is_empty());
    assert_eq!(stop, None);
}

#[test]
fn changes_bump_version_and_outdate_transactions() {
    let mut ms = wallet();
    let mut t = proposed(&mut ms);
    t.status = TransactionStatus::Vote;
    assert_eq!(change_multisig_handler(&mut ms, ChangeType::ChangeM { new_m: 1 }, 9), Err(Errors::InvalidStratumNumber));
    assert_eq!(change_multisig_handler(&mut ms, ChangeType::ActivateStratum, 0), Err(Errors::ActiveStratum));
    assert_eq!(ms.version, 0);
    assert_eq!(change_multisig_handler(&mut ms, ChangeType::ChangeM { new_m: 1 }, 0), Ok(()));
    assert_eq!(ms.version, 1);
    assert_eq!(ms.strata[0].m, 1);
    let r = vote_transaction_handler(&mut t, &ms, ms_key(), key(60, 0), key(1, 0), 0, true);
    assert!(matches!(r, Err(Errors::VersionOutdated)));
    assert_eq!(change_multisig_handler(&mut ms, ChangeType::RemoveOwner { owner: key(2, 0) }, 0), Ok(()));
    assert_eq!(ms.version, 2);
    assert_eq!(ms.strata[0].owners.len(), 1);
    let r = change_multisig_realloc_handler(&mut ms, ChangeReallocType::AddOwner { owner: key(5, 0), stratum: 7 });
    assert_eq!(r, Err(Errors::InvalidStratumNumber));
    let r = change_multisig_realloc_handler(&mut ms, ChangeReallocType::AddOwner { owner: key(3, 0), stratum: 0 });
    assert_eq!(r, Err(Errors::OwnerAlreadyExists));
    assert_eq!(ms.version, 2);
    let r = change_multisig_realloc_handler(&mut ms, ChangeReallocType::AddOwner { owner: key(5, 0), stratum: 0 });
    assert_eq!(r, Ok(()));
    assert_eq!(ms.version, 3);
    let r = change_multisig_realloc_handler(&mut ms, ChangeReallocType::AddStratum { stratum: Stratum { owners: vec![key(6, 0)], m: 1, active: false } });
    assert_eq!(r, Ok(()));
    assert_eq!(ms.version, 4);
    assert!(ms.strata[2].active);
    let r = change_multisig_realloc_handler(&mut ms, ChangeReallocType::AddStratum { stratum: Stratum { owners: vec![key(9, 0), key(9, 0)], m: 1, active: true } });
    assert_eq!(r, Err(Errors::DuplicateOwner));
    assert_eq!(ms.version, 4);
    assert_eq!(ms.strata.len(), 3);
    // a transaction made now has one counter per stratum
    let t = proposed(&mut ms);
    assert_eq!(t.accepted.len(), 3);
    assert_eq!(t.version, 4);
}

#[test]
fn whole_life_of_a_transaction() {
    let mut ms = wallet();
    let mut t = proposed(&mut ms);
    let d = create_tx_data_handler(&mut t, &ms, ms_key(), key(60, 0), key(1, 0), 1, vec![ix(key(70, 0), vec![1, 2], vec![key(71, 0)])]).unwrap();
    for (owner, s) in [(1u8, 0u8), (2, 0), (3, 1)] {
        vote_transaction_handler(&mut t, &ms, ms_key(), key(60, 0), key(owner, 0), s, true).unwrap();
    }
    accept_transaction_handler(&mut t, &ms, ms_key(), key(3, 0), 1).unwrap();
    check_execute(&t, &d, &ms, &ms_key(), &key(60, 0), &key(4, 0), 1).unwrap();
    let remaining = vec![key(70, 0), key(71, 0)];
    let mut cursor = 0;
    for instruction in d.instructions.iter() {
        let (_, next) = prepare_instruction(instruction, &remaining, cursor, &key(4, 0)).unwrap();
        cursor = next;
    }
    complete_execution(&mut t);
    assert_eq!(t.status, TransactionStatus::Executed);
    assert!(matches!(
        vote_transaction_handler(&mut t, &ms, ms_key(), key(60, 0), key(4, 0), 1, true),
        Err(Errors::NotVoteStatus)
    ));
    assert_eq!(check_execute(&t, &d, &ms, &ms_key(), &key(60, 0), &key(4, 0), 1), Err(Errors::NotAccepted));
}
