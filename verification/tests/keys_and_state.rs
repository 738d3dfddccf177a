use cordelia::errors::Errors;
use cordelia::key::{compare_keys, insert_sorted, keys_equal, search_sorted, sort_keys, KeyOrder, Pubkey};
use cordelia::state::multisig::{ChangeReallocType, MultiSig, Stratum};
use cordelia::state::transaction::{Transaction, TransactionStatus};
use cordelia::state::tx_data::{
    InstructionAccount, InstructionData, TransactionType, TxData, VersionedInstructionAccount,
    VersionedInstructionData,
};
use cordelia::state::vote_record::VoteRecord;

fn key(first: u8, last: u8) -> Pubkey {
    let mut b = [0u8; 32];
    b[0] = first;
    b[31] = last;
    Pubkey::new_from_array(b)
}

fn stratum(owners: Vec<Pubkey>, m: u16) -> Stratum {
    Stratum { owners, m, active: true }
}

fn wallet() -> MultiSig {
    MultiSig::new(
        vec![stratum(vec![key(1, 0), key(2, 0)], 1), stratum(vec![key(3, 0)], 1)],
        7,
        "abc".to_string(),
        key(9, 9),
        3,
    )
}

#[test]
fn keys_compare_by_first_differing_byte() {
    assert_eq!(compare_keys(&key(1, 9), &key(2, 0)), KeyOrder::Less);
    assert_eq!(compare_keys(&key(2, 0), &key(1, 9)), KeyOrder::Greater);
    assert_eq!(compare_keys(&key(1, 1), &key(1, 2)), KeyOrder::Less);
    assert_eq!(compare_keys(&key(4, 4), &key(4, 4)), KeyOrder::Equal);
    assert!(keys_equal(&key(5, 6), &key(5, 6)));
    assert!(!keys_equal(&key(5, 6), &key(5, 7)));
    assert_eq!(key(3, 4).to_bytes()[31], 4);
}

#[test]
fn sort_and_search_owner_lists() {
    let sorted = sort_keys(vec![key(3, 0), key(1, 0), key(2, 5), key(1, 0)]);
    let bytes: Vec<(u8, u8)> = sorted.iter().map(|k| (k.bytes[0], k.bytes[31])).collect();
    assert_eq!(bytes, vec![(1, 0), (1, 0), (2, 5), (3, 0)]);
    let found = search_sorted(&sorted, &key(2, 5)).unwrap();
    assert_eq!(found, 2);
    assert_eq!(search_sorted(&sorted, &key(2, 6)), None);
    assert_eq!(search_sorted(&Vec::new(), &key(2, 6)), None);
    let mut v = vec![key(1, 0), key(3, 0)];
    insert_sorted(&mut v, key(2, 0));
    insert_sorted(&mut v, key(4, 0));
    insert_sorted(&mut v, key(0, 0));
    let firsts: Vec<u8> = v.iter().map(|k| k.bytes[0]).collect();
    assert_eq!(firsts, vec![0, 1, 2, 3, 4]);
}

#[test]
fn new_multisig_activates_every_stratum() {
    let strata = vec![
        Stratum { owners: vec![key(1, 0)], m: 1, active: false },
        Stratum { owners: vec![key(2, 0)], m: 0, active: false },
    ];
    let ms = MultiSig::new(strata, 4, "x".to_string(), key(8, 8), 5);
    assert!(ms.strata.iter().all(|s| s.active));
    assert_eq!(ms.transaction_count, 0);
    assert_eq!(ms.version, 0);
    assert_eq!(ms.authority_bump, 4);
    assert_eq!(ms.multisig_bump, 5);
    assert!(!ms.recovery);
    assert_eq!(ms.name, "x");
}

#[test]
fn multisig_space_formula() {
    let ms = wallet();
    // 55 fixed bytes, 71 and 39 for the strata, 4 + 3 for the name
    assert_eq!(MultiSig::len(ms.strata.clone(), &ms.name), 172);
    let add_owner = ChangeReallocType::AddOwner { owner: key(5, 0), stratum: 0 };
    assert_eq!(ms.realloc_bytes(&add_owner), 204);
    let add_stratum = ChangeReallocType::AddStratum {
        stratum: stratum(vec![key(6, 0), key(7, 0), key(8, 0)], 2),
    };
    assert_eq!(ms.realloc_bytes(&add_stratum), 275);
}

#[test]
fn space_after_growing_change_matches_realloc() {
    let mut ms = wallet();
    let change = ChangeReallocType::AddOwner { owner: key(5, 0), stratum: 1 };
    let expected = ms.realloc_bytes(&change);
    ms.add_owner(key(5, 0), 1).unwrap();
    assert_eq!(MultiSig::len(ms.strata.clone(), &ms.name), expected);
    let change = ChangeReallocType::AddStratum { stratum: stratum(vec![key(6, 0)], 1) };
    let expected = ms.realloc_bytes(&change);
    ms.add_stratum(vec![key(6, 0)], 1).unwrap();
    assert_eq!(MultiSig::len(ms.strata.clone(), &ms.name), expected);
}

#[test]
fn ownership_queries() {
    let ms = wallet();
    assert_eq!(ms.is_owner_stratum(key(2, 0), 0), Some(1));
    assert_eq!(ms.is_owner_stratum(key(3, 0), 0), None);
    assert_eq!(ms.is_owner_stratum(key(3, 0), 1), Some(0));
    assert!(ms.is_owner_wallet(key(3, 0)));
    assert!(!ms.is_owner_wallet(key(4, 0)));
}

#[test]
fn add_owner_keeps_owners_sorted_and_unique() {
    let mut ms = wallet();
    assert_eq!(ms.add_owner(key(0, 5), 0), Ok(()));
    let firsts: Vec<u8> = ms.strata[0].owners.iter().map(|k| k.bytes[0]).collect();
    assert_eq!(firsts, vec![0, 1, 2]);
    assert_eq!(ms.add_owner(key(3, 0), 0), Err(Errors::OwnerAlreadyExists));
    assert_eq!(ms.add_owner(key(0, 5), 1), Err(Errors::OwnerAlreadyExists));
}

#[test]
fn add_owner_to_inactive_or_full_stratum_fails() {
    let mut ms = wallet();
    ms.change_m(0, 1).unwrap();
    ms.deactivate_stratum(1).unwrap();
    assert_eq!(ms.add_owner(key(7, 0), 1), Err(Errors::InactiveStratum));
    let owners: Vec<Pubkey> = (0..1220u32).map(|i| {
        let mut b = [0u8; 32];
        b[0] = 100;
        b[1..5].copy_from_slice(&i.to_be_bytes());
        Pubkey::new_from_array(b)
    }).collect();
    let mut big = MultiSig::new(vec![stratum(owners, 1)], 0, "big".to_string(), key(1, 1), 0);
    assert_eq!(big.add_owner(key(7, 0), 0), Err(Errors::InvalidOwnersCount));
}

#[test]
fn remove_owner_cases() {
    let mut ms = wallet();
    assert_eq!(ms.remove_owner(key(9, 0), 0), Err(Errors::OwnerDoesntExist));
    assert_eq!(ms.remove_owner(key(3, 0), 1), Err(Errors::ThresholdExceeds));
    assert_eq!(ms.remove_owner(key(1, 0), 0), Ok(()));
    assert_eq!(ms.strata[0].owners.len(), 1);
    assert_eq!(ms.strata[0].owners[0].bytes[0], 2);
    assert_eq!(ms.remove_owner(key(2, 0), 0), Err(Errors::ThresholdExceeds));
}

#[test]
fn add_then_remove_owner_restores_the_stratum() {
    let mut ms = wallet();
    let before: Vec<u8> = ms.strata[0].owners.iter().map(|k| k.bytes[0]).collect();
    ms.add_owner(key(1, 7), 0).unwrap();
    ms.remove_owner(key(1, 7), 0).unwrap();
    let after: Vec<u8> = ms.strata[0].owners.iter().map(|k| k.bytes[0]).collect();
    assert_eq!(before, after);
    assert_eq!(ms.strata[0].owners.len(), 2);
}

#[test]
fn add_stratum_refuses_a_repeated_owner() {
    let mut ms = MultiSig::new(vec![stratum(vec![Pubkey::new_from_array([1; 32])], 1)], 0, "ms".to_string(), Pubkey::new_from_array([1; 32]), 0);
    let before_len = ms.strata.len();
    let before_version = ms.version;
    let r = ms.add_stratum(vec![Pubkey::new_from_array([9; 32]), Pubkey::new_from_array([9; 32])], 1);
    assert_eq!(r, Err(Errors::DuplicateOwner));
    assert_eq!(ms.strata.len(), before_len);
    assert_eq!(ms.version, before_version);
    assert_eq!(ms.strata[0].owners.len(), 1);
}

#[test]
fn add_stratum_cases() {
    let mut ms = wallet();
    assert_eq!(ms.add_stratum(vec![], 0), Err(Errors::InvalidOwnersCount));
    assert_eq!(ms.add_stratum(vec![key(7, 0)], 2), Err(Errors::ThresholdExceeds));
    assert_eq!(ms.add_stratum(vec![key(7, 0), key(1, 0)], 1), Err(Errors::OwnerAlreadyExists));
    assert_eq!(ms.add_stratum(vec![key(9, 0), key(9, 0)], 1), Err(Errors::DuplicateOwner));
    assert_eq!(ms.add_stratum(vec![key(1, 0), key(1, 0)], 1), Err(Errors::DuplicateOwner));
    assert_eq!(ms.add_stratum(vec![key(9, 0), key(9, 0)], 3), Err(Errors::ThresholdExceeds));
    assert_eq!(ms.strata.len(), 2);
    assert_eq!(ms.add_stratum(vec![key(8, 0), key(7, 0)], 2), Ok(()));
    assert_eq!(ms.strata.len(), 3);
    assert!(ms.strata[2].active);
    assert_eq!(ms.strata[2].m, 2);
    assert_eq!(ms.strata[2].owners[0].bytes[0], 7);
    let too_many: Vec<Pubkey> = (0..1221u32).map(|i| {
        let mut b = [0u8; 32];
        b[0] = 200;
        b[1..5].copy_from_slice(&i.to_be_bytes());
        Pubkey::new_from_array(b)
    }).collect();
    assert_eq!(ms.add_stratum(too_many, 1), Err(Errors::InvalidOwnersCount));
    let mut full = MultiSig::new(
        (0..255u8).map(|i| stratum(vec![key(i, 1)], 1)).collect(),
        0,
        "f".to_string(),
        key(0, 0),
        0,
    );
    assert_eq!(full.add_stratum(vec![key(1, 200)], 1), Ok(()));
    assert_eq!(full.strata.len(), 256);
    assert_eq!(full.add_stratum(vec![key(2, 200)], 1), Err(Errors::InvalidStrataLen));
}

#[test]
fn stratum_activation_cases() {
    let mut ms = wallet();
    assert_eq!(ms.deactivate_stratum(0), Err(Errors::CannotDeactivateFirst));
    assert_eq!(ms.deactivate_stratum(1), Err(Errors::ThresholdNotZero));
    assert_eq!(ms.activate_stratum(1), Err(Errors::ActiveStratum));
    ms.change_m(0, 1).unwrap();
    assert_eq!(ms.deactivate_stratum(1), Ok(()));
    assert!(!ms.strata[1].active);
    assert!(ms.strata[1].owners.is_empty());
    assert_eq!(ms.deactivate_stratum(1), Err(Errors::InactiveStratum));
    assert_eq!(ms.change_m(0, 1), Err(Errors::InactiveStratum));
    assert_eq!(ms.activate_stratum(1), Ok(()));
    assert!(ms.strata[1].active);
}

#[test]
fn change_threshold_cases() {
    let mut ms = wallet();
    assert_eq!(ms.change_m(3, 0), Err(Errors::ThresholdExceeds));
    assert_eq!(ms.change_m(0, 0), Err(Errors::ThresholdZero));
    assert_eq!(ms.change_m(2, 0), Ok(()));
    assert_eq!(ms.strata[0].m, 2);
    assert_eq!(ms.change_m(0, 1), Ok(()));
}

#[test]
fn transaction_space_and_new() {
    assert_eq!(Transaction::len(2, "hello".to_string()), 107);
    let t = Transaction::new(key(1, 1), key(2, 2), 5, 9, 3, 4, "d".to_string());
    assert_eq!(t.accepted, vec![0u16; 4]);
    assert_eq!(t.rejected, vec![0u16; 4]);
    assert_eq!(t.status, TransactionStatus::Initiated);
    assert_eq!(t.transaction_num, 5);
    assert_eq!(t.bump, 9);
    assert_eq!(t.version, 3);
    assert_eq!(t.description, "d");
}

fn instruction(data_len: usize, keys: usize) -> InstructionData {
    InstructionData {
        program_id: key(4, 4),
        data: vec![1u8; data_len],
        keys: (0..keys).map(|i| InstructionAccount {
            pubkey: key(i as u8, 0),
            is_signer: false,
            is_writable: true,
        }).collect(),
    }
}

#[test]
fn tx_data_space_formula() {
    assert_eq!(TxData::len(TransactionType::Legacy { data: vec![instruction(3, 2)] }), 189);
    assert_eq!(TxData::len(TransactionType::Legacy { data: vec![] }), 78);
    let versioned = VersionedInstructionData {
        program_id_index: 0,
        data: vec![1, 2, 3],
        keys: vec![
            VersionedInstructionAccount { pubkey_index: 1, is_signer: false, is_writable: false },
            VersionedInstructionAccount { pubkey_index: 2, is_signer: true, is_writable: false },
        ],
    };
    assert_eq!(TxData::len(TransactionType::Versioned { data: vec![versioned] }), 189);
    let td = TxData::new(key(1, 1), vec![instruction(3, 2)], 2, None);
    let extra = vec![InstructionAccount { pubkey: key(9, 9), is_signer: false, is_writable: false }];
    assert_eq!(td.realloc_bytes(&extra), 223);
    assert_eq!(td.bump, 2);
    assert_eq!(td.lookup_table.map(|k| k.bytes[0]), None);
}

#[test]
fn vote_record_fields() {
    let r = VoteRecord::new(key(1, 0), key(2, 0));
    assert_eq!(r.transaction.bytes[0], 1);
    assert_eq!(r.owner.bytes[0], 2);
    assert_eq!(VoteRecord::LEN, 72);
}
