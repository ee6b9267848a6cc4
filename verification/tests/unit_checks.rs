use vero_core_contracts::contract::Config;
use vero_core_contracts::events::Event;
use vero_core_contracts::limits::MAX_TASK_ID;
use vero_core_contracts::types::{Address, BatchCall, ContractError, Operation};
use vero_core_contracts::utils::address::is_strictly_sorted_addresses;
use vero_core_contracts::validation::{
    validate_lock_threshold, validate_reputation_score, validate_task_id, validate_token_amount,
    validate_weight_threshold,
};
use vero_core_contracts::VeroContract;

#[test]
fn test_validate_task_id_zero_rejected() {
    assert_eq!(validate_task_id(0), Err(ContractError::InvalidConfig));
}

#[test]
fn test_validate_task_id_valid() {
    assert_eq!(validate_task_id(1), Ok(()));
    assert_eq!(validate_task_id(MAX_TASK_ID), Ok(()));
}

#[test]
fn test_validate_task_id_exceeds_max_rejected() {
    assert_eq!(validate_task_id(MAX_TASK_ID + 1), Err(ContractError::InvalidConfig));
}

fn addrs(n: usize) -> Vec<Address> {
    (0..n).map(|i| Address::account(0, 1000 + i as u128)).collect()
}

#[test]
fn empty_and_single_element_lists_are_trivially_sorted() {
    assert!(is_strictly_sorted_addresses(&Vec::new()));
    let single = addrs(1);
    assert!(is_strictly_sorted_addresses(&single));
}

#[test]
fn strictly_sorted_list_passes() {
    let a = addrs(3);
    assert!(is_strictly_sorted_addresses(&a));
}

#[test]
fn unsorted_list_is_rejected() {
    let mut a = addrs(3);
    a.reverse();
    assert!(!is_strictly_sorted_addresses(&a));
}

#[test]
fn duplicate_addresses_are_rejected() {
    let a = addrs(1)[0];
    assert!(!is_strictly_sorted_addresses(&vec![a, a]));
}

#[test]
fn batch_call_maps_to_operation() {
    let a = Address::account(0, 11);
    let b = Address::account(0, 12);
    assert_eq!(BatchCall::CancelTask(a, 1).operation(), Operation::CancelTask);
    assert_eq!(BatchCall::RemoveGuardian(a, b).operation(), Operation::RemoveGuardian);
    assert_eq!(BatchCall::RequestUnlock(a).operation(), Operation::RequestUnlock);
    assert_eq!(BatchCall::SetVaultAddress(a, b).operation(), Operation::SetVaultAddress);
    assert_eq!(BatchCall::Pause(a).operation(), Operation::Pause);
    assert_eq!(BatchCall::Unpause(a).operation(), Operation::Unpause);
    assert_eq!(BatchCall::RegisterTask(a, 1, 1).operation(), Operation::RegisterTask);
    assert_eq!(BatchCall::Vote(a, 1).operation(), Operation::Vote);
}

#[test]
fn large_task_id_and_weight_survive_resolved_event() {
    let big_task_id: u64 = (u32::MAX as u64) + 12345;
    let big_weight: u64 = (u32::MAX as u64) + 67890;
    let ev = Event::TaskResolved { task_id: big_task_id, total_weight: big_weight };
    match ev {
        Event::TaskResolved { task_id, total_weight } => {
            assert_eq!(task_id, big_task_id);
            assert_eq!(total_weight, big_weight);
        },
        _ => panic!("wrong event"),
    }
}

#[test]
fn large_task_id_and_weight_survive_weighted_vote_event() {
    let guardian = Address::account(0, 77);
    let big_task_id: u64 = (u32::MAX as u64) + 1;
    let big_weight: u64 = (u32::MAX as u64) + 1;
    let ev = Event::WeightedVote { guardian, task_id: big_task_id, weight: big_weight };
    match ev {
        Event::WeightedVote { guardian: g, task_id, weight } => {
            assert_eq!(g, guardian);
            assert_eq!(task_id, big_task_id);
            assert_eq!(weight, big_weight);
        },
        _ => panic!("wrong event"),
    }
}

#[test]
fn failing_multi_key_migration_rolls_back_all_staged_changes() {
    let me = Address::contract(0, 1);
    let mut c = VeroContract::new(me);
    let admin = Address::account(0, 2);
    let token = Address::contract(0, 3);
    c.initialize(admin, token, 100).unwrap();
    let before = c.get_storage_version();
    let staged = Config {
        initialized: true,
        admin: Some(admin),
        token: Some(token),
        lock_threshold: 100,
        paused: false,
        weight_threshold: Some(1000),
        vault: None,
        drips: None,
        treasury: None,
        fee_bps: Some(10001),
        storage_version: vero_core_contracts::contract::migrate::CURRENT_VERSION,
    };
    assert_eq!(c.validate_migration(&staged), Err(ContractError::InvalidConfig));
    assert_eq!(c.get_weight_threshold(), 300);
    assert_eq!(c.get_storage_version(), before);
}

#[test]
fn validators_report_each_error() {
    assert_eq!(validate_token_amount(0), Err(ContractError::InvalidAmount));
    assert_eq!(validate_token_amount(-5), Err(ContractError::InvalidAmount));
    assert_eq!(validate_token_amount(1), Ok(()));
    assert_eq!(validate_lock_threshold(-1), Err(ContractError::InvalidAmount));
    assert_eq!(validate_lock_threshold(0), Ok(()));
    assert_eq!(validate_reputation_score(0), Err(ContractError::InvalidAmount));
    assert_eq!(validate_reputation_score(1_000_000_001), Err(ContractError::InvalidRange));
    assert_eq!(validate_reputation_score(1_000_000_000), Ok(()));
    assert_eq!(validate_weight_threshold(0), Err(ContractError::InvalidAmount));
    assert_eq!(validate_weight_threshold(1_000_000_000_001), Err(ContractError::InvalidRange));
    assert_eq!(validate_weight_threshold(1), Ok(()));
}
