//! Parameter and address validation.
use crate::limits::{
    MAX_LOCK_THRESHOLD, MAX_REPUTATION_SCORE, MAX_TASK_ID, MAX_TOKEN_AMOUNT, MAX_WEIGHT_THRESHOLD,
};
use crate::types::{Address, ContractError};
use crate::utils::address::validate_address;
use vstd::prelude::*;

verus! {

/// An address the contract accepts from callers: not the zero account and
/// not the contract itself.
pub open spec fn valid_external(current: Address, a: Address) -> bool {
    !a.spec_is_zero() && a != current
}

/// Rejects the zero address and the contract's own address.
pub fn validate_external_address(current_contract: &Address, address: &Address) -> (r: Result<
    (),
    ContractError,
>)
    ensures
        r == (if valid_external(*current_contract, *address) {
            Ok(())
        } else {
            Err(ContractError::InvalidAddress)
        }),
{
    validate_address(address)?;
    if *address == *current_contract {
        return Err(ContractError::InvalidAddress);
    }
    Ok(())
}

/// Rejects two equal addresses.
pub fn validate_distinct_addresses(left: &Address, right: &Address) -> (r: Result<
    (),
    ContractError,
>)
    ensures
        r == (if *left == *right {
            Err(ContractError::InvalidAddress)
        } else {
            Ok(())
        }),
{
    if *left == *right {
        return Err(ContractError::InvalidAddress);
    }
    Ok(())
}

/// Validates an address installed as administrator.
pub fn validate_admin_address(current_contract: &Address, admin: &Address) -> (r: Result<
    (),
    ContractError,
>)
    ensures
        r == (if valid_external(*current_contract, *admin) {
            Ok(())
        } else {
            Err(ContractError::InvalidAddress)
        }),
{
    validate_external_address(current_contract, admin)
}

/// A task id in `1..=MAX_TASK_ID`; `0` is reserved as "no task".
pub open spec fn task_id_valid(task_id: u64) -> bool {
    1 <= task_id <= MAX_TASK_ID
}

/// Result of checking a reward stream's configuration.
pub open spec fn reward_stream_config_result(
    current: Address,
    drips: Address,
    contributor: Address,
    task_id: u64,
) -> Result<(), ContractError> {
    if !valid_external(current, drips) || !valid_external(current, contributor) || drips
        == contributor {
        Err(ContractError::InvalidAddress)
    } else if !task_id_valid(task_id) {
        Err(ContractError::InvalidConfig)
    } else {
        Ok(())
    }
}

/// Checks the drips contract and contributor addresses and the task id of a
/// reward stream.
pub fn validate_reward_stream_config(
    current_contract: &Address,
    drips_address: &Address,
    contributor: &Address,
    task_id: u64,
) -> (r: Result<(), ContractError>)
    ensures
        r == reward_stream_config_result(*current_contract, *drips_address, *contributor, task_id),
{
    validate_external_address(current_contract, drips_address)?;
    validate_external_address(current_contract, contributor)?;
    validate_distinct_addresses(drips_address, contributor)?;
    validate_task_id(task_id)
}

/// Validates that `task_id` lies in `1..=MAX_TASK_ID`.
pub fn validate_task_id(task_id: u64) -> (r: Result<(), ContractError>)
    ensures
        r == (if task_id_valid(task_id) {
            Ok(())
        } else {
            Err(ContractError::InvalidConfig)
        }),
{
    if task_id == 0 || task_id > MAX_TASK_ID {
        return Err(ContractError::InvalidConfig);
    }
    Ok(())
}

/// Result of validating a token amount: positive and at most `MAX_TOKEN_AMOUNT`.
pub open spec fn token_amount_result(amount: i128) -> Result<(), ContractError> {
    if amount <= 0 {
        Err(ContractError::InvalidAmount)
    } else if amount > MAX_TOKEN_AMOUNT {
        Err(ContractError::InvalidRange)
    } else {
        Ok(())
    }
}

pub fn validate_token_amount(amount: i128) -> (r: Result<(), ContractError>)
    ensures
        r == token_amount_result(amount),
{
    if amount <= 0 {
        return Err(ContractError::InvalidAmount);
    }
    if amount > MAX_TOKEN_AMOUNT {
        return Err(ContractError::InvalidRange);
    }
    Ok(())
}

/// Result of validating the vote-lock threshold. Zero is accepted (any
/// positive stake qualifies); negatives would switch the stake check off.
pub open spec fn lock_threshold_result(lock_threshold: i128) -> Result<(), ContractError> {
    if lock_threshold < 0 {
        Err(ContractError::InvalidAmount)
    } else if lock_threshold > MAX_LOCK_THRESHOLD {
        Err(ContractError::InvalidRange)
    } else {
        Ok(())
    }
}

pub fn validate_lock_threshold(lock_threshold: i128) -> (r: Result<(), ContractError>)
    ensures
        r == lock_threshold_result(lock_threshold),
{
    if lock_threshold < 0 {
        return Err(ContractError::InvalidAmount);
    }
    if lock_threshold > MAX_LOCK_THRESHOLD {
        return Err(ContractError::InvalidRange);
    }
    Ok(())
}

/// Result of validating a reputation score: in `1..=MAX_REPUTATION_SCORE`.
pub open spec fn reputation_score_result(score: u64) -> Result<(), ContractError> {
    if score == 0 {
        Err(ContractError::InvalidAmount)
    } else if score > MAX_REPUTATION_SCORE {
        Err(ContractError::InvalidRange)
    } else {
        Ok(())
    }
}

pub fn validate_reputation_score(score: u64) -> (r: Result<(), ContractError>)
    ensures
        r == reputation_score_result(score),
{
    if score == 0 {
        return Err(ContractError::InvalidAmount);
    }
    if score > MAX_REPUTATION_SCORE {
        return Err(ContractError::InvalidRange);
    }
    Ok(())
}

/// Result of validating a weight threshold: in `1..=MAX_WEIGHT_THRESHOLD`.
pub open spec fn weight_threshold_result(threshold: u64) -> Result<(), ContractError> {
    if threshold == 0 {
        Err(ContractError::InvalidAmount)
    } else if threshold > MAX_WEIGHT_THRESHOLD {
        Err(ContractError::InvalidRange)
    } else {
        Ok(())
    }
}

pub fn validate_weight_threshold(threshold: u64) -> (r: Result<(), ContractError>)
    ensures
        r == weight_threshold_result(threshold),
{
    if threshold == 0 {
        return Err(ContractError::InvalidAmount);
    }
    if threshold > MAX_WEIGHT_THRESHOLD {
        return Err(ContractError::InvalidRange);
    }
    Ok(())
}

} // verus!
