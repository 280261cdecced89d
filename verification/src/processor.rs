//! The entry point: one request, served against the accounts handed with it.

use crate::address::{
    derived_address, farmer_account_seeds, reward_pool_seeds, task_record_seeds, Address,
};
use crate::admin::{
    initialize, process_initialize_reward_pool, process_set_paused, process_update_platform_fee,
    set_paused, update_platform_fee,
};
use crate::error::RewardPoolError;
use crate::instruction::{Action, InstructionModel, RewardPoolInstruction};
use crate::outcome::{carried_out, Transition};
use crate::recorder::{process_record_task_completion, record_task_completion};
use crate::state::{Account, AccountModel, DataKind};
use crate::withdrawal::{process_withdraw_rewards, withdraw_rewards};
use vstd::prelude::*;

verus! {

/// What a request does to the accounts handed with it, for the program
/// `program_id` at the slot `slot` of the clock.
pub open spec fn execute(
    program_id: Seq<u8>,
    accounts: Seq<AccountModel>,
    instruction: InstructionModel,
    slot: nat,
) -> Transition {
    match instruction {
        InstructionModel::InitializeRewardPool { platform_fee_percentage } => initialize(
            derived_address(reward_pool_seeds(), program_id),
            accounts,
            platform_fee_percentage,
        ),
        InstructionModel::RecordTaskCompletion {
            task_id,
            pool_id,
            reward_amount,
        } => record_task_completion(
            derived_address(reward_pool_seeds(), program_id),
            derived_address(farmer_account_seeds(accounts[3].key), program_id),
            derived_address(task_record_seeds(task_id), program_id),
            accounts,
            task_id,
            pool_id,
            reward_amount,
            slot,
        ),
        InstructionModel::WithdrawRewards { task_ids, expected_nonce } => withdraw_rewards(
            program_id,
            accounts,
            task_ids,
            expected_nonce,
            slot,
        ),
        InstructionModel::SetPaused { is_paused } => set_paused(
            derived_address(reward_pool_seeds(), program_id),
            accounts,
            is_paused,
        ),
        InstructionModel::UpdatePlatformFee { new_fee_percentage } => update_platform_fee(
            derived_address(reward_pool_seeds(), program_id),
            accounts,
            new_fee_percentage,
        ),
    }
}

/// Serves one request. On success the accounts hold the new state, and the
/// actions returned are what the caller has to carry out; on failure the
/// accounts are as they were.
pub fn process_instruction(
    program_id: &Address,
    accounts: &mut Vec<Account>,
    instruction: RewardPoolInstruction,
    slot: u64,
) -> (result: Result<Vec<Action>, RewardPoolError>)
    ensures
        carried_out(
            execute(program_id@, old(accounts).deep_view(), instruction@, slot as nat),
            old(accounts).deep_view(),
            final(accounts).deep_view(),
            result,
        ),
{
    match instruction {
        RewardPoolInstruction::InitializeRewardPool { platform_fee_percentage } => {
            process_initialize_reward_pool(program_id, accounts, platform_fee_percentage)
        },
        RewardPoolInstruction::RecordTaskCompletion { task_id, pool_id, reward_amount } => {
            process_record_task_completion(
                program_id,
                accounts,
                task_id,
                pool_id,
                reward_amount,
                slot,
            )
        },
        RewardPoolInstruction::WithdrawRewards { task_ids, expected_nonce } => {
            process_withdraw_rewards(program_id, accounts, task_ids, expected_nonce, slot)
        },
        RewardPoolInstruction::SetPaused { is_paused } => {
            process_set_paused(program_id, accounts, is_paused)
        },
        RewardPoolInstruction::UpdatePlatformFee { new_fee_percentage } => {
            process_update_platform_fee(program_id, accounts, new_fee_percentage)
        },
    }
}

/// The kind of record that a request reads at each place of its accounts.
/// The records of the tasks of a withdrawal follow its seven fixed
/// accounts.
pub open spec fn expected_kind(instruction: InstructionModel, index: nat) -> DataKind {
    match instruction {
        InstructionModel::RecordTaskCompletion { .. } => {
            if index == 0 {
                DataKind::RewardPool
            } else if index == 1 {
                DataKind::Farmer
            } else if index == 2 {
                DataKind::Task
            } else {
                DataKind::Other
            }
        },
        InstructionModel::WithdrawRewards { .. } => {
            if index == 0 {
                DataKind::RewardPool
            } else if index == 1 {
                DataKind::Farmer
            } else if 2 <= index <= 4 {
                DataKind::Token
            } else if index >= 7 {
                DataKind::Task
            } else {
                DataKind::Other
            }
        },
        _ => {
            if index == 0 {
                DataKind::RewardPool
            } else {
                DataKind::Other
            }
        },
    }
}

/// The kind of record that `instruction` reads at the place `index` of its
/// accounts: how the data stored there is to be read before the request is
/// served.
pub fn data_kind(instruction: &RewardPoolInstruction, index: usize) -> (kind: DataKind)
    ensures
        kind == expected_kind(instruction@, index as nat),
{
    match instruction {
        RewardPoolInstruction::RecordTaskCompletion { .. } => {
            if index == 0 {
                DataKind::RewardPool
            } else if index == 1 {
                DataKind::Farmer
            } else if index == 2 {
                DataKind::Task
            } else {
                DataKind::Other
            }
        },
        RewardPoolInstruction::WithdrawRewards { .. } => {
            if index == 0 {
                DataKind::RewardPool
            } else if index == 1 {
                DataKind::Farmer
            } else if index <= 4 {
                DataKind::Token
            } else if index >= 7 {
                DataKind::Task
            } else {
                DataKind::Other
            }
        },
        _ => {
            if index == 0 {
                DataKind::RewardPool
            } else {
                DataKind::Other
            }
        },
    }
}

} // verus!
