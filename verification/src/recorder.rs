//! Recording a completed task and crediting its reward to the farmer.

use crate::address::{
    address_view, derive_address, derived_address, farmer_account_seeds,
    get_farmer_account_seeds, get_reward_pool_seeds, get_task_record_seeds, is_expected,
    reward_pool_seeds, task_record_seeds, Address, MAX_SEED_LEN,
};
use crate::error::RewardPoolError;
use crate::instruction::Action;
use crate::outcome::{carried_out, Transition};
use crate::state::{
    Account, AccountData, AccountModel, DataModel, FarmerAccount, FarmerModel, RewardPoolModel,
    TaskCompletionRecord, TaskModel,
};
use vstd::prelude::*;
use vstd::utf8::encode_utf8;

verus! {

/// Bytes of a stored task record besides the text of its two strings.
pub const TASK_RECORD_FIXED_LEN: usize = 1 + 4 + 32 + 4 + 8 + 32 + 1 + 8;

/// The ledger of a farmer who has earned nothing yet.
pub open spec fn fresh_farmer(farmer: Seq<u8>) -> FarmerModel {
    FarmerModel {
        is_initialized: true,
        farmer_address: farmer,
        withdrawal_nonce: 0,
        total_rewards_earned: 0,
        total_rewards_withdrawn: 0,
        last_withdrawal_slot: 0,
    }
}

/// The record of a task as it is created: not claimed yet.
pub open spec fn fresh_task(
    task_id: Seq<char>,
    farmer: Seq<u8>,
    pool_id: Seq<char>,
    reward_amount: nat,
    token_mint: Seq<u8>,
    slot: nat,
) -> TaskModel {
    TaskModel {
        is_initialized: true,
        task_id,
        farmer_address: farmer,
        pool_id,
        reward_amount,
        token_mint,
        is_claimed: false,
        completion_slot: slot,
    }
}

/// Bytes that the record of a task takes when stored: each string is
/// preceded by its length in four bytes.
pub open spec fn stored_len(task_id: Seq<char>, pool_id: Seq<char>) -> nat {
    TASK_RECORD_FIXED_LEN as nat + encode_utf8(task_id).len() + encode_utf8(pool_id).len()
}

/// The pool under which a task is recorded, or the reason for which the
/// request is refused. The pool is the first account, the authority the
/// sixth.
pub open spec fn recording_pool(accounts: Seq<AccountModel>) -> Result<
    RewardPoolModel,
    RewardPoolError,
> {
    if !accounts[5].is_signer {
        Err(RewardPoolError::MissingRequiredSignature)
    } else {
        match accounts[0].data {
            DataModel::RewardPool(pool) => {
                if !pool.is_initialized {
                    Err(RewardPoolError::AccountNotInitialized)
                } else if pool.platform_authority != accounts[5].key {
                    Err(RewardPoolError::UnauthorizedPlatform)
                } else if pool.is_paused {
                    Err(RewardPoolError::RewardPoolPaused)
                } else {
                    Ok(pool)
                }
            },
            _ => Err(RewardPoolError::AccountNotInitialized),
        }
    }
}

/// The ledger that a reward is credited to: the one stored at the second
/// account, or a fresh one where nothing is stored there yet.
pub open spec fn credited_farmer(accounts: Seq<AccountModel>) -> Result<
    FarmerModel,
    RewardPoolError,
> {
    match accounts[1].data {
        DataModel::Empty => Ok(fresh_farmer(accounts[3].key)),
        DataModel::Farmer(farmer) => {
            if !farmer.is_initialized {
                Err(RewardPoolError::AccountNotInitialized)
            } else if farmer.farmer_address != accounts[3].key {
                Err(RewardPoolError::InvalidFarmerAddress)
            } else {
                Ok(farmer)
            }
        },
        _ => Err(RewardPoolError::AccountNotInitialized),
    }
}

/// The accounts to create for a recorded task: the farmer's ledger where it
/// did not exist, then the record of the task.
pub open spec fn creations(farmer_is_new: bool) -> Seq<Action> {
    let task = Action::CreateAccount { payer: 5, account: 2, space: TaskCompletionRecord::LEN };
    if farmer_is_new {
        seq![Action::CreateAccount { payer: 5, account: 1, space: FarmerAccount::LEN }, task]
    } else {
        seq![task]
    }
}

/// Recording a completed task. The accounts are the pool, the farmer's
/// ledger, the record of the task, the farmer, the token mint, the
/// authority, the system program and the rent parameters, in this order.
pub open spec fn record_task_completion(
    expected_pool: Option<Seq<u8>>,
    expected_farmer_account: Option<Seq<u8>>,
    expected_task_record: Option<Seq<u8>>,
    accounts: Seq<AccountModel>,
    task_id: Seq<char>,
    pool_id: Seq<char>,
    reward_amount: nat,
    slot: nat,
) -> Transition {
    if accounts.len() < 8 {
        Err(RewardPoolError::NotEnoughAccountKeys)
    } else {
        match recording_pool(accounts) {
            Err(reason) => Err(reason),
            Ok(_) => {
                if expected_pool != Some(accounts[0].key) {
                    Err(RewardPoolError::InvalidSeeds)
                } else if expected_farmer_account != Some(accounts[1].key) {
                    Err(RewardPoolError::InvalidSeeds)
                } else if expected_task_record != Some(accounts[2].key) {
                    Err(RewardPoolError::InvalidSeeds)
                } else {
                    match credited_farmer(accounts) {
                        Err(reason) => Err(reason),
                        Ok(farmer) => {
                            if accounts[2].data != DataModel::Empty {
                                Err(RewardPoolError::DuplicateTask)
                            } else if farmer.total_rewards_earned + reward_amount > u64::MAX {
                                Err(RewardPoolError::Overflow)
                            } else if stored_len(task_id, pool_id) > TaskCompletionRecord::LEN {
                                Err(RewardPoolError::InvalidArgument)
                            } else {
                                Ok(
                                    (
                                        accounts.update(
                                            1,
                                            AccountModel {
                                                data: DataModel::Farmer(
                                                    FarmerModel {
                                                        total_rewards_earned:
                                                            farmer.total_rewards_earned
                                                            + reward_amount,
                                                        ..farmer
                                                    },
                                                ),
                                                ..accounts[1]
                                            },
                                        ).update(
                                            2,
                                            AccountModel {
                                                data: DataModel::Task(
                                                    fresh_task(
                                                        task_id,
                                                        accounts[3].key,
                                                        pool_id,
                                                        reward_amount,
                                                        accounts[4].key,
                                                        slot,
                                                    ),
                                                ),
                                                ..accounts[2]
                                            },
                                        ),
                                        creations(accounts[1].data == DataModel::Empty),
                                    ),
                                )
                            }
                        },
                    }
                }
            },
        }
    }
}

/// Checks the authority and the pool of a request to record a task.
fn check_recording_pool(accounts: &Vec<Account>) -> (checked: Result<(), RewardPoolError>)
    requires
        accounts.len() >= 8,
    ensures
        match recording_pool(accounts.deep_view()) {
            Ok(_) => checked is Ok,
            Err(reason) => checked matches Err(given) && given == reason,
        },
{
    if !accounts[5].is_signer {
        return Err(RewardPoolError::MissingRequiredSignature);
    }
    match &accounts[0].data {
        AccountData::RewardPool(pool) => {
            if !pool.is_initialized {
                Err(RewardPoolError::AccountNotInitialized)
            } else if pool.platform_authority != accounts[5].key {
                Err(RewardPoolError::UnauthorizedPlatform)
            } else if pool.is_paused {
                Err(RewardPoolError::RewardPoolPaused)
            } else {
                Ok(())
            }
        },
        _ => Err(RewardPoolError::AccountNotInitialized),
    }
}

/// Reads the farmer's ledger, or makes a fresh one where none is stored.
fn load_credited_farmer(accounts: &Vec<Account>) -> (loaded: Result<FarmerAccount, RewardPoolError>)
    requires
        accounts.len() >= 8,
    ensures
        match credited_farmer(accounts.deep_view()) {
            Ok(model) => loaded matches Ok(farmer) && farmer@ == model,
            Err(reason) => loaded matches Err(given) && given == reason,
        },
{
    match &accounts[1].data {
        AccountData::Empty => Ok(
            FarmerAccount {
                is_initialized: true,
                farmer_address: accounts[3].key,
                withdrawal_nonce: 0,
                total_rewards_earned: 0,
                total_rewards_withdrawn: 0,
                last_withdrawal_slot: 0,
            },
        ),
        AccountData::Farmer(farmer) => {
            if !farmer.is_initialized {
                Err(RewardPoolError::AccountNotInitialized)
            } else if farmer.farmer_address != accounts[3].key {
                Err(RewardPoolError::InvalidFarmerAddress)
            } else {
                Ok(*farmer)
            }
        },
        _ => Err(RewardPoolError::AccountNotInitialized),
    }
}

/// Whether the record of a task with these two strings fits the space that
/// is allocated for it.
pub fn fits_task_record(task_id: &str, pool_id: &str) -> (fits: bool)
    ensures
        fits == (stored_len(task_id@, pool_id@) <= TaskCompletionRecord::LEN),
{
    let room: usize = TaskCompletionRecord::LEN - TASK_RECORD_FIXED_LEN;
    let task_id_len: usize = task_id.as_bytes().len();
    let pool_id_len: usize = pool_id.as_bytes().len();
    task_id_len <= room && pool_id_len <= room - task_id_len
}

/// Records a completed task, given the addresses that the pool, the
/// farmer's ledger and the record of the task must have.
pub fn record_task(
    expected_pool: &Option<Address>,
    expected_farmer_account: &Option<Address>,
    expected_task_record: &Option<Address>,
    accounts: &mut Vec<Account>,
    task_id: String,
    pool_id: String,
    reward_amount: u64,
    slot: u64,
) -> (result: Result<Vec<Action>, RewardPoolError>)
    ensures
        carried_out(
            record_task_completion(
                address_view(*expected_pool),
                address_view(*expected_farmer_account),
                address_view(*expected_task_record),
                old(accounts).deep_view(),
                task_id@,
                pool_id@,
                reward_amount as nat,
                slot as nat,
            ),
            old(accounts).deep_view(),
            final(accounts).deep_view(),
            result,
        ),
{
    if accounts.len() < 8 {
        return Err(RewardPoolError::NotEnoughAccountKeys);
    }
    match check_recording_pool(accounts) {
        Ok(_) => {},
        Err(reason) => {
            return Err(reason);
        },
    }
    if !is_expected(&accounts[0].key, expected_pool) {
        return Err(RewardPoolError::InvalidSeeds);
    }
    if !is_expected(&accounts[1].key, expected_farmer_account) {
        return Err(RewardPoolError::InvalidSeeds);
    }
    if !is_expected(&accounts[2].key, expected_task_record) {
        return Err(RewardPoolError::InvalidSeeds);
    }
    let mut farmer_data = match load_credited_farmer(accounts) {
        Ok(farmer) => farmer,
        Err(reason) => {
            return Err(reason);
        },
    };
    match &accounts[2].data {
        AccountData::Empty => {},
        _ => {
            return Err(RewardPoolError::DuplicateTask);
        },
    }
    let total_rewards_earned = match farmer_data.total_rewards_earned.checked_add(reward_amount) {
        Some(sum) => sum,
        None => {
            return Err(RewardPoolError::Overflow);
        },
    };
    if !fits_task_record(task_id.as_str(), pool_id.as_str()) {
        return Err(RewardPoolError::InvalidArgument);
    }
    let farmer_is_new = match &accounts[1].data {
        AccountData::Empty => true,
        _ => false,
    };
    let task_record = TaskCompletionRecord {
        is_initialized: true,
        task_id,
        farmer_address: accounts[3].key,
        pool_id,
        reward_amount,
        token_mint: accounts[4].key,
        is_claimed: false,
        completion_slot: slot,
    };
    farmer_data.total_rewards_earned = total_rewards_earned;
    accounts[1].data = AccountData::Farmer(farmer_data);
    accounts[2].data = AccountData::Task(task_record);
    let mut actions: Vec<Action> = Vec::new();
    if farmer_is_new {
        actions.push(Action::CreateAccount { payer: 5, account: 1, space: FarmerAccount::LEN });
    }
    actions.push(Action::CreateAccount { payer: 5, account: 2, space: TaskCompletionRecord::LEN });
    proof {
        let expected = record_task_completion(
            address_view(*expected_pool),
            address_view(*expected_farmer_account),
            address_view(*expected_task_record),
            old(accounts).deep_view(),
            task_id@,
            pool_id@,
            reward_amount as nat,
            slot as nat,
        );
        assert(accounts.deep_view() =~= expected->Ok_0.0);
        assert(actions@ =~= expected->Ok_0.1);
    }
    Ok(actions)
}

/// Records a completed task and credits its reward to the farmer. The
/// accounts are the pool, the farmer's ledger, the record of the task, the
/// farmer, the token mint, the authority, the system program and the rent
/// parameters, in this order; `slot` is the current slot of the clock.
pub fn process_record_task_completion(
    program_id: &Address,
    accounts: &mut Vec<Account>,
    task_id: String,
    pool_id: String,
    reward_amount: u64,
    slot: u64,
) -> (result: Result<Vec<Action>, RewardPoolError>)
    ensures
        carried_out(
            record_task_completion(
                derived_address(reward_pool_seeds(), program_id@),
                derived_address(
                    farmer_account_seeds(old(accounts).deep_view()[3].key),
                    program_id@,
                ),
                derived_address(task_record_seeds(task_id@), program_id@),
                old(accounts).deep_view(),
                task_id@,
                pool_id@,
                reward_amount as nat,
                slot as nat,
            ),
            old(accounts).deep_view(),
            final(accounts).deep_view(),
            result,
        ),
        encode_utf8(task_id@).len() > MAX_SEED_LEN ==> result is Err,
{
    if accounts.len() < 8 {
        return Err(RewardPoolError::NotEnoughAccountKeys);
    }
    let expected_pool = derive_address(program_id, get_reward_pool_seeds().as_slice());
    let expected_farmer_account = derive_address(
        program_id,
        get_farmer_account_seeds(&accounts[3].key).as_slice(),
    );
    let expected_task_record = derive_address(
        program_id,
        get_task_record_seeds(task_id.as_str()).as_slice(),
    );
    record_task(
        &expected_pool,
        &expected_farmer_account,
        &expected_task_record,
        accounts,
        task_id,
        pool_id,
        reward_amount,
        slot,
    )
}

} // verus!
