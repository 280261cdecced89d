//! What holds of the ledger whatever it is asked: the fee stays a
//! percentage, a withdrawal pays out exactly what its batch is worth, the
//! nonce counts the withdrawals, a task is claimed once, and a paused pool
//! still obeys its authority.

use crate::address::{
    derived_address, farmer_account_seeds, reward_pool_seeds, task_record_seeds,
};
use crate::admin::{initialize, update_platform_fee};
use crate::error::RewardPoolError;
use crate::fee::{farmer_share, lemma_fee_within_total, platform_fee};
use crate::instruction::{Action, InstructionModel};
use crate::outcome::carried_out;
use crate::processor::execute;
use crate::state::{AccountModel, DataModel};
use crate::withdrawal::{
    admit_withdrawal, claimed, distributed, is_first_with_key, lemma_first_is_position, payouts,
    position_of, stage_task, stage_tasks, stage_withdrawal, task_addresses, withdraw_rewards,
    withdrawn, BatchModel,
};
use vstd::prelude::*;

verus! {

/// Every pool among the accounts takes a fee of 100 percent at most.
pub open spec fn fees_are_percentages(accounts: Seq<AccountModel>) -> bool {
    forall|i: int|
        0 <= i < accounts.len() ==> (#[trigger] accounts[i].data matches DataModel::RewardPool(
            pool,
        ) ==> pool.platform_fee_percentage <= 100)
}

/// `after` is `before` but for tasks that went from unclaimed to claimed.
pub open spec fn claims_only(before: Seq<AccountModel>, after: Seq<AccountModel>) -> bool {
    &&& after.len() == before.len()
    &&& forall|i: int|
        #![trigger after[i]]
        0 <= i < before.len() ==> {
            ||| after[i] == before[i]
            ||| {
                &&& before[i].data matches DataModel::Task(task)
                &&& !task.is_claimed
                &&& after[i] == AccountModel { data: DataModel::Task(claimed(task)), ..before[i] }
            }
        }
}

/// The place among the accounts of the record of the task `task_id`.
pub open spec fn task_position(
    accounts: Seq<AccountModel>,
    program_id: Seq<u8>,
    task_id: Seq<char>,
) -> Option<int> {
    match derived_address(task_record_seeds(task_id), program_id) {
        Some(key) => position_of(accounts, key),
        None => None,
    }
}

/// The sum of what the actions transfer to the account at `destination`.
pub open spec fn transferred_to(actions: Seq<Action>, destination: int) -> nat
    decreases actions.len(),
{
    if actions.len() == 0 {
        0
    } else {
        let rest = transferred_to(actions.drop_last(), destination);
        match actions.last() {
            Action::Transfer { destination: to, amount, .. } => if to == destination {
                rest + amount as nat
            } else {
                rest
            },
            _ => rest,
        }
    }
}

/// The reward of the task whose record stands at `address`, or nothing
/// where no such record is found.
pub open spec fn reward_at(accounts: Seq<AccountModel>, address: Option<Seq<u8>>) -> nat {
    match address {
        Some(key) => match position_of(accounts, key) {
            Some(i) => match accounts[i].data {
                DataModel::Task(task) => task.reward_amount,
                _ => 0,
            },
            None => 0,
        },
        None => 0,
    }
}

/// What the tasks at `addresses` are worth together.
pub open spec fn batch_worth(accounts: Seq<AccountModel>, addresses: Seq<Option<Seq<u8>>>) -> nat
    decreases addresses.len(),
{
    if addresses.len() == 0 {
        0
    } else {
        reward_at(accounts, addresses[0]) + batch_worth(accounts, addresses.drop_first())
    }
}

/// Claiming tasks moves no account and changes no reward.
pub proof fn lemma_worth_survives_claims(
    before: Seq<AccountModel>,
    after: Seq<AccountModel>,
    addresses: Seq<Option<Seq<u8>>>,
)
    requires
        claims_only(before, after),
    ensures
        batch_worth(after, addresses) == batch_worth(before, addresses),
    decreases addresses.len(),
{
    if addresses.len() > 0 {
        lemma_worth_survives_claims(before, after, addresses.drop_first());
        if addresses[0] is Some {
            let key = addresses[0]->Some_0;
            lemma_claims_keep_keys(before, after);
            lemma_position_follows_keys(before, after, key);
        }
    }
}

/// Claiming tasks changes no address.
pub proof fn lemma_claims_keep_keys(before: Seq<AccountModel>, after: Seq<AccountModel>)
    requires
        claims_only(before, after),
    ensures
        after.len() == before.len(),
        forall|i: int| 0 <= i < before.len() ==> #[trigger] after[i].key == before[i].key,
{
}

/// Where the keys are the same, an address is found at the same place.
pub proof fn lemma_position_follows_keys(
    before: Seq<AccountModel>,
    after: Seq<AccountModel>,
    key: Seq<u8>,
)
    requires
        after.len() == before.len(),
        forall|i: int| 0 <= i < before.len() ==> #[trigger] after[i].key == before[i].key,
    ensures
        position_of(after, key) == position_of(before, key),
{
    if exists|i: int| is_first_with_key(before, key, i) {
        let i = choose|i: int| is_first_with_key(before, key, i);
        assert(is_first_with_key(after, key, i));
        lemma_first_is_position(after, key, i);
    } else if exists|i: int| is_first_with_key(after, key, i) {
        let i = choose|i: int| is_first_with_key(after, key, i);
        assert forall|j: int| 0 <= j < i implies before[j].key != key by {
            assert(after[j].key == before[j].key);
        }
        assert(is_first_with_key(before, key, i));
    }
}

/// Adding a task to a batch claims that task and changes nothing else.
pub proof fn lemma_stage_task_claims_only(
    batch: BatchModel,
    farmer: Seq<u8>,
    address: Option<Seq<u8>>,
)
    requires
        stage_task(batch, farmer, address) is Ok,
    ensures
        claims_only(batch.accounts, stage_task(batch, farmer, address)->Ok_0.accounts),
        address is Some,
        position_of(batch.accounts, address->Some_0) is Some,
        ({
            let i = position_of(batch.accounts, address->Some_0)->Some_0;
            let next = stage_task(batch, farmer, address)->Ok_0;
            &&& 0 <= i < batch.accounts.len()
            &&& batch.accounts[i].data matches DataModel::Task(task)
            &&& !task.is_claimed
            &&& task.is_initialized
            &&& task.farmer_address == farmer
            &&& next.accounts[i].data == DataModel::Task(claimed(task))
            &&& next.total == batch.total + task.reward_amount
            &&& next.token_mint == Some(task.token_mint)
            &&& batch.token_mint is Some ==> batch.token_mint == next.token_mint
        }),
{
    let key = address->Some_0;
    let i = choose|i: int| is_first_with_key(batch.accounts, key, i);
    lemma_first_is_position(batch.accounts, key, i);
}

/// `claims_only` composes.
pub proof fn lemma_claims_only_composes(
    first: Seq<AccountModel>,
    second: Seq<AccountModel>,
    third: Seq<AccountModel>,
)
    requires
        claims_only(first, second),
        claims_only(second, third),
    ensures
        claims_only(first, third),
{
    assert forall|i: int| 0 <= i < first.len() implies {
        ||| #[trigger] third[i] == first[i]
        ||| {
            &&& first[i].data matches DataModel::Task(task)
            &&& !task.is_claimed
            &&& third[i] == AccountModel { data: DataModel::Task(claimed(task)), ..first[i] }
        }
    } by {
        assert(second[i] == first[i] || second[i].data is Task);
    }
}

/// Staging a batch claims tasks and changes nothing else; what the batch is
/// worth only grows, and its token, once set, stays.
pub proof fn lemma_stage_tasks_claims_only(
    batch: BatchModel,
    farmer: Seq<u8>,
    addresses: Seq<Option<Seq<u8>>>,
)
    requires
        stage_tasks(batch, farmer, addresses) is Ok,
    ensures
        claims_only(batch.accounts, stage_tasks(batch, farmer, addresses)->Ok_0.accounts),
        stage_tasks(batch, farmer, addresses)->Ok_0.total >= batch.total,
        addresses.len() > 0 ==> stage_tasks(batch, farmer, addresses)->Ok_0.token_mint is Some,
        addresses.len() > 0 ==> stage_tasks(batch, farmer, addresses)->Ok_0.total <= u64::MAX,
        stage_tasks(batch, farmer, addresses)->Ok_0.total == batch.total + batch_worth(
            batch.accounts,
            addresses,
        ),
    decreases addresses.len(),
{
    if addresses.len() > 0 {
        let next = stage_task(batch, farmer, addresses[0])->Ok_0;
        lemma_stage_task_claims_only(batch, farmer, addresses[0]);
        lemma_stage_tasks_claims_only(next, farmer, addresses.drop_first());
        lemma_claims_only_composes(
            batch.accounts,
            next.accounts,
            stage_tasks(batch, farmer, addresses)->Ok_0.accounts,
        );
        lemma_worth_survives_claims(batch.accounts, next.accounts, addresses.drop_first());
        if addresses.drop_first().len() == 0 {
            assert(stage_tasks(next, farmer, addresses.drop_first()) == Ok::<
                BatchModel,
                RewardPoolError,
            >(next));
        }
    }
}

/// The batch that a withdrawal stages before it settles it.
pub open spec fn staged(
    program_id: Seq<u8>,
    accounts: Seq<AccountModel>,
    task_ids: Seq<Seq<char>>,
    expected_nonce: nat,
) -> Result<BatchModel, RewardPoolError> {
    stage_withdrawal(
        derived_address(reward_pool_seeds(), program_id),
        derived_address(farmer_account_seeds(accounts[5].key), program_id),
        task_addresses(task_ids, program_id),
        accounts,
        expected_nonce,
    )
}

/// What a withdrawal that succeeds has found and done.
pub proof fn lemma_withdrawal_shape(
    program_id: Seq<u8>,
    accounts: Seq<AccountModel>,
    task_ids: Seq<Seq<char>>,
    expected_nonce: nat,
    slot: nat,
)
    requires
        withdraw_rewards(program_id, accounts, task_ids, expected_nonce, slot) is Ok,
    ensures
        staged(program_id, accounts, task_ids, expected_nonce) is Ok,
        ({
            let batch = staged(program_id, accounts, task_ids, expected_nonce)->Ok_0;
            let (after, actions) = withdraw_rewards(
                program_id,
                accounts,
                task_ids,
                expected_nonce,
                slot,
            )->Ok_0;
            &&& accounts.len() >= 7
            &&& task_ids.len() > 0
            &&& claims_only(accounts, batch.accounts)
            &&& batch.accounts[0] == accounts[0]
            &&& batch.accounts[1] == accounts[1]
            &&& 0 < batch.total <= u64::MAX
            &&& batch.total == batch_worth(accounts, task_addresses(task_ids, program_id))
            &&& accounts[5].is_signer
            &&& accounts[0].data matches DataModel::RewardPool(pool)
            &&& accounts[1].data matches DataModel::Farmer(farmer)
            &&& pool.is_initialized
            &&& !pool.is_paused
            &&& pool.platform_fee_percentage <= 100
            &&& farmer.is_initialized
            &&& farmer.farmer_address == accounts[5].key
            &&& farmer.withdrawal_nonce == expected_nonce
            &&& after == batch.accounts.update(
                0,
                AccountModel {
                    data: DataModel::RewardPool(distributed(pool, batch.total)),
                    ..accounts[0]
                },
            ).update(
                1,
                AccountModel {
                    data: DataModel::Farmer(withdrawn(farmer, batch.total, slot)),
                    ..accounts[1]
                },
            )
            &&& actions == payouts(
                farmer_share(batch.total, pool.platform_fee_percentage),
                platform_fee(batch.total, pool.platform_fee_percentage),
            )
        }),
{
    lemma_stage_tasks_claims_only(
        BatchModel { accounts, total: 0, token_mint: None },
        accounts[5].key,
        task_addresses(task_ids, program_id),
    );
}

/// The transfers that pay a batch out carry the two parts, each to its
/// account.
pub proof fn lemma_payouts_reach_their_accounts(farmer_amount: nat, fee: nat)
    requires
        farmer_amount <= u64::MAX,
        fee <= u64::MAX,
    ensures
        transferred_to(payouts(farmer_amount, fee), 3) == farmer_amount,
        transferred_to(payouts(farmer_amount, fee), 4) == fee,
{
    reveal_with_fuel(transferred_to, 3);
}

/// A pool that has just been set up, and a pool whose fee has just been
/// changed, takes the fee that was asked for, and that is 100 percent at
/// most.
pub proof fn law_new_fee_is_a_percentage(
    expected_pool: Option<Seq<u8>>,
    accounts: Seq<AccountModel>,
    fee_percentage: nat,
)
    ensures
        initialize(expected_pool, accounts, fee_percentage) matches Ok((after, _)) ==> {
            &&& after[0].data matches DataModel::RewardPool(pool)
            &&& pool.platform_fee_percentage == fee_percentage
            &&& 0 <= pool.platform_fee_percentage <= 100
        },
        update_platform_fee(expected_pool, accounts, fee_percentage) matches Ok((after, _)) ==> {
            &&& after[0].data matches DataModel::RewardPool(pool)
            &&& pool.platform_fee_percentage == fee_percentage
            &&& 0 <= pool.platform_fee_percentage <= 100
        },
{
}

/// No request takes the fee of a pool out of the range from 0 to 100.
pub proof fn law_fees_stay_percentages(
    program_id: Seq<u8>,
    accounts: Seq<AccountModel>,
    instruction: InstructionModel,
    slot: nat,
)
    requires
        fees_are_percentages(accounts),
    ensures
        execute(program_id, accounts, instruction, slot) matches Ok((after, _))
            ==> fees_are_percentages(after),
{
    if execute(program_id, accounts, instruction, slot) is Ok {
        let after = execute(program_id, accounts, instruction, slot)->Ok_0.0;
        match instruction {
            InstructionModel::WithdrawRewards { task_ids, expected_nonce } => {
                lemma_withdrawal_shape(program_id, accounts, task_ids, expected_nonce, slot);
            },
            _ => {},
        }
        assert forall|i: int| 0 <= i < after.len() implies (
        #[trigger] after[i].data matches DataModel::RewardPool(pool)
            ==> pool.platform_fee_percentage <= 100) by {
            // What the request left a pool was a pool before, or is the pool it set up.
            assert(accounts[i].data is RewardPool
                ==> accounts[i].data->RewardPool_0.platform_fee_percentage <= 100);
        }
    }
}

/// A withdrawal that succeeds pays out exactly what its batch is worth: the
/// platform gets its percentage, rounded down, and the farmer the rest. The
/// counters of the pool and of the farmer grow by the same amounts.
pub proof fn law_withdrawal_splits_total(
    program_id: Seq<u8>,
    accounts: Seq<AccountModel>,
    task_ids: Seq<Seq<char>>,
    expected_nonce: nat,
    slot: nat,
)
    requires
        withdraw_rewards(program_id, accounts, task_ids, expected_nonce, slot) is Ok,
    ensures
        ({
            let (after, actions) = withdraw_rewards(
                program_id,
                accounts,
                task_ids,
                expected_nonce,
                slot,
            )->Ok_0;
            let total = batch_worth(accounts, task_addresses(task_ids, program_id));
            let farmer_amount = transferred_to(actions, 3);
            let fee = transferred_to(actions, 4);
            &&& accounts[0].data matches DataModel::RewardPool(pool)
            &&& accounts[1].data matches DataModel::Farmer(farmer)
            &&& after[0].data matches DataModel::RewardPool(pool_after)
            &&& after[1].data matches DataModel::Farmer(farmer_after)
            &&& total > 0
            &&& farmer_amount + fee == total
            &&& fee == total * pool.platform_fee_percentage / 100
            &&& farmer_amount == total - total * pool.platform_fee_percentage / 100
            &&& pool_after.total_rewards_distributed == pool.total_rewards_distributed
                + farmer_amount
            &&& pool_after.total_platform_fees_collected == pool.total_platform_fees_collected
                + fee
            &&& farmer_after.total_rewards_withdrawn == farmer.total_rewards_withdrawn + total
        }),
{
    lemma_withdrawal_shape(program_id, accounts, task_ids, expected_nonce, slot);
    let batch = staged(program_id, accounts, task_ids, expected_nonce)->Ok_0;
    let pool = accounts[0].data->RewardPool_0;
    lemma_fee_within_total(batch.total, pool.platform_fee_percentage);
    lemma_payouts_reach_their_accounts(
        farmer_share(batch.total, pool.platform_fee_percentage),
        platform_fee(batch.total, pool.platform_fee_percentage),
    );
}

/// A withdrawal that succeeds was made under the nonce that is stored for
/// the farmer, and it raises that nonce by one, however many tasks it
/// claims.
pub proof fn law_nonce_counts_withdrawals(
    program_id: Seq<u8>,
    accounts: Seq<AccountModel>,
    task_ids: Seq<Seq<char>>,
    expected_nonce: nat,
    slot: nat,
)
    requires
        withdraw_rewards(program_id, accounts, task_ids, expected_nonce, slot) is Ok,
    ensures
        ({
            let (after, _) = withdraw_rewards(
                program_id,
                accounts,
                task_ids,
                expected_nonce,
                slot,
            )->Ok_0;
            &&& accounts[1].data matches DataModel::Farmer(farmer)
            &&& after[1].data matches DataModel::Farmer(farmer_after)
            &&& farmer.withdrawal_nonce == expected_nonce
            &&& farmer_after.withdrawal_nonce == farmer.withdrawal_nonce + 1
        }),
{
    lemma_withdrawal_shape(program_id, accounts, task_ids, expected_nonce, slot);
}

/// A withdrawal under another nonce than the one stored for the farmer
/// fails, and leaves every account as it was.
pub proof fn law_stale_nonce_changes_nothing(
    program_id: Seq<u8>,
    accounts: Seq<AccountModel>,
    task_ids: Seq<Seq<char>>,
    expected_nonce: nat,
    slot: nat,
    after: Seq<AccountModel>,
    result: Result<Vec<Action>, RewardPoolError>,
)
    requires
        accounts.len() >= 2,
        accounts[1].data matches DataModel::Farmer(farmer) && farmer.withdrawal_nonce
            != expected_nonce,
        carried_out(
            withdraw_rewards(program_id, accounts, task_ids, expected_nonce, slot),
            accounts,
            after,
            result,
        ),
    ensures
        result is Err,
        after == accounts,
        admit_withdrawal(
            derived_address(reward_pool_seeds(), program_id),
            derived_address(farmer_account_seeds(accounts[5].key), program_id),
            accounts,
            (accounts[1].data->Farmer_0.withdrawal_nonce),
        ) is Ok ==> result == Err::<Vec<Action>, RewardPoolError>(RewardPoolError::InvalidNonce),
{
    if withdraw_rewards(program_id, accounts, task_ids, expected_nonce, slot) is Ok {
        lemma_withdrawal_shape(program_id, accounts, task_ids, expected_nonce, slot);
    }
}

/// A batch that names a task whose reward is claimed already cannot be
/// staged.
pub proof fn lemma_claimed_task_blocks_batch(
    batch: BatchModel,
    farmer: Seq<u8>,
    addresses: Seq<Option<Seq<u8>>>,
    k: int,
)
    requires
        0 <= k < addresses.len(),
        addresses[k] is Some,
        position_of(batch.accounts, addresses[k]->Some_0) is Some,
        ({
            let i = position_of(batch.accounts, addresses[k]->Some_0)->Some_0;
            batch.accounts[i].data matches DataModel::Task(task) && task.is_claimed
        }),
    ensures
        stage_tasks(batch, farmer, addresses) is Err,
    decreases addresses.len(),
{
    if k > 0 && stage_task(batch, farmer, addresses[0]) is Ok {
        let next = stage_task(batch, farmer, addresses[0])->Ok_0;
        lemma_stage_task_claims_only(batch, farmer, addresses[0]);
        lemma_claims_keep_keys(batch.accounts, next.accounts);
        lemma_position_follows_keys(batch.accounts, next.accounts, addresses[k]->Some_0);
        lemma_claimed_task_blocks_batch(next, farmer, addresses.drop_first(), k - 1);
    }
}

/// Every task of a batch that was staged was found unclaimed, belongs to
/// the farmer, and is claimed in the working copy.
pub proof fn lemma_staged_tasks_are_claimed(
    batch: BatchModel,
    farmer: Seq<u8>,
    addresses: Seq<Option<Seq<u8>>>,
    k: int,
)
    requires
        stage_tasks(batch, farmer, addresses) is Ok,
        0 <= k < addresses.len(),
    ensures
        addresses[k] is Some,
        position_of(batch.accounts, addresses[k]->Some_0) is Some,
        ({
            let i = position_of(batch.accounts, addresses[k]->Some_0)->Some_0;
            let staged = stage_tasks(batch, farmer, addresses)->Ok_0;
            &&& 0 <= i < batch.accounts.len()
            &&& batch.accounts[i].data matches DataModel::Task(task)
            &&& task.is_initialized
            &&& !task.is_claimed
            &&& task.farmer_address == farmer
            &&& staged.accounts[i] == AccountModel {
                data: DataModel::Task(claimed(task)),
                ..batch.accounts[i]
            }
        }),
    decreases addresses.len(),
{
    let next = stage_task(batch, farmer, addresses[0])->Ok_0;
    lemma_stage_task_claims_only(batch, farmer, addresses[0]);
    lemma_stage_tasks_claims_only(next, farmer, addresses.drop_first());
    if k > 0 {
        lemma_staged_tasks_are_claimed(next, farmer, addresses.drop_first(), k - 1);
        lemma_claims_keep_keys(batch.accounts, next.accounts);
        lemma_position_follows_keys(batch.accounts, next.accounts, addresses[k]->Some_0);
    }
}

/// No batch that was staged names a task twice.
pub proof fn lemma_staged_tasks_differ(
    batch: BatchModel,
    farmer: Seq<u8>,
    addresses: Seq<Option<Seq<u8>>>,
    j: int,
    k: int,
)
    requires
        stage_tasks(batch, farmer, addresses) is Ok,
        0 <= j < k < addresses.len(),
    ensures
        addresses[j] != addresses[k],
    decreases addresses.len(),
{
    let next = stage_task(batch, farmer, addresses[0])->Ok_0;
    if j == 0 {
        lemma_stage_task_claims_only(batch, farmer, addresses[0]);
        lemma_staged_tasks_are_claimed(next, farmer, addresses.drop_first(), k - 1);
        lemma_claims_keep_keys(batch.accounts, next.accounts);
        if addresses[0] == addresses[k] {
            lemma_position_follows_keys(batch.accounts, next.accounts, addresses[0]->Some_0);
        }
    } else {
        lemma_staged_tasks_differ(next, farmer, addresses.drop_first(), j - 1, k - 1);
    }
}

/// A withdrawal whose batch names a task that is claimed already fails: the
/// reward of a task is paid once.
pub proof fn law_claimed_task_is_refused(
    program_id: Seq<u8>,
    accounts: Seq<AccountModel>,
    task_ids: Seq<Seq<char>>,
    expected_nonce: nat,
    slot: nat,
    k: int,
)
    requires
        0 <= k < task_ids.len(),
        task_position(accounts, program_id, task_ids[k]) is Some,
        ({
            let i = task_position(accounts, program_id, task_ids[k])->Some_0;
            accounts[i].data matches DataModel::Task(task) && task.is_claimed
        }),
    ensures
        withdraw_rewards(program_id, accounts, task_ids, expected_nonce, slot) is Err,
{
    lemma_claimed_task_blocks_batch(
        BatchModel { accounts, total: 0, token_mint: None },
        accounts[5].key,
        task_addresses(task_ids, program_id),
        k,
    );
}

/// A withdrawal that succeeds found every task of its batch unclaimed and
/// in the name of the farmer, and leaves it claimed; its batch names no
/// task twice.
pub proof fn law_withdrawal_claims_its_tasks(
    program_id: Seq<u8>,
    accounts: Seq<AccountModel>,
    task_ids: Seq<Seq<char>>,
    expected_nonce: nat,
    slot: nat,
)
    requires
        withdraw_rewards(program_id, accounts, task_ids, expected_nonce, slot) is Ok,
    ensures
        forall|k: int|
            #![trigger task_ids[k]]
            0 <= k < task_ids.len() ==> {
                let after = withdraw_rewards(
                    program_id,
                    accounts,
                    task_ids,
                    expected_nonce,
                    slot,
                )->Ok_0.0;
                &&& task_position(accounts, program_id, task_ids[k]) matches Some(i)
                &&& task_position(after, program_id, task_ids[k]) == Some(i)
                &&& accounts[i].data matches DataModel::Task(task)
                &&& !task.is_claimed
                &&& task.farmer_address == accounts[5].key
                &&& after[i].data == DataModel::Task(claimed(task))
            },
        forall|j: int, k: int|
            #![trigger task_ids[j], task_ids[k]]
            0 <= j < k < task_ids.len() ==> task_position(accounts, program_id, task_ids[j])
                != task_position(accounts, program_id, task_ids[k]),
{
    lemma_withdrawal_shape(program_id, accounts, task_ids, expected_nonce, slot);
    let batch = staged(program_id, accounts, task_ids, expected_nonce)->Ok_0;
    let after = withdraw_rewards(program_id, accounts, task_ids, expected_nonce, slot)->Ok_0.0;
    let start = BatchModel { accounts, total: 0, token_mint: None };
    let addresses = task_addresses(task_ids, program_id);
    lemma_claims_keep_keys(accounts, batch.accounts);
    assert forall|k: int| #![trigger task_ids[k]] 0 <= k < task_ids.len() implies {
        &&& task_position(accounts, program_id, task_ids[k]) matches Some(i)
        &&& task_position(after, program_id, task_ids[k]) == Some(i)
        &&& accounts[i].data matches DataModel::Task(task)
        &&& !task.is_claimed
        &&& task.farmer_address == accounts[5].key
        &&& after[i].data == DataModel::Task(claimed(task))
    } by {
        lemma_staged_tasks_are_claimed(start, accounts[5].key, addresses, k);
        lemma_position_follows_keys(accounts, after, addresses[k]->Some_0);
    }
    assert forall|j: int, k: int|
        #![trigger task_ids[j], task_ids[k]]
        0 <= j < k < task_ids.len() implies task_position(accounts, program_id, task_ids[j])
        != task_position(accounts, program_id, task_ids[k]) by {
        lemma_staged_tasks_differ(start, accounts[5].key, addresses, j, k);
        lemma_staged_tasks_are_claimed(start, accounts[5].key, addresses, j);
        lemma_staged_tasks_are_claimed(start, accounts[5].key, addresses, k);
    }
}

/// No request moves an account, removes one, or changes the record of a
/// task but to claim it: the farmer, the reward and the token of a task
/// stay as they were recorded, and a task that is claimed stays claimed.
pub proof fn law_task_records_only_get_claimed(
    program_id: Seq<u8>,
    accounts: Seq<AccountModel>,
    instruction: InstructionModel,
    slot: nat,
)
    requires
        execute(program_id, accounts, instruction, slot) is Ok,
    ensures
        ({
            let after = execute(program_id, accounts, instruction, slot)->Ok_0.0;
            &&& after.len() == accounts.len()
            &&& forall|i: int|
                0 <= i < accounts.len() ==> #[trigger] after[i].key == accounts[i].key
            &&& forall|i: int|
                #![trigger after[i]]
                0 <= i < accounts.len() ==> (accounts[i].data matches DataModel::Task(task) ==> {
                    ||| after[i] == accounts[i]
                    ||| !task.is_claimed && after[i].data == DataModel::Task(claimed(task))
                })
        }),
{
    match instruction {
        InstructionModel::WithdrawRewards { task_ids, expected_nonce } => {
            lemma_withdrawal_shape(program_id, accounts, task_ids, expected_nonce, slot);
            lemma_claims_keep_keys(
                accounts,
                staged(program_id, accounts, task_ids, expected_nonce)->Ok_0.accounts,
            );
        },
        _ => {},
    }
}

/// The pool of the program is paused: whichever account stands at the
/// address of the pool holds a pool that is paused.
pub open spec fn pool_is_paused(program_id: Seq<u8>, accounts: Seq<AccountModel>) -> bool {
    forall|i: int|
        0 <= i < accounts.len() && derived_address(reward_pool_seeds(), program_id) == Some(
            #[trigger] accounts[i].key,
        ) ==> (accounts[i].data matches DataModel::RewardPool(pool) && pool.is_paused)
}

/// While the pool is paused, no task is recorded and no reward withdrawn.
pub proof fn law_paused_pool_refuses_work(
    program_id: Seq<u8>,
    accounts: Seq<AccountModel>,
    instruction: InstructionModel,
    slot: nat,
)
    requires
        pool_is_paused(program_id, accounts),
        instruction is RecordTaskCompletion || instruction is WithdrawRewards,
    ensures
        execute(program_id, accounts, instruction, slot) is Err,
        accounts.len() > 0 && accounts[0].data is RewardPool && derived_address(
            reward_pool_seeds(),
            program_id,
        ) == Some(accounts[0].key) ==> {
            let reason = execute(program_id, accounts, instruction, slot)->Err_0;
            ||| reason == RewardPoolError::RewardPoolPaused
            ||| reason == RewardPoolError::NotEnoughAccountKeys
            ||| reason == RewardPoolError::MissingRequiredSignature
            ||| reason == RewardPoolError::AccountNotInitialized
            ||| reason == RewardPoolError::UnauthorizedPlatform
        },
{
    if accounts.len() > 0 {
        assert(derived_address(reward_pool_seeds(), program_id) == Some(accounts[0].key) ==> (
        accounts[0].data matches DataModel::RewardPool(pool) && pool.is_paused));
    }
}

/// Paused or not, the pool obeys its authority: a request of the authority
/// to pause or to resume succeeds, and so does one to set a fee of 100
/// percent at most.
pub proof fn law_authority_governs_paused_pool(
    program_id: Seq<u8>,
    accounts: Seq<AccountModel>,
    is_paused: bool,
    fee_percentage: nat,
)
    requires
        accounts.len() >= 2,
        accounts[1].is_signer,
        derived_address(reward_pool_seeds(), program_id) == Some(accounts[0].key),
        accounts[0].data matches DataModel::RewardPool(pool) && pool.is_initialized
            && pool.platform_authority == accounts[1].key,
        fee_percentage <= 100,
    ensures
        execute(program_id, accounts, InstructionModel::SetPaused { is_paused }, 0) matches Ok(
            (after, _),
        ) && after[0].data matches DataModel::RewardPool(pool) && pool.is_paused == is_paused,
        execute(
            program_id,
            accounts,
            InstructionModel::UpdatePlatformFee { new_fee_percentage: fee_percentage },
            0,
        ) matches Ok((after, _)) && after[0].data matches DataModel::RewardPool(pool)
            && pool.platform_fee_percentage == fee_percentage,
{
}

/// A withdrawal of no task fails, whatever nonce it names; where the
/// request is admitted otherwise, the reason is the empty batch.
pub proof fn law_empty_batch_is_refused(
    program_id: Seq<u8>,
    accounts: Seq<AccountModel>,
    expected_nonce: nat,
    slot: nat,
)
    ensures
        withdraw_rewards(program_id, accounts, Seq::empty(), expected_nonce, slot) is Err,
        admit_withdrawal(
            derived_address(reward_pool_seeds(), program_id),
            derived_address(farmer_account_seeds(accounts[5].key), program_id),
            accounts,
            expected_nonce,
        ) is Ok ==> withdraw_rewards(program_id, accounts, Seq::empty(), expected_nonce, slot)
            == Err::<(Seq<AccountModel>, Seq<Action>), RewardPoolError>(
            RewardPoolError::InvalidArgument,
        ),
{
}

/// The nonce of a ledger moves only when its farmer withdraws, and then by
/// one: no other request changes the nonce of any ledger.
pub proof fn law_nonce_moves_only_by_withdrawal(
    program_id: Seq<u8>,
    accounts: Seq<AccountModel>,
    instruction: InstructionModel,
    slot: nat,
)
    requires
        execute(program_id, accounts, instruction, slot) is Ok,
    ensures
        forall|i: int|
            #![trigger accounts[i]]
            0 <= i < accounts.len() ==> (accounts[i].data matches DataModel::Farmer(farmer) ==> {
                let after = execute(program_id, accounts, instruction, slot)->Ok_0.0;
                &&& after[i].data matches DataModel::Farmer(farmer_after)
                &&& farmer_after.farmer_address == farmer.farmer_address
                &&& if instruction is WithdrawRewards && i == 1 {
                    farmer_after.withdrawal_nonce == farmer.withdrawal_nonce + 1
                } else {
                    farmer_after.withdrawal_nonce == farmer.withdrawal_nonce
                }
            }),
{
    match instruction {
        InstructionModel::WithdrawRewards { task_ids, expected_nonce } => {
            lemma_withdrawal_shape(program_id, accounts, task_ids, expected_nonce, slot);
        },
        _ => {},
    }
}

} // verus!
