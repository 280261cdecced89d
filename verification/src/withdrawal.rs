//! Withdrawing the rewards of a batch of tasks: every task of the batch is
//! checked and marked as claimed in a working copy of the accounts, and only
//! a batch that passes as a whole is settled.

use crate::address::{
    address_view, derive_address, derived_address, farmer_account_seeds,
    get_farmer_account_seeds, get_reward_pool_seeds, get_reward_vault_seeds,
    get_task_record_seeds, is_expected, reward_pool_seeds, reward_vault_seeds,
    task_record_seeds, Address, MAX_SEED_LEN,
};
use crate::error::RewardPoolError;
use crate::fee::{farmer_share, platform_fee, split_reward};
use crate::instruction::{texts, Action};
use crate::outcome::{carried_out, Transition};
use crate::state::{
    clone_accounts, Account, AccountData, AccountModel, DataModel, FarmerAccount, FarmerModel,
    RewardPool, RewardPoolModel, TaskModel,
};
use vstd::prelude::*;
use vstd::utf8::encode_utf8;

verus! {

/// A batch of tasks while it is checked: the working copy of the accounts,
/// in which the tasks seen so far are claimed, what they are worth together,
/// and the token they are paid in.
#[derive(Debug)]
pub struct StagedBatch {
    pub accounts: Vec<Account>,
    pub total: u64,
    pub token_mint: Option<Address>,
}

/// A batch under check as a mathematical value.
pub struct BatchModel {
    pub accounts: Seq<AccountModel>,
    pub total: nat,
    pub token_mint: Option<Seq<u8>>,
}

impl View for StagedBatch {
    type V = BatchModel;

    open spec fn view(&self) -> BatchModel {
        BatchModel {
            accounts: self.accounts.deep_view(),
            total: self.total as nat,
            token_mint: address_view(self.token_mint),
        }
    }
}

/// What each address of a list stands for, in order.
pub open spec fn address_views(addresses: Seq<Option<Address>>) -> Seq<Option<Seq<u8>>> {
    Seq::new(addresses.len(), |i: int| address_view(addresses[i]))
}

/// `i` is the first place in `accounts` that holds the address `key`.
pub open spec fn is_first_with_key(accounts: Seq<AccountModel>, key: Seq<u8>, i: int) -> bool {
    &&& 0 <= i < accounts.len()
    &&& accounts[i].key == key
    &&& forall|j: int| 0 <= j < i ==> accounts[j].key != key
}

/// The first place in `accounts` that holds the address `key`, if any does.
pub open spec fn position_of(accounts: Seq<AccountModel>, key: Seq<u8>) -> Option<int> {
    if exists|i: int| is_first_with_key(accounts, key, i) {
        Some(choose|i: int| is_first_with_key(accounts, key, i))
    } else {
        None
    }
}

/// There is one first place at most.
pub proof fn lemma_first_is_position(accounts: Seq<AccountModel>, key: Seq<u8>, i: int)
    requires
        is_first_with_key(accounts, key, i),
    ensures
        position_of(accounts, key) == Some(i),
{
    let chosen = choose|c: int| is_first_with_key(accounts, key, c);
    assert(chosen == i);
}

/// Finds the first account with the address `key`.
pub fn find_account(accounts: &Vec<Account>, key: &Address) -> (found: Option<usize>)
    ensures
        match found {
            Some(i) => position_of(accounts.deep_view(), key@) == Some(i as int),
            None => position_of(accounts.deep_view(), key@) is None,
        },
{
    let mut i: usize = 0;
    while i < accounts.len()
        invariant
            i <= accounts.len(),
            forall|j: int| 0 <= j < i ==> accounts.deep_view()[j].key != key@,
        decreases accounts.len() - i,
    {
        if accounts[i].key == *key {
            proof {
                lemma_first_is_position(accounts.deep_view(), key@, i as int);
            }
            return Some(i);
        }
        i += 1;
    }
    None
}

/// The record of a task with its reward claimed.
pub open spec fn claimed(task: TaskModel) -> TaskModel {
    TaskModel { is_claimed: true, ..task }
}

/// Adds one task to a batch. The task is looked up in the working copy, so
/// a task that the batch names twice is found claimed the second time.
pub open spec fn stage_task(batch: BatchModel, farmer: Seq<u8>, address: Option<Seq<u8>>) -> Result<
    BatchModel,
    RewardPoolError,
> {
    match address {
        None => Err(RewardPoolError::TaskNotFound),
        Some(key) => match position_of(batch.accounts, key) {
            None => Err(RewardPoolError::TaskNotFound),
            Some(i) => match batch.accounts[i].data {
                DataModel::Empty => Err(RewardPoolError::TaskNotFound),
                DataModel::Task(task) => {
                    if !task.is_initialized {
                        Err(RewardPoolError::AccountNotInitialized)
                    } else if task.farmer_address != farmer {
                        Err(RewardPoolError::InvalidFarmerAddress)
                    } else if task.is_claimed {
                        Err(RewardPoolError::TaskAlreadyClaimed)
                    } else if batch.token_mint is Some && batch.token_mint != Some(
                        task.token_mint,
                    ) {
                        Err(RewardPoolError::InconsistentAsset)
                    } else if batch.total + task.reward_amount > u64::MAX {
                        Err(RewardPoolError::Overflow)
                    } else {
                        Ok(
                            BatchModel {
                                accounts: batch.accounts.update(
                                    i,
                                    AccountModel {
                                        data: DataModel::Task(claimed(task)),
                                        ..batch.accounts[i]
                                    },
                                ),
                                total: batch.total + task.reward_amount,
                                token_mint: Some(task.token_mint),
                            },
                        )
                    }
                },
                _ => Err(RewardPoolError::AccountNotInitialized),
            },
        },
    }
}

/// Adds the tasks at `addresses` to a batch, one after the other, and stops
/// at the first that cannot be added.
pub open spec fn stage_tasks(
    batch: BatchModel,
    farmer: Seq<u8>,
    addresses: Seq<Option<Seq<u8>>>,
) -> Result<BatchModel, RewardPoolError>
    decreases addresses.len(),
{
    if addresses.len() == 0 {
        Ok(batch)
    } else {
        match stage_task(batch, farmer, addresses[0]) {
            Err(reason) => Err(reason),
            Ok(next) => stage_tasks(next, farmer, addresses.drop_first()),
        }
    }
}

/// A batch that names a task for which there is no address cannot be
/// staged.
pub proof fn lemma_missing_address_blocks_batch(
    batch: BatchModel,
    farmer: Seq<u8>,
    addresses: Seq<Option<Seq<u8>>>,
    k: int,
)
    requires
        0 <= k < addresses.len(),
        addresses[k] is None,
    ensures
        stage_tasks(batch, farmer, addresses) is Err,
    decreases addresses.len(),
{
    if k > 0 && stage_task(batch, farmer, addresses[0]) is Ok {
        lemma_missing_address_blocks_batch(
            stage_task(batch, farmer, addresses[0])->Ok_0,
            farmer,
            addresses.drop_first(),
            k - 1,
        );
    }
}

/// Whether a withdrawal may begin. The accounts are the pool, the farmer's
/// ledger, the vault, the farmer's token account, the treasury, the farmer
/// and the token program, in this order; the records of the tasks may stand
/// anywhere among the accounts.
pub open spec fn admit_withdrawal(
    expected_pool: Option<Seq<u8>>,
    expected_farmer_account: Option<Seq<u8>>,
    accounts: Seq<AccountModel>,
    expected_nonce: nat,
) -> Result<(), RewardPoolError> {
    if accounts.len() < 7 {
        Err(RewardPoolError::NotEnoughAccountKeys)
    } else if !accounts[5].is_signer {
        Err(RewardPoolError::MissingRequiredSignature)
    } else {
        match accounts[0].data {
            DataModel::RewardPool(pool) => {
                if !pool.is_initialized {
                    Err(RewardPoolError::AccountNotInitialized)
                } else if pool.is_paused {
                    Err(RewardPoolError::RewardPoolPaused)
                } else {
                    match accounts[1].data {
                        DataModel::Farmer(farmer) => {
                            if !farmer.is_initialized {
                                Err(RewardPoolError::AccountNotInitialized)
                            } else if farmer.farmer_address != accounts[5].key {
                                Err(RewardPoolError::InvalidFarmerAddress)
                            } else if farmer.withdrawal_nonce != expected_nonce {
                                Err(RewardPoolError::InvalidNonce)
                            } else if expected_pool != Some(accounts[0].key) {
                                Err(RewardPoolError::InvalidSeeds)
                            } else if expected_farmer_account != Some(accounts[1].key) {
                                Err(RewardPoolError::InvalidSeeds)
                            } else {
                                Ok(())
                            }
                        },
                        _ => Err(RewardPoolError::AccountNotInitialized),
                    }
                }
            },
            _ => Err(RewardPoolError::AccountNotInitialized),
        }
    }
}

/// The batch that a withdrawal is to settle: the request is admitted, names
/// one task at least, and every task of it can be added to the batch.
pub open spec fn stage_withdrawal(
    expected_pool: Option<Seq<u8>>,
    expected_farmer_account: Option<Seq<u8>>,
    task_addresses: Seq<Option<Seq<u8>>>,
    accounts: Seq<AccountModel>,
    expected_nonce: nat,
) -> Result<BatchModel, RewardPoolError> {
    match admit_withdrawal(expected_pool, expected_farmer_account, accounts, expected_nonce) {
        Err(reason) => Err(reason),
        Ok(_) => {
            if task_addresses.len() == 0 {
                Err(RewardPoolError::InvalidArgument)
            } else {
                stage_tasks(
                    BatchModel { accounts, total: 0, token_mint: None },
                    accounts[5].key,
                    task_addresses,
                )
            }
        },
    }
}

/// Checks whether a withdrawal may begin.
fn check_admitted(
    expected_pool: &Option<Address>,
    expected_farmer_account: &Option<Address>,
    accounts: &Vec<Account>,
    expected_nonce: u64,
) -> (checked: Result<(), RewardPoolError>)
    ensures
        match admit_withdrawal(
            address_view(*expected_pool),
            address_view(*expected_farmer_account),
            accounts.deep_view(),
            expected_nonce as nat,
        ) {
            Ok(_) => checked is Ok,
            Err(reason) => checked matches Err(given) && given == reason,
        },
{
    if accounts.len() < 7 {
        return Err(RewardPoolError::NotEnoughAccountKeys);
    }
    if !accounts[5].is_signer {
        return Err(RewardPoolError::MissingRequiredSignature);
    }
    match &accounts[0].data {
        AccountData::RewardPool(pool) => {
            if !pool.is_initialized {
                return Err(RewardPoolError::AccountNotInitialized);
            }
            if pool.is_paused {
                return Err(RewardPoolError::RewardPoolPaused);
            }
        },
        _ => {
            return Err(RewardPoolError::AccountNotInitialized);
        },
    }
    match &accounts[1].data {
        AccountData::Farmer(farmer) => {
            if !farmer.is_initialized {
                return Err(RewardPoolError::AccountNotInitialized);
            }
            if farmer.farmer_address != accounts[5].key {
                return Err(RewardPoolError::InvalidFarmerAddress);
            }
            if farmer.withdrawal_nonce != expected_nonce {
                return Err(RewardPoolError::InvalidNonce);
            }
        },
        _ => {
            return Err(RewardPoolError::AccountNotInitialized);
        },
    }
    if !is_expected(&accounts[0].key, expected_pool) {
        return Err(RewardPoolError::InvalidSeeds);
    }
    if !is_expected(&accounts[1].key, expected_farmer_account) {
        return Err(RewardPoolError::InvalidSeeds);
    }
    Ok(())
}

/// Checks the task at `address` and claims it in the working copy of the
/// batch. A task that is refused leaves the batch as it was.
pub fn stage_task_into(
    batch: &mut StagedBatch,
    farmer: &Address,
    address: &Option<Address>,
) -> (staged: Result<(), RewardPoolError>)
    ensures
        match stage_task(old(batch)@, farmer@, address_view(*address)) {
            Ok(next) => staged is Ok && final(batch)@ == next,
            Err(reason) => staged matches Err(given) && given == reason && final(batch)@ == old(
                batch,
            )@,
        },
{
    let key = match address {
        Some(key) => key,
        None => {
            return Err(RewardPoolError::TaskNotFound);
        },
    };
    let i = match find_account(&batch.accounts, key) {
        Some(i) => i,
        None => {
            return Err(RewardPoolError::TaskNotFound);
        },
    };
    let (updated, total) = match &batch.accounts[i].data {
        AccountData::Empty => {
            return Err(RewardPoolError::TaskNotFound);
        },
        AccountData::Task(task) => {
            if !task.is_initialized {
                return Err(RewardPoolError::AccountNotInitialized);
            }
            if task.farmer_address != *farmer {
                return Err(RewardPoolError::InvalidFarmerAddress);
            }
            if task.is_claimed {
                return Err(RewardPoolError::TaskAlreadyClaimed);
            }
            match &batch.token_mint {
                Some(mint) => {
                    if *mint != task.token_mint {
                        return Err(RewardPoolError::InconsistentAsset);
                    }
                },
                None => {},
            }
            let total = match batch.total.checked_add(task.reward_amount) {
                Some(sum) => sum,
                None => {
                    return Err(RewardPoolError::Overflow);
                },
            };
            let mut updated = task.clone();
            updated.is_claimed = true;
            (updated, total)
        },
        _ => {
            return Err(RewardPoolError::AccountNotInitialized);
        },
    };
    batch.token_mint = Some(updated.token_mint);
    batch.total = total;
    batch.accounts[i].data = AccountData::Task(updated);
    proof {
        let next = stage_task(old(batch)@, farmer@, address_view(*address))->Ok_0;
        assert(batch.accounts.deep_view() =~= next.accounts);
    }
    Ok(())
}

/// Checks a withdrawal and stages its batch, given the addresses that the
/// pool and the farmer's ledger must have and the address of the record of
/// each task. The accounts themselves are left as they are.
pub fn stage_batch(
    expected_pool: &Option<Address>,
    expected_farmer_account: &Option<Address>,
    task_addresses: &Vec<Option<Address>>,
    accounts: &Vec<Account>,
    expected_nonce: u64,
) -> (staged: Result<StagedBatch, RewardPoolError>)
    ensures
        match stage_withdrawal(
            address_view(*expected_pool),
            address_view(*expected_farmer_account),
            address_views(task_addresses@),
            accounts.deep_view(),
            expected_nonce as nat,
        ) {
            Ok(model) => staged matches Ok(batch) && batch@ == model,
            Err(reason) => staged matches Err(given) && given == reason,
        },
{
    match check_admitted(expected_pool, expected_farmer_account, accounts, expected_nonce) {
        Ok(_) => {},
        Err(reason) => {
            return Err(reason);
        },
    }
    if task_addresses.len() == 0 {
        return Err(RewardPoolError::InvalidArgument);
    }
    let farmer = accounts[5].key;
    let mut batch = StagedBatch { accounts: clone_accounts(accounts), total: 0, token_mint: None };
    let ghost addresses = address_views(task_addresses@);
    let ghost whole = stage_tasks(batch@, farmer@, addresses);
    assert(addresses.subrange(0, addresses.len() as int) =~= addresses);
    let mut k: usize = 0;
    while k < task_addresses.len()
        invariant
            k <= task_addresses.len(),
            addresses == address_views(task_addresses@),
            whole == stage_withdrawal(
                address_view(*expected_pool),
                address_view(*expected_farmer_account),
                addresses,
                accounts.deep_view(),
                expected_nonce as nat,
            ),
            whole == stage_tasks(
                batch@,
                farmer@,
                addresses.subrange(k as int, addresses.len() as int),
            ),
        decreases task_addresses.len() - k,
    {
        assert(addresses.subrange(k as int, addresses.len() as int).drop_first()
            =~= addresses.subrange(k + 1, addresses.len() as int));
        match stage_task_into(&mut batch, &farmer, &task_addresses[k]) {
            Ok(_) => {},
            Err(reason) => {
                return Err(reason);
            },
        }
        k += 1;
    }
    Ok(batch)
}

/// The transfers that pay a batch out of the vault: first the farmer's
/// part, then the platform's fee. A part of nothing is not transferred.
pub open spec fn payouts(farmer_amount: nat, fee: nat) -> Seq<Action> {
    let to_farmer = if farmer_amount > 0 {
        seq![
            Action::Transfer {
                source: 2,
                destination: 3,
                authority: 2,
                amount: farmer_amount as u64,
            },
        ]
    } else {
        seq![]
    };
    let to_treasury = if fee > 0 {
        seq![Action::Transfer { source: 2, destination: 4, authority: 2, amount: fee as u64 }]
    } else {
        seq![]
    };
    to_farmer + to_treasury
}

/// Whether the account holds tokens of the given mint.
pub open spec fn holds_mint(account: AccountModel, mint: Seq<u8>) -> bool {
    account.data matches DataModel::Token(token) && token.mint == mint
}

/// The farmer's ledger after a withdrawal of `total` at `slot`.
pub open spec fn withdrawn(farmer: FarmerModel, total: nat, slot: nat) -> FarmerModel {
    FarmerModel {
        withdrawal_nonce: farmer.withdrawal_nonce + 1,
        total_rewards_withdrawn: farmer.total_rewards_withdrawn + total,
        last_withdrawal_slot: slot,
        ..farmer
    }
}

/// The pool after a batch worth `total` has been paid out.
pub open spec fn distributed(pool: RewardPoolModel, total: nat) -> RewardPoolModel {
    RewardPoolModel {
        total_rewards_distributed: pool.total_rewards_distributed + farmer_share(
            total,
            pool.platform_fee_percentage,
        ),
        total_platform_fees_collected: pool.total_platform_fees_collected + platform_fee(
            total,
            pool.platform_fee_percentage,
        ),
        ..pool
    }
}

/// Whether a counter of the ledger or of the pool would leave 64 bits.
pub open spec fn counters_overflow(pool: RewardPoolModel, farmer: FarmerModel, total: nat) -> bool {
    ||| farmer.withdrawal_nonce + 1 > u64::MAX
    ||| farmer.total_rewards_withdrawn + total > u64::MAX
    ||| pool.total_rewards_distributed + farmer_share(total, pool.platform_fee_percentage)
        > u64::MAX
    ||| pool.total_platform_fees_collected + platform_fee(total, pool.platform_fee_percentage)
        > u64::MAX
}

/// Settling a staged batch: the batch must be worth something, the vault
/// must be the one derived for the token of the batch and hold enough of
/// it, and the accounts that are paid must hold the same token. Then the
/// working copy becomes the state, with the counters of the farmer and of
/// the pool brought up to date.
pub open spec fn settle_withdrawal(
    batch: BatchModel,
    expected_vault: Option<Seq<u8>>,
    slot: nat,
) -> Transition {
    let accounts = batch.accounts;
    if accounts.len() < 7 {
        Err(RewardPoolError::NotEnoughAccountKeys)
    } else if batch.total == 0 || batch.token_mint is None {
        Err(RewardPoolError::InvalidArgument)
    } else if expected_vault != Some(accounts[2].key) {
        Err(RewardPoolError::InvalidSeeds)
    } else {
        let mint = batch.token_mint->Some_0;
        match (accounts[0].data, accounts[1].data) {
            (DataModel::RewardPool(pool), DataModel::Farmer(farmer)) => {
                if pool.platform_fee_percentage > 100 {
                    Err(RewardPoolError::InvalidFeePercentage)
                } else if !holds_mint(accounts[2], mint) {
                    Err(RewardPoolError::InvalidTokenAccount)
                } else if accounts[2].data->Token_0.amount < batch.total {
                    Err(RewardPoolError::InsufficientTokenBalance)
                } else if !holds_mint(accounts[3], mint) || !holds_mint(accounts[4], mint) {
                    Err(RewardPoolError::InvalidTokenAccount)
                } else if counters_overflow(pool, farmer, batch.total) {
                    Err(RewardPoolError::Overflow)
                } else {
                    Ok(
                        (
                            accounts.update(
                                0,
                                AccountModel {
                                    data: DataModel::RewardPool(distributed(pool, batch.total)),
                                    ..accounts[0]
                                },
                            ).update(
                                1,
                                AccountModel {
                                    data: DataModel::Farmer(withdrawn(farmer, batch.total, slot)),
                                    ..accounts[1]
                                },
                            ),
                            payouts(
                                farmer_share(batch.total, pool.platform_fee_percentage),
                                platform_fee(batch.total, pool.platform_fee_percentage),
                            ),
                        ),
                    )
                }
            },
            _ => Err(RewardPoolError::AccountNotInitialized),
        }
    }
}

/// The address that the vault of a batch must have.
pub open spec fn vault_address(token_mint: Option<Seq<u8>>, program_id: Seq<u8>) -> Option<
    Seq<u8>,
> {
    match token_mint {
        Some(mint) => derived_address(reward_vault_seeds(mint), program_id),
        None => None,
    }
}

/// The address of the record of each task of a batch, in order.
pub open spec fn task_addresses(task_ids: Seq<Seq<char>>, program_id: Seq<u8>) -> Seq<
    Option<Seq<u8>>,
> {
    Seq::new(
        task_ids.len(),
        |i: int| derived_address(task_record_seeds(task_ids[i]), program_id),
    )
}

/// Withdrawing the rewards of a batch of tasks. The accounts are the pool,
/// the farmer's ledger, the vault, the farmer's token account, the
/// treasury, the farmer and the token program, in this order; the records
/// of the tasks stand anywhere among the accounts.
pub open spec fn withdraw_rewards(
    program_id: Seq<u8>,
    accounts: Seq<AccountModel>,
    task_ids: Seq<Seq<char>>,
    expected_nonce: nat,
    slot: nat,
) -> Transition {
    match stage_withdrawal(
        derived_address(reward_pool_seeds(), program_id),
        derived_address(farmer_account_seeds(accounts[5].key), program_id),
        task_addresses(task_ids, program_id),
        accounts,
        expected_nonce,
    ) {
        Err(reason) => Err(reason),
        Ok(batch) => settle_withdrawal(batch, vault_address(batch.token_mint, program_id), slot),
    }
}

/// Whether the account holds tokens of the given mint.
fn account_holds_mint(account: &Account, mint: &Address) -> (holds: bool)
    ensures
        holds == holds_mint(account@, mint@),
{
    match &account.data {
        AccountData::Token(token) => token.mint == *mint,
        _ => false,
    }
}

/// Settles a staged batch, given the address that the vault must have and
/// the current slot. Returns the accounts as they stand after the
/// withdrawal and the transfers that pay it out.
pub fn settle_batch(batch: StagedBatch, expected_vault: &Option<Address>, slot: u64) -> (settled:
    Result<(Vec<Account>, Vec<Action>), RewardPoolError>)
    ensures
        match settle_withdrawal(batch@, address_view(*expected_vault), slot as nat) {
            Ok((accounts, actions)) => {
                &&& settled matches Ok((after, asked))
                &&& after.deep_view() == accounts
                &&& asked@ == actions
            },
            Err(reason) => settled matches Err(given) && given == reason,
        },
{
    let StagedBatch { accounts: staged, total, token_mint } = batch;
    let mut accounts = staged;
    if accounts.len() < 7 {
        return Err(RewardPoolError::NotEnoughAccountKeys);
    }
    if total == 0 {
        return Err(RewardPoolError::InvalidArgument);
    }
    let mint = match token_mint {
        Some(mint) => mint,
        None => {
            return Err(RewardPoolError::InvalidArgument);
        },
    };
    if !is_expected(&accounts[2].key, expected_vault) {
        return Err(RewardPoolError::InvalidSeeds);
    }
    let mut reward_pool: RewardPool = match &accounts[0].data {
        AccountData::RewardPool(pool) => *pool,
        _ => {
            return Err(RewardPoolError::AccountNotInitialized);
        },
    };
    let mut farmer_data: FarmerAccount = match &accounts[1].data {
        AccountData::Farmer(farmer) => *farmer,
        _ => {
            return Err(RewardPoolError::AccountNotInitialized);
        },
    };
    let (farmer_reward_amount, platform_fee_amount) = match split_reward(
        total,
        reward_pool.platform_fee_percentage,
    ) {
        Ok(shares) => shares,
        Err(reason) => {
            return Err(reason);
        },
    };
    match &accounts[2].data {
        AccountData::Token(vault) => {
            if vault.mint != mint {
                return Err(RewardPoolError::InvalidTokenAccount);
            }
            if vault.amount < total {
                return Err(RewardPoolError::InsufficientTokenBalance);
            }
        },
        _ => {
            return Err(RewardPoolError::InvalidTokenAccount);
        },
    }
    if !account_holds_mint(&accounts[3], &mint) || !account_holds_mint(&accounts[4], &mint) {
        return Err(RewardPoolError::InvalidTokenAccount);
    }
    let withdrawal_nonce = farmer_data.withdrawal_nonce.checked_add(1);
    let total_rewards_withdrawn = farmer_data.total_rewards_withdrawn.checked_add(total);
    let total_rewards_distributed = reward_pool.total_rewards_distributed.checked_add(
        farmer_reward_amount,
    );
    let total_platform_fees_collected = reward_pool.total_platform_fees_collected.checked_add(
        platform_fee_amount,
    );
    match (
        withdrawal_nonce,
        total_rewards_withdrawn,
        total_rewards_distributed,
        total_platform_fees_collected,
    ) {
        (Some(nonce), Some(withdrawn_so_far), Some(distributed_so_far), Some(fees_so_far)) => {
            farmer_data.withdrawal_nonce = nonce;
            farmer_data.total_rewards_withdrawn = withdrawn_so_far;
            farmer_data.last_withdrawal_slot = slot;
            reward_pool.total_rewards_distributed = distributed_so_far;
            reward_pool.total_platform_fees_collected = fees_so_far;
        },
        _ => {
            return Err(RewardPoolError::Overflow);
        },
    }
    accounts[0].data = AccountData::RewardPool(reward_pool);
    accounts[1].data = AccountData::Farmer(farmer_data);
    let mut actions: Vec<Action> = Vec::new();
    if farmer_reward_amount > 0 {
        actions.push(
            Action::Transfer {
                source: 2,
                destination: 3,
                authority: 2,
                amount: farmer_reward_amount,
            },
        );
    }
    if platform_fee_amount > 0 {
        actions.push(
            Action::Transfer {
                source: 2,
                destination: 4,
                authority: 2,
                amount: platform_fee_amount,
            },
        );
    }
    Ok((accounts, actions))
}

/// The address of the record of each task of a batch.
pub fn derive_task_addresses(program_id: &Address, task_ids: &Vec<String>) -> (addresses: Vec<
    Option<Address>,
>)
    ensures
        address_views(addresses@) == task_addresses(texts(task_ids@), program_id@),
        forall|k: int|
            0 <= k < task_ids.len() && encode_utf8(task_ids[k]@).len() > MAX_SEED_LEN
                ==> #[trigger] addresses[k] is None,
{
    let mut addresses: Vec<Option<Address>> = Vec::new();
    let mut k: usize = 0;
    while k < task_ids.len()
        invariant
            k <= task_ids.len(),
            addresses.len() == k,
            forall|j: int|
                0 <= j < k ==> address_view(#[trigger] addresses[j]) == derived_address(
                    task_record_seeds(task_ids[j]@),
                    program_id@,
                ),
            forall|j: int|
                0 <= j < k && encode_utf8(task_ids[j]@).len() > MAX_SEED_LEN
                    ==> #[trigger] addresses[j] is None,
        decreases task_ids.len() - k,
    {
        let seeds = get_task_record_seeds(task_ids[k].as_str());
        let address = derive_address(program_id, seeds.as_slice());
        addresses.push(address);
        k += 1;
    }
    addresses
}

/// Withdraws the rewards of a batch of tasks for the farmer who signs. The
/// accounts are the pool, the farmer's ledger, the vault, the farmer's token
/// account, the treasury, the farmer and the token program, in this order;
/// the records of the tasks stand anywhere among the accounts. `slot` is the
/// current slot of the clock.
pub fn process_withdraw_rewards(
    program_id: &Address,
    accounts: &mut Vec<Account>,
    task_ids: Vec<String>,
    expected_nonce: u64,
    slot: u64,
) -> (result: Result<Vec<Action>, RewardPoolError>)
    ensures
        carried_out(
            withdraw_rewards(
                program_id@,
                old(accounts).deep_view(),
                texts(task_ids@),
                expected_nonce as nat,
                slot as nat,
            ),
            old(accounts).deep_view(),
            final(accounts).deep_view(),
            result,
        ),
        (exists|k: int|
            0 <= k < task_ids.len() && encode_utf8(#[trigger] task_ids[k]@).len() > MAX_SEED_LEN)
            ==> result is Err,
{
    if accounts.len() < 7 {
        return Err(RewardPoolError::NotEnoughAccountKeys);
    }
    let expected_pool = derive_address(program_id, get_reward_pool_seeds().as_slice());
    let expected_farmer_account = derive_address(
        program_id,
        get_farmer_account_seeds(&accounts[5].key).as_slice(),
    );
    let addresses = derive_task_addresses(program_id, &task_ids);
    proof {
        if exists|k: int|
            0 <= k < task_ids.len() && encode_utf8(#[trigger] task_ids[k]@).len() > MAX_SEED_LEN {
            let k = choose|k: int|
                0 <= k < task_ids.len() && encode_utf8(#[trigger] task_ids[k]@).len()
                    > MAX_SEED_LEN;
            lemma_missing_address_blocks_batch(
                BatchModel { accounts: accounts.deep_view(), total: 0, token_mint: None },
                accounts.deep_view()[5].key,
                address_views(addresses@),
                k,
            );
        }
    }
    let batch = match stage_batch(
        &expected_pool,
        &expected_farmer_account,
        &addresses,
        accounts,
        expected_nonce,
    ) {
        Ok(batch) => batch,
        Err(reason) => {
            return Err(reason);
        },
    };
    let expected_vault = match &batch.token_mint {
        Some(mint) => derive_address(program_id, get_reward_vault_seeds(mint).as_slice()),
        None => None,
    };
    match settle_batch(batch, &expected_vault, slot) {
        Ok((after, actions)) => {
            *accounts = after;
            Ok(actions)
        },
        Err(reason) => Err(reason),
    }
}

} // verus!
