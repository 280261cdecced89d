//! Setting up the pool, pausing it, and changing the platform's fee.

use crate::address::{
    address_view, derive_address, derived_address, get_reward_pool_seeds, is_expected,
    reward_pool_seeds, Address,
};
use crate::error::RewardPoolError;
use crate::fee::MAX_FEE_PERCENTAGE;
use crate::instruction::Action;
use crate::outcome::{carried_out, Transition};
use crate::state::{Account, AccountData, AccountModel, DataModel, RewardPool, RewardPoolModel};
use vstd::prelude::*;

verus! {

/// The pool as it is set up: not paused, nothing paid out yet.
pub open spec fn fresh_pool(authority: Seq<u8>, fee_percentage: nat) -> RewardPoolModel {
    RewardPoolModel {
        is_initialized: true,
        platform_authority: authority,
        platform_fee_percentage: fee_percentage,
        total_rewards_distributed: 0,
        total_platform_fees_collected: 0,
        is_paused: false,
    }
}

/// Setting up the pool. The accounts are the pool, the authority, the system
/// program and the rent parameters, in this order.
pub open spec fn initialize(
    expected_pool: Option<Seq<u8>>,
    accounts: Seq<AccountModel>,
    fee_percentage: nat,
) -> Transition {
    if accounts.len() < 4 {
        Err(RewardPoolError::NotEnoughAccountKeys)
    } else if fee_percentage > 100 {
        Err(RewardPoolError::InvalidFeePercentage)
    } else if !accounts[1].is_signer {
        Err(RewardPoolError::MissingRequiredSignature)
    } else if expected_pool != Some(accounts[0].key) {
        Err(RewardPoolError::InvalidSeeds)
    } else if accounts[0].data != DataModel::Empty {
        Err(RewardPoolError::AlreadyInitialized)
    } else {
        Ok(
            (
                accounts.update(
                    0,
                    AccountModel {
                        data: DataModel::RewardPool(fresh_pool(accounts[1].key, fee_percentage)),
                        ..accounts[0]
                    },
                ),
                seq![Action::CreateAccount { payer: 1, account: 0, space: RewardPool::LEN }],
            ),
        )
    }
}

/// The pool that an administrative request changes, or the reason for which
/// the request is refused. The accounts are the pool and the authority.
pub open spec fn governed_pool(
    expected_pool: Option<Seq<u8>>,
    accounts: Seq<AccountModel>,
) -> Result<RewardPoolModel, RewardPoolError> {
    if accounts.len() < 2 {
        Err(RewardPoolError::NotEnoughAccountKeys)
    } else if !accounts[1].is_signer {
        Err(RewardPoolError::MissingRequiredSignature)
    } else if expected_pool != Some(accounts[0].key) {
        Err(RewardPoolError::InvalidSeeds)
    } else {
        match accounts[0].data {
            DataModel::RewardPool(pool) => {
                if !pool.is_initialized {
                    Err(RewardPoolError::AccountNotInitialized)
                } else if pool.platform_authority != accounts[1].key {
                    Err(RewardPoolError::UnauthorizedPlatform)
                } else {
                    Ok(pool)
                }
            },
            _ => Err(RewardPoolError::AccountNotInitialized),
        }
    }
}

/// The accounts with the pool replaced.
pub open spec fn with_pool(accounts: Seq<AccountModel>, pool: RewardPoolModel) -> Seq<
    AccountModel,
> {
    accounts.update(0, AccountModel { data: DataModel::RewardPool(pool), ..accounts[0] })
}

/// Pausing or resuming the pool. Whether the pool is paused already plays
/// no part.
pub open spec fn set_paused(
    expected_pool: Option<Seq<u8>>,
    accounts: Seq<AccountModel>,
    is_paused: bool,
) -> Transition {
    match governed_pool(expected_pool, accounts) {
        Ok(pool) => Ok((with_pool(accounts, RewardPoolModel { is_paused, ..pool }), seq![])),
        Err(reason) => Err(reason),
    }
}

/// Changing the platform's fee. Whether the pool is paused plays no part.
pub open spec fn update_platform_fee(
    expected_pool: Option<Seq<u8>>,
    accounts: Seq<AccountModel>,
    fee_percentage: nat,
) -> Transition {
    if accounts.len() < 2 {
        Err(RewardPoolError::NotEnoughAccountKeys)
    } else if fee_percentage > 100 {
        Err(RewardPoolError::InvalidFeePercentage)
    } else {
        match governed_pool(expected_pool, accounts) {
            Ok(pool) => Ok(
                (
                    with_pool(
                        accounts,
                        RewardPoolModel { platform_fee_percentage: fee_percentage, ..pool },
                    ),
                    seq![],
                ),
            ),
            Err(reason) => Err(reason),
        }
    }
}

/// Reads the pool for an administrative request of the second account.
fn load_governed_pool(expected_pool: &Option<Address>, accounts: &Vec<Account>) -> (pool: Result<
    RewardPool,
    RewardPoolError,
>)
    ensures
        match governed_pool(address_view(*expected_pool), accounts.deep_view()) {
            Ok(model) => pool matches Ok(found) && found@ == model,
            Err(reason) => pool matches Err(given) && given == reason,
        },
{
    if accounts.len() < 2 {
        return Err(RewardPoolError::NotEnoughAccountKeys);
    }
    if !accounts[1].is_signer {
        return Err(RewardPoolError::MissingRequiredSignature);
    }
    if !is_expected(&accounts[0].key, expected_pool) {
        return Err(RewardPoolError::InvalidSeeds);
    }
    match &accounts[0].data {
        AccountData::RewardPool(pool) => {
            if !pool.is_initialized {
                Err(RewardPoolError::AccountNotInitialized)
            } else if pool.platform_authority != accounts[1].key {
                Err(RewardPoolError::UnauthorizedPlatform)
            } else {
                Ok(*pool)
            }
        },
        _ => Err(RewardPoolError::AccountNotInitialized),
    }
}

/// Sets up the pool at the first account, given the address that the pool
/// must have.
pub fn initialize_reward_pool(
    expected_pool: &Option<Address>,
    accounts: &mut Vec<Account>,
    platform_fee_percentage: u8,
) -> (result: Result<Vec<Action>, RewardPoolError>)
    ensures
        carried_out(
            initialize(
                address_view(*expected_pool),
                old(accounts).deep_view(),
                platform_fee_percentage as nat,
            ),
            old(accounts).deep_view(),
            final(accounts).deep_view(),
            result,
        ),
{
    if accounts.len() < 4 {
        return Err(RewardPoolError::NotEnoughAccountKeys);
    }
    if platform_fee_percentage > MAX_FEE_PERCENTAGE {
        return Err(RewardPoolError::InvalidFeePercentage);
    }
    if !accounts[1].is_signer {
        return Err(RewardPoolError::MissingRequiredSignature);
    }
    if !is_expected(&accounts[0].key, expected_pool) {
        return Err(RewardPoolError::InvalidSeeds);
    }
    match &accounts[0].data {
        AccountData::Empty => {},
        _ => {
            return Err(RewardPoolError::AlreadyInitialized);
        },
    }
    let reward_pool = RewardPool {
        is_initialized: true,
        platform_authority: accounts[1].key,
        platform_fee_percentage,
        total_rewards_distributed: 0,
        total_platform_fees_collected: 0,
        is_paused: false,
    };
    accounts[0].data = AccountData::RewardPool(reward_pool);
    let mut actions: Vec<Action> = Vec::new();
    actions.push(Action::CreateAccount { payer: 1, account: 0, space: RewardPool::LEN });
    proof {
        let expected = initialize(
            address_view(*expected_pool),
            old(accounts).deep_view(),
            platform_fee_percentage as nat,
        );
        assert(accounts.deep_view() =~= expected->Ok_0.0);
    }
    Ok(actions)
}

/// Pauses or resumes the pool at the first account, given the address that
/// the pool must have.
pub fn set_pool_paused(
    expected_pool: &Option<Address>,
    accounts: &mut Vec<Account>,
    is_paused: bool,
) -> (result: Result<Vec<Action>, RewardPoolError>)
    ensures
        carried_out(
            set_paused(address_view(*expected_pool), old(accounts).deep_view(), is_paused),
            old(accounts).deep_view(),
            final(accounts).deep_view(),
            result,
        ),
{
    let mut reward_pool = match load_governed_pool(expected_pool, accounts) {
        Ok(pool) => pool,
        Err(reason) => {
            return Err(reason);
        },
    };
    reward_pool.is_paused = is_paused;
    accounts[0].data = AccountData::RewardPool(reward_pool);
    let actions: Vec<Action> = Vec::new();
    proof {
        let expected = set_paused(
            address_view(*expected_pool),
            old(accounts).deep_view(),
            is_paused,
        );
        assert(accounts.deep_view() =~= expected->Ok_0.0);
    }
    Ok(actions)
}

/// Changes the fee of the pool at the first account, given the address that
/// the pool must have.
pub fn set_platform_fee(
    expected_pool: &Option<Address>,
    accounts: &mut Vec<Account>,
    new_fee_percentage: u8,
) -> (result: Result<Vec<Action>, RewardPoolError>)
    ensures
        carried_out(
            update_platform_fee(
                address_view(*expected_pool),
                old(accounts).deep_view(),
                new_fee_percentage as nat,
            ),
            old(accounts).deep_view(),
            final(accounts).deep_view(),
            result,
        ),
{
    if accounts.len() < 2 {
        return Err(RewardPoolError::NotEnoughAccountKeys);
    }
    if new_fee_percentage > MAX_FEE_PERCENTAGE {
        return Err(RewardPoolError::InvalidFeePercentage);
    }
    let mut reward_pool = match load_governed_pool(expected_pool, accounts) {
        Ok(pool) => pool,
        Err(reason) => {
            return Err(reason);
        },
    };
    reward_pool.platform_fee_percentage = new_fee_percentage;
    accounts[0].data = AccountData::RewardPool(reward_pool);
    let actions: Vec<Action> = Vec::new();
    proof {
        let expected = update_platform_fee(
            address_view(*expected_pool),
            old(accounts).deep_view(),
            new_fee_percentage as nat,
        );
        assert(accounts.deep_view() =~= expected->Ok_0.0);
    }
    Ok(actions)
}

/// Sets up the pool. The accounts are the pool, the authority, the system
/// program and the rent parameters, in this order.
pub fn process_initialize_reward_pool(
    program_id: &Address,
    accounts: &mut Vec<Account>,
    platform_fee_percentage: u8,
) -> (result: Result<Vec<Action>, RewardPoolError>)
    ensures
        carried_out(
            initialize(
                derived_address(reward_pool_seeds(), program_id@),
                old(accounts).deep_view(),
                platform_fee_percentage as nat,
            ),
            old(accounts).deep_view(),
            final(accounts).deep_view(),
            result,
        ),
{
    let expected_pool = derive_address(program_id, get_reward_pool_seeds().as_slice());
    initialize_reward_pool(&expected_pool, accounts, platform_fee_percentage)
}

/// Pauses or resumes the pool. The accounts are the pool and the authority.
pub fn process_set_paused(
    program_id: &Address,
    accounts: &mut Vec<Account>,
    is_paused: bool,
) -> (result: Result<Vec<Action>, RewardPoolError>)
    ensures
        carried_out(
            set_paused(
                derived_address(reward_pool_seeds(), program_id@),
                old(accounts).deep_view(),
                is_paused,
            ),
            old(accounts).deep_view(),
            final(accounts).deep_view(),
            result,
        ),
{
    let expected_pool = derive_address(program_id, get_reward_pool_seeds().as_slice());
    set_pool_paused(&expected_pool, accounts, is_paused)
}

/// Changes the platform's fee. The accounts are the pool and the authority.
pub fn process_update_platform_fee(
    program_id: &Address,
    accounts: &mut Vec<Account>,
    new_fee_percentage: u8,
) -> (result: Result<Vec<Action>, RewardPoolError>)
    ensures
        carried_out(
            update_platform_fee(
                derived_address(reward_pool_seeds(), program_id@),
                old(accounts).deep_view(),
                new_fee_percentage as nat,
            ),
            old(accounts).deep_view(),
            final(accounts).deep_view(),
            result,
        ),
{
    let expected_pool = derive_address(program_id, get_reward_pool_seeds().as_slice());
    set_platform_fee(&expected_pool, accounts, new_fee_percentage)
}

} // verus!
