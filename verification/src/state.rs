//! The records of the ledger, the accounts that hold them, and the
//! mathematical model of each.

use crate::address::Address;
use vstd::prelude::*;

verus! {

/// The one pool: who governs it, what the platform takes, and what has been
/// paid out so far.
#[derive(Clone, Copy, Debug, PartialEq, Eq)]
pub struct RewardPool {
    pub is_initialized: bool,
    pub platform_authority: Address,
    pub platform_fee_percentage: u8,
    pub total_rewards_distributed: u64,
    pub total_platform_fees_collected: u64,
    pub is_paused: bool,
}

impl RewardPool {
    /// Size of the stored record in bytes.
    pub const LEN: usize = 1 + 32 + 1 + 8 + 8 + 1;
}

/// What a farmer has earned and withdrawn, and the nonce that the next
/// withdrawal has to name.
#[derive(Clone, Copy, Debug, PartialEq, Eq)]
pub struct FarmerAccount {
    pub is_initialized: bool,
    pub farmer_address: Address,
    pub withdrawal_nonce: u64,
    pub total_rewards_earned: u64,
    pub total_rewards_withdrawn: u64,
    pub last_withdrawal_slot: u64,
}

impl FarmerAccount {
    /// Size of the stored record in bytes.
    pub const LEN: usize = 1 + 32 + 8 + 8 + 8 + 8;
}

/// One completed task and the reward it earned.
#[derive(Debug, PartialEq, Eq)]
pub struct TaskCompletionRecord {
    pub is_initialized: bool,
    pub task_id: String,
    pub farmer_address: Address,
    pub pool_id: String,
    pub reward_amount: u64,
    pub token_mint: Address,
    pub is_claimed: bool,
    pub completion_slot: u64,
}

impl TaskCompletionRecord {
    /// Size of the stored record in bytes, with room for both strings.
    pub const LEN: usize = 1 + 64 + 32 + 64 + 8 + 32 + 1 + 8;
}

/// What the ledger reads of a token account: its mint and its balance.
#[derive(Clone, Copy, Debug, PartialEq, Eq)]
pub struct TokenAccount {
    pub mint: Address,
    pub amount: u64,
}

/// What an account holds.
#[derive(Debug, PartialEq, Eq)]
pub enum AccountData {
    /// Nothing: no record has been created at this address.
    Empty,
    RewardPool(RewardPool),
    Farmer(FarmerAccount),
    Task(TaskCompletionRecord),
    Token(TokenAccount),
    /// Data that the ledger does not read, as of a wallet or a program.
    Other,
}

/// The kinds of record that the ledger reads.
#[derive(Clone, Copy, Debug, PartialEq, Eq, Structural)]
pub enum DataKind {
    RewardPool,
    Farmer,
    Task,
    Token,
    Other,
}

/// An account as it is handed to an operation.
#[derive(Debug, PartialEq, Eq)]
pub struct Account {
    pub key: Address,
    pub is_signer: bool,
    pub data: AccountData,
}

/// The pool as a mathematical value.
pub struct RewardPoolModel {
    pub is_initialized: bool,
    pub platform_authority: Seq<u8>,
    pub platform_fee_percentage: nat,
    pub total_rewards_distributed: nat,
    pub total_platform_fees_collected: nat,
    pub is_paused: bool,
}

/// The ledger of a farmer as a mathematical value.
pub struct FarmerModel {
    pub is_initialized: bool,
    pub farmer_address: Seq<u8>,
    pub withdrawal_nonce: nat,
    pub total_rewards_earned: nat,
    pub total_rewards_withdrawn: nat,
    pub last_withdrawal_slot: nat,
}

/// The record of a task as a mathematical value.
pub struct TaskModel {
    pub is_initialized: bool,
    pub task_id: Seq<char>,
    pub farmer_address: Seq<u8>,
    pub pool_id: Seq<char>,
    pub reward_amount: nat,
    pub token_mint: Seq<u8>,
    pub is_claimed: bool,
    pub completion_slot: nat,
}

/// A token account as a mathematical value.
pub struct TokenModel {
    pub mint: Seq<u8>,
    pub amount: nat,
}

/// What an account holds, as a mathematical value.
pub enum DataModel {
    Empty,
    RewardPool(RewardPoolModel),
    Farmer(FarmerModel),
    Task(TaskModel),
    Token(TokenModel),
    Other,
}

/// An account as a mathematical value.
pub struct AccountModel {
    pub key: Seq<u8>,
    pub is_signer: bool,
    pub data: DataModel,
}

impl View for RewardPool {
    type V = RewardPoolModel;

    open spec fn view(&self) -> RewardPoolModel {
        RewardPoolModel {
            is_initialized: self.is_initialized,
            platform_authority: self.platform_authority@,
            platform_fee_percentage: self.platform_fee_percentage as nat,
            total_rewards_distributed: self.total_rewards_distributed as nat,
            total_platform_fees_collected: self.total_platform_fees_collected as nat,
            is_paused: self.is_paused,
        }
    }
}

impl View for FarmerAccount {
    type V = FarmerModel;

    open spec fn view(&self) -> FarmerModel {
        FarmerModel {
            is_initialized: self.is_initialized,
            farmer_address: self.farmer_address@,
            withdrawal_nonce: self.withdrawal_nonce as nat,
            total_rewards_earned: self.total_rewards_earned as nat,
            total_rewards_withdrawn: self.total_rewards_withdrawn as nat,
            last_withdrawal_slot: self.last_withdrawal_slot as nat,
        }
    }
}

impl View for TaskCompletionRecord {
    type V = TaskModel;

    open spec fn view(&self) -> TaskModel {
        TaskModel {
            is_initialized: self.is_initialized,
            task_id: self.task_id@,
            farmer_address: self.farmer_address@,
            pool_id: self.pool_id@,
            reward_amount: self.reward_amount as nat,
            token_mint: self.token_mint@,
            is_claimed: self.is_claimed,
            completion_slot: self.completion_slot as nat,
        }
    }
}

impl View for TokenAccount {
    type V = TokenModel;

    open spec fn view(&self) -> TokenModel {
        TokenModel { mint: self.mint@, amount: self.amount as nat }
    }
}

impl View for AccountData {
    type V = DataModel;

    open spec fn view(&self) -> DataModel {
        match self {
            AccountData::Empty => DataModel::Empty,
            AccountData::RewardPool(pool) => DataModel::RewardPool(pool@),
            AccountData::Farmer(farmer) => DataModel::Farmer(farmer@),
            AccountData::Task(task) => DataModel::Task(task@),
            AccountData::Token(token) => DataModel::Token(token@),
            AccountData::Other => DataModel::Other,
        }
    }
}

impl View for Account {
    type V = AccountModel;

    open spec fn view(&self) -> AccountModel {
        AccountModel { key: self.key@, is_signer: self.is_signer, data: self.data@ }
    }
}

impl DeepView for Account {
    type V = AccountModel;

    open spec fn deep_view(&self) -> AccountModel {
        self@
    }
}

impl Clone for TaskCompletionRecord {
    fn clone(&self) -> (copy: Self)
        ensures
            copy@ == self@,
    {
        TaskCompletionRecord {
            is_initialized: self.is_initialized,
            task_id: self.task_id.clone(),
            farmer_address: self.farmer_address,
            pool_id: self.pool_id.clone(),
            reward_amount: self.reward_amount,
            token_mint: self.token_mint,
            is_claimed: self.is_claimed,
            completion_slot: self.completion_slot,
        }
    }
}

impl Clone for AccountData {
    fn clone(&self) -> (copy: Self)
        ensures
            copy@ == self@,
    {
        match self {
            AccountData::Empty => AccountData::Empty,
            AccountData::RewardPool(pool) => AccountData::RewardPool(*pool),
            AccountData::Farmer(farmer) => AccountData::Farmer(*farmer),
            AccountData::Task(task) => AccountData::Task(task.clone()),
            AccountData::Token(token) => AccountData::Token(*token),
            AccountData::Other => AccountData::Other,
        }
    }
}

impl Clone for Account {
    fn clone(&self) -> (copy: Self)
        ensures
            copy@ == self@,
    {
        Account { key: self.key, is_signer: self.is_signer, data: self.data.clone() }
    }
}

/// A copy of a list of accounts.
pub fn clone_accounts(accounts: &Vec<Account>) -> (copy: Vec<Account>)
    ensures
        copy.deep_view() == accounts.deep_view(),
{
    let mut copy: Vec<Account> = Vec::new();
    let mut i: usize = 0;
    while i < accounts.len()
        invariant
            i <= accounts.len(),
            copy.len() == i,
            forall|j: int| 0 <= j < i ==> copy[j]@ == accounts[j]@,
        decreases accounts.len() - i,
    {
        copy.push(accounts[i].clone());
        i += 1;
    }
    copy
}

} // verus!
