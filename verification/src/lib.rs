//! A reward-distribution ledger: one pool with a fee policy, per-farmer
//! accrual counters, task-completion records, and batched withdrawals that
//! split the proceeds between the farmer and the platform treasury.
//!
//! Every operation is a total function from the accounts handed to it to the
//! accounts as they stand afterwards and the outside actions (account
//! creations, token transfers) that the caller has to carry out. An operation
//! that fails leaves every account as it was.

pub mod address;
pub mod admin;
pub mod error;
pub mod fee;
pub mod instruction;
pub mod laws;
pub mod ledger;
pub mod outcome;
pub mod processor;
pub mod recorder;
pub mod state;
pub mod withdrawal;

pub use crate::address::Address;
pub use crate::admin::{
    process_initialize_reward_pool, process_set_paused, process_update_platform_fee,
};
pub use crate::error::RewardPoolError;
pub use crate::instruction::{Action, RewardPoolInstruction};
pub use crate::processor::process_instruction;
pub use crate::recorder::process_record_task_completion;
pub use crate::state::{
    Account, AccountData, DataKind, FarmerAccount, RewardPool, TaskCompletionRecord, TokenAccount,
};
pub use crate::withdrawal::process_withdraw_rewards;
