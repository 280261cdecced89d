//! The requests that the ledger serves and the outside actions it asks for.

use vstd::prelude::*;

verus! {

/// A request to the ledger.
#[derive(Debug, PartialEq, Eq)]
pub enum RewardPoolInstruction {
    InitializeRewardPool { platform_fee_percentage: u8 },
    RecordTaskCompletion { task_id: String, pool_id: String, reward_amount: u64 },
    WithdrawRewards { task_ids: Vec<String>, expected_nonce: u64 },
    SetPaused { is_paused: bool },
    UpdatePlatformFee { new_fee_percentage: u8 },
}

/// A request as a mathematical value.
pub enum InstructionModel {
    InitializeRewardPool { platform_fee_percentage: nat },
    RecordTaskCompletion { task_id: Seq<char>, pool_id: Seq<char>, reward_amount: nat },
    WithdrawRewards { task_ids: Seq<Seq<char>>, expected_nonce: nat },
    SetPaused { is_paused: bool },
    UpdatePlatformFee { new_fee_percentage: nat },
}

/// The text of each string of a list, in order.
pub open spec fn texts(strings: Seq<String>) -> Seq<Seq<char>> {
    Seq::new(strings.len(), |i: int| strings[i]@)
}

impl View for RewardPoolInstruction {
    type V = InstructionModel;

    open spec fn view(&self) -> InstructionModel {
        match self {
            RewardPoolInstruction::InitializeRewardPool { platform_fee_percentage } => {
                InstructionModel::InitializeRewardPool {
                    platform_fee_percentage: *platform_fee_percentage as nat,
                }
            },
            RewardPoolInstruction::RecordTaskCompletion { task_id, pool_id, reward_amount } => {
                InstructionModel::RecordTaskCompletion {
                    task_id: task_id@,
                    pool_id: pool_id@,
                    reward_amount: *reward_amount as nat,
                }
            },
            RewardPoolInstruction::WithdrawRewards { task_ids, expected_nonce } => {
                InstructionModel::WithdrawRewards {
                    task_ids: texts(task_ids@),
                    expected_nonce: *expected_nonce as nat,
                }
            },
            RewardPoolInstruction::SetPaused { is_paused } => InstructionModel::SetPaused {
                is_paused: *is_paused,
            },
            RewardPoolInstruction::UpdatePlatformFee { new_fee_percentage } => {
                InstructionModel::UpdatePlatformFee {
                    new_fee_percentage: *new_fee_percentage as nat,
                }
            },
        }
    }
}

/// Something that the caller has to do outside the ledger once an operation
/// has succeeded. Accounts are named by their place in the list that was
/// handed to the operation.
#[derive(Clone, Copy, Debug, PartialEq, Eq, Structural)]
pub enum Action {
    /// Allocate `space` bytes for the record at `account`, paid by `payer`.
    CreateAccount { payer: usize, account: usize, space: usize },
    /// Move `amount` tokens from `source` to `destination`.
    Transfer { source: usize, destination: usize, authority: usize, amount: u64 },
}

} // verus!
