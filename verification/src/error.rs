//! The reasons for which an operation is refused.

use vstd::prelude::*;

verus! {

/// Why an operation on the ledger failed. A failed operation changes nothing.
#[derive(Clone, Copy, Debug, PartialEq, Eq, Structural)]
pub enum RewardPoolError {
    /// A fee above 100 percent.
    InvalidFeePercentage,
    /// Unauthorized: the caller is not the authority stored in the pool.
    UnauthorizedPlatform,
    /// Not initialized: a record that the operation reads does not exist or
    /// has not been set up.
    AccountNotInitialized,
    /// The pool is paused.
    RewardPoolPaused,
    /// A task of the batch has been claimed before.
    TaskAlreadyClaimed,
    /// The nonce of the request is not the one stored for the farmer.
    InvalidNonce,
    /// Insufficient balance: the vault holds less than the batch is worth.
    InsufficientTokenBalance,
    /// Invalid asset account: a token account does not belong to the mint
    /// of the batch.
    InvalidTokenAccount,
    /// No record exists for a task of the batch.
    TaskNotFound,
    /// A record belongs to another farmer than the caller.
    InvalidFarmerAddress,
    /// Missing authorization: the caller did not sign the request.
    MissingRequiredSignature,
    /// Address mismatch: an account was handed over under another address
    /// than the one derived for it.
    InvalidSeeds,
    /// An empty batch, a batch that is worth nothing, or a task whose
    /// strings do not fit its record.
    InvalidArgument,
    /// Fewer accounts were handed over than the operation names.
    NotEnoughAccountKeys,
    /// Inconsistent asset: the tasks of a batch are paid in different
    /// tokens.
    InconsistentAsset,
    /// A record already exists for the task.
    DuplicateTask,
    /// A counter would leave the range of 64 bits.
    Overflow,
    /// The address of the pool holds a record already: the pool is set up
    /// once.
    AlreadyInitialized,
}

impl RewardPoolError {
    /// The text that describes the error.
    pub open spec fn spec_message(self) -> Seq<char> {
        match self {
            RewardPoolError::InvalidFeePercentage => "Invalid fee percentage"@,
            RewardPoolError::UnauthorizedPlatform => "Unauthorized platform"@,
            RewardPoolError::AccountNotInitialized => "Account not initialized"@,
            RewardPoolError::RewardPoolPaused => "Reward pool is paused"@,
            RewardPoolError::TaskAlreadyClaimed => "Task already claimed"@,
            RewardPoolError::InvalidNonce => "Invalid nonce"@,
            RewardPoolError::InsufficientTokenBalance => "Insufficient token balance"@,
            RewardPoolError::InvalidTokenAccount => "Invalid token account"@,
            RewardPoolError::TaskNotFound => "Task not found"@,
            RewardPoolError::InvalidFarmerAddress => "Invalid farmer address"@,
            RewardPoolError::MissingRequiredSignature => "Missing required signature"@,
            RewardPoolError::InvalidSeeds => "Address does not match the derived one"@,
            RewardPoolError::InvalidArgument => "Invalid argument"@,
            RewardPoolError::NotEnoughAccountKeys => "Not enough accounts"@,
            RewardPoolError::InconsistentAsset => "Tasks are paid in different tokens"@,
            RewardPoolError::DuplicateTask => "Task already recorded"@,
            RewardPoolError::Overflow => "Arithmetic overflow"@,
            RewardPoolError::AlreadyInitialized => "Reward pool already initialized"@,
        }
    }

    /// The text that describes the error, as a string.
    pub fn message(self) -> (text: &'static str)
        ensures
            text@ == self.spec_message(),
    {
        match self {
            RewardPoolError::InvalidFeePercentage => "Invalid fee percentage",
            RewardPoolError::UnauthorizedPlatform => "Unauthorized platform",
            RewardPoolError::AccountNotInitialized => "Account not initialized",
            RewardPoolError::RewardPoolPaused => "Reward pool is paused",
            RewardPoolError::TaskAlreadyClaimed => "Task already claimed",
            RewardPoolError::InvalidNonce => "Invalid nonce",
            RewardPoolError::InsufficientTokenBalance => "Insufficient token balance",
            RewardPoolError::InvalidTokenAccount => "Invalid token account",
            RewardPoolError::TaskNotFound => "Task not found",
            RewardPoolError::InvalidFarmerAddress => "Invalid farmer address",
            RewardPoolError::MissingRequiredSignature => "Missing required signature",
            RewardPoolError::InvalidSeeds => "Address does not match the derived one",
            RewardPoolError::InvalidArgument => "Invalid argument",
            RewardPoolError::NotEnoughAccountKeys => "Not enough accounts",
            RewardPoolError::InconsistentAsset => "Tasks are paid in different tokens",
            RewardPoolError::DuplicateTask => "Task already recorded",
            RewardPoolError::Overflow => "Arithmetic overflow",
            RewardPoolError::AlreadyInitialized => "Reward pool already initialized",
        }
    }
    /// The number under which the error is reported as an error of this
    /// program, where it is one: the others are reported as what they are
    /// to every program.
    pub open spec fn spec_custom_code(self) -> Option<u32> {
        match self {
            RewardPoolError::InvalidFeePercentage => Some(0u32),
            RewardPoolError::UnauthorizedPlatform => Some(1u32),
            RewardPoolError::AccountNotInitialized => Some(2u32),
            RewardPoolError::RewardPoolPaused => Some(3u32),
            RewardPoolError::TaskAlreadyClaimed => Some(4u32),
            RewardPoolError::InvalidNonce => Some(5u32),
            RewardPoolError::InsufficientTokenBalance => Some(6u32),
            RewardPoolError::InvalidTokenAccount => Some(7u32),
            RewardPoolError::TaskNotFound => Some(8u32),
            RewardPoolError::InvalidFarmerAddress => Some(9u32),
            RewardPoolError::InconsistentAsset => Some(10u32),
            RewardPoolError::DuplicateTask => Some(11u32),
            RewardPoolError::Overflow => Some(12u32),
            _ => None,
        }
    }

    /// The number of the error among the errors of this program, if it has
    /// one.
    pub fn custom_code(self) -> (code: Option<u32>)
        ensures
            code == self.spec_custom_code(),
    {
        match self {
            RewardPoolError::InvalidFeePercentage => Some(0),
            RewardPoolError::UnauthorizedPlatform => Some(1),
            RewardPoolError::AccountNotInitialized => Some(2),
            RewardPoolError::RewardPoolPaused => Some(3),
            RewardPoolError::TaskAlreadyClaimed => Some(4),
            RewardPoolError::InvalidNonce => Some(5),
            RewardPoolError::InsufficientTokenBalance => Some(6),
            RewardPoolError::InvalidTokenAccount => Some(7),
            RewardPoolError::TaskNotFound => Some(8),
            RewardPoolError::InvalidFarmerAddress => Some(9),
            RewardPoolError::InconsistentAsset => Some(10),
            RewardPoolError::DuplicateTask => Some(11),
            RewardPoolError::Overflow => Some(12),
            _ => None,
        }
    }
}

} // verus!
