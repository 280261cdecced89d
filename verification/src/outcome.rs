//! How the result of an operation is held against what it should have done.

use crate::error::RewardPoolError;
use crate::instruction::Action;
use crate::state::AccountModel;
use vstd::prelude::*;

verus! {

/// What an operation does to the accounts it is handed: the accounts as they
/// stand afterwards with the actions it asks for, or the reason it refused.
pub type Transition = Result<(Seq<AccountModel>, Seq<Action>), RewardPoolError>;

/// An operation that was to make `expected` of the accounts `before` did so:
/// it left the accounts `after` and returned `result`. Where the operation
/// is refused, the accounts are as they were.
pub open spec fn carried_out(
    expected: Transition,
    before: Seq<AccountModel>,
    after: Seq<AccountModel>,
    result: Result<Vec<Action>, RewardPoolError>,
) -> bool {
    match expected {
        Ok((accounts, actions)) => {
            &&& result matches Ok(asked)
            &&& asked@ == actions
            &&& after == accounts
        },
        Err(reason) => {
            &&& result matches Err(given)
            &&& given == reason
            &&& after == before
        },
    }
}

} // verus!
