//! How a withdrawn amount is split between the farmer and the platform.

use crate::error::RewardPoolError;
use vstd::prelude::*;

verus! {

/// The highest fee that the platform may take, in percent.
pub const MAX_FEE_PERCENTAGE: u8 = 100;

/// The platform's part of `total`: the given percentage, rounded down.
pub open spec fn platform_fee(total: nat, fee_percentage: nat) -> nat {
    total * fee_percentage / 100
}

/// The farmer's part of `total`: what the platform's fee leaves.
pub open spec fn farmer_share(total: nat, fee_percentage: nat) -> nat {
    (total - platform_fee(total, fee_percentage)) as nat
}

/// The fee never exceeds the amount it is taken from.
pub proof fn lemma_fee_within_total(total: nat, fee_percentage: nat)
    requires
        fee_percentage <= 100,
    ensures
        platform_fee(total, fee_percentage) <= total,
        farmer_share(total, fee_percentage) + platform_fee(total, fee_percentage) == total,
{
    assert(total * fee_percentage <= total * 100) by (nonlinear_arith)
        requires
            fee_percentage <= 100,
    ;
    assert(total * fee_percentage / 100 <= total) by (nonlinear_arith)
        requires
            total * fee_percentage <= total * 100,
    ;
}

/// Splits `total` into the farmer's part and the platform's fee, in this
/// order. The product is taken in 128 bits, so no amount is too large.
pub fn split_reward(total: u64, fee_percentage: u8) -> (shares: Result<(u64, u64), RewardPoolError>)
    ensures
        fee_percentage > 100 <==> shares is Err,
        shares is Err ==> shares == Err::<(u64, u64), RewardPoolError>(
            RewardPoolError::InvalidFeePercentage,
        ),
        shares matches Ok((farmer_amount, fee)) ==> {
            &&& fee == platform_fee(total as nat, fee_percentage as nat)
            &&& farmer_amount == farmer_share(total as nat, fee_percentage as nat)
            &&& farmer_amount + fee == total
        },
{
    if fee_percentage > MAX_FEE_PERCENTAGE {
        return Err(RewardPoolError::InvalidFeePercentage);
    }
    proof {
        lemma_fee_within_total(total as nat, fee_percentage as nat);
        assert(total * fee_percentage <= u64::MAX * 100) by (nonlinear_arith)
            requires
                total <= u64::MAX,
                fee_percentage <= 100,
        ;
    }
    let product: u128 = (total as u128) * (fee_percentage as u128);
    let fee: u64 = (product / 100) as u64;
    Ok((total - fee, fee))
}

} // verus!
