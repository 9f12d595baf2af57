//! Changing the parameters of a collection.

use crate::bytes::Address;
use crate::errors::StakingError;
use crate::rewards::RewardModel;
use crate::state::{confirm_registry, registry_derived, ProgramConfig, Staking};
use vstd::prelude::*;

verus! {

/// The accounts of the request that changes a collection's parameters.
#[derive(Clone, Copy, Debug, PartialEq, Eq)]
pub struct SetStaking {
    /// The address of the collection's record.
    pub staking: Address,
    /// The administrator, who signs.
    pub owner: Address,
    /// The administrator from now on.
    pub new_owner: Address,
}

/// Why the request is rejected, if it is: the record is not at its
/// derived address, or does not name the derived escrow; the signer is not
/// the administrator; or the multiplier cap is below the floor.
pub open spec fn set_rejection(
    config: ProgramConfig,
    ctx: SetStaking,
    staking: Staking,
    model: RewardModel,
) -> Option<StakingError> {
    if !registry_derived(config.program, staking, ctx.staking, staking.escrow) {
        Some(StakingError::InvalidDerivation)
    } else if staking.owner@ != ctx.owner@ {
        Some(StakingError::Unauthorized)
    } else if !model.admissible() {
        Some(StakingError::InvalidMultiplier)
    } else {
        None
    }
}

/// The record with its administrator, rate, model, start time and root
/// replaced, and all else kept.
pub open spec fn with_parameters(
    staking: Staking,
    new_owner: Address,
    daily_rewards: u64,
    model: RewardModel,
    start: i64,
    root: [u8; 32],
) -> Staking {
    Staking { owner: new_owner, daily_rewards, model, start, root, ..staking }
}

/// Replaces the administrator, the rate, the model, the start time and the
/// root of a collection, all at once.
pub fn handler(
    config: &ProgramConfig,
    ctx: &SetStaking,
    staking: &mut Staking,
    daily_rewards: u64,
    model: RewardModel,
    start: i64,
    root: [u8; 32],
) -> (out: Result<(), StakingError>)
    ensures
        match out {
            Ok(_) => {
                &&& set_rejection(*config, *ctx, *old(staking), model) is None
                &&& *final(staking) == with_parameters(
                    *old(staking),
                    ctx.new_owner,
                    daily_rewards,
                    model,
                    start,
                    root,
                )
            },
            Err(e) => {
                &&& set_rejection(*config, *ctx, *old(staking), model) == Some(e)
                &&& *final(staking) == *old(staking)
            },
        },
{
    let current = *staking;
    if confirm_registry(&config.program, &current, &ctx.staking, &current.escrow).is_err() {
        return Err(StakingError::InvalidDerivation);
    }
    if !staking.owner.same_as(&ctx.owner) {
        return Err(StakingError::Unauthorized);
    }
    match model.validate() {
        Ok(_) => {},
        Err(e) => {
            return Err(e);
        },
    }
    staking.owner = ctx.new_owner;
    staking.daily_rewards = daily_rewards;
    staking.model = model;
    staking.start = start;
    staking.root = root;
    Ok(())
}

} // verus!
