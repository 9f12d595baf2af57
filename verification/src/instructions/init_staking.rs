//! Setting up the record of a collection.

use crate::bytes::Address;
use crate::errors::StakingError;
use crate::rewards::RewardModel;
use crate::state::{
    confirm_registry, confirm_rewards, registry_derived, rewards_derived, InitializeStakingBumps,
    ProgramConfig, Staking,
};
use vstd::prelude::*;

verus! {

/// The accounts of the request that sets up a collection.
#[derive(Clone, Copy, Debug, PartialEq, Eq)]
pub struct InitializeStaking {
    /// The key that identifies the collection.
    pub staking_key: Address,
    /// The address of the collection's record.
    pub staking: Address,
    /// The escrow.
    pub escrow: Address,
    /// The mint of the reward token.
    pub mint: Address,
    /// The account that is to hold the reward token.
    pub rewards_account: Address,
    /// The administrator, who signs.
    pub owner: Address,
}

/// The record of a collection as it is set up: no token staked, fees owed.
pub open spec fn initial_record(
    ctx: InitializeStaking,
    bumps: InitializeStakingBumps,
    daily_rewards: u64,
    model: RewardModel,
    start: i64,
    root: [u8; 32],
) -> Staking {
    Staking {
        key: ctx.staking_key,
        owner: ctx.owner,
        bumps,
        escrow: ctx.escrow,
        mint: ctx.mint,
        rewards_account: ctx.rewards_account,
        nfts_staked: 0,
        daily_rewards,
        model,
        start,
        root,
        fees_exempt: false,
    }
}

/// Why the request is rejected, if it is: for a multiplier cap below the
/// floor, or for an address that is not the derived one.
pub open spec fn init_rejection(
    config: ProgramConfig,
    ctx: InitializeStaking,
    record: Staking,
) -> Option<StakingError> {
    if !record.model.admissible() {
        Some(StakingError::InvalidMultiplier)
    } else if !(registry_derived(config.program, record, ctx.staking, ctx.escrow)
        && rewards_derived(config.program, record, ctx.rewards_account)) {
        Some(StakingError::InvalidDerivation)
    } else {
        None
    }
}

/// Sets up the record of a collection with its rate, its model, its start
/// time and its root.
pub fn handler(
    config: &ProgramConfig,
    ctx: &InitializeStaking,
    bumps: InitializeStakingBumps,
    daily_rewards: u64,
    model: RewardModel,
    start: i64,
    root: [u8; 32],
) -> (out: Result<Staking, StakingError>)
    ensures
        match out {
            Ok(record) => {
                &&& record == initial_record(*ctx, bumps, daily_rewards, model, start, root)
                &&& init_rejection(*config, *ctx, record) is None
            },
            Err(e) => init_rejection(
                *config,
                *ctx,
                initial_record(*ctx, bumps, daily_rewards, model, start, root),
            ) == Some(e),
        },
{
    let record = Staking {
        key: ctx.staking_key,
        owner: ctx.owner,
        bumps,
        escrow: ctx.escrow,
        mint: ctx.mint,
        rewards_account: ctx.rewards_account,
        nfts_staked: 0,
        daily_rewards,
        model,
        start,
        root,
        fees_exempt: false,
    };
    match model.validate() {
        Ok(_) => {},
        Err(e) => {
            return Err(e);
        },
    }
    if confirm_registry(&config.program, &record, &ctx.staking, &ctx.escrow).is_err() {
        return Err(StakingError::InvalidDerivation);
    }
    match confirm_rewards(&config.program, &record, &ctx.rewards_account) {
        Ok(_) => Ok(record),
        Err(e) => Err(e),
    }
}

} // verus!
