//! Bringing the record of a collection to the present layout.

use crate::bytes::Address;
use crate::errors::StakingError;
use crate::rewards::RewardModel;
use crate::state::{confirm_registry, registry_derived, InitializeStakingBumps, ProgramConfig};
use vstd::prelude::*;

verus! {

/// The record of a collection in its earlier layout: without the
/// exemption from fees and without a reward model.
#[derive(Clone, Copy, Debug, PartialEq, Eq)]
pub struct Staking {
    pub key: Address,
    pub owner: Address,
    pub bumps: InitializeStakingBumps,
    pub escrow: Address,
    pub mint: Address,
    pub rewards_account: Address,
    pub nfts_staked: u64,
    pub daily_rewards: u64,
    pub start: i64,
    pub root: [u8; 32],
}

/// The accounts of a migration.
#[derive(Clone, Copy, Debug, PartialEq, Eq)]
pub struct MigrateStaking {
    /// The address of the collection's record.
    pub staking: Address,
    /// The signer.
    pub auth: Address,
}

/// The present record that stands for an earlier one: fees are owed, and
/// the rate is flat.
pub open spec fn migrated(earlier: Staking) -> crate::state::Staking {
    crate::state::Staking {
        key: earlier.key,
        owner: earlier.owner,
        bumps: earlier.bumps,
        escrow: earlier.escrow,
        mint: earlier.mint,
        rewards_account: earlier.rewards_account,
        nfts_staked: earlier.nfts_staked,
        daily_rewards: earlier.daily_rewards,
        model: RewardModel::Flat,
        start: earlier.start,
        root: earlier.root,
        fees_exempt: false,
    }
}

/// Why a migration is rejected, if it is: the record is not at its
/// derived address, or does not name the derived escrow; or the signer is
/// not the fee authority.
pub open spec fn migrate_rejection(
    config: ProgramConfig,
    ctx: MigrateStaking,
    earlier: Staking,
) -> Option<StakingError> {
    if !registry_derived(config.program, migrated(earlier), ctx.staking, earlier.escrow) {
        Some(StakingError::InvalidDerivation)
    } else if ctx.auth@ != config.fee_authority@ {
        Some(StakingError::Unauthorized)
    } else {
        None
    }
}

/// Brings a record to the present layout. Only the fee authority may.
pub fn handler(config: &ProgramConfig, ctx: &MigrateStaking, earlier: &Staking) -> (out: Result<
    crate::state::Staking,
    StakingError,
>)
    ensures
        match out {
            Ok(record) => migrate_rejection(*config, *ctx, *earlier) is None && record == migrated(
                *earlier,
            ),
            Err(e) => migrate_rejection(*config, *ctx, *earlier) == Some(e),
        },
{
    let record = crate::state::Staking {
        key: earlier.key,
        owner: earlier.owner,
        bumps: earlier.bumps,
        escrow: earlier.escrow,
        mint: earlier.mint,
        rewards_account: earlier.rewards_account,
        nfts_staked: earlier.nfts_staked,
        daily_rewards: earlier.daily_rewards,
        model: RewardModel::Flat,
        start: earlier.start,
        root: earlier.root,
        fees_exempt: false,
    };
    if confirm_registry(&config.program, &record, &ctx.staking, &earlier.escrow).is_err() {
        return Err(StakingError::InvalidDerivation);
    }
    if !ctx.auth.same_as(&config.fee_authority) {
        return Err(StakingError::Unauthorized);
    }
    Ok(record)
}

} // verus!
