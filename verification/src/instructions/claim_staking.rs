//! Claiming the reward of a staked token.

use crate::bytes::Address;
use crate::errors::StakingError;
use crate::lifecycle::{claim, claim_outcome, ClaimAccounts};
use crate::rewards::Balances;
use crate::state::{ProgramConfig, StakedNft, Staking};
use vstd::prelude::*;

verus! {

/// The accounts of a claim.
#[derive(Clone, Copy, Debug, PartialEq, Eq)]
pub struct ClaimStaking {
    /// The address of the collection's record.
    pub staking: Address,
    /// The escrow.
    pub escrow: Address,
    /// The address of the token's record.
    pub staked_nft: Address,
    /// The party that staked the token, who signs.
    pub staker: Address,
    /// The mint of the reward token.
    pub mint: Address,
    /// The owner of the account that is to receive the reward.
    pub staker_account_owner: Address,
    /// The mint of the account that is to receive the reward.
    pub staker_account_mint: Address,
    /// The account that holds the reward token.
    pub rewards_account: Address,
    /// The time, in seconds of the epoch.
    pub clock: i64,
}

impl ClaimStaking {
    /// The accounts as a claim reads them.
    pub open spec fn accounts(self) -> ClaimAccounts {
        ClaimAccounts {
            staking: self.staking,
            escrow: self.escrow,
            staked_nft: self.staked_nft,
            staker: self.staker,
            mint: self.mint,
            holder: self.staker_account_owner,
            holder_mint: self.staker_account_mint,
            rewards_account: self.rewards_account,
            now: self.clock,
        }
    }

    /// The accounts as a claim reads them.
    pub fn to_accounts(&self) -> (accounts: ClaimAccounts)
        ensures
            accounts == self.accounts(),
    {
        ClaimAccounts {
            staking: self.staking,
            escrow: self.escrow,
            staked_nft: self.staked_nft,
            staker: self.staker,
            mint: self.mint,
            holder: self.staker_account_owner,
            holder_mint: self.staker_account_mint,
            rewards_account: self.rewards_account,
            now: self.clock,
        }
    }
}

/// Claims the reward that a staked token has accrued since the last claim.
/// Where the vault holds less, nothing is paid and the claim still
/// succeeds. Returns what was paid.
pub fn handler(
    config: &ProgramConfig,
    ctx: &ClaimStaking,
    staking: &Staking,
    staked_nft: &mut StakedNft,
    balances: &mut Balances,
) -> (out: Result<u64, StakingError>)
    ensures
        claim_outcome(
            *config,
            *staking,
            *old(staked_nft),
            *final(staked_nft),
            *old(balances),
            *final(balances),
            ctx.accounts(),
            out,
        ),
{
    let accounts = ctx.to_accounts();
    claim(config, staking, staked_nft, balances, &accounts)
}

} // verus!
