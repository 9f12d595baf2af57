//! Unstaking a token that a royalty policy governs.

use crate::bytes::Address;
use crate::custody::{ReleaseRoute};
use crate::errors::StakingError;
use crate::lifecycle::{unstake, unstake_outcome, UnstakeAccounts, Unstaked};
use crate::rewards::Balances;
use crate::state::{ProgramConfig, StakedNft, Staking};
use vstd::prelude::*;

verus! {

/// The accounts of a request to unstake a token under a royalty policy.
#[derive(Clone, Copy, Debug, PartialEq, Eq)]
pub struct UnstakeOcp {
    /// The address of the collection's record.
    pub staking: Address,
    /// The escrow.
    pub escrow: Address,
    /// The account that holds the reward token.
    pub rewards_account: Address,
    /// The owner of the token, who signs.
    pub staker: Address,
    /// The token.
    pub mint: Address,
    /// The owner of the account that is to receive the reward.
    pub staker_rewards_account_owner: Address,
    /// The account that is to receive the fee.
    pub fee_receiver_account: Address,
    /// The time, in seconds of the epoch.
    pub clock: i64,
}

impl UnstakeOcp {
    /// The accounts as unstaking reads them.
    pub open spec fn accounts(self) -> UnstakeAccounts {
        UnstakeAccounts {
            staking: self.staking,
            escrow: self.escrow,
            deposit_account: None,
            rewards_account: Some(self.rewards_account),
            staker: self.staker,
            mint: self.mint,
            holder: self.staker,
            reward_holder: Some(self.staker_rewards_account_owner),
            fee_receiver: self.fee_receiver_account,
            token_standard: None,
            delegate_role: None,
            now: self.clock,
        }
    }

    /// The accounts as unstaking reads them.
    pub fn to_accounts(&self) -> (accounts: UnstakeAccounts)
        ensures
            accounts == self.accounts(),
    {
        UnstakeAccounts {
            staking: self.staking,
            escrow: self.escrow,
            deposit_account: None,
            rewards_account: Some(self.rewards_account),
            staker: self.staker,
            mint: self.mint,
            holder: self.staker,
            reward_holder: Some(self.staker_rewards_account_owner),
            fee_receiver: self.fee_receiver_account,
            token_standard: None,
            delegate_role: None,
            now: self.clock,
        }
    }
}

/// Unstakes a token by unlocking it through the policy program, and settles its reward.
pub fn handler(
    config: &ProgramConfig,
    ctx: &UnstakeOcp,
    staking: &mut Staking,
    staked_nft: &StakedNft,
    balances: &mut Balances,
) -> (out: Result<Unstaked, StakingError>)
    ensures
        unstake_outcome(
            *config,
            ReleaseRoute::PolicyEnforced,
            *old(staking),
            *final(staking),
            *staked_nft,
            *old(balances),
            *final(balances),
            ctx.accounts(),
            out,
        ),
{
    let accounts = ctx.to_accounts();
    unstake(config, ReleaseRoute::PolicyEnforced, staking, staked_nft, balances, &accounts)
}

} // verus!
