//! Unstaking a deposited token through the metadata program.

use crate::bytes::Address;
use crate::custody::{ReleaseRoute, TokenStandard};
use crate::errors::StakingError;
use crate::lifecycle::{unstake, unstake_outcome, UnstakeAccounts, Unstaked};
use crate::rewards::Balances;
use crate::state::{ProgramConfig, StakedNft, Staking};
use vstd::prelude::*;

verus! {

/// The accounts of a request to unstake a token that the escrow holds, through
/// the metadata program.
#[derive(Clone, Copy, Debug, PartialEq, Eq)]
pub struct UnstakeMplCustodial {
    /// The address of the collection's record.
    pub staking: Address,
    /// The escrow.
    pub escrow: Address,
    /// The account that holds the reward token.
    pub rewards_account: Address,
    /// The owner of the token, who signs.
    pub staker: Address,
    /// The token.
    pub mint: Address,
    /// The owner of the account that holds the token.
    pub staker_account_owner: Address,
    /// The owner of the account that is to receive the reward.
    pub staker_rewards_account_owner: Address,
    /// The account that holds the token while it is staked.
    pub deposit_account: Address,
    /// The account that is to receive the fee.
    pub fee_receiver_account: Address,
    /// The token's standard, where its metadata records one.
    pub token_standard: Option<TokenStandard>,
    /// The time, in seconds of the epoch.
    pub clock: i64,
}

impl UnstakeMplCustodial {
    /// The accounts as unstaking reads them.
    pub open spec fn accounts(self) -> UnstakeAccounts {
        UnstakeAccounts {
            staking: self.staking,
            escrow: self.escrow,
            deposit_account: Some(self.deposit_account),
            rewards_account: Some(self.rewards_account),
            staker: self.staker,
            mint: self.mint,
            holder: self.staker_account_owner,
            reward_holder: Some(self.staker_rewards_account_owner),
            fee_receiver: self.fee_receiver_account,
            token_standard: self.token_standard,
            delegate_role: None,
            now: self.clock,
        }
    }

    /// The accounts as unstaking reads them.
    pub fn to_accounts(&self) -> (accounts: UnstakeAccounts)
        ensures
            accounts == self.accounts(),
    {
        UnstakeAccounts {
            staking: self.staking,
            escrow: self.escrow,
            deposit_account: Some(self.deposit_account),
            rewards_account: Some(self.rewards_account),
            staker: self.staker,
            mint: self.mint,
            holder: self.staker_account_owner,
            reward_holder: Some(self.staker_rewards_account_owner),
            fee_receiver: self.fee_receiver_account,
            token_standard: self.token_standard,
            delegate_role: None,
            now: self.clock,
        }
    }
}

/// Unstakes a token that was deposited before its collection moved to another
/// standard: moves it back through the metadata program, closes the deposit
/// account, and settles its reward.
pub fn handler(
    config: &ProgramConfig,
    ctx: &UnstakeMplCustodial,
    staking: &mut Staking,
    staked_nft: &StakedNft,
    balances: &mut Balances,
) -> (out: Result<Unstaked, StakingError>)
    ensures
        unstake_outcome(
            *config,
            ReleaseRoute::Custodial,
            *old(staking),
            *final(staking),
            *staked_nft,
            *old(balances),
            *final(balances),
            ctx.accounts(),
            out,
        ),
{
    let accounts = ctx.to_accounts();
    unstake(config, ReleaseRoute::Custodial, staking, staked_nft, balances, &accounts)
}

} // verus!
