//! Unstaking a token through the metadata program, by the delegate's role.

use crate::bytes::Address;
use crate::custody::{ReleaseRoute, TokenDelegateRole, TokenStandard};
use crate::errors::StakingError;
use crate::lifecycle::{unstake, unstake_outcome, UnstakeAccounts, Unstaked};
use crate::rewards::Balances;
use crate::state::{ProgramConfig, StakedNft, Staking};
use vstd::prelude::*;

verus! {

/// The accounts of a request to unstake a token through the metadata program,
/// with the delegate's role read from the token's record.
#[derive(Clone, Copy, Debug, PartialEq, Eq)]
pub struct UnstakeMpl {
    /// The address of the collection's record.
    pub staking: Address,
    /// The escrow.
    pub escrow: Address,
    /// The account that holds the reward token.
    pub rewards_account: Address,
    /// The owner of the token, who signs.
    pub staker: Address,
    /// The token.
    pub mint: Address,
    /// The owner of the account that holds the token.
    pub staker_account_owner: Address,
    /// The owner of the account that is to receive the reward.
    pub staker_rewards_account_owner: Address,
    /// The account that is to receive the fee.
    pub fee_receiver_account: Address,
    /// The token's standard, where its metadata records one.
    pub token_standard: Option<TokenStandard>,
    /// The role of the delegate on the token's record, where it has one.
    pub delegate_role: Option<TokenDelegateRole>,
    /// The time, in seconds of the epoch.
    pub clock: i64,
}

impl UnstakeMpl {
    /// The accounts as unstaking reads them.
    pub open spec fn accounts(self) -> UnstakeAccounts {
        UnstakeAccounts {
            staking: self.staking,
            escrow: self.escrow,
            deposit_account: None,
            rewards_account: Some(self.rewards_account),
            staker: self.staker,
            mint: self.mint,
            holder: self.staker_account_owner,
            reward_holder: Some(self.staker_rewards_account_owner),
            fee_receiver: self.fee_receiver_account,
            token_standard: self.token_standard,
            delegate_role: self.delegate_role,
            now: self.clock,
        }
    }

    /// The accounts as unstaking reads them.
    pub fn to_accounts(&self) -> (accounts: UnstakeAccounts)
        ensures
            accounts == self.accounts(),
    {
        UnstakeAccounts {
            staking: self.staking,
            escrow: self.escrow,
            deposit_account: None,
            rewards_account: Some(self.rewards_account),
            staker: self.staker,
            mint: self.mint,
            holder: self.staker_account_owner,
            reward_holder: Some(self.staker_rewards_account_owner),
            fee_receiver: self.fee_receiver_account,
            token_standard: self.token_standard,
            delegate_role: self.delegate_role,
            now: self.clock,
        }
    }
}

/// Unstakes a token by unlocking it and then revoking the delegation, both
/// under the escrow's authority, and settles its reward. The revocation
/// fits the role of the delegate on record: another one would fail.
pub fn handler(
    config: &ProgramConfig,
    ctx: &UnstakeMpl,
    staking: &mut Staking,
    staked_nft: &StakedNft,
    balances: &mut Balances,
) -> (out: Result<Unstaked, StakingError>)
    ensures
        unstake_outcome(
            *config,
            ReleaseRoute::DelegatedLockByRole,
            *old(staking),
            *final(staking),
            *staked_nft,
            *old(balances),
            *final(balances),
            ctx.accounts(),
            out,
        ),
{
    let accounts = ctx.to_accounts();
    unstake(config, ReleaseRoute::DelegatedLockByRole, staking, staked_nft, balances, &accounts)
}

} // verus!
