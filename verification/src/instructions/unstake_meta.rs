//! Unstaking a token through the metadata program, under the escrow.

use crate::bytes::Address;
use crate::custody::{ReleaseRoute, TokenStandard};
use crate::errors::StakingError;
use crate::lifecycle::{unstake, unstake_outcome, UnstakeAccounts, Unstaked};
use crate::rewards::Balances;
use crate::state::{ProgramConfig, StakedNft, Staking};
use vstd::prelude::*;

verus! {

/// The accounts of a request to unstake a token through the metadata program.
#[derive(Clone, Copy, Debug, PartialEq, Eq)]
pub struct UnstakeMeta {
    /// The address of the collection's record.
    pub staking: Address,
    /// The escrow.
    pub escrow: Address,
    /// The owner of the token, who signs.
    pub staker: Address,
    /// The token.
    pub mint: Address,
    /// The owner of the account that holds the token.
    pub staker_account_owner: Address,
    /// The account that is to receive the fee.
    pub fee_receiver_account: Address,
    /// The token's standard, where its metadata records one.
    pub token_standard: Option<TokenStandard>,
}

impl UnstakeMeta {
    /// The accounts as unstaking reads them.
    pub open spec fn accounts(self) -> UnstakeAccounts {
        UnstakeAccounts {
            staking: self.staking,
            escrow: self.escrow,
            deposit_account: None,
            rewards_account: None,
            staker: self.staker,
            mint: self.mint,
            holder: self.staker_account_owner,
            reward_holder: None,
            fee_receiver: self.fee_receiver_account,
            token_standard: self.token_standard,
            delegate_role: None,
            now: 0,
        }
    }

    /// The accounts as unstaking reads them.
    pub fn to_accounts(&self) -> (accounts: UnstakeAccounts)
        ensures
            accounts == self.accounts(),
    {
        UnstakeAccounts {
            staking: self.staking,
            escrow: self.escrow,
            deposit_account: None,
            rewards_account: None,
            staker: self.staker,
            mint: self.mint,
            holder: self.staker_account_owner,
            reward_holder: None,
            fee_receiver: self.fee_receiver_account,
            token_standard: self.token_standard,
            delegate_role: None,
            now: 0,
        }
    }
}

/// Unstakes a token by unlocking it and then revoking the delegation, under the
/// escrow's authority. The revocation fits the token's standard, which must be
/// on record. No reward is settled: it is claimed before.
pub fn handler(
    config: &ProgramConfig,
    ctx: &UnstakeMeta,
    staking: &mut Staking,
    staked_nft: &StakedNft,
    balances: &mut Balances,
) -> (out: Result<Unstaked, StakingError>)
    ensures
        unstake_outcome(
            *config,
            ReleaseRoute::DelegatedLock,
            *old(staking),
            *final(staking),
            *staked_nft,
            *old(balances),
            *final(balances),
            ctx.accounts(),
            out,
        ),
{
    let accounts = ctx.to_accounts();
    unstake(config, ReleaseRoute::DelegatedLock, staking, staked_nft, balances, &accounts)
}

} // verus!
