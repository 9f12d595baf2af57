//! Unstaking a deposited token.

use crate::bytes::Address;
use crate::custody::{ReleaseRoute};
use crate::errors::StakingError;
use crate::lifecycle::{unstake, unstake_outcome, UnstakeAccounts, Unstaked};
use crate::rewards::Balances;
use crate::state::{ProgramConfig, StakedNft, Staking};
use vstd::prelude::*;

verus! {

/// The accounts of a request to unstake a deposited token.
#[derive(Clone, Copy, Debug, PartialEq, Eq)]
pub struct UnstakeNft {
    /// The address of the collection's record.
    pub staking: Address,
    /// The escrow.
    pub escrow: Address,
    /// The owner of the token, who signs.
    pub staker: Address,
    /// The token.
    pub mint: Address,
    /// The owner of the account that holds the token.
    pub staker_account_owner: Address,
    /// The account that holds the token while it is staked.
    pub deposit_account: Address,
    /// The account that is to receive the fee.
    pub fee_receiver_account: Address,
}

impl UnstakeNft {
    /// The accounts as unstaking reads them.
    pub open spec fn accounts(self) -> UnstakeAccounts {
        UnstakeAccounts {
            staking: self.staking,
            escrow: self.escrow,
            deposit_account: Some(self.deposit_account),
            rewards_account: None,
            staker: self.staker,
            mint: self.mint,
            holder: self.staker_account_owner,
            reward_holder: None,
            fee_receiver: self.fee_receiver_account,
            token_standard: None,
            delegate_role: None,
            now: 0,
        }
    }

    /// The accounts as unstaking reads them.
    pub fn to_accounts(&self) -> (accounts: UnstakeAccounts)
        ensures
            accounts == self.accounts(),
    {
        UnstakeAccounts {
            staking: self.staking,
            escrow: self.escrow,
            deposit_account: Some(self.deposit_account),
            rewards_account: None,
            staker: self.staker,
            mint: self.mint,
            holder: self.staker_account_owner,
            reward_holder: None,
            fee_receiver: self.fee_receiver_account,
            token_standard: None,
            delegate_role: None,
            now: 0,
        }
    }
}

/// Unstakes a token by moving it out of the deposit account and closing that
/// account. No reward is settled: it is claimed before.
pub fn handler(
    config: &ProgramConfig,
    ctx: &UnstakeNft,
    staking: &mut Staking,
    staked_nft: &StakedNft,
    balances: &mut Balances,
) -> (out: Result<Unstaked, StakingError>)
    ensures
        unstake_outcome(
            *config,
            ReleaseRoute::DirectDeposit,
            *old(staking),
            *final(staking),
            *staked_nft,
            *old(balances),
            *final(balances),
            ctx.accounts(),
            out,
        ),
{
    let accounts = ctx.to_accounts();
    unstake(config, ReleaseRoute::DirectDeposit, staking, staked_nft, balances, &accounts)
}

} // verus!
