//! Staking a token by deposit.

use crate::bytes::Address;
use crate::custody::{CustodyAction, CustodyVariant};
use crate::errors::StakingError;
use crate::lifecycle::{stake, stake_outcome, StakeAccounts};
use crate::rewards::Balances;
use crate::state::{ProgramConfig, StakedNft, StakedNftBumps, Staking};
use vstd::prelude::*;

verus! {

/// The accounts of a request to stake a token by deposit.
#[derive(Clone, Copy, Debug, PartialEq, Eq)]
pub struct StakeNft {
    /// The address of the collection's record.
    pub staking: Address,
    /// The escrow.
    pub escrow: Address,
    /// The address of the token's record.
    pub staked_nft: Address,
    /// The owner of the token, who signs.
    pub staker: Address,
    /// The token.
    pub mint: Address,
    /// The owner of the account that holds the token.
    pub staker_account_owner: Address,
    /// The account that holds the token while it is staked.
    pub deposit_account: Address,
    /// The account that is to receive the fee.
    pub fee_receiver_account: Address,
    /// A record of the token exists already.
    pub staked_nft_exists: bool,
    /// The time, in seconds of the epoch.
    pub clock: i64,
}

impl StakeNft {
    /// The accounts as staking reads them.
    pub open spec fn accounts(self) -> StakeAccounts {
        StakeAccounts {
            staking: self.staking,
            escrow: self.escrow,
            staked_nft: self.staked_nft,
            deposit_account: Some(self.deposit_account),
            staker: self.staker,
            mint: self.mint,
            holder: self.staker_account_owner,
            fee_receiver: self.fee_receiver_account,
            record_exists: self.staked_nft_exists,
            token_standard: None,
            now: self.clock,
        }
    }

    /// The accounts as staking reads them.
    pub fn to_accounts(&self) -> (accounts: StakeAccounts)
        ensures
            accounts == self.accounts(),
    {
        StakeAccounts {
            staking: self.staking,
            escrow: self.escrow,
            staked_nft: self.staked_nft,
            deposit_account: Some(self.deposit_account),
            staker: self.staker,
            mint: self.mint,
            holder: self.staker_account_owner,
            fee_receiver: self.fee_receiver_account,
            record_exists: self.staked_nft_exists,
            token_standard: None,
            now: self.clock,
        }
    }
}

/// Stakes a token by moving it into the deposit account that the escrow owns.
pub fn handler(
    config: &ProgramConfig,
    ctx: &StakeNft,
    staking: &mut Staking,
    balances: &mut Balances,
    bumps: StakedNftBumps,
    proof: Vec<[u8; 32]>,
    rarity_multiplier: u64,
) -> (out: Result<(StakedNft, Vec<CustodyAction>), StakingError>)
    requires
        old(staking).nfts_staked < u64::MAX,
    ensures
        stake_outcome(
            *config,
            CustodyVariant::DirectDeposit,
            *old(staking),
            *final(staking),
            *old(balances),
            *final(balances),
            ctx.accounts(),
            bumps,
            proof@,
            rarity_multiplier,
            out,
        ),
{
    let accounts = ctx.to_accounts();
    stake(
        config,
        CustodyVariant::DirectDeposit,
        staking,
        balances,
        &accounts,
        bumps,
        proof,
        rarity_multiplier,
    )
}

} // verus!
