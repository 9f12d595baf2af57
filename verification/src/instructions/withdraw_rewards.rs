//! Taking reward tokens out of the vault.

use crate::bytes::Address;
use crate::errors::StakingError;
use crate::rewards::Balances;
use crate::state::{
    confirm_registry, confirm_rewards, registry_derived, rewards_derived, ProgramConfig, Staking,
};
use vstd::prelude::*;

verus! {

/// The accounts of a withdrawal.
#[derive(Clone, Copy, Debug, PartialEq, Eq)]
pub struct WithdrawRewards {
    /// The address of the collection's record.
    pub staking: Address,
    /// The escrow.
    pub escrow: Address,
    /// The mint of the reward token.
    pub mint: Address,
    /// The account that holds the reward token.
    pub rewards_account: Address,
    /// The administrator, who signs.
    pub owner: Address,
    /// The owner of the account that is to receive the tokens.
    pub owner_account_owner: Address,
    /// The mint of the account that is to receive the tokens.
    pub owner_account_mint: Address,
}

/// Every address named by a withdrawal is the derived one, and the tokens
/// go to an account of the reward token.
pub open spec fn withdraw_derived(
    config: ProgramConfig,
    ctx: WithdrawRewards,
    staking: Staking,
) -> bool {
    &&& registry_derived(config.program, staking, ctx.staking, ctx.escrow)
    &&& staking.mint@ == ctx.mint@
    &&& ctx.owner_account_mint@ == ctx.mint@
    &&& rewards_derived(config.program, staking, ctx.rewards_account)
}

/// Why a withdrawal is rejected, if it is. The reasons are tried in this
/// order: an address is not the derived one, or the tokens are not to go
/// to an account of the reward token; another party than the
/// administrator asks or receives; the vault holds less than the amount.
pub open spec fn withdraw_rejection(
    config: ProgramConfig,
    ctx: WithdrawRewards,
    staking: Staking,
    balances: Balances,
    amount: u64,
) -> Option<StakingError> {
    if !withdraw_derived(config, ctx, staking) {
        Some(StakingError::InvalidDerivation)
    } else if staking.owner@ != ctx.owner@ || ctx.owner_account_owner@ != ctx.owner@ {
        Some(StakingError::Unauthorized)
    } else if amount > balances.rewards_vault {
        Some(StakingError::InsufficientFunds)
    } else {
        None
    }
}

/// The balances after `amount` was taken out of the vault.
pub open spec fn after_withdrawal(balances: Balances, amount: u64) -> Balances {
    Balances { rewards_vault: (balances.rewards_vault - amount) as u64, ..balances }
}

/// What a withdrawal does. Accepted, the vault holds `amount` less, and
/// `amount` is what the escrow is to move to the administrator's account.
/// Rejected, the reason is named and the balances are as they were.
pub open spec fn withdraw_outcome(
    config: ProgramConfig,
    ctx: WithdrawRewards,
    staking: Staking,
    balances: Balances,
    balances_after: Balances,
    amount: u64,
    out: Result<u64, StakingError>,
) -> bool {
    match out {
        Ok(moved) => {
            &&& withdraw_rejection(config, ctx, staking, balances, amount) is None
            &&& moved == amount
            &&& amount <= balances.rewards_vault
            &&& balances_after == after_withdrawal(balances, amount)
        },
        Err(e) => {
            &&& withdraw_rejection(config, ctx, staking, balances, amount) == Some(e)
            &&& balances_after == balances
        },
    }
}

/// Lets the administrator take `amount` of the reward token out of the
/// vault. Returns the amount that the escrow is to move to the
/// administrator's account. An amount above what the vault holds is
/// rejected. No record changes: no stake is affected.
pub fn handler(
    config: &ProgramConfig,
    ctx: &WithdrawRewards,
    staking: &Staking,
    balances: &mut Balances,
    amount: u64,
) -> (out: Result<u64, StakingError>)
    ensures
        withdraw_outcome(
            *config,
            *ctx,
            *staking,
            *old(balances),
            *final(balances),
            amount,
            out,
        ),
{
    if confirm_registry(&config.program, staking, &ctx.staking, &ctx.escrow).is_err() {
        return Err(StakingError::InvalidDerivation);
    }
    if !staking.mint.same_as(&ctx.mint) || !ctx.owner_account_mint.same_as(&ctx.mint) {
        return Err(StakingError::InvalidDerivation);
    }
    if confirm_rewards(&config.program, staking, &ctx.rewards_account).is_err() {
        return Err(StakingError::InvalidDerivation);
    }
    if !staking.owner.same_as(&ctx.owner) || !ctx.owner_account_owner.same_as(&ctx.owner) {
        return Err(StakingError::Unauthorized);
    }
    if amount > balances.rewards_vault {
        return Err(StakingError::InsufficientFunds);
    }
    balances.rewards_vault = balances.rewards_vault - amount;
    Ok(amount)
}

} // verus!
