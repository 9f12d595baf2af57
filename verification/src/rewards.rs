//! What a staked token earns, and what staking costs.
//!
//! Rewards accrue with time, in whole units: what a claim loses to division
//! is lost for good. Fees are a fixed amount, owed on every stake and
//! unstake unless the collection is exempt.

use crate::errors::StakingError;
use vstd::prelude::*;

verus! {

/// The seconds of a day.
pub const SECONDS_PER_DAY: u64 = 86400;

/// The fee of one stake or unstake, in the ledger's smallest unit.
pub const FEES_LAMPORTS: u64 = 10_000_000;

/// The least cap that a rarity multiplier may be given: 1.0 in basis points.
pub const MULTIPLIER_FLOOR: u64 = 10000;

/// How a collection turns rarity into rewards.
#[derive(Clone, Copy, Debug, PartialEq, Eq, Structural)]
pub enum RewardModel {
    /// The rate is paid per day and per unit of the multiplier.
    Flat,
    /// The multiplier counts hundredths, and is capped for the rarest token.
    RarityNormalized { max_rarity: u64, max_rarity_multiplier: u64 },
}

impl RewardModel {
    /// What the product of rate, multiplier and time is divided by before
    /// it is divided by the seconds of a day.
    pub open spec fn divisor(self) -> int {
        match self {
            RewardModel::Flat => 1,
            RewardModel::RarityNormalized { .. } => 100,
        }
    }

    /// The multiplier's cap is not below the floor.
    pub open spec fn admissible(self) -> bool {
        match self {
            RewardModel::Flat => true,
            RewardModel::RarityNormalized { max_rarity, max_rarity_multiplier } =>
                max_rarity_multiplier >= MULTIPLIER_FLOOR,
        }
    }

    /// The divisor of the model.
    pub fn normalization(&self) -> (n: u64)
        ensures
            n == self.divisor(),
    {
        match self {
            RewardModel::Flat => 1,
            RewardModel::RarityNormalized { .. } => 100,
        }
    }

    /// Accepts the model, or rejects a multiplier cap below the floor.
    pub fn validate(&self) -> (out: Result<(), StakingError>)
        ensures
            out is Ok <==> self.admissible(),
            out is Err ==> out == Err::<(), StakingError>(StakingError::InvalidMultiplier),
    {
        match self {
            RewardModel::Flat => Ok(()),
            RewardModel::RarityNormalized { max_rarity, max_rarity_multiplier } => {
                if *max_rarity_multiplier >= MULTIPLIER_FLOOR {
                    Ok(())
                } else {
                    Err(StakingError::InvalidMultiplier)
                }
            },
        }
    }
}

/// The seconds from the last claim to `now`; none where `now` is earlier.
pub open spec fn elapsed_seconds(last_claim_at: i64, now: i64) -> int {
    if now >= last_claim_at {
        now - last_claim_at
    } else {
        0
    }
}

/// The reward for `elapsed` seconds: rate times multiplier times seconds,
/// divided by the model's divisor and then by the seconds of a day, each
/// division dropping its remainder.
pub open spec fn reward_for(rate: u64, multiplier: u64, elapsed: int, model: RewardModel) -> int {
    ((rate * multiplier * elapsed) / model.divisor()) / (SECONDS_PER_DAY as int)
}

/// The reward that has accrued since the last claim.
pub open spec fn reward_due(
    rate: u64,
    multiplier: u64,
    last_claim_at: i64,
    now: i64,
    model: RewardModel,
) -> int {
    reward_for(rate, multiplier, elapsed_seconds(last_claim_at, now), model)
}

/// What is paid of a reward that is due: all of it where the vault holds as
/// much, else nothing.
pub open spec fn reward_paid(due: int, vault: u64) -> int {
    if due <= vault {
        due
    } else {
        0
    }
}

/// The fee owed by a collection.
pub open spec fn fee_due(exempt: bool) -> int {
    if exempt {
        0
    } else {
        FEES_LAMPORTS as int
    }
}

/// The balances that an operation may move: those of the party that pays
/// the fee, of the fee collector and of the reward vault.
#[derive(Clone, Copy, Debug, PartialEq, Eq, Structural)]
pub struct Balances {
    pub fee_payer: u64,
    pub fee_receiver: u64,
    pub rewards_vault: u64,
}

/// The balances after the fee, where the payer has it and the collector has
/// room for it.
pub open spec fn after_fee(b: Balances, exempt: bool) -> Option<Balances> {
    if b.fee_payer >= fee_due(exempt) && b.fee_receiver + fee_due(exempt) <= u64::MAX {
        Some(
            Balances {
                fee_payer: (b.fee_payer - fee_due(exempt)) as u64,
                fee_receiver: (b.fee_receiver + fee_due(exempt)) as u64,
                rewards_vault: b.rewards_vault,
            },
        )
    } else {
        None
    }
}

/// The balances after a reward of `due` was settled.
pub open spec fn after_reward(b: Balances, due: int) -> Balances {
    Balances {
        fee_payer: b.fee_payer,
        fee_receiver: b.fee_receiver,
        rewards_vault: (b.rewards_vault - reward_paid(due, b.rewards_vault)) as u64,
    }
}

/// The seconds from the last claim to `now`.
pub fn seconds_since(last_claim_at: i64, now: i64) -> (elapsed: u64)
    ensures
        elapsed == elapsed_seconds(last_claim_at, now),
{
    if now >= last_claim_at {
        let wide: i128 = now as i128 - last_claim_at as i128;
        wide as u64
    } else {
        0
    }
}

/// The reward that has accrued since the last claim, where it fits the
/// ledger's amounts.
pub fn pending_reward(
    rate: u64,
    multiplier: u64,
    last_claim_at: i64,
    now: i64,
    model: RewardModel,
) -> (out: Option<u64>)
    ensures
        match out {
            Some(amount) => amount == reward_due(rate, multiplier, last_claim_at, now, model),
            None => reward_due(rate, multiplier, last_claim_at, now, model) > u64::MAX,
        },
{
    let elapsed: u64 = seconds_since(last_claim_at, now);
    let divisor: u64 = model.normalization();
    let weighted: u128 = wide_product(rate, multiplier);
    match weighted.checked_mul(elapsed as u128) {
        Some(total) => {
            let amount: u128 = total / (divisor as u128) / (SECONDS_PER_DAY as u128);
            assert(rate * multiplier * (elapsed as int) == total) by (nonlinear_arith)
                requires
                    weighted == rate * multiplier,
                    total == weighted * elapsed,
            ;
            if amount <= u64::MAX as u128 {
                Some(amount as u64)
            } else {
                None
            }
        },
        None => {
            proof {
                let total: int = rate * multiplier * (elapsed as int);
                assert(total == weighted * elapsed) by (nonlinear_arith)
                    requires
                        weighted == rate * multiplier,
                        total == rate * multiplier * (elapsed as int),
                ;
                lemma_huge_total_exceeds(total, model);
            }
            None
        },
    }
}

/// The product of two amounts.
fn wide_product(a: u64, b: u64) -> (p: u128)
    ensures
        p == a * b,
{
    assert(a * b <= 0xffff_ffff_ffff_ffff * 0xffff_ffff_ffff_ffff) by (nonlinear_arith)
        requires
            0 <= a <= 0xffff_ffff_ffff_ffff,
            0 <= b <= 0xffff_ffff_ffff_ffff,
    ;
    (a as u128) * (b as u128)
}

/// A product beyond 128 bits gives a reward beyond 64 bits.
proof fn lemma_huge_total_exceeds(total: int, model: RewardModel)
    requires
        total > u128::MAX,
    ensures
        (total / model.divisor()) / (SECONDS_PER_DAY as int) > u64::MAX,
{
    match model {
        RewardModel::Flat => {},
        RewardModel::RarityNormalized { .. } => {},
    }
}

/// Charges the fee of one stake or unstake, unless the collection is
/// exempt. Where the payer lacks it, or the collector has no room for it,
/// nothing is moved.
pub fn charge_fee(balances: &mut Balances, exempt: bool) -> (out: Result<(), StakingError>)
    ensures
        match out {
            Ok(_) => after_fee(*old(balances), exempt) == Some(*final(balances)),
            Err(e) => {
                &&& e == StakingError::InvalidFee
                &&& after_fee(*old(balances), exempt) is None
                &&& *final(balances) == *old(balances)
            },
        },
{
    if exempt {
        return Ok(());
    }
    let debited: u64 = match balances.fee_payer.checked_sub(FEES_LAMPORTS) {
        Some(rest) => rest,
        None => {
            return Err(StakingError::InvalidFee);
        },
    };
    let credited: u64 = match balances.fee_receiver.checked_add(FEES_LAMPORTS) {
        Some(sum) => sum,
        None => {
            return Err(StakingError::InvalidFee);
        },
    };
    balances.fee_payer = debited;
    balances.fee_receiver = credited;
    Ok(())
}

/// Settles the reward that has accrued since the last claim: pays all of
/// it out of the vault where the vault holds as much, and nothing
/// otherwise. Returns what was paid.
pub fn settle_reward(
    balances: &mut Balances,
    rate: u64,
    multiplier: u64,
    last_claim_at: i64,
    now: i64,
    model: RewardModel,
) -> (paid: u64)
    ensures
        paid == reward_paid(
            reward_due(rate, multiplier, last_claim_at, now, model),
            old(balances).rewards_vault,
        ),
        *final(balances) == after_reward(
            *old(balances),
            reward_due(rate, multiplier, last_claim_at, now, model),
        ),
{
    match pending_reward(rate, multiplier, last_claim_at, now, model) {
        Some(amount) => {
            if amount <= balances.rewards_vault {
                balances.rewards_vault = balances.rewards_vault - amount;
                amount
            } else {
                0
            }
        },
        None => 0,
    }
}

/// No time, no reward: a claim at the time of the last claim is due
/// nothing, and is paid nothing.
pub proof fn lemma_no_time_no_reward(
    rate: u64,
    multiplier: u64,
    at: i64,
    model: RewardModel,
    vault: u64,
)
    ensures
        reward_due(rate, multiplier, at, at, model) == 0,
        reward_paid(reward_due(rate, multiplier, at, at, model), vault) == 0,
{
    assert(rate * multiplier * 0 == 0) by (nonlinear_arith);
    match model {
        RewardModel::Flat => {},
        RewardModel::RarityNormalized { .. } => {},
    }
}

/// More time never gives less: for one rate, multiplier and model, the
/// reward does not decrease as time passes.
pub proof fn lemma_reward_monotonic(
    rate: u64,
    multiplier: u64,
    last_claim_at: i64,
    sooner: i64,
    later: i64,
    model: RewardModel,
)
    requires
        sooner <= later,
    ensures
        reward_due(rate, multiplier, last_claim_at, sooner, model) <= reward_due(
            rate,
            multiplier,
            last_claim_at,
            later,
            model,
        ),
{
    let e1 = elapsed_seconds(last_claim_at, sooner);
    let e2 = elapsed_seconds(last_claim_at, later);
    assert(rate * multiplier * e1 <= rate * multiplier * e2) by (nonlinear_arith)
        requires
            0 <= e1 <= e2,
            0 <= rate,
            0 <= multiplier,
    ;
    match model {
        RewardModel::Flat => {},
        RewardModel::RarityNormalized { .. } => {},
    }
}

/// Claiming in two steps never earns more than claiming once: the rewards
/// of two spans of time add up to no more than the reward of the two spans
/// taken together. What division drops is lost to the claimant, never to
/// the vault.
pub proof fn lemma_split_claims_earn_no_more(
    rate: u64,
    multiplier: u64,
    first: int,
    second: int,
    model: RewardModel,
)
    requires
        0 <= first,
        0 <= second,
    ensures
        reward_for(rate, multiplier, first, model) + reward_for(rate, multiplier, second, model)
            <= reward_for(rate, multiplier, first + second, model),
{
    let weighted: int = rate * multiplier;
    assert(weighted * (first + second) == weighted * first + weighted * second
        && weighted * first >= 0 && weighted * second >= 0) by (nonlinear_arith)
        requires
            0 <= weighted,
            0 <= first,
            0 <= second,
    ;
    match model {
        RewardModel::Flat => {},
        RewardModel::RarityNormalized { .. } => {},
    }
}

/// A reward is never negative.
pub proof fn lemma_reward_not_negative(
    rate: u64,
    multiplier: u64,
    last_claim_at: i64,
    now: i64,
    model: RewardModel,
)
    ensures
        reward_due(rate, multiplier, last_claim_at, now, model) >= 0,
{
    let e = elapsed_seconds(last_claim_at, now);
    assert(rate * multiplier * e >= 0) by (nonlinear_arith)
        requires
            0 <= e,
            0 <= rate,
            0 <= multiplier,
    ;
    match model {
        RewardModel::Flat => {},
        RewardModel::RarityNormalized { .. } => {},
    }
}

/// Fee and reward do not meet: the fee moves what the payer and the
/// collector hold, the reward what the vault holds. Whichever is settled
/// first, the balances end the same, the same reward is paid, and the fee
/// fails on the same balances.
pub proof fn lemma_fee_and_reward_commute(b: Balances, exempt: bool, due: int)
    ensures
        after_fee(after_reward(b, due), exempt) == match after_fee(b, exempt) {
            Some(charged) => Some(after_reward(charged, due)),
            None => None,
        },
        after_fee(b, exempt) matches Some(charged) ==> reward_paid(due, charged.rewards_vault)
            == reward_paid(due, b.rewards_vault),
{
}

} // verus!
