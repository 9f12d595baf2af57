//! The life of a stake: a token is staked, rewards are claimed, the token
//! is unstaked. Every check comes before any change, so an operation that
//! is rejected leaves the records and the balances as they were.

use crate::bytes::Address;
use crate::custody::{
    release_actions, release_plan, release_undetermined, stake_actions, stake_plan,
    stake_undetermined, CustodyAction, CustodyVariant, ReleaseRoute, TokenDelegateRole,
    TokenStandard,
};
use crate::errors::StakingError;
use crate::merkle_proof::{leaf, leaf_digest, proves, verify};
use crate::rewards::{
    after_fee, after_reward, charge_fee, reward_due, reward_paid, settle_reward, Balances,
};
use crate::state::{
    confirm_deposit, confirm_record, confirm_registry, confirm_rewards, deposit_derived,
    record_derived, registry_derived, rewards_derived, ProgramConfig, StakedNft, StakedNftBumps,
    Staking,
};
use vstd::prelude::*;

verus! {

/// The accounts named by a request to stake, and the time.
#[derive(Clone, Copy, Debug, PartialEq, Eq)]
pub struct StakeAccounts {
    /// The address of the collection's record.
    pub staking: Address,
    /// The escrow.
    pub escrow: Address,
    /// The address of the record to create for the token.
    pub staked_nft: Address,
    /// The deposit account, where the way of custody has one.
    pub deposit_account: Option<Address>,
    /// The party that stakes and signs.
    pub staker: Address,
    /// The token.
    pub mint: Address,
    /// The owner of the account that holds the token.
    pub holder: Address,
    /// The account that is to receive the fee.
    pub fee_receiver: Address,
    /// A record of the token exists already.
    pub record_exists: bool,
    /// The token's standard, where its metadata records one.
    pub token_standard: Option<TokenStandard>,
    /// The time, in seconds of the epoch.
    pub now: i64,
}

/// The accounts named by a request to unstake, and the time.
#[derive(Clone, Copy, Debug, PartialEq, Eq)]
pub struct UnstakeAccounts {
    /// The address of the collection's record.
    pub staking: Address,
    /// The escrow.
    pub escrow: Address,
    /// The deposit account, where the route has one.
    pub deposit_account: Option<Address>,
    /// The account that holds the reward token, where the route settles
    /// the reward.
    pub rewards_account: Option<Address>,
    /// The party that unstakes and signs.
    pub staker: Address,
    /// The token.
    pub mint: Address,
    /// The owner of the account that is to hold the token again.
    pub holder: Address,
    /// The owner of the account that is to receive the reward, where the
    /// route settles the reward.
    pub reward_holder: Option<Address>,
    /// The account that is to receive the fee.
    pub fee_receiver: Address,
    /// The token's standard, where its metadata records one.
    pub token_standard: Option<TokenStandard>,
    /// The role of the delegate on the token's record, where it has one.
    pub delegate_role: Option<TokenDelegateRole>,
    /// The time, in seconds of the epoch.
    pub now: i64,
}

/// The accounts named by a claim, and the time.
#[derive(Clone, Copy, Debug, PartialEq, Eq)]
pub struct ClaimAccounts {
    /// The address of the collection's record.
    pub staking: Address,
    /// The escrow.
    pub escrow: Address,
    /// The address of the token's record.
    pub staked_nft: Address,
    /// The party that claims and signs.
    pub staker: Address,
    /// The mint of the reward token.
    pub mint: Address,
    /// The owner of the account that is to receive the reward.
    pub holder: Address,
    /// The mint of the account that is to receive the reward.
    pub holder_mint: Address,
    /// The account that holds the reward token.
    pub rewards_account: Address,
    /// The time, in seconds of the epoch.
    pub now: i64,
}

/// What unstaking gives: the reward that was paid and the nested calls to
/// make.
#[derive(Debug)]
pub struct Unstaked {
    /// The reward that was paid out of the vault.
    pub paid: u64,
    /// The nested calls that give the token back, in order.
    pub actions: Vec<CustodyAction>,
}

/// The way of custody moves the token into a deposit account, or names one
/// as the delegate's account.
pub open spec fn variant_has_deposit(variant: CustodyVariant) -> bool {
    variant != CustodyVariant::DelegatedLock
}

/// The route takes the token out of a deposit account.
pub open spec fn route_has_deposit(route: ReleaseRoute) -> bool {
    route == ReleaseRoute::DirectDeposit || route == ReleaseRoute::Custodial
}

/// The route pays the reward that is due before the record goes. The other
/// routes leave it to a claim made before.
pub open spec fn route_settles(route: ReleaseRoute) -> bool {
    route == ReleaseRoute::DelegatedLockByRole || route == ReleaseRoute::PolicyEnforced || route
        == ReleaseRoute::Custodial
}

/// Every address named by a request to stake is the derived one.
pub open spec fn stake_derived(
    config: ProgramConfig,
    variant: CustodyVariant,
    staking: Staking,
    accounts: StakeAccounts,
    bumps: StakedNftBumps,
) -> bool {
    &&& registry_derived(config.program, staking, accounts.staking, accounts.escrow)
    &&& record_derived(config.program, accounts.mint, bumps.staked_nft, accounts.staked_nft)
    &&& variant_has_deposit(variant) ==> match accounts.deposit_account {
        Some(deposit) => deposit_derived(config.program, accounts.mint, bumps.deposit, deposit),
        None => false,
    }
}

/// Why a request to stake is rejected, if it is. The reasons are tried in
/// this order: the time is before the start; the proof does not show the
/// token with this multiplier in the collection; an address is not the
/// derived one; the token is not held by the staker; the token has a
/// record; its standard is needed and not on record; the fee is not to go
/// to the collector, or cannot be paid. The start time comes first: a
/// request made too early is rejected as such whatever else it holds.
pub open spec fn stake_rejection(
    config: ProgramConfig,
    variant: CustodyVariant,
    staking: Staking,
    balances: Balances,
    accounts: StakeAccounts,
    bumps: StakedNftBumps,
    proof: Seq<[u8; 32]>,
    rarity_multiplier: u64,
) -> Option<StakingError> {
    if accounts.now < staking.start {
        Some(StakingError::TooEarly)
    } else if !proves(proof, staking.root@, leaf_digest(accounts.mint@, rarity_multiplier)) {
        Some(StakingError::InvalidProof)
    } else if !stake_derived(config, variant, staking, accounts, bumps) {
        Some(StakingError::InvalidDerivation)
    } else if accounts.holder@ != accounts.staker@ {
        Some(StakingError::Unauthorized)
    } else if accounts.record_exists {
        Some(StakingError::AlreadyStaked)
    } else if stake_undetermined(variant, accounts.token_standard) {
        Some(StakingError::CouldNotDetermineTokenStandard)
    } else if accounts.fee_receiver@ != config.fee_collector@ || after_fee(
        balances,
        staking.fees_exempt,
    ) is None {
        Some(StakingError::InvalidFee)
    } else {
        None
    }
}

/// The record that staking creates: staked and last claimed at the time of
/// staking, with the multiplier that the leaf proved.
pub open spec fn staked_record(
    staking: Staking,
    accounts: StakeAccounts,
    bumps: StakedNftBumps,
    rarity_multiplier: u64,
) -> StakedNft {
    StakedNft {
        bumps,
        key: staking.key,
        mint: accounts.mint,
        staker: accounts.staker,
        rarity_multiplier,
        staked_at: accounts.now,
        last_claim: accounts.now,
    }
}

/// The collection's record with one token more or less staked.
pub open spec fn with_staked(staking: Staking, nfts_staked: int) -> Staking {
    Staking { nfts_staked: nfts_staked as u64, ..staking }
}

/// Every address named by a request to unstake is the derived one, and the
/// record is that of the token and of the collection.
pub open spec fn unstake_derived(
    config: ProgramConfig,
    route: ReleaseRoute,
    staking: Staking,
    record: StakedNft,
    accounts: UnstakeAccounts,
) -> bool {
    &&& registry_derived(config.program, staking, accounts.staking, accounts.escrow)
    &&& record.mint@ == accounts.mint@
    &&& record.key@ == staking.key@
    &&& route_has_deposit(route) ==> match accounts.deposit_account {
        Some(deposit) => deposit_derived(
            config.program,
            accounts.mint,
            record.bumps.deposit,
            deposit,
        ),
        None => false,
    }
    &&& route_settles(route) ==> match accounts.rewards_account {
        Some(vault) => rewards_derived(config.program, staking, vault),
        None => false,
    }
}

/// The token, and the reward where the route settles it, go to accounts of
/// the party that staked, and that party asks.
pub open spec fn unstake_authorized(
    route: ReleaseRoute,
    record: StakedNft,
    accounts: UnstakeAccounts,
) -> bool {
    &&& record.staker@ == accounts.staker@
    &&& accounts.holder@ == accounts.staker@
    &&& route_settles(route) ==> match accounts.reward_holder {
        Some(holder) => holder@ == accounts.staker@,
        None => false,
    }
}

/// Why a request to unstake is rejected, if it is. The reasons are tried in
/// this order: an address is not the derived one, or the record is of
/// another token or collection; another party than the staker asks or
/// receives; the collection counts no staked token; the token's standard
/// is needed and not on record; the fee is not to go to the collector, or
/// cannot be paid. A vault too short for the reward is no reason.
pub open spec fn unstake_rejection(
    config: ProgramConfig,
    route: ReleaseRoute,
    staking: Staking,
    record: StakedNft,
    balances: Balances,
    accounts: UnstakeAccounts,
) -> Option<StakingError> {
    if !unstake_derived(config, route, staking, record, accounts) {
        Some(StakingError::InvalidDerivation)
    } else if !unstake_authorized(route, record, accounts) {
        Some(StakingError::Unauthorized)
    } else if staking.nfts_staked == 0 {
        Some(StakingError::NotStaked)
    } else if release_undetermined(route, accounts.token_standard) {
        Some(StakingError::CouldNotDetermineTokenStandard)
    } else if accounts.fee_receiver@ != config.fee_collector@ || after_fee(
        balances,
        staking.fees_exempt,
    ) is None {
        Some(StakingError::InvalidFee)
    } else {
        None
    }
}

/// The reward that a record has accrued at `now`.
pub open spec fn record_reward(staking: Staking, record: StakedNft, now: i64) -> int {
    reward_due(
        staking.daily_rewards,
        record.rarity_multiplier,
        record.last_claim,
        now,
        staking.model,
    )
}

/// The reward that unstaking by `route` settles: what the record has
/// accrued, or nothing where the route leaves rewards to a claim.
pub open spec fn unstake_reward(
    route: ReleaseRoute,
    staking: Staking,
    record: StakedNft,
    now: i64,
) -> int {
    if route_settles(route) {
        record_reward(staking, record, now)
    } else {
        0
    }
}

/// Every address named by a claim is the derived one, the record is that of
/// the collection, and the reward goes to an account of the reward token.
pub open spec fn claim_derived(
    config: ProgramConfig,
    staking: Staking,
    record: StakedNft,
    accounts: ClaimAccounts,
) -> bool {
    &&& registry_derived(config.program, staking, accounts.staking, accounts.escrow)
    &&& record_derived(config.program, record.mint, record.bumps.staked_nft, accounts.staked_nft)
    &&& record.key@ == staking.key@
    &&& staking.mint@ == accounts.mint@
    &&& accounts.holder_mint@ == accounts.mint@
    &&& rewards_derived(config.program, staking, accounts.rewards_account)
}

/// Why a claim is rejected, if it is: an address is not the derived one,
/// or the record is of another collection; or another party than the
/// staker asks or receives. A vault too short for the reward is no reason.
pub open spec fn claim_rejection(
    config: ProgramConfig,
    staking: Staking,
    record: StakedNft,
    accounts: ClaimAccounts,
) -> Option<StakingError> {
    if !claim_derived(config, staking, record, accounts) {
        Some(StakingError::InvalidDerivation)
    } else if record.staker@ != accounts.staker@ || accounts.holder@ != accounts.staker@ {
        Some(StakingError::Unauthorized)
    } else {
        None
    }
}

/// What staking does. Accepted, it returns the token's record and the
/// nested calls of the way of custody, counts one token more and charges
/// the fee. Rejected, it names the reason and changes nothing.
pub open spec fn stake_outcome(
    config: ProgramConfig,
    variant: CustodyVariant,
    staking: Staking,
    staking_after: Staking,
    balances: Balances,
    balances_after: Balances,
    accounts: StakeAccounts,
    bumps: StakedNftBumps,
    proof: Seq<[u8; 32]>,
    rarity_multiplier: u64,
    out: Result<(StakedNft, Vec<CustodyAction>), StakingError>,
) -> bool {
    let rejection = stake_rejection(
        config,
        variant,
        staking,
        balances,
        accounts,
        bumps,
        proof,
        rarity_multiplier,
    );
    match out {
        Ok((record, actions)) => {
            &&& rejection is None
            &&& record == staked_record(staking, accounts, bumps, rarity_multiplier)
            &&& actions@ == stake_plan(variant, accounts.token_standard)
            &&& staking_after == with_staked(staking, staking.nfts_staked + 1)
            &&& Some(balances_after) == after_fee(balances, staking.fees_exempt)
        },
        Err(e) => {
            &&& rejection == Some(e)
            &&& staking_after == staking
            &&& balances_after == balances
        },
    }
}

/// What unstaking does. Accepted, it returns the nested calls of the route
/// and what was paid, counts one token less, charges the fee and settles
/// the reward of the route. Rejected, it names the reason and changes
/// nothing.
pub open spec fn unstake_outcome(
    config: ProgramConfig,
    route: ReleaseRoute,
    staking: Staking,
    staking_after: Staking,
    record: StakedNft,
    balances: Balances,
    balances_after: Balances,
    accounts: UnstakeAccounts,
    out: Result<Unstaked, StakingError>,
) -> bool {
    let rejection = unstake_rejection(config, route, staking, record, balances, accounts);
    let reward = unstake_reward(route, staking, record, accounts.now);
    match out {
        Ok(done) => {
            &&& rejection is None
            &&& done.actions@ == release_plan(
                route,
                accounts.token_standard,
                accounts.delegate_role,
            )
            &&& staking_after == with_staked(staking, staking.nfts_staked - 1)
            &&& match after_fee(balances, staking.fees_exempt) {
                Some(charged) => {
                    &&& balances_after == after_reward(charged, reward)
                    &&& done.paid == reward_paid(reward, charged.rewards_vault)
                },
                None => false,
            }
        },
        Err(e) => {
            &&& rejection == Some(e)
            &&& staking_after == staking
            &&& balances_after == balances
        },
    }
}

/// What a claim does. Accepted, it pays the reward that has accrued, or
/// nothing where the vault is short, and sets the time of the last claim.
/// Rejected, it names the reason and changes nothing.
pub open spec fn claim_outcome(
    config: ProgramConfig,
    staking: Staking,
    record: StakedNft,
    record_after: StakedNft,
    balances: Balances,
    balances_after: Balances,
    accounts: ClaimAccounts,
    out: Result<u64, StakingError>,
) -> bool {
    let rejection = claim_rejection(config, staking, record, accounts);
    let reward = record_reward(staking, record, accounts.now);
    match out {
        Ok(paid) => {
            &&& rejection is None
            &&& paid == reward_paid(reward, balances.rewards_vault)
            &&& balances_after == after_reward(balances, reward)
            &&& record_after == StakedNft { last_claim: accounts.now, ..record }
        },
        Err(e) => {
            &&& rejection == Some(e)
            &&& record_after == record
            &&& balances_after == balances
        },
    }
}

/// Whether the way of custody has a deposit account.
pub fn has_deposit(variant: CustodyVariant) -> (yes: bool)
    ensures
        yes == variant_has_deposit(variant),
{
    match variant {
        CustodyVariant::DelegatedLock => false,
        _ => true,
    }
}

/// Whether the route takes the token out of a deposit account.
pub fn takes_from_deposit(route: ReleaseRoute) -> (yes: bool)
    ensures
        yes == route_has_deposit(route),
{
    match route {
        ReleaseRoute::DirectDeposit => true,
        ReleaseRoute::Custodial => true,
        _ => false,
    }
}

/// Whether the route settles the reward.
pub fn settles(route: ReleaseRoute) -> (yes: bool)
    ensures
        yes == route_settles(route),
{
    match route {
        ReleaseRoute::DelegatedLockByRole => true,
        ReleaseRoute::PolicyEnforced => true,
        ReleaseRoute::Custodial => true,
        _ => false,
    }
}

/// Confirms every address named by a request to stake.
pub fn confirm_stake(
    config: &ProgramConfig,
    variant: CustodyVariant,
    staking: &Staking,
    accounts: &StakeAccounts,
    bumps: StakedNftBumps,
) -> (ok: bool)
    ensures
        ok == stake_derived(*config, variant, *staking, *accounts, bumps),
{
    if confirm_registry(&config.program, staking, &accounts.staking, &accounts.escrow).is_err() {
        return false;
    }
    if confirm_record(
        &config.program,
        &accounts.mint,
        bumps.staked_nft,
        &accounts.staked_nft,
    ).is_err() {
        return false;
    }
    if has_deposit(variant) {
        match &accounts.deposit_account {
            Some(deposit) => confirm_deposit(
                &config.program,
                &accounts.mint,
                bumps.deposit,
                deposit,
            ).is_ok(),
            None => false,
        }
    } else {
        true
    }
}

/// Confirms every address named by a request to unstake.
pub fn confirm_unstake(
    config: &ProgramConfig,
    route: ReleaseRoute,
    staking: &Staking,
    record: &StakedNft,
    accounts: &UnstakeAccounts,
) -> (ok: bool)
    ensures
        ok == unstake_derived(*config, route, *staking, *record, *accounts),
{
    if confirm_registry(&config.program, staking, &accounts.staking, &accounts.escrow).is_err() {
        return false;
    }
    if !record.mint.same_as(&accounts.mint) || !record.key.same_as(&staking.key) {
        return false;
    }
    if takes_from_deposit(route) {
        let derived = match &accounts.deposit_account {
            Some(deposit) => confirm_deposit(
                &config.program,
                &accounts.mint,
                record.bumps.deposit,
                deposit,
            ).is_ok(),
            None => false,
        };
        if !derived {
            return false;
        }
    }
    if settles(route) {
        match &accounts.rewards_account {
            Some(vault) => confirm_rewards(&config.program, staking, vault).is_ok(),
            None => false,
        }
    } else {
        true
    }
}

/// Confirms that the party that staked asks, and receives.
pub fn confirm_unstake_party(
    route: ReleaseRoute,
    record: &StakedNft,
    accounts: &UnstakeAccounts,
) -> (ok: bool)
    ensures
        ok == unstake_authorized(route, *record, *accounts),
{
    if !record.staker.same_as(&accounts.staker) || !accounts.holder.same_as(&accounts.staker) {
        return false;
    }
    if settles(route) {
        match &accounts.reward_holder {
            Some(holder) => holder.same_as(&accounts.staker),
            None => false,
        }
    } else {
        true
    }
}

/// Confirms every address named by a claim.
pub fn confirm_claim(
    config: &ProgramConfig,
    staking: &Staking,
    record: &StakedNft,
    accounts: &ClaimAccounts,
) -> (ok: bool)
    ensures
        ok == claim_derived(*config, *staking, *record, *accounts),
{
    if confirm_registry(&config.program, staking, &accounts.staking, &accounts.escrow).is_err() {
        return false;
    }
    if confirm_record(
        &config.program,
        &record.mint,
        record.bumps.staked_nft,
        &accounts.staked_nft,
    ).is_err() {
        return false;
    }
    if !record.key.same_as(&staking.key) || !staking.mint.same_as(&accounts.mint)
        || !accounts.holder_mint.same_as(&accounts.mint) {
        return false;
    }
    confirm_rewards(&config.program, staking, &accounts.rewards_account).is_ok()
}

/// Stakes a token: checks the time, the proof, the addresses, the staker,
/// that the token is not staked yet and that its standard is known where
/// needed; charges the fee; counts the token; and returns its record with
/// the nested calls that lock it.
pub fn stake(
    config: &ProgramConfig,
    variant: CustodyVariant,
    staking: &mut Staking,
    balances: &mut Balances,
    accounts: &StakeAccounts,
    bumps: StakedNftBumps,
    proof: Vec<[u8; 32]>,
    rarity_multiplier: u64,
) -> (out: Result<(StakedNft, Vec<CustodyAction>), StakingError>)
    requires
        old(staking).nfts_staked < u64::MAX,
    ensures
        stake_outcome(
            *config,
            variant,
            *old(staking),
            *final(staking),
            *old(balances),
            *final(balances),
            *accounts,
            bumps,
            proof@,
            rarity_multiplier,
            out,
        ),
{
    if accounts.now < staking.start {
        return Err(StakingError::TooEarly);
    }
    let node = leaf(&accounts.mint, rarity_multiplier);
    if !verify(proof, staking.root, node) {
        return Err(StakingError::InvalidProof);
    }
    if !confirm_stake(config, variant, staking, accounts, bumps) {
        return Err(StakingError::InvalidDerivation);
    }
    if !accounts.holder.same_as(&accounts.staker) {
        return Err(StakingError::Unauthorized);
    }
    if accounts.record_exists {
        return Err(StakingError::AlreadyStaked);
    }
    let actions = match stake_actions(variant, accounts.token_standard) {
        Ok(actions) => actions,
        Err(e) => {
            return Err(e);
        },
    };
    if !accounts.fee_receiver.same_as(&config.fee_collector) {
        return Err(StakingError::InvalidFee);
    }
    match charge_fee(balances, staking.fees_exempt) {
        Ok(_) => {},
        Err(e) => {
            return Err(e);
        },
    }
    staking.nfts_staked = staking.nfts_staked + 1;
    let record = StakedNft {
        bumps,
        key: staking.key,
        mint: accounts.mint,
        staker: accounts.staker,
        rarity_multiplier,
        staked_at: accounts.now,
        last_claim: accounts.now,
    };
    Ok((record, actions))
}

/// Unstakes a token: checks the addresses, the staker and that the token's
/// standard is known where needed; charges the fee; counts the token out;
/// settles the reward where the route does so, paying nothing where the
/// vault is short; and returns the nested calls that give the token back.
/// The record is to be destroyed once the calls are made.
pub fn unstake(
    config: &ProgramConfig,
    route: ReleaseRoute,
    staking: &mut Staking,
    record: &StakedNft,
    balances: &mut Balances,
    accounts: &UnstakeAccounts,
) -> (out: Result<Unstaked, StakingError>)
    ensures
        unstake_outcome(
            *config,
            route,
            *old(staking),
            *final(staking),
            *record,
            *old(balances),
            *final(balances),
            *accounts,
            out,
        ),
{
    if !confirm_unstake(config, route, staking, record, accounts) {
        return Err(StakingError::InvalidDerivation);
    }
    if !confirm_unstake_party(route, record, accounts) {
        return Err(StakingError::Unauthorized);
    }
    if staking.nfts_staked == 0 {
        return Err(StakingError::NotStaked);
    }
    let actions = match release_actions(route, accounts.token_standard, accounts.delegate_role) {
        Ok(actions) => actions,
        Err(e) => {
            return Err(e);
        },
    };
    if !accounts.fee_receiver.same_as(&config.fee_collector) {
        return Err(StakingError::InvalidFee);
    }
    match charge_fee(balances, staking.fees_exempt) {
        Ok(_) => {},
        Err(e) => {
            return Err(e);
        },
    }
    staking.nfts_staked = staking.nfts_staked - 1;
    let paid: u64 = if settles(route) {
        settle_reward(
            balances,
            staking.daily_rewards,
            record.rarity_multiplier,
            record.last_claim,
            accounts.now,
            staking.model,
        )
    } else {
        0
    };
    Ok(Unstaked { paid, actions })
}

/// Claims the reward of a staked token: checks the addresses and the
/// staker, pays what has accrued since the last claim, or nothing where
/// the vault is short, and sets the time of the last claim to now. Returns
/// what was paid.
pub fn claim(
    config: &ProgramConfig,
    staking: &Staking,
    record: &mut StakedNft,
    balances: &mut Balances,
    accounts: &ClaimAccounts,
) -> (out: Result<u64, StakingError>)
    ensures
        claim_outcome(
            *config,
            *staking,
            *old(record),
            *final(record),
            *old(balances),
            *final(balances),
            *accounts,
            out,
        ),
{
    if !confirm_claim(config, staking, record, accounts) {
        return Err(StakingError::InvalidDerivation);
    }
    if !record.staker.same_as(&accounts.staker) || !accounts.holder.same_as(&accounts.staker) {
        return Err(StakingError::Unauthorized);
    }
    let paid: u64 = settle_reward(
        balances,
        staking.daily_rewards,
        record.rarity_multiplier,
        record.last_claim,
        accounts.now,
        staking.model,
    );
    record.last_claim = accounts.now;
    Ok(paid)
}

} // verus!
