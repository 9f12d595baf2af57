//! The records that staking keeps: one per collection, one per staked token.

use crate::authority::{
    keyed_seeds, make_keyed_seeds, make_rewards_seeds, program_address, rewards_seeds,
    DerivedAuthority, DEPOSIT_TAG, ESCROW_TAG, STAKED_NFT_TAG, STAKING_TAG,
};
use crate::bytes::Address;
use crate::errors::StakingError;
use crate::rewards::RewardModel;
use vstd::prelude::*;

verus! {

/// The addresses that a deployment of the program fixes.
#[derive(Clone, Copy, Debug, PartialEq, Eq)]
pub struct ProgramConfig {
    /// The program's own address, under which all others are derived.
    pub program: Address,
    /// The account that collects the fees.
    pub fee_collector: Address,
    /// The one key that may exempt a collection from fees. It is not the
    /// owner of any collection.
    pub fee_authority: Address,
}

/// The bumps of the addresses derived for a collection.
#[derive(Clone, Copy, Debug, PartialEq, Eq, Structural)]
pub struct InitializeStakingBumps {
    pub staking: u8,
    pub escrow: u8,
    pub rewards: u8,
}

/// The bumps of the addresses derived for a staked token.
#[derive(Clone, Copy, Debug, PartialEq, Eq, Structural)]
pub struct StakedNftBumps {
    pub staked_nft: u8,
    pub deposit: u8,
}

/// The record of a collection.
#[derive(Clone, Copy, Debug, PartialEq, Eq)]
pub struct Staking {
    /// The key that identifies the collection. It is not the record's own
    /// address, so one program serves many collections.
    pub key: Address,
    /// The administrator.
    pub owner: Address,
    /// The bumps of the derived addresses.
    pub bumps: InitializeStakingBumps,
    /// The derived authority over staked tokens and rewards.
    pub escrow: Address,
    /// The mint of the reward token.
    pub mint: Address,
    /// The account that holds the reward token.
    pub rewards_account: Address,
    /// The tokens that are staked now.
    pub nfts_staked: u64,
    /// The reward rate: units per day and per unit of the multiplier.
    pub daily_rewards: u64,
    /// How rarity turns into rewards.
    pub model: RewardModel,
    /// The time from which staking is open, in seconds of the epoch.
    pub start: i64,
    /// The root of the tree of the collection's tokens and their rarities.
    pub root: [u8; 32],
    /// No fees are charged.
    pub fees_exempt: bool,
}

/// The record of a staked token.
#[derive(Clone, Copy, Debug, PartialEq, Eq)]
pub struct StakedNft {
    /// The bumps of the derived addresses.
    pub bumps: StakedNftBumps,
    /// The key of the collection.
    pub key: Address,
    /// The token.
    pub mint: Address,
    /// The owner of the token at the time it was staked.
    pub staker: Address,
    /// The multiplier that the token's leaf proved.
    pub rarity_multiplier: u64,
    /// The time of staking.
    pub staked_at: i64,
    /// The time of the last claim.
    pub last_claim: i64,
}

/// The data kept at the escrow's address.
#[derive(Clone, Copy, Debug, PartialEq, Eq)]
pub struct Escrow {
    pub key: Address,
}

impl StakedNft {
    /// The bytes that the record takes when it is stored: a tag of eight
    /// bytes, then the fields.
    pub const LEN: usize = 8 + 2 + 32 + 32 + 32 + 8 + 8 + 8;
}

/// The addresses declared for a collection are the derived ones: the
/// record's own address, and the escrow, which is also the one that the
/// record names.
pub open spec fn registry_derived(
    program: Address,
    staking: Staking,
    declared_staking: Address,
    declared_escrow: Address,
) -> bool {
    &&& program_address(keyed_seeds(STAKING_TAG@, staking.key@, staking.bumps.staking), program@)
        == Some(declared_staking@)
    &&& program_address(keyed_seeds(ESCROW_TAG@, staking.key@, staking.bumps.escrow), program@)
        == Some(declared_escrow@)
    &&& staking.escrow@ == declared_escrow@
}

/// The account declared to hold the reward token is the derived one, and
/// the one that the record names.
pub open spec fn rewards_derived(program: Address, staking: Staking, declared: Address) -> bool {
    &&& program_address(rewards_seeds(staking.key@, staking.mint@, staking.bumps.rewards), program@)
        == Some(declared@)
    &&& staking.rewards_account@ == declared@
}

/// The address declared for the record of a staked token is the derived one.
pub open spec fn record_derived(
    program: Address,
    mint: Address,
    bump: u8,
    declared: Address,
) -> bool {
    program_address(keyed_seeds(STAKED_NFT_TAG@, mint@, bump), program@) == Some(declared@)
}

/// The address declared for the deposit account of a token is the derived
/// one.
pub open spec fn deposit_derived(
    program: Address,
    mint: Address,
    bump: u8,
    declared: Address,
) -> bool {
    program_address(keyed_seeds(DEPOSIT_TAG@, mint@, bump), program@) == Some(declared@)
}

/// The escrow of a collection with the seeds to sign for it, where the
/// collection's key and bump derive an address.
pub fn escrow_authority(program: &Address, staking: &Staking) -> (out: Option<DerivedAuthority>)
    ensures
        match out {
            Some(escrow) => {
                &&& program_address(escrow.seeds(), program@) == Some(escrow.address_bytes())
                &&& escrow.seeds() == keyed_seeds(ESCROW_TAG@, staking.key@, staking.bumps.escrow)
                &&& escrow.program_bytes() == program@
            },
            None => program_address(
                keyed_seeds(ESCROW_TAG@, staking.key@, staking.bumps.escrow),
                program@,
            ) is None,
        },
{
    let seeds = make_keyed_seeds(ESCROW_TAG.as_slice(), &staking.key, staking.bumps.escrow);
    DerivedAuthority::derive(seeds, *program)
}

/// Confirms the addresses declared for a collection.
pub fn confirm_registry(
    program: &Address,
    staking: &Staking,
    declared_staking: &Address,
    declared_escrow: &Address,
) -> (out: Result<DerivedAuthority, StakingError>)
    ensures
        match out {
            Ok(escrow) => {
                &&& registry_derived(*program, *staking, *declared_staking, *declared_escrow)
                &&& escrow.address_bytes() == declared_escrow@
                &&& escrow.seeds() == keyed_seeds(
                    ESCROW_TAG@,
                    staking.key@,
                    staking.bumps.escrow,
                )
                &&& escrow.program_bytes() == program@
            },
            Err(e) => {
                &&& e == StakingError::InvalidDerivation
                &&& !registry_derived(*program, *staking, *declared_staking, *declared_escrow)
            },
        },
{
    let own = make_keyed_seeds(STAKING_TAG.as_slice(), &staking.key, staking.bumps.staking);
    match DerivedAuthority::confirm(declared_staking, own, *program) {
        Ok(_) => {},
        Err(e) => {
            return Err(e);
        },
    }
    let seeds = make_keyed_seeds(ESCROW_TAG.as_slice(), &staking.key, staking.bumps.escrow);
    let escrow = match DerivedAuthority::confirm(declared_escrow, seeds, *program) {
        Ok(authority) => authority,
        Err(e) => {
            return Err(e);
        },
    };
    if !staking.escrow.same_as(declared_escrow) {
        return Err(StakingError::InvalidDerivation);
    }
    Ok(escrow)
}

/// Confirms the account declared to hold the reward token.
pub fn confirm_rewards(program: &Address, staking: &Staking, declared: &Address) -> (out: Result<
    (),
    StakingError,
>)
    ensures
        out is Ok <==> rewards_derived(*program, *staking, *declared),
        out is Err ==> out == Err::<(), StakingError>(StakingError::InvalidDerivation),
{
    let seeds = make_rewards_seeds(&staking.key, &staking.mint, staking.bumps.rewards);
    match DerivedAuthority::confirm(declared, seeds, *program) {
        Ok(_) => {},
        Err(e) => {
            return Err(e);
        },
    }
    if !staking.rewards_account.same_as(declared) {
        return Err(StakingError::InvalidDerivation);
    }
    Ok(())
}

/// Confirms the address declared for the record of a staked token.
pub fn confirm_record(program: &Address, mint: &Address, bump: u8, declared: &Address) -> (out:
    Result<(), StakingError>)
    ensures
        out is Ok <==> record_derived(*program, *mint, bump, *declared),
        out is Err ==> out == Err::<(), StakingError>(StakingError::InvalidDerivation),
{
    let seeds = make_keyed_seeds(STAKED_NFT_TAG.as_slice(), mint, bump);
    match DerivedAuthority::confirm(declared, seeds, *program) {
        Ok(_) => Ok(()),
        Err(e) => Err(e),
    }
}

/// Confirms the address declared for the deposit account of a token.
pub fn confirm_deposit(program: &Address, mint: &Address, bump: u8, declared: &Address) -> (out:
    Result<(), StakingError>)
    ensures
        out is Ok <==> deposit_derived(*program, *mint, bump, *declared),
        out is Err ==> out == Err::<(), StakingError>(StakingError::InvalidDerivation),
{
    let seeds = make_keyed_seeds(DEPOSIT_TAG.as_slice(), mint, bump);
    match DerivedAuthority::confirm(declared, seeds, *program) {
        Ok(_) => Ok(()),
        Err(e) => Err(e),
    }
}

} // verus!
