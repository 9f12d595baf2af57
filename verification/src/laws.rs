//! What holds of the operations taken together.

use crate::bytes::Address;
use crate::custody::{stake_undetermined, CustodyAction, CustodyVariant, ReleaseRoute};
use crate::errors::StakingError;
use crate::instructions::set_staking::with_parameters;
use crate::lifecycle::{
    claim_outcome, claim_rejection, record_reward, stake_derived, stake_outcome, stake_rejection,
    with_staked, ClaimAccounts, StakeAccounts, UnstakeAccounts, Unstaked,
};
use crate::merkle_proof::{leaf_digest, proves};
use crate::program::{
    lemma_count_push, lemma_count_remove, position_of, staked_in, unstaked_by, StakeIndex,
};
use crate::rewards::{after_fee, lemma_no_time_no_reward, Balances, RewardModel};
use crate::state::{registry_derived, ProgramConfig, StakedNft, StakedNftBumps, Staking};
use vstd::prelude::*;

verus! {

/// Before the start time every request to stake is rejected as too early,
/// whatever its proof and its accounts. From the start time on, the
/// start time included, none is.
pub proof fn lemma_start_time_decides(
    config: ProgramConfig,
    variant: CustodyVariant,
    staking: Staking,
    balances: Balances,
    accounts: StakeAccounts,
    bumps: StakedNftBumps,
    proof: Seq<[u8; 32]>,
    rarity_multiplier: u64,
)
    ensures
        accounts.now < staking.start <==> stake_rejection(
            config,
            variant,
            staking,
            balances,
            accounts,
            bumps,
            proof,
            rarity_multiplier,
        ) == Some(StakingError::TooEarly),
{
}

/// A request made from the start time on, with a valid proof, the derived
/// addresses and the fee, by the holder of a token that is not staked and
/// whose standard is known where needed, is accepted: so is one made at
/// the start time itself.
pub proof fn lemma_stake_in_time_accepted(
    config: ProgramConfig,
    variant: CustodyVariant,
    staking: Staking,
    balances: Balances,
    accounts: StakeAccounts,
    bumps: StakedNftBumps,
    proof: Seq<[u8; 32]>,
    rarity_multiplier: u64,
)
    requires
        accounts.now >= staking.start,
        proves(proof, staking.root@, leaf_digest(accounts.mint@, rarity_multiplier)),
        stake_derived(config, variant, staking, accounts, bumps),
        accounts.holder@ == accounts.staker@,
        !accounts.record_exists,
        !stake_undetermined(variant, accounts.token_standard),
        accounts.fee_receiver@ == config.fee_collector@,
        after_fee(balances, staking.fees_exempt) is Some,
    ensures
        stake_rejection(
            config,
            variant,
            staking,
            balances,
            accounts,
            bumps,
            proof,
            rarity_multiplier,
        ) is None,
{
}

/// A stake made in time, as above, succeeds, and its record holds the
/// token, the staker and the multiplier that the leaf proved, staked and
/// last claimed at the time of the request; the collection counts one
/// token more.
pub proof fn lemma_stake_in_time_gives_record(
    config: ProgramConfig,
    variant: CustodyVariant,
    staking: Staking,
    staking_after: Staking,
    balances: Balances,
    balances_after: Balances,
    accounts: StakeAccounts,
    bumps: StakedNftBumps,
    proof: Seq<[u8; 32]>,
    rarity_multiplier: u64,
    out: Result<(StakedNft, Vec<CustodyAction>), StakingError>,
)
    requires
        accounts.now >= staking.start,
        proves(proof, staking.root@, leaf_digest(accounts.mint@, rarity_multiplier)),
        stake_derived(config, variant, staking, accounts, bumps),
        accounts.holder@ == accounts.staker@,
        !accounts.record_exists,
        !stake_undetermined(variant, accounts.token_standard),
        accounts.fee_receiver@ == config.fee_collector@,
        after_fee(balances, staking.fees_exempt) is Some,
        staking.nfts_staked < u64::MAX,
        stake_outcome(
            config,
            variant,
            staking,
            staking_after,
            balances,
            balances_after,
            accounts,
            bumps,
            proof,
            rarity_multiplier,
            out,
        ),
    ensures
        out matches Ok((record, _)) && record.mint == accounts.mint && record.staker
            == accounts.staker && record.key == staking.key && record.rarity_multiplier
            == rarity_multiplier && record.staked_at == accounts.now && record.last_claim
            == accounts.now,
        staking_after.nfts_staked == staking.nfts_staked + 1,
{
}

/// No stake is accepted without a proof: the record of an accepted stake
/// holds a token and a multiplier whose leaf the proof showed to be in the
/// collection's tree, and the time was not before the start.
pub proof fn lemma_accepted_stake_is_proved(
    config: ProgramConfig,
    variant: CustodyVariant,
    staking: Staking,
    staking_after: Staking,
    balances: Balances,
    balances_after: Balances,
    accounts: StakeAccounts,
    bumps: StakedNftBumps,
    proof: Seq<[u8; 32]>,
    rarity_multiplier: u64,
    out: Result<(StakedNft, Vec<CustodyAction>), StakingError>,
)
    requires
        stake_outcome(
            config,
            variant,
            staking,
            staking_after,
            balances,
            balances_after,
            accounts,
            bumps,
            proof,
            rarity_multiplier,
            out,
        ),
        out is Ok,
    ensures
        out matches Ok((record, _)) && proves(
            proof,
            staking.root@,
            leaf_digest(record.mint@, record.rarity_multiplier),
        ) && record.rarity_multiplier == rarity_multiplier && record.mint == accounts.mint,
        accounts.now >= staking.start,
{
}

/// A token that has a record is not staked again, in the collection of
/// its record or in any other: records are found by the token alone. A
/// request with a valid proof, made in time by the holder with the derived
/// addresses, is rejected as already staked; any other is rejected for an
/// earlier reason.
pub proof fn lemma_staked_token_rejected(
    config: ProgramConfig,
    variant: CustodyVariant,
    staking: Staking,
    balances: Balances,
    accounts: StakeAccounts,
    bumps: StakedNftBumps,
    proof: Seq<[u8; 32]>,
    rarity_multiplier: u64,
)
    requires
        accounts.record_exists,
    ensures
        stake_rejection(
            config,
            variant,
            staking,
            balances,
            accounts,
            bumps,
            proof,
            rarity_multiplier,
        ) matches Some(e) && (e == StakingError::TooEarly || e == StakingError::InvalidProof || e
            == StakingError::InvalidDerivation || e == StakingError::Unauthorized || e
            == StakingError::AlreadyStaked),
{
}

/// Staking the same token twice fails: once a token was staked, a second
/// request for it, in any of the three ways and through the record of any
/// collection, is rejected and changes nothing.
pub proof fn lemma_no_double_stake(
    config: ProgramConfig,
    start: StakeIndex,
    staked: StakeIndex,
    after: StakeIndex,
    first_variant: CustodyVariant,
    second_variant: CustodyVariant,
    first_staking: Staking,
    first_staking_after: Staking,
    second_staking: Staking,
    second_staking_after: Staking,
    b0: Balances,
    b1: Balances,
    b2: Balances,
    first: StakeAccounts,
    second: StakeAccounts,
    first_bumps: StakedNftBumps,
    second_bumps: StakedNftBumps,
    first_proof: Seq<[u8; 32]>,
    second_proof: Seq<[u8; 32]>,
    first_rarity: u64,
    second_rarity: u64,
    first_out: Result<(StakedNft, Vec<CustodyAction>), StakingError>,
    second_out: Result<(StakedNft, Vec<CustodyAction>), StakingError>,
)
    requires
        staked_in(
            config,
            first_variant,
            start,
            staked,
            first_staking,
            first_staking_after,
            b0,
            b1,
            first,
            first_bumps,
            first_proof,
            first_rarity,
            first_out,
        ),
        first_out is Ok,
        second.mint@ == first.mint@,
        staked_in(
            config,
            second_variant,
            staked,
            after,
            second_staking,
            second_staking_after,
            b1,
            b2,
            second,
            second_bumps,
            second_proof,
            second_rarity,
            second_out,
        ),
    ensures
        second_out is Err,
        second_staking_after == second_staking,
        after.records() == staked.records(),
        b2 == b1,
{
}

/// Staking a token and unstaking it at once restores what was: the
/// collection counts as many staked tokens as before, the records are
/// those of before, and the token has none.
pub proof fn lemma_stake_then_unstake_restores(
    config: ProgramConfig,
    start: StakeIndex,
    staked: StakeIndex,
    after: StakeIndex,
    variant: CustodyVariant,
    route: ReleaseRoute,
    s0: Staking,
    s1: Staking,
    s2: Staking,
    b0: Balances,
    b1: Balances,
    b2: Balances,
    stake_accounts: StakeAccounts,
    bumps: StakedNftBumps,
    proof: Seq<[u8; 32]>,
    rarity_multiplier: u64,
    stake_out: Result<(StakedNft, Vec<CustodyAction>), StakingError>,
    unstake_accounts: UnstakeAccounts,
    unstake_out: Result<Unstaked, StakingError>,
)
    requires
        s0.nfts_staked < u64::MAX,
        staked_in(
            config,
            variant,
            start,
            staked,
            s0,
            s1,
            b0,
            b1,
            stake_accounts,
            bumps,
            proof,
            rarity_multiplier,
            stake_out,
        ),
        stake_out is Ok,
        unstake_accounts.mint@ == stake_accounts.mint@,
        unstaked_by(config, route, staked, after, s1, s2, b1, b2, unstake_accounts, unstake_out),
        unstake_out is Ok,
    ensures
        s2 == s0,
        s2.nfts_staked == s0.nfts_staked,
        after.records() == start.records(),
        !after.holds(stake_accounts.mint@),
{
    let mint = stake_accounts.mint@;
    let record = stake_out->Ok_0.0;
    let n = start.records().len() as int;
    assert(staked.records() == start.records().push(record));
    assert(staked.records()[n].mint@ == mint);
    let at = position_of(staked.records(), mint);
    assert(at == n);
    assert(staked.records().remove(n) =~= start.records());
}

/// Staking in one collection leaves the other collections alone: each has
/// as many records as before.
pub proof fn lemma_stake_leaves_other_collections(
    config: ProgramConfig,
    before: StakeIndex,
    after: StakeIndex,
    variant: CustodyVariant,
    s0: Staking,
    s1: Staking,
    b0: Balances,
    b1: Balances,
    accounts: StakeAccounts,
    bumps: StakedNftBumps,
    proof: Seq<[u8; 32]>,
    rarity_multiplier: u64,
    out: Result<(StakedNft, Vec<CustodyAction>), StakingError>,
    other: Seq<u8>,
)
    requires
        other != s0.key@,
        staked_in(
            config,
            variant,
            before,
            after,
            s0,
            s1,
            b0,
            b1,
            accounts,
            bumps,
            proof,
            rarity_multiplier,
            out,
        ),
    ensures
        after.staked_of(other) == before.staked_of(other),
{
    if let Ok((record, _)) = out {
        lemma_count_push(before.records(), record, other);
    }
}

/// Unstaking in one collection leaves the other collections alone: each
/// has as many records as before.
pub proof fn lemma_unstake_leaves_other_collections(
    config: ProgramConfig,
    before: StakeIndex,
    after: StakeIndex,
    route: ReleaseRoute,
    s0: Staking,
    s1: Staking,
    b0: Balances,
    b1: Balances,
    accounts: UnstakeAccounts,
    out: Result<Unstaked, StakingError>,
    other: Seq<u8>,
)
    requires
        other != s0.key@,
        unstaked_by(config, route, before, after, s0, s1, b0, b1, accounts, out),
    ensures
        after.staked_of(other) == before.staked_of(other),
{
    if before.holds(accounts.mint@) && out is Ok {
        lemma_count_remove(
            before.records(),
            position_of(before.records(), accounts.mint@),
            other,
        );
    }
}

/// A second claim made at the time of the first pays nothing: it is
/// accepted, and changes neither the record nor the balances.
pub proof fn lemma_second_claim_pays_nothing(
    config: ProgramConfig,
    staking: Staking,
    r0: StakedNft,
    r1: StakedNft,
    r2: StakedNft,
    b0: Balances,
    b1: Balances,
    b2: Balances,
    accounts: ClaimAccounts,
    first_out: Result<u64, StakingError>,
    second_out: Result<u64, StakingError>,
)
    requires
        claim_outcome(config, staking, r0, r1, b0, b1, accounts, first_out),
        first_out is Ok,
        claim_outcome(config, staking, r1, r2, b1, b2, accounts, second_out),
    ensures
        second_out == Ok::<u64, StakingError>(0),
        r2 == r1,
        b2 == b1,
{
    assert(claim_rejection(config, staking, r1, accounts) == claim_rejection(
        config,
        staking,
        r0,
        accounts,
    ));
    lemma_no_time_no_reward(
        staking.daily_rewards,
        r1.rarity_multiplier,
        accounts.now,
        staking.model,
        b1.rewards_vault,
    );
    assert(record_reward(staking, r1, accounts.now) == 0);
}

/// The escrow that a collection's record names is the derived one, and
/// stays so: changing the parameters, the exemption or the count of staked
/// tokens keeps the key, the bumps and the escrow of the record.
pub proof fn lemma_escrow_stays_derived(
    program: Address,
    staking: Staking,
    declared_staking: Address,
    declared_escrow: Address,
    new_owner: Address,
    daily_rewards: u64,
    model: RewardModel,
    start: i64,
    root: [u8; 32],
    fees_exempt: bool,
    nfts_staked: int,
)
    requires
        registry_derived(program, staking, declared_staking, declared_escrow),
    ensures
        registry_derived(
            program,
            with_parameters(staking, new_owner, daily_rewards, model, start, root),
            declared_staking,
            declared_escrow,
        ),
        registry_derived(
            program,
            Staking { fees_exempt, ..staking },
            declared_staking,
            declared_escrow,
        ),
        registry_derived(
            program,
            with_staked(staking, nfts_staked),
            declared_staking,
            declared_escrow,
        ),
{
}

} // verus!
