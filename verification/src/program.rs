//! The program as a whole: the index of the staked tokens and the
//! operations that a collection's record and the index go through.
//!
//! The index finds the record of a staked token by the token alone,
//! whatever its collection. So a token has one record at most: it cannot
//! be staked twice, in one collection or in two.

use crate::bytes::Address;
use crate::custody::{CustodyAction, CustodyVariant, ReleaseRoute};
use crate::errors::StakingError;
use crate::instructions::claim_staking::ClaimStaking;
use crate::instructions::init_staking::{initial_record, init_rejection, InitializeStaking};
use crate::instructions::migrate_escrow::{escrow_derived, MigrateEscrow};
use crate::instructions::set_fees_exempt::{exempt_outcome, SetFeesExempt};
use crate::instructions::set_staking::{set_rejection, with_parameters, SetStaking};
use crate::instructions::stake_meta::StakeMeta;
use crate::instructions::stake_nft::StakeNft;
use crate::instructions::stake_ocp::StakeOcp;
use crate::instructions::unstake_meta::UnstakeMeta;
use crate::instructions::unstake_mpl::UnstakeMpl;
use crate::instructions::unstake_mpl_custodial::UnstakeMplCustodial;
use crate::instructions::unstake_nft::UnstakeNft;
use crate::instructions::unstake_ocp::UnstakeOcp;
use crate::instructions::withdraw_rewards::{withdraw_outcome, WithdrawRewards};
use crate::lifecycle::{
    claim, claim_outcome, stake, stake_outcome, unstake, unstake_outcome, ClaimAccounts,
    StakeAccounts, UnstakeAccounts, Unstaked,
};
use crate::rewards::{Balances, RewardModel};
use crate::state::{
    Escrow, InitializeStakingBumps, ProgramConfig, StakedNft, StakedNftBumps, Staking,
};
use vstd::prelude::*;

verus! {

/// The records of the staked tokens of all collections.
pub struct StakeIndex {
    stakes: Vec<StakedNft>,
}

/// The position of the record of `mint` among `records`.
pub open spec fn position_of(records: Seq<StakedNft>, mint: Seq<u8>) -> int {
    choose|i: int| 0 <= i < records.len() && (#[trigger] records[i]).mint@ == mint
}

/// No two records are of one token.
pub open spec fn one_record_per_token(records: Seq<StakedNft>) -> bool {
    forall|i: int, j: int|
        0 <= i < j < records.len() ==> (#[trigger] records[i]).mint@ != (
        #[trigger] records[j]).mint@
}

/// The number of records of the collection `key`.
pub open spec fn count_of(records: Seq<StakedNft>, key: Seq<u8>) -> nat
    decreases records.len(),
{
    if records.len() == 0 {
        0
    } else {
        count_of(records.drop_last(), key) + if records.last().key@ == key {
            1nat
        } else {
            0nat
        }
    }
}

/// The request with the index's answer to whether the token has a record.
pub open spec fn with_existence(accounts: StakeAccounts, exists: bool) -> StakeAccounts {
    StakeAccounts { record_exists: exists, ..accounts }
}

impl StakeIndex {
    /// The records of the staked tokens.
    pub closed spec fn records(self) -> Seq<StakedNft> {
        self.stakes@
    }

    /// The token has a record.
    pub open spec fn holds(self, mint: Seq<u8>) -> bool {
        exists|i: int| 0 <= i < self.records().len() && (#[trigger] self.records()[i]).mint@ == mint
    }

    /// The record of the token, if it has one.
    pub open spec fn record_of(self, mint: Seq<u8>) -> Option<StakedNft> {
        if self.holds(mint) {
            Some(self.records()[position_of(self.records(), mint)])
        } else {
            None
        }
    }

    /// No token has two records. An index is made so and stays so.
    pub open spec fn well_formed(self) -> bool {
        one_record_per_token(self.records())
    }

    /// The number of staked tokens of the collection `key`.
    pub open spec fn staked_of(self, key: Seq<u8>) -> nat {
        count_of(self.records(), key)
    }

    /// The collection counts as many staked tokens as it has records.
    pub open spec fn agrees_with(self, staking: Staking) -> bool {
        staking.nfts_staked == self.staked_of(staking.key@)
    }

    /// An index without records.
    pub fn new() -> (index: StakeIndex)
        ensures
            index.records().len() == 0,
            index.well_formed(),
    {
        StakeIndex { stakes: Vec::new() }
    }

    /// The number of records.
    pub fn record_count(&self) -> (n: usize)
        ensures
            n == self.records().len(),
    {
        self.stakes.len()
    }

    /// Where the record of the token stands, if it has one.
    pub fn find(&self, mint: &Address) -> (at: Option<usize>)
        ensures
            match at {
                Some(i) => {
                    &&& i < self.records().len()
                    &&& self.records()[i as int].mint@ == mint@
                    &&& self.holds(mint@)
                    &&& self.well_formed() ==> i == position_of(self.records(), mint@)
                },
                None => !self.holds(mint@),
            },
    {
        let mut i: usize = 0;
        while i < self.stakes.len()
            invariant
                0 <= i <= self.stakes.len(),
                forall|j: int| 0 <= j < i ==> (#[trigger] self.stakes@[j]).mint@ != mint@,
            decreases self.stakes.len() - i,
        {
            if self.stakes[i].mint.same_as(mint) {
                return Some(i);
            }
            i += 1;
        }
        None
    }

    /// The record of the token, if it has one.
    pub fn staked_nft(&self, mint: &Address) -> (record: Option<StakedNft>)
        ensures
            record is Some <==> self.holds(mint@),
            self.well_formed() ==> record == self.record_of(mint@),
            record matches Some(r) ==> r.mint@ == mint@,
    {
        match self.find(mint) {
            Some(i) => Some(self.stakes[i]),
            None => None,
        }
    }

    /// Stakes a token in one of the three ways.
    fn stake_in(
        &mut self,
        config: &ProgramConfig,
        variant: CustodyVariant,
        staking: &mut Staking,
        balances: &mut Balances,
        accounts: StakeAccounts,
        bumps: StakedNftBumps,
        proof: Vec<[u8; 32]>,
        rarity_multiplier: u64,
    ) -> (out: Result<(StakedNft, Vec<CustodyAction>), StakingError>)
        requires
            old(self).well_formed(),
            old(staking).nfts_staked < u64::MAX,
        ensures
            staked_in(
                *config,
                variant,
                *old(self),
                *final(self),
                *old(staking),
                *final(staking),
                *old(balances),
                *final(balances),
                accounts,
                bumps,
                proof@,
                rarity_multiplier,
                out,
            ),
    {
        let exists = self.find(&accounts.mint).is_some();
        let asked = StakeAccounts { record_exists: exists, ..accounts };
        let ghost before = self.stakes@;
        match stake(config, variant, staking, balances, &asked, bumps, proof, rarity_multiplier) {
            Ok((record, actions)) => {
                proof {
                    assert forall|i: int| 0 <= i < before.len() implies (#[trigger] before[i]).mint@
                        != record.mint@ by {
                        if before[i].mint@ == record.mint@ {
                            assert(old(self).holds(accounts.mint@));
                        }
                    }
                    assert(before.push(record).drop_last() =~= before);
                }
                self.stakes.push(record);
                proof {
                    assert(self.holds(accounts.mint@)) by {
                        assert(self.records()[before.len() as int].mint@ == accounts.mint@);
                    }
                    lemma_count_push(before, record, old(staking).key@);
                }
                Ok((record, actions))
            },
            Err(e) => Err(e),
        }
    }

    /// Unstakes a token by one of the routes.
    fn unstake_by(
        &mut self,
        config: &ProgramConfig,
        route: ReleaseRoute,
        staking: &mut Staking,
        balances: &mut Balances,
        accounts: UnstakeAccounts,
    ) -> (out: Result<Unstaked, StakingError>)
        requires
            old(self).well_formed(),
        ensures
            unstaked_by(
                *config,
                route,
                *old(self),
                *final(self),
                *old(staking),
                *final(staking),
                *old(balances),
                *final(balances),
                accounts,
                out,
            ),
    {
        let at = match self.find(&accounts.mint) {
            Some(i) => i,
            None => {
                return Err(StakingError::NotStaked);
            },
        };
        let record = self.stakes[at];
        let ghost before = self.stakes@;
        match unstake(config, route, staking, &record, balances, &accounts) {
            Ok(done) => {
                proof {
                    lemma_remove_keeps_unique(before, at as int);
                    lemma_count_remove(before, at as int, old(staking).key@);
                }
                self.stakes.remove(at);
                proof {
                    let after = self.stakes@;
                    assert forall|i: int| 0 <= i < after.len() implies (#[trigger] after[i]).mint@
                        != accounts.mint@ by {
                        if i < at {
                            assert(after[i] == before[i]);
                        } else {
                            assert(after[i] == before[i + 1]);
                        }
                    }
                }
                Ok(done)
            },
            Err(e) => Err(e),
        }
    }

    /// Claims the reward of a staked token.
    fn claim_for(
        &mut self,
        config: &ProgramConfig,
        staking: &Staking,
        balances: &mut Balances,
        accounts: ClaimAccounts,
        token: &Address,
    ) -> (out: Result<u64, StakingError>)
        requires
            old(self).well_formed(),
        ensures
            claimed_in(
                *config,
                *old(self),
                *final(self),
                *staking,
                token@,
                *old(balances),
                *final(balances),
                accounts,
                out,
            ),
    {
        let at = match self.find(token) {
            Some(i) => i,
            None => {
                return Err(StakingError::NotStaked);
            },
        };
        let mut record = self.stakes[at];
        let ghost before = self.stakes@;
        let out = claim(config, staking, &mut record, balances, &accounts);
        proof {
            assert(record.mint@ == before[at as int].mint@);
            assert(record.key@ == before[at as int].key@);
            assert forall|key: Seq<u8>| #[trigger]
                count_of(before.update(at as int, record), key) == count_of(before, key) by {
                lemma_count_update(before, at as int, record, key);
            }
            let after = before.update(at as int, record);
            assert forall|i: int, j: int| 0 <= i < j < after.len() implies (#[trigger] after[i]).mint@
                != (#[trigger] after[j]).mint@ by {
                assert(after[i].mint@ == before[i].mint@);
                assert(after[j].mint@ == before[j].mint@);
            }
        }
        self.stakes[at] = record;
        out
    }
}

/// A record more is one more for its collection and none for another.
pub proof fn lemma_count_push(records: Seq<StakedNft>, record: StakedNft, key: Seq<u8>)
    ensures
        count_of(records.push(record), key) == count_of(records, key) + if record.key@ == key {
            1nat
        } else {
            0nat
        },
{
    assert(records.push(record).drop_last() =~= records);
}

/// A record less is one less for its collection and none for another.
pub proof fn lemma_count_remove(records: Seq<StakedNft>, at: int, key: Seq<u8>)
    requires
        0 <= at < records.len(),
    ensures
        count_of(records.remove(at), key) + (if records[at].key@ == key {
            1nat
        } else {
            0nat
        }) == count_of(records, key),
    decreases records.len(),
{
    if at == records.len() - 1 {
        assert(records.remove(at) =~= records.drop_last());
    } else {
        lemma_count_remove(records.drop_last(), at, key);
        assert(records.remove(at).drop_last() =~= records.drop_last().remove(at));
        assert(records.remove(at).last() == records.last());
        assert(records.drop_last()[at] == records[at]);
    }
}

/// A record replaced by one of the same collection changes no count.
pub proof fn lemma_count_update(
    records: Seq<StakedNft>,
    at: int,
    record: StakedNft,
    key: Seq<u8>,
)
    requires
        0 <= at < records.len(),
        record.key@ == records[at].key@,
    ensures
        count_of(records.update(at, record), key) == count_of(records, key),
    decreases records.len(),
{
    if at == records.len() - 1 {
        assert(records.update(at, record).drop_last() =~= records.drop_last());
    } else {
        lemma_count_update(records.drop_last(), at, record, key);
        assert(records.update(at, record).drop_last() =~= records.drop_last().update(
            at,
            record,
        ));
        assert(records.update(at, record).last() == records.last());
    }
}

/// Records without the one at `at` are still one per token.
pub proof fn lemma_remove_keeps_unique(records: Seq<StakedNft>, at: int)
    requires
        0 <= at < records.len(),
        one_record_per_token(records),
    ensures
        one_record_per_token(records.remove(at)),
{
    let after = records.remove(at);
    assert forall|i: int, j: int| 0 <= i < j < after.len() implies (#[trigger] after[i]).mint@ != (
    #[trigger] after[j]).mint@ by {
        let bi = if i < at { i } else { i + 1 };
        let bj = if j < at { j } else { j + 1 };
        assert(after[i] == records[bi]);
        assert(after[j] == records[bj]);
    }
}

/// What staking does to a collection's record and to the index. Whether
/// the token has a record is the index's to say. Accepted, the token's
/// record is added; rejected, nothing changes. A collection that counted
/// as many staked tokens as it has records still does.
pub open spec fn staked_in(
    config: ProgramConfig,
    variant: CustodyVariant,
    before: StakeIndex,
    after: StakeIndex,
    staking: Staking,
    staking_after: Staking,
    balances: Balances,
    balances_after: Balances,
    accounts: StakeAccounts,
    bumps: StakedNftBumps,
    proof: Seq<[u8; 32]>,
    rarity_multiplier: u64,
    out: Result<(StakedNft, Vec<CustodyAction>), StakingError>,
) -> bool {
    &&& before.well_formed()
    &&& after.well_formed()
    &&& stake_outcome(
        config,
        variant,
        staking,
        staking_after,
        balances,
        balances_after,
        with_existence(accounts, before.holds(accounts.mint@)),
        bumps,
        proof,
        rarity_multiplier,
        out,
    )
    &&& match out {
        Ok((record, _)) => after.records() == before.records().push(record) && after.holds(
            accounts.mint@,
        ),
        Err(_) => after.records() == before.records(),
    }
    &&& before.agrees_with(staking) ==> after.agrees_with(staking_after)
}

/// What unstaking does to a collection's record and to the index. A token
/// without a record is not staked. Accepted, the token's record is gone;
/// rejected, nothing changes. A collection that counted as many staked
/// tokens as it has records still does.
pub open spec fn unstaked_by(
    config: ProgramConfig,
    route: ReleaseRoute,
    before: StakeIndex,
    after: StakeIndex,
    staking: Staking,
    staking_after: Staking,
    balances: Balances,
    balances_after: Balances,
    accounts: UnstakeAccounts,
    out: Result<Unstaked, StakingError>,
) -> bool {
    &&& before.well_formed()
    &&& after.well_formed()
    &&& match before.record_of(accounts.mint@) {
        Some(record) => {
            &&& unstake_outcome(
                config,
                route,
                staking,
                staking_after,
                record,
                balances,
                balances_after,
                accounts,
                out,
            )
            &&& match out {
                Ok(_) => after.records() == before.records().remove(
                    position_of(before.records(), accounts.mint@),
                ) && !after.holds(accounts.mint@),
                Err(_) => after.records() == before.records(),
            }
        },
        None => {
            &&& out matches Err(e) && e == StakingError::NotStaked
            &&& staking_after == staking
            &&& after.records() == before.records()
            &&& balances_after == balances
        },
    }
    &&& before.agrees_with(staking) ==> after.agrees_with(staking_after)
}

/// What a claim does to the index. A token without a record is not staked.
/// Accepted, the record's time of last claim is set; rejected, nothing
/// changes. No count of staked tokens changes.
pub open spec fn claimed_in(
    config: ProgramConfig,
    before: StakeIndex,
    after: StakeIndex,
    staking: Staking,
    token: Seq<u8>,
    balances: Balances,
    balances_after: Balances,
    accounts: ClaimAccounts,
    out: Result<u64, StakingError>,
) -> bool {
    &&& before.well_formed()
    &&& after.well_formed()
    &&& match before.record_of(token) {
        Some(record) => {
            let at = position_of(before.records(), token);
            &&& claim_outcome(
                config,
                staking,
                record,
                after.records()[at],
                balances,
                balances_after,
                accounts,
                out,
            )
            &&& after.records() == before.records().update(at, after.records()[at])
        },
        None => {
            &&& out matches Err(e) && e == StakingError::NotStaked
            &&& after.records() == before.records()
            &&& balances_after == balances
        },
    }
    &&& forall|key: Seq<u8>| #[trigger] after.staked_of(key) == before.staked_of(key)
}

/// Sets up the record of a collection: no token staked, fees owed.
pub fn initialize_staking(
    config: &ProgramConfig,
    ctx: &InitializeStaking,
    bumps: InitializeStakingBumps,
    daily_rewards: u64,
    model: RewardModel,
    start: i64,
    root: [u8; 32],
) -> (out: Result<Staking, StakingError>)
    ensures
        match out {
            Ok(record) => {
                &&& record == initial_record(*ctx, bumps, daily_rewards, model, start, root)
                &&& init_rejection(*config, *ctx, record) is None
            },
            Err(e) => init_rejection(
                *config,
                *ctx,
                initial_record(*ctx, bumps, daily_rewards, model, start, root),
            ) == Some(e),
        },
{
    crate::instructions::init_staking::handler(
        config,
        ctx,
        bumps,
        daily_rewards,
        model,
        start,
        root,
    )
}

/// Replaces the administrator, the rate, the model, the start time and the
/// root of the collection. Only the administrator may.
pub fn set_staking(
    config: &ProgramConfig,
    ctx: &SetStaking,
    staking: &mut Staking,
    daily_rewards: u64,
    model: RewardModel,
    start: i64,
    root: [u8; 32],
) -> (out: Result<(), StakingError>)
    ensures
        match out {
            Ok(_) => {
                &&& set_rejection(*config, *ctx, *old(staking), model) is None
                &&& *final(staking) == with_parameters(
                    *old(staking),
                    ctx.new_owner,
                    daily_rewards,
                    model,
                    start,
                    root,
                )
            },
            Err(e) => {
                &&& set_rejection(*config, *ctx, *old(staking), model) == Some(e)
                &&& *final(staking) == *old(staking)
            },
        },
{
    crate::instructions::set_staking::handler(
        config,
        ctx,
        staking,
        daily_rewards,
        model,
        start,
        root,
    )
}

/// Sets whether the collection is exempt from fees. Only the fee authority
/// may.
pub fn set_fees_exempt(
    config: &ProgramConfig,
    ctx: &SetFeesExempt,
    staking: &mut Staking,
    fees_exempt: bool,
) -> (out: Result<(), StakingError>)
    ensures
        exempt_outcome(*config, *ctx, *old(staking), *final(staking), fees_exempt, out),
{
    crate::instructions::set_fees_exempt::handler(config, ctx, staking, fees_exempt)
}

/// Lets the administrator take reward tokens out of the vault, which then
/// holds that much less. Returns the amount to move. No stake is affected.
pub fn withdraw_rewards(
    config: &ProgramConfig,
    ctx: &WithdrawRewards,
    staking: &Staking,
    balances: &mut Balances,
    amount: u64,
) -> (out: Result<u64, StakingError>)
    ensures
        withdraw_outcome(
            *config,
            *ctx,
            *staking,
            *old(balances),
            *final(balances),
            amount,
            out,
        ),
{
    crate::instructions::withdraw_rewards::handler(config, ctx, staking, balances, amount)
}

/// Stakes a token by deposit.
pub fn stake_nft(
    config: &ProgramConfig,
    staking: &mut Staking,
    index: &mut StakeIndex,
    balances: &mut Balances,
    ctx: &StakeNft,
    bumps: StakedNftBumps,
    proof: Vec<[u8; 32]>,
    rarity_multiplier: u64,
) -> (out: Result<(StakedNft, Vec<CustodyAction>), StakingError>)
    requires
        old(index).well_formed(),
        old(staking).nfts_staked < u64::MAX,
    ensures
        staked_in(
            *config,
            CustodyVariant::DirectDeposit,
            *old(index),
            *final(index),
            *old(staking),
            *final(staking),
            *old(balances),
            *final(balances),
            ctx.accounts(),
            bumps,
            proof@,
            rarity_multiplier,
            out,
        ),
{
    index.stake_in(
        config,
        CustodyVariant::DirectDeposit,
        staking,
        balances,
        ctx.to_accounts(),
        bumps,
        proof,
        rarity_multiplier,
    )
}

/// Unstakes a deposited token.
pub fn unstake_nft(
    config: &ProgramConfig,
    staking: &mut Staking,
    index: &mut StakeIndex,
    balances: &mut Balances,
    ctx: &UnstakeNft,
) -> (out: Result<Unstaked, StakingError>)
    requires
        old(index).well_formed(),
    ensures
        unstaked_by(
            *config,
            ReleaseRoute::DirectDeposit,
            *old(index),
            *final(index),
            *old(staking),
            *final(staking),
            *old(balances),
            *final(balances),
            ctx.accounts(),
            out,
        ),
{
    index.unstake_by(config, ReleaseRoute::DirectDeposit, staking, balances, ctx.to_accounts())
}

/// Stakes a token that a royalty policy governs.
pub fn stake_ocp(
    config: &ProgramConfig,
    staking: &mut Staking,
    index: &mut StakeIndex,
    balances: &mut Balances,
    ctx: &StakeOcp,
    bumps: StakedNftBumps,
    proof: Vec<[u8; 32]>,
    rarity_multiplier: u64,
) -> (out: Result<(StakedNft, Vec<CustodyAction>), StakingError>)
    requires
        old(index).well_formed(),
        old(staking).nfts_staked < u64::MAX,
    ensures
        staked_in(
            *config,
            CustodyVariant::PolicyEnforced,
            *old(index),
            *final(index),
            *old(staking),
            *final(staking),
            *old(balances),
            *final(balances),
            ctx.accounts(),
            bumps,
            proof@,
            rarity_multiplier,
            out,
        ),
{
    index.stake_in(
        config,
        CustodyVariant::PolicyEnforced,
        staking,
        balances,
        ctx.to_accounts(),
        bumps,
        proof,
        rarity_multiplier,
    )
}

/// Unstakes a token that a royalty policy governs, and settles its reward.
pub fn unstake_ocp(
    config: &ProgramConfig,
    staking: &mut Staking,
    index: &mut StakeIndex,
    balances: &mut Balances,
    ctx: &UnstakeOcp,
) -> (out: Result<Unstaked, StakingError>)
    requires
        old(index).well_formed(),
    ensures
        unstaked_by(
            *config,
            ReleaseRoute::PolicyEnforced,
            *old(index),
            *final(index),
            *old(staking),
            *final(staking),
            *old(balances),
            *final(balances),
            ctx.accounts(),
            out,
        ),
{
    index.unstake_by(config, ReleaseRoute::PolicyEnforced, staking, balances, ctx.to_accounts())
}

/// Stakes a token through the metadata program.
pub fn stake_mpl(
    config: &ProgramConfig,
    staking: &mut Staking,
    index: &mut StakeIndex,
    balances: &mut Balances,
    ctx: &StakeMeta,
    bumps: StakedNftBumps,
    proof: Vec<[u8; 32]>,
    rarity_multiplier: u64,
) -> (out: Result<(StakedNft, Vec<CustodyAction>), StakingError>)
    requires
        old(index).well_formed(),
        old(staking).nfts_staked < u64::MAX,
    ensures
        staked_in(
            *config,
            CustodyVariant::DelegatedLock,
            *old(index),
            *final(index),
            *old(staking),
            *final(staking),
            *old(balances),
            *final(balances),
            ctx.accounts(),
            bumps,
            proof@,
            rarity_multiplier,
            out,
        ),
{
    index.stake_in(
        config,
        CustodyVariant::DelegatedLock,
        staking,
        balances,
        ctx.to_accounts(),
        bumps,
        proof,
        rarity_multiplier,
    )
}

/// Unstakes a token through the metadata program under the escrow's
/// authority. Its reward is claimed before.
pub fn unstake_meta(
    config: &ProgramConfig,
    staking: &mut Staking,
    index: &mut StakeIndex,
    balances: &mut Balances,
    ctx: &UnstakeMeta,
) -> (out: Result<Unstaked, StakingError>)
    requires
        old(index).well_formed(),
    ensures
        unstaked_by(
            *config,
            ReleaseRoute::DelegatedLock,
            *old(index),
            *final(index),
            *old(staking),
            *final(staking),
            *old(balances),
            *final(balances),
            ctx.accounts(),
            out,
        ),
{
    index.unstake_by(config, ReleaseRoute::DelegatedLock, staking, balances, ctx.to_accounts())
}

/// Unstakes a token through the metadata program under the escrow's
/// authority, with the revocation that fits the delegate's role on
/// record, and settles its reward.
pub fn unstake_mpl(
    config: &ProgramConfig,
    staking: &mut Staking,
    index: &mut StakeIndex,
    balances: &mut Balances,
    ctx: &UnstakeMpl,
) -> (out: Result<Unstaked, StakingError>)
    requires
        old(index).well_formed(),
    ensures
        unstaked_by(
            *config,
            ReleaseRoute::DelegatedLockByRole,
            *old(index),
            *final(index),
            *old(staking),
            *final(staking),
            *old(balances),
            *final(balances),
            ctx.accounts(),
            out,
        ),
{
    index.unstake_by(config, ReleaseRoute::DelegatedLockByRole, staking, balances, ctx.to_accounts())
}

/// Unstakes a token that the escrow holds through the metadata program, and
/// settles its reward.
pub fn unstake_mpl_custodial(
    config: &ProgramConfig,
    staking: &mut Staking,
    index: &mut StakeIndex,
    balances: &mut Balances,
    ctx: &UnstakeMplCustodial,
) -> (out: Result<Unstaked, StakingError>)
    requires
        old(index).well_formed(),
    ensures
        unstaked_by(
            *config,
            ReleaseRoute::Custodial,
            *old(index),
            *final(index),
            *old(staking),
            *final(staking),
            *old(balances),
            *final(balances),
            ctx.accounts(),
            out,
        ),
{
    index.unstake_by(config, ReleaseRoute::Custodial, staking, balances, ctx.to_accounts())
}

/// Claims the reward of the staked token `token`. Returns what was paid.
pub fn claim_staking(
    config: &ProgramConfig,
    staking: &Staking,
    index: &mut StakeIndex,
    balances: &mut Balances,
    ctx: &ClaimStaking,
    token: &Address,
) -> (out: Result<u64, StakingError>)
    requires
        old(index).well_formed(),
    ensures
        claimed_in(
            *config,
            *old(index),
            *final(index),
            *staking,
            token@,
            *old(balances),
            *final(balances),
            ctx.accounts(),
            out,
        ),
{
    index.claim_for(config, staking, balances, ctx.to_accounts(), token)
}

/// Makes the data that is kept at the escrow's address.
pub fn migrate_escrow(config: &ProgramConfig, ctx: &MigrateEscrow, bump: u8) -> (out: Result<
    Escrow,
    StakingError,
>)
    ensures
        match out {
            Ok(data) => escrow_derived(*config, *ctx, bump) && data == (Escrow { key: ctx.auth }),
            Err(e) => !escrow_derived(*config, *ctx, bump) && e == StakingError::InvalidDerivation,
        },
{
    crate::instructions::migrate_escrow::handler(config, ctx, bump)
}

} // verus!
