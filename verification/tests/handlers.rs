use solana_program::pubkey::Pubkey;
use staking::bytes::Address;
use staking::custody::CustodyAction;
use staking::errors::StakingError;
use staking::instructions::migrate_staking::{MigrateStaking, Staking as EarlierStaking};
use staking::instructions::stake_nft::StakeNft;
use staking::instructions::unstake_nft::UnstakeNft;
use staking::instructions::{init_staking, migrate_staking, stake_nft, unstake_nft};
use staking::instructions::init_staking::InitializeStaking;
use staking::merkle_proof::leaf;
use staking::rewards::{Balances, RewardModel, FEES_LAMPORTS};
use staking::state::{
    InitializeStakingBumps, ProgramConfig, StakedNft, StakedNftBumps, Staking,
};

fn addr(n: u8) -> Address {
    Address::new([n; 32])
}

fn config() -> ProgramConfig {
    ProgramConfig { program: addr(200), fee_collector: addr(201), fee_authority: addr(202) }
}

fn find(seeds: &[&[u8]]) -> (Address, u8) {
    let (key, bump) = Pubkey::find_program_address(seeds, &Pubkey::new_from_array([200u8; 32]));
    (Address::new(key.to_bytes()), bump)
}

fn registry() -> (Staking, Address) {
    let key = [10u8; 32];
    let (staking, b_staking) = find(&[b"staking", &key]);
    let (escrow, b_escrow) = find(&[b"escrow", &key]);
    let (rewards, b_rewards) = find(&[b"rewards", &key, &[12u8; 32]]);
    let ctx = InitializeStaking {
        staking_key: addr(10),
        staking,
        escrow,
        mint: addr(12),
        rewards_account: rewards,
        owner: addr(11),
    };
    let bumps = InitializeStakingBumps { staking: b_staking, escrow: b_escrow, rewards: b_rewards };
    // A tree of one leaf: the leaf is the root.
    let root = leaf(&addr(31), 2);
    let record =
        init_staking::handler(&config(), &ctx, bumps, 100, RewardModel::Flat, 50, root).unwrap();
    (record, staking)
}

fn stake_ctx(staking: &Staking, address: Address) -> (StakeNft, StakedNftBumps) {
    let mint = addr(31);
    let (record, b_record) = find(&[b"staked_nft", &mint.to_bytes()]);
    let (deposit, b_deposit) = find(&[b"deposit", &mint.to_bytes()]);
    (
        StakeNft {
            staking: address,
            escrow: staking.escrow,
            staked_nft: record,
            staker: addr(20),
            mint,
            staker_account_owner: addr(20),
            deposit_account: deposit,
            fee_receiver_account: addr(201),
            staked_nft_exists: false,
            clock: 50,
        },
        StakedNftBumps { staked_nft: b_record, deposit: b_deposit },
    )
}

#[test]
fn the_stake_handler_counts_the_token_and_returns_its_record() {
    let (mut staking, address) = registry();
    let (ctx, bumps) = stake_ctx(&staking, address);
    let mut b = Balances { fee_payer: FEES_LAMPORTS, fee_receiver: 1, rewards_vault: 0 };
    let (record, actions) =
        stake_nft::handler(&config(), &ctx, &mut staking, &mut b, bumps, Vec::new(), 2).unwrap();
    assert_eq!(staking.nfts_staked, 1);
    assert_eq!(record.mint, addr(31));
    assert_eq!(record.last_claim, 50);
    assert_eq!(actions, vec![CustodyAction::Deposit { amount: 1 }]);
    assert_eq!(b, Balances { fee_payer: 0, fee_receiver: FEES_LAMPORTS + 1, rewards_vault: 0 });
}

#[test]
fn the_stake_handler_rejects_a_token_whose_record_exists() {
    let (mut staking, address) = registry();
    let (mut ctx, bumps) = stake_ctx(&staking, address);
    ctx.staked_nft_exists = true;
    let mut b = Balances { fee_payer: FEES_LAMPORTS, fee_receiver: 1, rewards_vault: 0 };
    let out = stake_nft::handler(&config(), &ctx, &mut staking, &mut b, bumps, Vec::new(), 2);
    assert_eq!(out.err(), Some(StakingError::AlreadyStaked));
    assert_eq!(staking.nfts_staked, 0);
}

#[test]
fn the_unstake_handler_rejects_a_collection_without_staked_tokens() {
    let (mut staking, address) = registry();
    let (ctx, bumps) = stake_ctx(&staking, address);
    let mut b = Balances { fee_payer: 2 * FEES_LAMPORTS, fee_receiver: 0, rewards_vault: 0 };
    let (record, _) =
        stake_nft::handler(&config(), &ctx, &mut staking, &mut b, bumps, Vec::new(), 2).unwrap();
    let un = UnstakeNft {
        staking: address,
        escrow: staking.escrow,
        staker: addr(20),
        mint: addr(31),
        staker_account_owner: addr(20),
        deposit_account: ctx.deposit_account,
        fee_receiver_account: addr(201),
    };
    let mut empty = staking;
    empty.nfts_staked = 0;
    let out = unstake_nft::handler(&config(), &un, &mut empty, &record, &mut b);
    assert_eq!(out.err(), Some(StakingError::NotStaked));
    let mut other = record;
    other.key = addr(1);
    let out = unstake_nft::handler(&config(), &un, &mut staking, &other, &mut b);
    assert_eq!(out.err(), Some(StakingError::InvalidDerivation));
    let done = unstake_nft::handler(&config(), &un, &mut staking, &record, &mut b).unwrap();
    assert_eq!(done.paid, 0);
    assert_eq!(staking.nfts_staked, 0);
    assert_eq!(b.fee_payer, 0);
}

#[test]
fn migration_keeps_the_fields_and_owes_fees() {
    let (staking, address) = registry();
    let earlier = EarlierStaking {
        key: staking.key,
        owner: staking.owner,
        bumps: staking.bumps,
        escrow: staking.escrow,
        mint: staking.mint,
        rewards_account: staking.rewards_account,
        nfts_staked: 4,
        daily_rewards: 100,
        start: 50,
        root: staking.root,
    };
    let ctx = MigrateStaking { staking: address, auth: addr(202) };
    let mut expected = staking;
    expected.nfts_staked = 4;
    assert_eq!(migrate_staking::handler(&config(), &ctx, &earlier), Ok(expected));
    let ctx = MigrateStaking { staking: address, auth: addr(11) };
    assert_eq!(
        migrate_staking::handler(&config(), &ctx, &earlier),
        Err(StakingError::Unauthorized)
    );
    let ctx = MigrateStaking { staking: addr(3), auth: addr(202) };
    assert_eq!(
        migrate_staking::handler(&config(), &ctx, &earlier),
        Err(StakingError::InvalidDerivation)
    );
}

#[test]
fn the_stored_record_of_a_token_takes_130_bytes() {
    assert_eq!(StakedNft::LEN, 130);
}

#[test]
fn the_escrow_of_a_collection_carries_its_seeds() {
    let (staking, address) = registry();
    let escrow = staking::state::escrow_authority(&addr(200), &staking).unwrap();
    assert_eq!(escrow.address(), staking.escrow);
    assert_eq!(
        escrow.signer_seeds(),
        &vec![b"escrow".to_vec(), vec![10u8; 32], vec![staking.bumps.escrow]]
    );
    assert_ne!(escrow.address(), address);
}
