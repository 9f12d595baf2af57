use staking::errors::StakingError;
use staking::rewards::{
    charge_fee, pending_reward, seconds_since, settle_reward, Balances, RewardModel,
    FEES_LAMPORTS, MULTIPLIER_FLOOR, SECONDS_PER_DAY,
};

fn normalized() -> RewardModel {
    RewardModel::RarityNormalized { max_rarity: 100, max_rarity_multiplier: 20000 }
}

fn balances(payer: u64, receiver: u64, vault: u64) -> Balances {
    Balances { fee_payer: payer, fee_receiver: receiver, rewards_vault: vault }
}

#[test]
fn constants_are_as_documented() {
    assert_eq!(SECONDS_PER_DAY, 86400);
    assert_eq!(FEES_LAMPORTS, 10_000_000);
    assert_eq!(MULTIPLIER_FLOOR, 10000);
}

#[test]
fn a_day_at_rate_100_and_multiplier_2_gives_200() {
    assert_eq!(pending_reward(100, 2, 1_000, 1_000 + 86400, RewardModel::Flat), Some(200));
}

#[test]
fn no_time_gives_no_reward() {
    assert_eq!(pending_reward(100, 2, 5_000, 5_000, RewardModel::Flat), Some(0));
    assert_eq!(pending_reward(u64::MAX, u64::MAX, -7, -7, normalized()), Some(0));
}

#[test]
fn division_drops_the_remainder() {
    // 100 * 2 * 86399 / 86400 = 199.99...
    assert_eq!(pending_reward(100, 2, 0, 86399, RewardModel::Flat), Some(199));
    // 1 * 1 * 86399 / 86400 = 0.99...
    assert_eq!(pending_reward(1, 1, 0, 86399, RewardModel::Flat), Some(0));
}

#[test]
fn the_normalized_model_divides_by_100_after_multiplying() {
    // 3 * 150 * 86400 / 100 / 86400 = 4.5
    assert_eq!(pending_reward(3, 150, 0, 86400, normalized()), Some(4));
    // 7 * 33 * 43200 / 100 / 86400 = 1.155
    assert_eq!(pending_reward(7, 33, 0, 43200, normalized()), Some(1));
    // 1 * 50 * 172800 / 100 / 86400 = 1: dividing the rate first would give 0.
    assert_eq!(pending_reward(1, 50, 0, 172800, normalized()), Some(1));
    assert_eq!(pending_reward(100, 250, 10, 10 + 86400, normalized()), Some(250));
}

#[test]
fn reward_does_not_decrease_with_time() {
    let mut last = 0u64;
    for now in (0..400_000i64).step_by(7_919) {
        let due = pending_reward(13, 3, 0, now, RewardModel::Flat).unwrap();
        assert!(due >= last);
        last = due;
    }
}

#[test]
fn a_time_before_the_last_claim_counts_as_no_time() {
    assert_eq!(seconds_since(100, 99), 0);
    assert_eq!(seconds_since(100, 100), 0);
    assert_eq!(seconds_since(100, 160), 60);
    assert_eq!(seconds_since(i64::MIN, i64::MAX), u64::MAX);
    assert_eq!(pending_reward(100, 2, 100, 99, RewardModel::Flat), Some(0));
}

#[test]
fn a_reward_beyond_the_largest_amount_is_none() {
    assert_eq!(pending_reward(u64::MAX, u64::MAX, 0, i64::MAX, RewardModel::Flat), None);
    assert_eq!(pending_reward(u64::MAX, 86400, 0, 2, RewardModel::Flat), None);
    assert_eq!(pending_reward(u64::MAX, 86400, 0, 1, RewardModel::Flat), Some(u64::MAX));
    // The product passes 128 bits, the reward still does not fit.
    assert_eq!(pending_reward(u64::MAX, u64::MAX, 0, 2, normalized()), None);
}

#[test]
fn the_fee_moves_from_payer_to_collector() {
    let mut b = balances(FEES_LAMPORTS + 5, 7, 99);
    assert_eq!(charge_fee(&mut b, false), Ok(()));
    assert_eq!(b, balances(5, 7 + FEES_LAMPORTS, 99));
}

#[test]
fn an_exempt_collection_pays_no_fee() {
    let mut b = balances(0, 7, 99);
    assert_eq!(charge_fee(&mut b, true), Ok(()));
    assert_eq!(b, balances(0, 7, 99));
}

#[test]
fn a_payer_without_the_fee_is_rejected() {
    let mut b = balances(FEES_LAMPORTS - 1, 7, 99);
    assert_eq!(charge_fee(&mut b, false), Err(StakingError::InvalidFee));
    assert_eq!(b, balances(FEES_LAMPORTS - 1, 7, 99));
}

#[test]
fn a_collector_without_room_is_rejected() {
    let mut b = balances(FEES_LAMPORTS, u64::MAX - FEES_LAMPORTS + 1, 99);
    assert_eq!(charge_fee(&mut b, false), Err(StakingError::InvalidFee));
    assert_eq!(b, balances(FEES_LAMPORTS, u64::MAX - FEES_LAMPORTS + 1, 99));
    let mut b = balances(FEES_LAMPORTS, u64::MAX - FEES_LAMPORTS, 99);
    assert_eq!(charge_fee(&mut b, false), Ok(()));
    assert_eq!(b, balances(0, u64::MAX, 99));
}

#[test]
fn a_reward_is_paid_in_full_or_not_at_all() {
    let mut b = balances(1, 2, 200);
    assert_eq!(settle_reward(&mut b, 100, 2, 0, 86400, RewardModel::Flat), 200);
    assert_eq!(b, balances(1, 2, 0));
    let mut b = balances(1, 2, 199);
    assert_eq!(settle_reward(&mut b, 100, 2, 0, 86400, RewardModel::Flat), 0);
    assert_eq!(b, balances(1, 2, 199));
    let mut b = balances(1, 2, u64::MAX);
    assert_eq!(settle_reward(&mut b, u64::MAX, u64::MAX, 0, 86400, RewardModel::Flat), 0);
    assert_eq!(b, balances(1, 2, u64::MAX));
}

#[test]
fn fee_and_reward_do_not_depend_on_their_order() {
    let mut first = balances(FEES_LAMPORTS, 0, 500);
    assert_eq!(charge_fee(&mut first, false), Ok(()));
    let paid_first = settle_reward(&mut first, 100, 2, 0, 86400, RewardModel::Flat);
    let mut second = balances(FEES_LAMPORTS, 0, 500);
    let paid_second = settle_reward(&mut second, 100, 2, 0, 86400, RewardModel::Flat);
    assert_eq!(charge_fee(&mut second, false), Ok(()));
    assert_eq!(paid_first, paid_second);
    assert_eq!(first, second);
    assert_eq!(first, balances(0, FEES_LAMPORTS, 300));
}

#[test]
fn a_multiplier_cap_below_the_floor_is_rejected() {
    assert_eq!(RewardModel::Flat.validate(), Ok(()));
    assert_eq!(normalized().validate(), Ok(()));
    let at_floor = RewardModel::RarityNormalized { max_rarity: 1, max_rarity_multiplier: 10000 };
    assert_eq!(at_floor.validate(), Ok(()));
    let below = RewardModel::RarityNormalized { max_rarity: 1, max_rarity_multiplier: 9999 };
    assert_eq!(below.validate(), Err(StakingError::InvalidMultiplier));
    assert_eq!(RewardModel::Flat.normalization(), 1);
    assert_eq!(normalized().normalization(), 100);
}

#[test]
fn two_claims_earn_no_more_than_one() {
    for (first, second) in [(0i64, 86400i64), (43199, 43201), (1, 86399), (100_000, 7), (86400, 86400)] {
        for model in [RewardModel::Flat, normalized()] {
            let a = pending_reward(13, 77, 0, first, model).unwrap();
            let b = pending_reward(13, 77, first, first + second, model).unwrap();
            let whole = pending_reward(13, 77, 0, first + second, model).unwrap();
            assert!(a + b <= whole);
            assert!(whole - (a + b) <= 1);
        }
    }
    // 100 * 2 * 43199 / 86400 = 99, twice, against 199 for the whole span.
    assert_eq!(pending_reward(100, 2, 0, 43199, RewardModel::Flat), Some(99));
    assert_eq!(pending_reward(100, 2, 43199, 86398, RewardModel::Flat), Some(99));
    assert_eq!(pending_reward(100, 2, 0, 86398, RewardModel::Flat), Some(199));
}
