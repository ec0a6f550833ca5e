use fomo3d::error::GameError;
use fomo3d::instruction::PurchaseKeysParams;
use fomo3d::processor::fees::{split_fees, FeeShares};
use fomo3d::processor::processor::Processor;
use fomo3d::processor::util::{allowed_contribution, extended_end_time, verify_round_state};
use fomo3d::state::{
    Clock, FeeSplit, PlayerRoundState, RoundState, SolByTeam, Team, LAMPORTS_PER_SOL,
    ROUND_INC_TIME,
};

const SOL: u128 = 1_000_000_000;
const ALICE: [u8; 32] = [1u8; 32];
const BOB: [u8; 32] = [2u8; 32];

fn new_round(round_id: u64) -> RoundState {
    RoundState {
        round_id,
        lead_player_pk: [0u8; 32],
        lead_player_team: Team::Whale,
        start_time: 1_000,
        end_time: 1_002,
        ended: false,
        accum_keys: 0,
        accum_sol_pot: 0,
        accum_sol_by_team: SolByTeam { whale: 0, bear: 0, snek: 0, bull: 0 },
        accum_community_share: 0,
        accum_airdrop_share: 0,
        accum_next_round_share: 0,
        accum_aff_share: 0,
        accum_p3d_share: 0,
        accum_f3d_share: 0,
        still_in_play: 0,
        final_prize_share: 0,
        withdrawn_com: 0,
        withdrawn_next_round: 0,
        withdrawn_p3d: 0,
        awarded_airdrop: 0,
        airdrop_tracker: 0,
    }
}

/// A round with `pot` in it, all of it in play.
fn funded_round(round_id: u64, pot: u128) -> RoundState {
    RoundState { accum_sol_pot: pot, still_in_play: pot, ..new_round(round_id) }
}

fn clock(unix_timestamp: i64) -> Clock {
    Clock { slot: 5, epoch_start_timestamp: 900, epoch: 1, leader_schedule_epoch: 2, unix_timestamp }
}

fn pools(round: &RoundState) -> u128 {
    round.accum_community_share
        + round.accum_airdrop_share
        + round.accum_next_round_share
        + round.accum_aff_share
        + round.accum_p3d_share
        + round.accum_f3d_share
        + round.still_in_play
        + round.final_prize_share
}

#[test]
fn lamports_per_sol_is_the_hosts() {
    assert_eq!(LAMPORTS_PER_SOL, solana_program::native_token::LAMPORTS_PER_SOL as u128);
}

#[test]
fn concrete_split_of_a_million_for_bears() {
    let shares = split_fees(1_000_000, FeeSplit { f3d: 43, p3d: 0 }, false).unwrap();
    assert_eq!(
        shares,
        FeeShares {
            community: 20_000,
            airdrop: 10_000,
            next_round: 10_000,
            affiliate: 0,
            p3d: 100_000,
            f3d: 430_000,
            still_in_play: 430_000,
        }
    );
    assert_eq!(Team::Bear.fee_split(), FeeSplit { f3d: 43, p3d: 0 });
    let sum = shares.community
        + shares.airdrop
        + shares.next_round
        + shares.affiliate
        + shares.p3d
        + shares.f3d
        + shares.still_in_play;
    assert_eq!(sum, 1_000_000);
}

#[test]
fn split_with_a_referrer() {
    let shares = split_fees(1_000_000, FeeSplit { f3d: 30, p3d: 6 }, true).unwrap();
    assert_eq!(
        shares,
        FeeShares {
            community: 20_000,
            airdrop: 10_000,
            next_round: 10_000,
            affiliate: 100_000,
            p3d: 60_000,
            f3d: 300_000,
            still_in_play: 500_000,
        }
    );
}

#[test]
fn split_rounds_down_and_leaves_the_dust_in_play() {
    for amount in [0u128, 1, 9, 10, 49, 50, 99, 100, 101, 999, 123_456_789, u64::MAX as u128] {
        for team in [Team::Whale, Team::Bear, Team::Snek, Team::Bull] {
            for referred in [false, true] {
                let split = team.fee_split();
                let s = split_fees(amount, split, referred).unwrap();
                let sum = s.community + s.airdrop + s.next_round + s.affiliate + s.p3d + s.f3d
                    + s.still_in_play;
                assert_eq!(sum, amount);
                let floor = amount * (86 - split.f3d as u128 - split.p3d as u128) / 100;
                assert!(s.still_in_play >= floor);
                assert_eq!(s.community, amount / 50);
                assert_eq!(s.airdrop, amount / 100);
                assert_eq!(s.f3d, amount * split.f3d as u128 / 100);
            }
        }
    }
    let s = split_fees(99, FeeSplit { f3d: 56, p3d: 10 }, false).unwrap();
    assert_eq!(s.community, 1);
    assert_eq!(s.airdrop, 0);
    assert_eq!(s.p3d, 9 + 9);
    assert_eq!(s.f3d, 55);
    assert_eq!(s.still_in_play, 99 - 1 - 18 - 55);
}

#[test]
fn split_refuses_what_it_cannot_compute() {
    assert_eq!(
        split_fees(100, FeeSplit { f3d: 80, p3d: 7 }, false),
        Err(GameError::CalculationFailure)
    );
    assert_eq!(
        split_fees(100, FeeSplit { f3d: 255, p3d: 255 }, false),
        Err(GameError::CalculationFailure)
    );
    assert!(split_fees(100, FeeSplit { f3d: 80, p3d: 6 }, false).is_ok());
    assert_eq!(
        split_fees(u128::MAX, FeeSplit { f3d: 43, p3d: 0 }, false),
        Err(GameError::CalculationFailure)
    );
    assert!(split_fees(u128::MAX / 56, FeeSplit { f3d: 56, p3d: 10 }, false).is_ok());
}

#[test]
fn team_codes() {
    assert_eq!(Team::from_code(0), Team::Whale);
    assert_eq!(Team::from_code(1), Team::Bear);
    assert_eq!(Team::from_code(2), Team::Snek);
    assert_eq!(Team::from_code(3), Team::Bull);
    assert_eq!(Team::from_code(4), Team::Snek);
    assert_eq!(Team::from_code(255), Team::Snek);
    assert_eq!(Team::Whale.fee_split(), FeeSplit { f3d: 30, p3d: 6 });
    assert_eq!(Team::Snek.fee_split(), FeeSplit { f3d: 56, p3d: 10 });
    assert_eq!(Team::Bull.fee_split(), FeeSplit { f3d: 43, p3d: 8 });
}

#[test]
fn scenario_a_million_for_the_bears() {
    let round = new_round(1);
    let player = PlayerRoundState::new(ALICE, 1);
    let params = PurchaseKeysParams { sol_to_be_added: 1_000_000, team: 1 };
    let effect = Processor::purchase(&round, &player, &None, &params, Ok(13), Ok(500)).unwrap();
    assert_eq!(effect.paid, 1_000_000);
    let r = effect.round;
    assert_eq!(r.accum_community_share, 20_000);
    assert_eq!(r.accum_airdrop_share, 10_000);
    assert_eq!(r.accum_next_round_share, 10_000);
    assert_eq!(r.accum_aff_share, 0);
    assert_eq!(r.accum_p3d_share, 100_000);
    assert_eq!(r.accum_f3d_share, 430_000);
    assert_eq!(r.still_in_play, 430_000);
    assert_eq!(r.final_prize_share, 0);
    assert_eq!(r.accum_sol_pot, 1_000_000);
    assert_eq!(pools(&r), 1_000_000);
    assert_eq!(r.accum_keys, 13);
    assert_eq!(r.lead_player_pk, ALICE);
    assert_eq!(r.lead_player_team, Team::Bear);
    assert_eq!(r.accum_sol_by_team, SolByTeam { whale: 0, bear: 1_000_000, snek: 0, bull: 0 });
    assert_eq!(r.end_time, 1_004);
    assert_eq!(r.start_time, 1_000);
    assert_eq!(r.airdrop_tracker, 0);
    assert!(!r.ended);
    assert_eq!(effect.player.accum_keys, 13);
    assert_eq!(effect.player.accum_sol_added, 1_000_000);
    assert_eq!(effect.player.accum_winnings, 0);
    assert_eq!(effect.affiliate, None);
    assert_eq!(verify_round_state(&r), Ok(()));
}

#[test]
fn purchase_through_curve_and_lottery() {
    let mut round = new_round(1);
    let mut player = PlayerRoundState::new(ALICE, 1);
    let mut affiliate = None;
    let params = PurchaseKeysParams { sol_to_be_added: 1_000_000, team: 1 };
    let paid = Processor::process_purchase_keys(
        &mut round,
        &mut player,
        &mut affiliate,
        true,
        &clock(1_001),
        &params,
    );
    assert_eq!(paid, Ok(1_000_000));
    assert_eq!(round.accum_keys, 13);
    assert_eq!(player.accum_keys, 13);
    assert_eq!(round.accum_sol_pot, 1_000_000);
    assert_eq!(pools(&round), 1_000_000);
    assert_eq!(round.end_time, 1_002 + ROUND_INC_TIME);

    // a second buyer adds to the same pools
    let mut bob = PlayerRoundState::new(BOB, 1);
    let params = PurchaseKeysParams { sol_to_be_added: 50_000_000, team: 0 };
    let paid = Processor::process_purchase_keys(
        &mut round,
        &mut bob,
        &mut affiliate,
        true,
        &clock(1_003),
        &params,
    );
    assert_eq!(paid, Ok(50_000_000));
    assert_eq!(round.accum_sol_pot, 51_000_000);
    assert_eq!(pools(&round), 51_000_000);
    assert_eq!(round.lead_player_pk, BOB);
    assert_eq!(round.lead_player_team, Team::Whale);
    assert_eq!(round.accum_keys, 13 + bob.accum_keys);
    assert!(bob.accum_keys > 600);
    assert_eq!(round.accum_sol_by_team.whale, 50_000_000);
    assert_eq!(round.accum_sol_by_team.bear, 1_000_000);
    assert_eq!(round.end_time, 1_006);
}

#[test]
fn purchase_below_one_key_changes_nothing() {
    let mut round = funded_round(1, 5 * SOL);
    let mut player = PlayerRoundState::new(ALICE, 1);
    let mut affiliate = None;
    let before = (round, player);
    let params = PurchaseKeysParams { sol_to_be_added: 1_000, team: 2 };
    let res = Processor::process_purchase_keys(
        &mut round,
        &mut player,
        &mut affiliate,
        true,
        &clock(1_001),
        &params,
    );
    assert_eq!(res, Err(GameError::BelowFloor));
    assert_eq!((round, player), before);
    assert_eq!(affiliate, None);

    let res = Processor::purchase(&round, &player, &None, &params, Ok(0), Ok(0));
    assert_eq!(res, Err(GameError::BelowFloor));
}

#[test]
fn purchase_needs_a_running_round_and_a_signature() {
    let params = PurchaseKeysParams { sol_to_be_added: SOL, team: 0 };
    let mut round = new_round(1);
    let mut player = PlayerRoundState::new(ALICE, 1);
    let mut affiliate = None;
    // the timer has run out
    let res = Processor::process_purchase_keys(
        &mut round, &mut player, &mut affiliate, true, &clock(1_003), &params,
    );
    assert_eq!(res, Err(GameError::AlreadyEnded));
    // at the very end the round still runs
    let mut at_end = new_round(1);
    let res = Processor::process_purchase_keys(
        &mut at_end, &mut player, &mut affiliate, true, &clock(1_002), &params,
    );
    assert_eq!(res, Ok(SOL as u64));
    // a settled round sells nothing, whatever the clock says
    let mut settled = RoundState { ended: true, ..new_round(1) };
    let mut player = PlayerRoundState::new(ALICE, 1);
    let res = Processor::process_purchase_keys(
        &mut settled, &mut player, &mut affiliate, true, &clock(1_000), &params,
    );
    assert_eq!(res, Err(GameError::AlreadyEnded));
    // no signature
    let res = Processor::process_purchase_keys(
        &mut round, &mut player, &mut affiliate, false, &clock(1_001), &params,
    );
    assert_eq!(res, Err(GameError::MissingSignature));
    assert_eq!(round, new_round(1));
    // the record of another round
    let mut stranger = PlayerRoundState::new(ALICE, 2);
    let res = Processor::process_purchase_keys(
        &mut round, &mut stranger, &mut affiliate, true, &clock(1_001), &params,
    );
    assert_eq!(res, Err(GameError::WrongAccount));
}

#[test]
fn contribution_cap() {
    assert_eq!(allowed_contribution(0, 0, 5 * SOL), Ok(SOL));
    assert_eq!(allowed_contribution(0, 0, SOL), Ok(SOL));
    assert_eq!(allowed_contribution(0, SOL / 4, SOL), Ok(3 * SOL / 4));
    assert_eq!(allowed_contribution(0, SOL, 1), Ok(0));
    assert_eq!(allowed_contribution(100 * SOL - 1, 0, 5 * SOL), Ok(SOL));
    assert_eq!(allowed_contribution(100 * SOL, 0, 5 * SOL), Ok(5 * SOL));
    assert_eq!(allowed_contribution(100 * SOL, 3 * SOL, 5 * SOL), Ok(5 * SOL));
    assert_eq!(allowed_contribution(0, 0, u128::MAX), Ok(SOL));
    assert_eq!(allowed_contribution(0, 5, u128::MAX), Ok(SOL - 5));
    assert_eq!(allowed_contribution(0, SOL + 1, 0), Err(GameError::CalculationFailure));
    assert_eq!(allowed_contribution(0, u128::MAX, 1), Err(GameError::CalculationFailure));
}

#[test]
fn capped_player_never_exceeds_one_unit() {
    let mut round = new_round(1);
    let mut player = PlayerRoundState::new(ALICE, 1);
    let mut affiliate = None;
    let params = PurchaseKeysParams { sol_to_be_added: 5 * SOL, team: 3 };
    let paid = Processor::process_purchase_keys(
        &mut round, &mut player, &mut affiliate, true, &clock(1_001), &params,
    );
    // the ticket of an eligible purchase may win, but the airdrop pool is empty
    assert_eq!(paid, Ok(SOL as u64));
    assert_eq!(player.accum_sol_added, SOL);
    assert_eq!(round.accum_sol_pot, SOL);
    assert_eq!(round.accum_sol_by_team.bull, SOL);
    // one unit is in: nothing more is allowed, and nothing buys no key
    let before = (round, player);
    let res = Processor::process_purchase_keys(
        &mut round, &mut player, &mut affiliate, true, &clock(1_001), &params,
    );
    assert_eq!(res, Err(GameError::BelowFloor));
    assert_eq!((round, player), before);
    // once the pot has reached a hundred units the cap is gone
    let rich = funded_round(1, 100 * SOL);
    let whale = PlayerRoundState { accum_sol_added: SOL, ..PlayerRoundState::new(BOB, 1) };
    let effect =
        Processor::purchase(&rich, &whale, &None, &params, Ok(1_000), Ok(999)).unwrap();
    assert_eq!(effect.paid, 5 * SOL as u64);
    assert_eq!(effect.player.accum_sol_added, 6 * SOL);
    assert_eq!(effect.player.accum_keys, 1_000);
    assert_eq!(effect.round.airdrop_tracker, 1);
}

#[test]
fn purchase_with_a_referrer() {
    let round = new_round(1);
    let mut player = PlayerRoundState::new(ALICE, 1);
    player.last_affiliate_pk = BOB;
    assert!(player.has_affiliate());
    let params = PurchaseKeysParams { sol_to_be_added: 1_000_000, team: 1 };

    let res = Processor::purchase(&round, &player, &None, &params, Ok(13), Ok(0));
    assert_eq!(res, Err(GameError::MissingAccount));

    let wrong = Some(PlayerRoundState::new([9u8; 32], 1));
    let res = Processor::purchase(&round, &player, &wrong, &params, Ok(13), Ok(0));
    assert_eq!(res, Err(GameError::WrongAccount));

    let other_round = Some(PlayerRoundState::new(BOB, 2));
    let res = Processor::purchase(&round, &player, &other_round, &params, Ok(13), Ok(0));
    assert_eq!(res, Err(GameError::WrongAccount));

    let full = Some(PlayerRoundState { accum_aff: u128::MAX, ..PlayerRoundState::new(BOB, 1) });
    let res = Processor::purchase(&round, &player, &full, &params, Ok(13), Ok(0));
    assert_eq!(res, Err(GameError::CalculationFailure));

    let bob = Some(PlayerRoundState { accum_aff: 7, ..PlayerRoundState::new(BOB, 1) });
    let effect = Processor::purchase(&round, &player, &bob, &params, Ok(13), Ok(0)).unwrap();
    assert_eq!(effect.affiliate.unwrap().accum_aff, 100_007);
    assert_eq!(effect.round.accum_aff_share, 100_000);
    assert_eq!(effect.round.accum_p3d_share, 0);
    assert_eq!(effect.round.accum_f3d_share, 430_000);
    assert_eq!(effect.round.still_in_play, 430_000);
    assert_eq!(pools(&effect.round), 1_000_000);

    // a buyer without a referrer leaves a record handed in as it is
    let plain = PlayerRoundState::new(ALICE, 1);
    let effect = Processor::purchase(&round, &plain, &bob, &params, Ok(13), Ok(0)).unwrap();
    assert_eq!(effect.affiliate, bob);
    assert_eq!(effect.round.accum_p3d_share, 100_000);
}

#[test]
fn purchase_plays_the_airdrop() {
    // 0.2 units at a pot of 100 units: eligible, no cap
    let mut round = funded_round(1, 100 * SOL);
    round.airdrop_tracker = 4;
    let player = PlayerRoundState::new(ALICE, 1);
    let params = PurchaseKeysParams { sol_to_be_added: SOL / 5, team: 0 };

    // ticket 5 against a count of 5: no win
    let effect = Processor::purchase(&round, &player, &None, &params, Ok(10), Ok(5)).unwrap();
    assert_eq!(effect.round.airdrop_tracker, 5);
    assert_eq!(effect.round.accum_airdrop_share, SOL / 500);
    assert_eq!(effect.round.awarded_airdrop, 0);
    assert_eq!(effect.player.accum_winnings, 0);

    // ticket 4 wins, but the pool is empty: the count starts again and nothing is paid
    let effect = Processor::purchase(&round, &player, &None, &params, Ok(10), Ok(4)).unwrap();
    assert_eq!(effect.round.airdrop_tracker, 0);
    assert_eq!(effect.round.awarded_airdrop, 0);
    assert_eq!(effect.player.accum_winnings, 0);
    assert_eq!(pools(&effect.round), effect.round.accum_sol_pot);

    // three in the pool: a quarter of it rounds down to nothing
    let mut small = round;
    small.accum_airdrop_share = 3;
    small.still_in_play -= 3;
    let effect = Processor::purchase(&small, &player, &None, &params, Ok(10), Ok(0)).unwrap();
    assert_eq!(effect.round.accum_airdrop_share, 3 + SOL / 500);
    assert_eq!(effect.round.awarded_airdrop, 0);
    assert_eq!(effect.round.airdrop_tracker, 0);

    // a thousand in the pool: the winner gets a quarter of it at once
    let mut pool = round;
    pool.accum_airdrop_share = 1_000;
    pool.still_in_play -= 1_000;
    assert_eq!(verify_round_state(&pool), Ok(()));
    let won = Processor::purchase(&pool, &player, &None, &params, Ok(10), Ok(0)).unwrap();
    assert_eq!(won.player.accum_winnings, 250);
    assert_eq!(won.round.awarded_airdrop, 250);
    assert_eq!(won.round.airdrop_tracker, 0);
    // the prize of the purchase leaves out what the purchase itself sets aside
    assert_eq!(won.round.accum_airdrop_share, 1_000 + SOL / 500);
    assert_eq!(pools(&won.round), won.round.accum_sol_pot);
    assert_eq!(verify_round_state(&won.round), Ok(()));
    // but for the lottery, the purchase is the one that does not win
    let lost = Processor::purchase(&pool, &player, &None, &params, Ok(10), Ok(999)).unwrap();
    assert_eq!(lost.player.accum_winnings, 0);
    assert_eq!(lost.round.airdrop_tracker, 5);
    assert_eq!(
        won.round,
        RoundState { awarded_airdrop: 250, airdrop_tracker: 0, ..lost.round }
    );
    assert_eq!(won.player, PlayerRoundState { accum_winnings: 250, ..lost.player });
    assert_eq!(won.paid, lost.paid);

    // the next winner gets a part of what is left
    let next = PlayerRoundState::new(BOB, 1);
    let big = PurchaseKeysParams { sol_to_be_added: 11 * SOL, team: 3 };
    let again = Processor::purchase(&won.round, &next, &None, &big, Ok(10), Ok(0)).unwrap();
    // three quarters of 1_000 + 2_000_000 - 250
    assert_eq!(again.player.accum_winnings, 1_500_562);
    assert_eq!(again.round.awarded_airdrop, 1_500_812);
    assert!(again.round.awarded_airdrop <= again.round.accum_airdrop_share);
    assert_eq!(verify_round_state(&again.round), Ok(()));

    // what was won can be withdrawn, with the dividend of the only key holder:
    // 30% of the purchase
    let mut winner = won.player;
    assert_eq!(
        Processor::process_withdraw_sol(&won.round, &mut winner, true),
        Ok(250 + 60_000_000)
    );
    assert_eq!(winner.withdrawn_winnings, 250);
    assert_eq!(winner.withdrawn_f3d, 60_000_000);

    // winnings that are full
    let full = PlayerRoundState { accum_winnings: u128::MAX, ..player };
    let res = Processor::purchase(&pool, &full, &None, &params, Ok(10), Ok(0));
    assert_eq!(res, Err(GameError::CalculationFailure));
    // more won than set aside
    let mut over = pool;
    over.awarded_airdrop = 1_001;
    let res = Processor::purchase(&over, &player, &None, &params, Ok(10), Ok(0));
    assert_eq!(res, Err(GameError::CalculationFailure));

    // an eligible purchase needs its ticket
    let res = Processor::purchase(
        &round, &player, &None, &params, Ok(10), Err(GameError::CalculationFailure),
    );
    assert_eq!(res, Err(GameError::CalculationFailure));
    // one that is not eligible does not
    let tiny = PurchaseKeysParams { sol_to_be_added: SOL / 10, team: 0 };
    let res = Processor::purchase(
        &round, &player, &None, &tiny, Ok(10), Err(GameError::CalculationFailure),
    );
    assert_eq!(res.unwrap().round.airdrop_tracker, 4);
}

#[test]
fn purchase_error_variants() {
    let player = PlayerRoundState::new(ALICE, 1);
    let rich = funded_round(1, 100 * SOL);
    // more than 64 bits can carry
    let huge = PurchaseKeysParams { sol_to_be_added: u64::MAX as u128 + 1, team: 0 };
    let res = Processor::purchase(&rich, &player, &None, &huge, Ok(1), Ok(999));
    assert_eq!(res, Err(GameError::ConversionFailure));
    // the curve failed
    let params = PurchaseKeysParams { sol_to_be_added: SOL, team: 0 };
    let res = Processor::purchase(
        &rich, &player, &None, &params, Err(GameError::CalculationFailure), Ok(999),
    );
    assert_eq!(res, Err(GameError::CalculationFailure));
    // the team's total is full
    let mut full = rich;
    full.accum_sol_by_team.whale = u128::MAX;
    let res = Processor::purchase(&full, &player, &None, &params, Ok(1), Ok(999));
    assert_eq!(res, Err(GameError::CalculationFailure));
    // the keys of the round are full
    let mut full = rich;
    full.accum_keys = u128::MAX;
    let res = Processor::purchase(&full, &player, &None, &params, Ok(1), Ok(999));
    assert_eq!(res, Err(GameError::CalculationFailure));
    // the timer cannot be extended
    let mut late = rich;
    late.start_time = i64::MAX - 86_399;
    late.end_time = i64::MAX - 86_399;
    let res = Processor::purchase(&late, &player, &None, &params, Ok(1), Ok(999));
    assert_eq!(res, Err(GameError::CalculationFailure));
    // pools that do not add up
    let mut broken = rich;
    broken.accum_f3d_share += 1;
    let res = Processor::purchase(&broken, &player, &None, &params, Ok(1), Ok(999));
    assert_eq!(res, Err(GameError::InvariantViolation));
    // a player over the cap in a capped round
    let capped = new_round(1);
    let over = PlayerRoundState { accum_sol_added: SOL + 1, ..player };
    let res = Processor::purchase(&capped, &over, &None, &params, Ok(1), Ok(999));
    assert_eq!(res, Err(GameError::CalculationFailure));
}

#[test]
fn timer_moves_by_the_increment() {
    assert_eq!(extended_end_time(1_000, 1_002), Ok(1_004));
    assert_eq!(extended_end_time(-10, -5), Ok(-3));
    assert_eq!(extended_end_time(0, i64::MAX - 2), Ok(i64::MAX - 2));
    assert_eq!(extended_end_time(0, i64::MAX - 1), Err(GameError::CalculationFailure));
    assert_eq!(extended_end_time(i64::MAX - 86_400, i64::MAX - 2), Ok(i64::MAX));
    assert_eq!(
        extended_end_time(i64::MAX - 86_400, i64::MAX - 1),
        Err(GameError::CalculationFailure)
    );
    assert_eq!(
        extended_end_time(i64::MAX - 86_399, i64::MAX - 86_399),
        Err(GameError::CalculationFailure)
    );
    assert_eq!(extended_end_time(i64::MIN, i64::MIN), Ok(i64::MIN + 2));
}

#[test]
fn timer_stays_within_the_window_of_the_start() {
    // room for the whole increment
    assert_eq!(extended_end_time(1_000, 1_000 + 86_398), Ok(1_000 + 86_400));
    // room for a part of it
    assert_eq!(extended_end_time(1_000, 1_000 + 86_399), Ok(1_000 + 86_400));
    // no room
    assert_eq!(extended_end_time(1_000, 1_000 + 86_400), Ok(1_000 + 86_400));
    // a round that ends beyond its window keeps its end
    assert_eq!(extended_end_time(1_000, 1_000 + 90_000), Ok(1_000 + 90_000));

    // a round that has been extended to the edge of its window
    let mut round = new_round(1);
    round.end_time = round.start_time + 86_400;
    let player = PlayerRoundState::new(ALICE, 1);
    let params = PurchaseKeysParams { sol_to_be_added: 1_000_000, team: 1 };
    let effect = Processor::purchase(&round, &player, &None, &params, Ok(13), Ok(500)).unwrap();
    assert_eq!(effect.round.end_time, round.start_time + 86_400);
    assert_eq!(effect.round.start_time, round.start_time);
    assert_eq!(effect.round.accum_keys, 13);

    // many purchases never carry the end beyond the window
    let mut round = new_round(1);
    let mut last = round.end_time;
    for _ in 0..50_000 {
        let next = extended_end_time(round.start_time, round.end_time).unwrap();
        assert!(last <= next && next <= last + 2);
        assert!(next <= round.start_time + 86_400);
        round.end_time = next;
        last = next;
    }
    assert_eq!(round.end_time, round.start_time + 86_400);
}
