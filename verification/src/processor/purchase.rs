use vstd::prelude::*;
use crate::error::GameError;
use crate::instruction::PurchaseKeysParams;
use crate::math::common::{TryAdd, TryCast};
use crate::math::curve::{keys_received, keys_received_outcome};
use crate::processor::fees::{purchase_shares, purchase_splits, split_fees, FeeShares};
use crate::processor::processor::Processor;
use crate::processor::rng::{pseudo_rng, pseudo_rng_outcome};
use crate::processor::util::{
    airdrop_eligible, airdrop_percent, allowed_contribution, cap_applies, contribution_outcome, draw_outcome, extended_end_time,
    extension_outcome, play_airdrop, round_ended, same_address, verify_outcome,
    verify_round_state, winning, Draw,
};
use crate::state::{
    Address, Clock, PlayerRoundState, RoundState, SolByTeam, Team, LAMPORTS_PER_SOL,
    ROUND_INC_TIME,
};

verus! {

/// What a purchase leaves behind.
#[derive(Clone, Copy, Debug, PartialEq, Eq)]
pub struct PurchaseEffect {
    pub round: RoundState,
    pub player: PlayerRoundState,
    /// The referrer's record, where one was handed in.
    pub affiliate: Option<PlayerRoundState>,
    /// What the buyer has to pay into the pot.
    pub paid: u64,
}

/// The referrer's record once the referrer's part of a purchase is booked.
/// A buyer without a referrer leaves whatever was handed in as it is; a
/// buyer with one needs that player's record of the same round.
pub open spec fn affiliate_outcome(
    round: RoundState,
    player: PlayerRoundState,
    affiliate: Option<PlayerRoundState>,
    share: u128,
) -> Result<Option<PlayerRoundState>, GameError> {
    if !player.referred() {
        Ok(affiliate)
    } else {
        match affiliate {
            None => Err(GameError::MissingAccount),
            Some(record) => if record.player_pk != player.last_affiliate_pk || record.round_id
                != round.round_id {
                Err(GameError::WrongAccount)
            } else if record.accum_aff + share > u128::MAX {
                Err(GameError::CalculationFailure)
            } else {
                Ok(
                    Some(
                        PlayerRoundState {
                            accum_aff: (record.accum_aff + share) as u128,
                            ..record
                        },
                    ),
                )
            },
        }
    }
}

/// The totals of the round stay within the integer width when the purchase
/// is booked.
pub open spec fn purchase_fits(
    round: RoundState,
    keys: u128,
    amount: u128,
    draw: Draw,
    shares: FeeShares,
) -> bool {
    &&& round.accum_keys + keys <= u128::MAX
    &&& round.accum_sol_pot + amount <= u128::MAX
    &&& round.accum_community_share + shares.community <= u128::MAX
    &&& round.accum_airdrop_share + shares.airdrop <= u128::MAX
    &&& round.accum_next_round_share + shares.next_round <= u128::MAX
    &&& round.accum_aff_share + shares.affiliate <= u128::MAX
    &&& round.accum_p3d_share + shares.p3d <= u128::MAX
    &&& round.accum_f3d_share + shares.f3d <= u128::MAX
    &&& round.still_in_play + shares.still_in_play <= u128::MAX
}

/// The round once a purchase is booked: the buyer leads, the timer is
/// extended, and keys, pot and pools have grown by the purchase.
pub open spec fn round_after_purchase(
    round: RoundState,
    buyer: Address,
    team: Team,
    by_team: SolByTeam,
    end_time: i64,
    keys: u128,
    amount: u128,
    draw: Draw,
    shares: FeeShares,
) -> RoundState {
    RoundState {
        lead_player_pk: buyer,
        lead_player_team: team,
        end_time,
        accum_keys: (round.accum_keys + keys) as u128,
        accum_sol_pot: (round.accum_sol_pot + amount) as u128,
        accum_sol_by_team: by_team,
        accum_community_share: (round.accum_community_share + shares.community) as u128,
        accum_airdrop_share: (round.accum_airdrop_share + shares.airdrop) as u128,
        accum_next_round_share: (round.accum_next_round_share + shares.next_round) as u128,
        accum_aff_share: (round.accum_aff_share + shares.affiliate) as u128,
        accum_p3d_share: (round.accum_p3d_share + shares.p3d) as u128,
        accum_f3d_share: (round.accum_f3d_share + shares.f3d) as u128,
        still_in_play: (round.still_in_play + shares.still_in_play) as u128,
        awarded_airdrop: draw.awarded,
        airdrop_tracker: draw.tracker,
        ..round
    }
}

/// What `Processor::purchase` returns.
///
/// In order: the player's record must be of this round; the contribution
/// is cut to what the cap allows; the team's total grows by it; it must
/// buy a key and fit in 64 bits; the lottery is played; the referrer is
/// paid; the round is updated and must still add up; the player's totals
/// grow. The first step that fails decides the error.
pub open spec fn purchase_outcome(
    round: RoundState,
    player: PlayerRoundState,
    affiliate: Option<PlayerRoundState>,
    requested: u128,
    team_code: u8,
    new_keys: Result<u128, GameError>,
    ticket: Result<u128, GameError>,
) -> Result<PurchaseEffect, GameError> {
    let team = Team::of_code(team_code);
    if player.round_id != round.round_id {
        Err(GameError::WrongAccount)
    } else {
        match contribution_outcome(round.accum_sol_pot, player.accum_sol_added, requested) {
            Err(e) => Err(e),
            Ok(amount) => match round.accum_sol_by_team.credited(team, amount) {
                Err(e) => Err(e),
                Ok(by_team) => match new_keys {
                    Err(e) => Err(e),
                    Ok(keys) => if keys < 1 {
                        Err(GameError::BelowFloor)
                    } else if amount > u64::MAX {
                        Err(GameError::ConversionFailure)
                    } else {
                        purchase_booked(
                            round,
                            player,
                            affiliate,
                            team,
                            by_team,
                            amount,
                            keys,
                            ticket,
                        )
                    },
                },
            },
        }
    }
}

/// The second half of `purchase_outcome`: what happens once the purchase
/// of `amount` for `keys` keys is admitted.
pub open spec fn purchase_booked(
    round: RoundState,
    player: PlayerRoundState,
    affiliate: Option<PlayerRoundState>,
    team: Team,
    by_team: SolByTeam,
    amount: u128,
    keys: u128,
    ticket: Result<u128, GameError>,
) -> Result<PurchaseEffect, GameError> {
    let shares = purchase_shares(amount, team.fee_split_of(), player.referred());
    match draw_outcome(
        round.accum_airdrop_share,
        round.awarded_airdrop,
        round.airdrop_tracker,
        amount,
        ticket,
    ) {
        Err(e) => Err(e),
        Ok(draw) => if player.accum_winnings + draw.prize > u128::MAX {
            Err(GameError::CalculationFailure)
        } else {
            match affiliate_outcome(round, player, affiliate, shares.affiliate) {
                Err(e) => Err(e),
                Ok(affiliate_after) => match extension_outcome(round.start_time, round.end_time) {
                    Err(e) => Err(e),
                    Ok(end_time) => if !purchase_fits(round, keys, amount, draw, shares) {
                        Err(GameError::CalculationFailure)
                    } else {
                        let round_after = round_after_purchase(
                            round,
                            player.player_pk,
                            team,
                            by_team,
                            end_time,
                            keys,
                            amount,
                            draw,
                            shares,
                        );
                        match verify_outcome(round_after) {
                            Err(e) => Err(e),
                            Ok(_) => if player.accum_keys + keys > u128::MAX
                                || player.accum_sol_added + amount > u128::MAX {
                                Err(GameError::CalculationFailure)
                            } else {
                                Ok(
                                    PurchaseEffect {
                                        round: round_after,
                                        player: PlayerRoundState {
                                            accum_keys: (player.accum_keys + keys) as u128,
                                            accum_sol_added: (player.accum_sol_added
                                                + amount) as u128,
                                            accum_winnings: (player.accum_winnings
                                                + draw.prize) as u128,
                                            ..player
                                        },
                                        affiliate: affiliate_after,
                                        paid: amount as u64,
                                    },
                                )
                            },
                        }
                    },
                },
            }
        },
    }
}

/// What `Processor::process_purchase_keys` returns: nothing is sold once
/// the round is over or to a player who has not signed; otherwise the
/// purchase is made with the keys that the curve grants for the allowed
/// contribution and with the ticket drawn for the player at this moment.
pub open spec fn purchase_keys_outcome(
    round: RoundState,
    player: PlayerRoundState,
    affiliate: Option<PlayerRoundState>,
    player_is_signer: bool,
    clock: Clock,
    params: PurchaseKeysParams,
) -> Result<PurchaseEffect, GameError> {
    if round.ended || round.end_time < clock.unix_timestamp {
        Err(GameError::AlreadyEnded)
    } else if !player_is_signer {
        Err(GameError::MissingSignature)
    } else {
        purchase_outcome(
            round,
            player,
            affiliate,
            params.sol_to_be_added,
            params.team,
            match contribution_outcome(
                round.accum_sol_pot,
                player.accum_sol_added,
                params.sol_to_be_added,
            ) {
                Ok(amount) => keys_received_outcome(round.accum_sol_pot, amount),
                Err(e) => Err(e),
            },
            pseudo_rng_outcome(player.player_pk, clock),
        )
    }
}

impl Processor {
    /// Books the referrer's part of a purchase.
    pub fn credit_affiliate(
        round_state: &RoundState,
        player_round_state: &PlayerRoundState,
        affiliate_round_state: &Option<PlayerRoundState>,
        share: u128,
    ) -> (res: Result<Option<PlayerRoundState>, GameError>)
        ensures
            res == affiliate_outcome(
                *round_state,
                *player_round_state,
                *affiliate_round_state,
                share,
            ),
    {
        if !player_round_state.has_affiliate() {
            return Ok(*affiliate_round_state);
        }
        match affiliate_round_state {
            None => Err(GameError::MissingAccount),
            Some(record) => {
                if !same_address(&record.player_pk, &player_round_state.last_affiliate_pk)
                    || record.round_id != round_state.round_id {
                    return Err(GameError::WrongAccount);
                }
                let mut credited = *record;
                credited.accum_aff = record.accum_aff.try_add(share)?;
                Ok(Some(credited))
            },
        }
    }

    /// Makes a purchase for which the keys and the lottery ticket are
    /// known: `new_keys` is what the pricing curve grants for the allowed
    /// contribution, `ticket` what was drawn for the buyer.
    ///
    /// A purchase that goes through leaves the pools of the round adding
    /// up to its pot, never shortens the round, extends it by the increment
    /// at most and not beyond the longest extension of its start, and keeps
    /// a capped player within one unit of the currency. A purchase that
    /// buys no key is refused.
    ///
    /// What the buyer wins in the airdrop is booked as awarded in the round
    /// and as winnings of the buyer at once.
    pub fn purchase(
        round_state: &RoundState,
        player_round_state: &PlayerRoundState,
        affiliate_round_state: &Option<PlayerRoundState>,
        purchase_params: &PurchaseKeysParams,
        new_keys: Result<u128, GameError>,
        ticket: Result<u128, GameError>,
    ) -> (res: Result<PurchaseEffect, GameError>)
        ensures
            res == purchase_outcome(
                *round_state,
                *player_round_state,
                *affiliate_round_state,
                purchase_params.sol_to_be_added,
                purchase_params.team,
                new_keys,
                ticket,
            ),
            res matches Ok(effect) ==> {
                &&& effect.round.conserved()
                &&& round_state.end_time <= effect.round.end_time <= round_state.end_time
                    + ROUND_INC_TIME
                &&& round_state.within_window() ==> effect.round.within_window()
                &&& round_state.airdrop_covered() ==> effect.round.airdrop_covered()
                &&& effect.player.accum_winnings - player_round_state.accum_winnings
                    == effect.round.awarded_airdrop - round_state.awarded_airdrop
                &&& effect.player.accum_winnings > player_round_state.accum_winnings
                    ==> effect.round.airdrop_tracker == 0
                &&& airdrop_eligible(effect.paid as u128) && ticket is Ok && winning(
                    ticket->Ok_0,
                    (round_state.airdrop_tracker + 1) as u64,
                ) ==> {
                    &&& effect.round.airdrop_tracker == 0
                    &&& effect.player.accum_winnings == player_round_state.accum_winnings + (
                    round_state.accum_airdrop_share - round_state.awarded_airdrop)
                        * airdrop_percent(effect.paid as u128) / 100
                }
                &&& effect.round.start_time == round_state.start_time
                &&& effect.round.ended == round_state.ended
                &&& effect.round.accum_keys > round_state.accum_keys
                &&& effect.round.accum_sol_pot == round_state.accum_sol_pot + effect.paid
                &&& effect.paid <= purchase_params.sol_to_be_added
                &&& effect.player.accum_sol_added == player_round_state.accum_sol_added
                    + effect.paid
                &&& cap_applies(round_state.accum_sol_pot) ==> effect.player.accum_sol_added
                    <= LAMPORTS_PER_SOL
            },
            new_keys matches Ok(keys) && keys < 1 ==> res is Err,
    {
        let round = *round_state;
        let player = *player_round_state;
        if player.round_id != round.round_id {
            return Err(GameError::WrongAccount);
        }
        let team = Team::from_code(purchase_params.team);
        let amount: u128 = allowed_contribution(
            round.accum_sol_pot,
            player.accum_sol_added,
            purchase_params.sol_to_be_added,
        )?;
        let by_team = round.accum_sol_by_team.credit(team, amount)?;
        let keys: u128 = new_keys?;
        if keys < 1 {
            return Err(GameError::BelowFloor);
        }
        let paid: u64 = amount.try_cast()?;

        let draw = play_airdrop(
            round.accum_airdrop_share,
            round.awarded_airdrop,
            round.airdrop_tracker,
            amount,
            ticket,
        )?;
        let winnings: u128 = player.accum_winnings.try_add(draw.prize)?;

        let fee_split = team.fee_split();
        assert(purchase_splits(amount, fee_split)) by (nonlinear_arith)
            requires
                amount <= 0xffff_ffff_ffff_ffff,
                fee_split.f3d + fee_split.p3d <= 86,
        ;
        let shares = split_fees(amount, fee_split, player.has_affiliate())?;
        let affiliate_after = Self::credit_affiliate(
            round_state,
            player_round_state,
            affiliate_round_state,
            shares.affiliate,
        )?;

        let end_time: i64 = extended_end_time(round.start_time, round.end_time)?;
        let mut round_after = round;
        round_after.lead_player_pk = player.player_pk;
        round_after.lead_player_team = team;
        round_after.end_time = end_time;
        round_after.accum_keys = round.accum_keys.try_add(keys)?;
        round_after.accum_sol_pot = round.accum_sol_pot.try_add(amount)?;
        round_after.accum_sol_by_team = by_team;
        round_after.accum_community_share = round.accum_community_share.try_add(shares.community)?;
        round_after.accum_airdrop_share = round.accum_airdrop_share.try_add(shares.airdrop)?;
        round_after.accum_next_round_share = round.accum_next_round_share.try_add(
            shares.next_round,
        )?;
        round_after.accum_aff_share = round.accum_aff_share.try_add(shares.affiliate)?;
        round_after.accum_p3d_share = round.accum_p3d_share.try_add(shares.p3d)?;
        round_after.accum_f3d_share = round.accum_f3d_share.try_add(shares.f3d)?;
        round_after.still_in_play = round.still_in_play.try_add(shares.still_in_play)?;
        round_after.awarded_airdrop = draw.awarded;
        round_after.airdrop_tracker = draw.tracker;
        assert(round_after == round_after_purchase(
            round,
            player.player_pk,
            team,
            by_team,
            end_time,
            keys,
            amount,
            draw,
            shares,
        ));
        verify_round_state(&round_after)?;

        let mut player_after = player;
        player_after.accum_keys = player.accum_keys.try_add(keys)?;
        player_after.accum_sol_added = player.accum_sol_added.try_add(amount)?;
        player_after.accum_winnings = winnings;
        Ok(
            PurchaseEffect {
                round: round_after,
                player: player_after,
                affiliate: affiliate_after,
                paid,
            },
        )
    }

    /// Sells keys to a player in the running round.
    ///
    /// On success the three records are updated and the result is what the
    /// buyer has to pay into the pot; on failure they are left as they
    /// were. What `purchase` promises of a purchase that goes through holds
    /// here too.
    pub fn process_purchase_keys(
        round_state: &mut RoundState,
        player_round_state: &mut PlayerRoundState,
        affiliate_round_state: &mut Option<PlayerRoundState>,
        player_is_signer: bool,
        clock: &Clock,
        purchase_params: &PurchaseKeysParams,
    ) -> (res: Result<u64, GameError>)
        ensures
            match purchase_keys_outcome(
                *old(round_state),
                *old(player_round_state),
                *old(affiliate_round_state),
                player_is_signer,
                *clock,
                *purchase_params,
            ) {
                Ok(effect) => {
                    &&& res == Ok::<u64, GameError>(effect.paid)
                    &&& *final(round_state) == effect.round
                    &&& *final(player_round_state) == effect.player
                    &&& *final(affiliate_round_state) == effect.affiliate
                },
                Err(e) => {
                    &&& res == Err::<u64, GameError>(e)
                    &&& *final(round_state) == *old(round_state)
                    &&& *final(player_round_state) == *old(player_round_state)
                    &&& *final(affiliate_round_state) == *old(affiliate_round_state)
                },
            },
            res is Ok ==> {
                &&& final(round_state).conserved()
                &&& old(round_state).end_time <= final(round_state).end_time
                &&& final(round_state).end_time <= old(round_state).end_time + ROUND_INC_TIME
                &&& final(round_state).start_time == old(round_state).start_time
                &&& old(round_state).within_window() ==> final(round_state).within_window()
                &&& old(round_state).airdrop_covered() ==> final(round_state).airdrop_covered()
                &&& cap_applies(old(round_state).accum_sol_pot)
                    ==> final(player_round_state).accum_sol_added <= LAMPORTS_PER_SOL
            },
            res is Err ==> {
                &&& *final(round_state) == *old(round_state)
                &&& *final(player_round_state) == *old(player_round_state)
                &&& *final(affiliate_round_state) == *old(affiliate_round_state)
            },
            contribution_outcome(
                old(round_state).accum_sol_pot,
                old(player_round_state).accum_sol_added,
                purchase_params.sol_to_be_added,
            ) matches Ok(amount) && keys_received_outcome(old(round_state).accum_sol_pot, amount)
                == Ok::<u128, GameError>(0) ==> res is Err,
    {
        if round_state.ended || round_ended(round_state, clock.unix_timestamp) {
            return Err(GameError::AlreadyEnded);
        }
        if !player_is_signer {
            return Err(GameError::MissingSignature);
        }
        let new_keys = match allowed_contribution(
            round_state.accum_sol_pot,
            player_round_state.accum_sol_added,
            purchase_params.sol_to_be_added,
        ) {
            Ok(amount) => keys_received(round_state.accum_sol_pot, amount),
            Err(e) => Err(e),
        };
        let ticket = pseudo_rng(&player_round_state.player_pk, clock);
        let effect = Self::purchase(
            round_state,
            player_round_state,
            affiliate_round_state,
            purchase_params,
            new_keys,
            ticket,
        )?;
        *round_state = effect.round;
        *player_round_state = effect.player;
        *affiliate_round_state = effect.affiliate;
        Ok(effect.paid)
    }
}

} // verus!
