use vstd::prelude::*;
use crate::error::GameError;
use crate::math::common::TryAdd;
use crate::processor::fees::{settlement_shares, settlement_splits, split_pot, PotShares};
use crate::processor::pda::{token_account, unpack_token_account};
use crate::processor::processor::Processor;
use crate::processor::util::{round_ended, same_address, verify_outcome, verify_round_state};
use crate::state::{
    blank_address, no_address, GameState, PlayerRoundState, RoundState, SolByTeam,
    Team, ROUND_INIT_TIME,
};

verus! {

// --------------------------------------- start

/// What starting a round leaves behind.
#[derive(Clone, Copy, Debug, PartialEq, Eq)]
pub struct RoundStart {
    pub game: GameState,
    pub round: RoundState,
}

/// The record of a round that starts at `now` and runs until `end_time`,
/// with a pot that holds `pot_amount`: nothing is sold, and what the pot
/// holds already is in play for the prize.
pub open spec fn new_round(round_id: u64, now: i64, end_time: i64, pot_amount: u64) -> RoundState {
    RoundState {
        round_id,
        lead_player_pk: no_address(),
        lead_player_team: Team::Whale,
        start_time: now,
        end_time,
        ended: false,
        accum_keys: 0,
        accum_sol_pot: pot_amount as u128,
        accum_sol_by_team: SolByTeam { whale: 0, bear: 0, snek: 0, bull: 0 },
        accum_community_share: 0,
        accum_airdrop_share: 0,
        accum_next_round_share: 0,
        accum_aff_share: 0,
        accum_p3d_share: 0,
        accum_f3d_share: 0,
        still_in_play: pot_amount as u128,
        final_prize_share: 0,
        withdrawn_com: 0,
        withdrawn_next_round: 0,
        withdrawn_p3d: 0,
        awarded_airdrop: 0,
        airdrop_tracker: 0,
    }
}

/// What `Processor::admit_round` returns: the number of the round that may
/// start. The first round needs no predecessor; every other round needs the
/// record of the round before it, settled. No round starts twice.
pub open spec fn round_admission(
    game: GameState,
    previous_round: Option<RoundState>,
    already_initialized: bool,
) -> Result<u64, GameError> {
    if game.round_id > 0 && previous_round is None {
        Err(GameError::MissingAccount)
    } else if game.round_id > 0 && previous_round->Some_0.round_id != game.round_id {
        Err(GameError::WrongAccount)
    } else if game.round_id > 0 && !previous_round->Some_0.ended {
        Err(GameError::NotYetEnded)
    } else if game.round_id == u64::MAX {
        Err(GameError::CalculationFailure)
    } else if already_initialized {
        Err(GameError::AlreadyInitialized)
    } else {
        Ok((game.round_id + 1) as u64)
    }
}

/// What `Processor::start_round` returns: for a round that may start, the
/// game counting one round more and the record of the new round, which
/// runs from `now` for the initial time. `pot_amount` is what the new pot
/// holds, if it could be read.
pub open spec fn round_start_outcome(
    game: GameState,
    previous_round: Option<RoundState>,
    already_initialized: bool,
    pot_amount: Option<u64>,
    now: i64,
) -> Result<RoundStart, GameError> {
    match round_admission(game, previous_round, already_initialized) {
        Err(e) => Err(e),
        Ok(round_id) => match pot_amount {
            None => Err(GameError::UnpackingFailure),
            Some(amount) => if now + ROUND_INIT_TIME > i64::MAX {
                Err(GameError::CalculationFailure)
            } else {
                Ok(
                    RoundStart {
                        game: GameState { round_id, ..game },
                        round: new_round(round_id, now, (now + ROUND_INIT_TIME) as i64, amount),
                    },
                )
            },
        },
    }
}

/// The amount of the token account that the bytes hold.
pub open spec fn token_amount(data: Seq<u8>) -> Option<u64> {
    match token_account(data) {
        Some(account) => Some(account.2),
        None => None,
    }
}

impl Processor {
    /// Says whether the next round of a game may start, and gives its
    /// number. `previous_round` is the record of the round that the game is
    /// in; `already_initialized` says whether the record of the new round
    /// exists already.
    pub fn admit_round(
        game_state: &GameState,
        previous_round: &Option<RoundState>,
        already_initialized: bool,
    ) -> (res: Result<u64, GameError>)
        ensures
            res == round_admission(*game_state, *previous_round, already_initialized),
    {
        if game_state.round_id > 0 {
            match previous_round {
                None => {
                    return Err(GameError::MissingAccount);
                },
                Some(previous) => {
                    if previous.round_id != game_state.round_id {
                        return Err(GameError::WrongAccount);
                    }
                    if !previous.ended {
                        return Err(GameError::NotYetEnded);
                    }
                },
            }
        }
        let round_id: u64 = match game_state.round_id.checked_add(1) {
            Some(round_id) => round_id,
            None => {
                return Err(GameError::CalculationFailure);
            },
        };
        if already_initialized {
            return Err(GameError::AlreadyInitialized);
        }
        Ok(round_id)
    }

    /// Starts the next round of a game, given what its new pot holds.
    ///
    /// The new round adds up: what its pot holds before the first
    /// purchase is in play for the prize. It ends within the longest
    /// extension of its start.
    pub fn start_round(
        game_state: &GameState,
        previous_round: &Option<RoundState>,
        already_initialized: bool,
        pot_amount: Option<u64>,
        now: i64,
    ) -> (res: Result<RoundStart, GameError>)
        ensures
            res == round_start_outcome(
                *game_state,
                *previous_round,
                already_initialized,
                pot_amount,
                now,
            ),
            res matches Ok(start) ==> {
                &&& start.round.conserved()
                &&& start.round.within_window()
                &&& start.round.airdrop_covered()
                &&& !start.round.ended
            },
    {
        let round_id: u64 = Self::admit_round(game_state, previous_round, already_initialized)?;
        let amount: u64 = match pot_amount {
            Some(amount) => amount,
            None => {
                return Err(GameError::UnpackingFailure);
            },
        };
        let end_time: i64 = match now.checked_add(ROUND_INIT_TIME) {
            Some(end_time) => end_time,
            None => {
                return Err(GameError::CalculationFailure);
            },
        };
        let mut game = *game_state;
        game.round_id = round_id;
        let round = RoundState {
            round_id,
            lead_player_pk: blank_address(),
            lead_player_team: Team::Whale,
            start_time: now,
            end_time,
            ended: false,
            accum_keys: 0,
            accum_sol_pot: amount as u128,
            accum_sol_by_team: SolByTeam { whale: 0, bear: 0, snek: 0, bull: 0 },
            accum_community_share: 0,
            accum_airdrop_share: 0,
            accum_next_round_share: 0,
            accum_aff_share: 0,
            accum_p3d_share: 0,
            accum_f3d_share: 0,
            still_in_play: amount as u128,
            final_prize_share: 0,
            withdrawn_com: 0,
            withdrawn_next_round: 0,
            withdrawn_p3d: 0,
            awarded_airdrop: 0,
            airdrop_tracker: 0,
        };
        Ok(RoundStart { game, round })
    }

    /// Starts the next round of a game.
    ///
    /// `previous_round` is the record of the round that the game is in,
    /// which must be settled; `already_initialized` says whether the record
    /// of the new round exists already; `pot_data` holds the token account
    /// of the new pot. On success the game counts one round more and the
    /// result is the record of the new round, which runs from `now`, adds
    /// up, and ends within the longest extension of its start.
    pub fn process_initialize_round(
        game_state: &mut GameState,
        previous_round: &Option<RoundState>,
        already_initialized: bool,
        pot_data: &[u8],
        now: i64,
    ) -> (res: Result<RoundState, GameError>)
        ensures
            match round_start_outcome(
                *old(game_state),
                *previous_round,
                already_initialized,
                token_amount(pot_data@),
                now,
            ) {
                Ok(start) => {
                    &&& res == Ok::<RoundState, GameError>(start.round)
                    &&& *final(game_state) == start.game
                    &&& start.round.conserved()
                    &&& start.round.within_window()
                    &&& start.round.airdrop_covered()
                },
                Err(e) => {
                    &&& res == Err::<RoundState, GameError>(e)
                    &&& *final(game_state) == *old(game_state)
                },
            },
    {
        let pot_amount = match unpack_token_account(pot_data) {
            Ok(pot) => Some(pot.amount),
            Err(_) => None,
        };
        let start = Self::start_round(
            game_state,
            previous_round,
            already_initialized,
            pot_amount,
            now,
        )?;
        *game_state = start.game;
        Ok(start.round)
    }
}

// --------------------------------------- settlement

/// What a settlement leaves behind.
#[derive(Clone, Copy, Debug, PartialEq, Eq)]
pub struct Settlement {
    pub round: RoundState,
    pub winner: PlayerRoundState,
}

/// The pools of the round stay within the integer width when the
/// settlement is booked.
pub open spec fn settlement_fits(round: RoundState, shares: PotShares) -> bool {
    &&& round.accum_community_share + shares.community <= u128::MAX
    &&& round.accum_next_round_share + shares.next_round <= u128::MAX
    &&& round.accum_p3d_share + shares.p3d <= u128::MAX
    &&& round.accum_f3d_share + shares.f3d <= u128::MAX
    &&& round.final_prize_share + shares.grand_prize <= u128::MAX
}

/// The round once it is settled: ended, nothing in play, the pools grown
/// by their parts of what was in play.
pub open spec fn round_after_settlement(round: RoundState, shares: PotShares) -> RoundState {
    RoundState {
        ended: true,
        accum_community_share: (round.accum_community_share + shares.community) as u128,
        accum_next_round_share: (round.accum_next_round_share + shares.next_round) as u128,
        accum_p3d_share: (round.accum_p3d_share + shares.p3d) as u128,
        accum_f3d_share: (round.accum_f3d_share + shares.f3d) as u128,
        final_prize_share: (round.final_prize_share + shares.grand_prize) as u128,
        still_in_play: 0,
        ..round
    }
}

/// What `Processor::process_end_round` does: once the timer has run out,
/// what is in play is divided as the leading team has it, and the grand
/// prize goes to the leading player's winnings.
pub open spec fn settlement_outcome(round: RoundState, winner: PlayerRoundState, now: i64) -> Result<
    Settlement,
    GameError,
> {
    let split = round.lead_player_team.pot_split_of();
    let shares = settlement_shares(round.still_in_play, split);
    if !(round.end_time < now) {
        Err(GameError::NotYetEnded)
    } else if winner.player_pk != round.lead_player_pk || winner.round_id != round.round_id {
        Err(GameError::WrongAccount)
    } else if !settlement_splits(round.still_in_play, split) || winner.accum_winnings
        + shares.grand_prize > u128::MAX || !settlement_fits(round, shares) {
        Err(GameError::CalculationFailure)
    } else {
        match verify_outcome(round_after_settlement(round, shares)) {
            Err(e) => Err(e),
            Ok(_) => Ok(
                Settlement {
                    round: round_after_settlement(round, shares),
                    winner: PlayerRoundState {
                        accum_winnings: (winner.accum_winnings + shares.grand_prize) as u128,
                        ..winner
                    },
                },
            ),
        }
    }
}

impl Processor {
    /// Settles a round whose timer has run out.
    ///
    /// What was in play is divided: 2% to the community, the leading
    /// team's percentages to the dividend wallet and the key holders, the
    /// rest of 50% to the next round, and what remains, at least 48%, to
    /// the leading player. The round is then ended for good, and its pools
    /// still add up to its pot.
    pub fn process_end_round(
        round_state: &mut RoundState,
        winner_round_state: &mut PlayerRoundState,
        now: i64,
    ) -> (res: Result<(), GameError>)
        ensures
            match settlement_outcome(*old(round_state), *old(winner_round_state), now) {
                Ok(settlement) => {
                    &&& res is Ok
                    &&& *final(round_state) == settlement.round
                    &&& *final(winner_round_state) == settlement.winner
                },
                Err(e) => {
                    &&& res == Err::<(), GameError>(e)
                    &&& *final(round_state) == *old(round_state)
                    &&& *final(winner_round_state) == *old(winner_round_state)
                },
            },
            res is Ok ==> {
                &&& final(round_state).conserved()
                &&& old(round_state).conserved()
                &&& final(round_state).ended
                &&& final(round_state).still_in_play == 0
                &&& final(round_state).accum_sol_pot == old(round_state).accum_sol_pot
                &&& final(round_state).end_time == old(round_state).end_time
                &&& final(round_state).accum_keys == old(round_state).accum_keys
                &&& final(round_state).start_time == old(round_state).start_time
                &&& final(round_state).awarded_airdrop == old(round_state).awarded_airdrop
                &&& final(round_state).accum_airdrop_share == old(
                    round_state,
                ).accum_airdrop_share
                &&& final(winner_round_state).accum_winnings >= old(
                    winner_round_state,
                ).accum_winnings + old(round_state).still_in_play * 48 / 100
            },
    {
        if !round_ended(round_state, now) {
            return Err(GameError::NotYetEnded);
        }
        if !same_address(&winner_round_state.player_pk, &round_state.lead_player_pk)
            || winner_round_state.round_id != round_state.round_id {
            return Err(GameError::WrongAccount);
        }
        let round = *round_state;
        let winner = *winner_round_state;
        let shares = split_pot(round.still_in_play, round.lead_player_team.pot_split())?;

        let mut winner_after = winner;
        winner_after.accum_winnings = winner.accum_winnings.try_add(shares.grand_prize)?;

        let mut round_after = round;
        round_after.ended = true;
        round_after.accum_community_share = round.accum_community_share.try_add(shares.community)?;
        round_after.accum_next_round_share = round.accum_next_round_share.try_add(
            shares.next_round,
        )?;
        round_after.accum_p3d_share = round.accum_p3d_share.try_add(shares.p3d)?;
        round_after.accum_f3d_share = round.accum_f3d_share.try_add(shares.f3d)?;
        round_after.final_prize_share = round.final_prize_share.try_add(shares.grand_prize)?;
        round_after.still_in_play = 0;
        assert(round_after == round_after_settlement(round, shares));
        verify_round_state(&round_after)?;

        *round_state = round_after;
        *winner_round_state = winner_after;
        Ok(())
    }
}

} // verus!
