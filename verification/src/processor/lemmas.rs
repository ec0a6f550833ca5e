use vstd::prelude::*;
use crate::error::GameError;
use crate::processor::purchase::purchase_outcome;
use crate::processor::util::{airdrop_eligible, airdrop_percent, contribution_outcome, winning};
use crate::processor::round::settlement_outcome;
use crate::processor::withdraw::{
    amount_owed, community_withdrawal_outcome, withdrawal_due, withdrawal_outcome,
    CommunityWithdrawal,
};
use crate::state::{Address, GameState, PlayerRoundState, RoundState, ROUND_INC_TIME};

verus! {

/// The first of two withdrawals pays all that is owed, which is more than
/// nothing where anything is owed; a second right after it pays nothing
/// and changes nothing.
pub proof fn lemma_withdrawal_idempotent(
    round: RoundState,
    player: PlayerRoundState,
    player_is_signer: bool,
)
    requires
        withdrawal_due(round, player, player_is_signer),
    ensures
        ({
            let first = withdrawal_outcome(round, player, player_is_signer);
            let second = withdrawal_outcome(round, first->Ok_0.player, player_is_signer);
            &&& first is Ok
            &&& first->Ok_0.paid == amount_owed(round, player)
            &&& amount_owed(round, player) > 0 ==> first->Ok_0.paid > 0
            &&& withdrawal_due(round, first->Ok_0.player, player_is_signer)
            &&& second is Ok
            &&& second->Ok_0.paid == 0
            &&& second->Ok_0.player == first->Ok_0.player
        }),
{
}

/// A withdrawal never takes a record beyond what the player has earned: of
/// winnings and referrer's earnings, what is withdrawn stays within what
/// has accumulated.
pub proof fn lemma_withdrawn_within_earned(
    round: RoundState,
    player: PlayerRoundState,
    player_is_signer: bool,
)
    requires
        withdrawal_outcome(round, player, player_is_signer) is Ok,
    ensures
        ({
            let after = withdrawal_outcome(round, player, player_is_signer)->Ok_0.player;
            &&& after.within_earned()
            &&& after.accum_winnings == player.accum_winnings
            &&& after.accum_aff == player.accum_aff
            &&& after.accum_keys == player.accum_keys
        }),
{
}

/// A purchase keeps the end of the round within the longest extension of
/// its start, never shortens the round, and extends it by the increment at
/// most.
pub proof fn lemma_timer_within_window(
    round: RoundState,
    player: PlayerRoundState,
    affiliate: Option<PlayerRoundState>,
    requested: u128,
    team_code: u8,
    new_keys: Result<u128, GameError>,
    ticket: Result<u128, GameError>,
)
    requires
        purchase_outcome(round, player, affiliate, requested, team_code, new_keys, ticket) is Ok,
        round.within_window(),
    ensures
        ({
            let after = purchase_outcome(
                round,
                player,
                affiliate,
                requested,
                team_code,
                new_keys,
                ticket,
            )->Ok_0.round;
            &&& after.within_window()
            &&& after.start_time == round.start_time
            &&& round.end_time <= after.end_time <= round.end_time + ROUND_INC_TIME
        }),
{
}

/// A win is paid: where a purchase goes through on one ticket, it goes
/// through on a ticket that wins as well, if the prize can be computed and
/// fits the buyer's winnings. The buyer's winnings then grow by the prize,
/// the round shows the prize as awarded, the count starts again at zero,
/// and the pools still add up to the pot.
pub proof fn lemma_win_is_paid(
    round: RoundState,
    player: PlayerRoundState,
    affiliate: Option<PlayerRoundState>,
    requested: u128,
    team_code: u8,
    new_keys: Result<u128, GameError>,
    other_ticket: u128,
    winning_ticket: u128,
)
    requires
        purchase_outcome(
            round,
            player,
            affiliate,
            requested,
            team_code,
            new_keys,
            Ok(other_ticket),
        ) is Ok,
        round.airdrop_covered(),
        airdrop_eligible(
            contribution_outcome(round.accum_sol_pot, player.accum_sol_added, requested)->Ok_0,
        ),
        winning(winning_ticket, (round.airdrop_tracker + 1) as u64),
        (round.accum_airdrop_share - round.awarded_airdrop) * 75 <= u128::MAX,
        player.accum_winnings + round.accum_airdrop_share <= u128::MAX,
    ensures
        ({
            let amount = contribution_outcome(
                round.accum_sol_pot,
                player.accum_sol_added,
                requested,
            )->Ok_0;
            let prize = (round.accum_airdrop_share - round.awarded_airdrop) * airdrop_percent(
                amount,
            ) / 100;
            let won = purchase_outcome(
                round,
                player,
                affiliate,
                requested,
                team_code,
                new_keys,
                Ok(winning_ticket),
            );
            &&& won is Ok
            &&& won->Ok_0.round.airdrop_tracker == 0
            &&& won->Ok_0.round.awarded_airdrop == round.awarded_airdrop + prize
            &&& won->Ok_0.round.airdrop_covered()
            &&& won->Ok_0.round.conserved()
            &&& won->Ok_0.player.accum_winnings == player.accum_winnings + prize
        }),
{
    let amount = contribution_outcome(round.accum_sol_pot, player.accum_sol_added, requested)->Ok_0;
    let unawarded = round.accum_airdrop_share - round.awarded_airdrop;
    let percent = airdrop_percent(amount);
    assert(0 <= unawarded * percent <= unawarded * 75 && unawarded * percent / 100 <= unawarded)
        by (nonlinear_arith)
        requires
            0 <= unawarded,
            percent == 25 || percent == 50 || percent == 75,
    ;
}

/// A settled round stays settled: a second settlement finds nothing in
/// play, pays the winner nothing more and leaves the round as it is.
pub proof fn lemma_settlement_idempotent(round: RoundState, winner: PlayerRoundState, now: i64)
    requires
        settlement_outcome(round, winner, now) is Ok,
    ensures
        ({
            let first = settlement_outcome(round, winner, now)->Ok_0;
            let second = settlement_outcome(first.round, first.winner, now);
            &&& first.round.ended
            &&& second is Ok
            &&& second->Ok_0 == first
        }),
{
    let first = settlement_outcome(round, winner, now)->Ok_0;
    let split = first.round.lead_player_team.pot_split_of();
    assert(0u128 * split.p3d == 0 && 0u128 * split.f3d == 0 && 0u128 * (50 - split.p3d - split.f3d)
        == 0 && 0u128 * 48 == 0) by (nonlinear_arith);
}

/// A purchase keeps buyer and referrer within what they have earned, and
/// takes nothing that was earned or withdrawn away.
pub proof fn lemma_purchase_keeps_within_earned(
    round: RoundState,
    player: PlayerRoundState,
    affiliate: Option<PlayerRoundState>,
    requested: u128,
    team_code: u8,
    new_keys: Result<u128, GameError>,
    ticket: Result<u128, GameError>,
)
    requires
        purchase_outcome(round, player, affiliate, requested, team_code, new_keys, ticket) is Ok,
    ensures
        ({
            let effect = purchase_outcome(
                round,
                player,
                affiliate,
                requested,
                team_code,
                new_keys,
                ticket,
            )->Ok_0;
            &&& player.within_earned() ==> effect.player.within_earned()
            &&& effect.player.accum_winnings >= player.accum_winnings
            &&& effect.player.accum_aff == player.accum_aff
            &&& effect.player.withdrawn_winnings == player.withdrawn_winnings
            &&& effect.player.withdrawn_aff == player.withdrawn_aff
            &&& effect.player.withdrawn_f3d == player.withdrawn_f3d
            &&& affiliate is Some ==> effect.affiliate is Some
            &&& affiliate matches Some(before) ==> {
                &&& before.within_earned() ==> effect.affiliate->Some_0.within_earned()
                &&& effect.affiliate->Some_0.accum_aff >= before.accum_aff
            }
        }),
{
}

/// A settlement keeps the winner within what the winner has earned, marks
/// the round as ended, and leaves its keys, its pot and its timer as they
/// are.
pub proof fn lemma_settlement_keeps_within_earned(
    round: RoundState,
    winner: PlayerRoundState,
    now: i64,
)
    requires
        settlement_outcome(round, winner, now) is Ok,
    ensures
        ({
            let settlement = settlement_outcome(round, winner, now)->Ok_0;
            &&& winner.within_earned() ==> settlement.winner.within_earned()
            &&& settlement.round.ended
            &&& settlement.round.accum_keys == round.accum_keys
            &&& settlement.round.accum_sol_pot == round.accum_sol_pot
            &&& settlement.round.start_time == round.start_time
            &&& settlement.round.end_time == round.end_time
        }),
{
}

/// The community never withdraws more than the round has set aside for
/// it, and a withdrawal changes nothing else of the round.
pub proof fn lemma_community_withdrawal_within_share(
    game: GameState,
    round: RoundState,
    com_wallet: Address,
    wallet_owner: Option<Seq<u8>>,
    signer: Address,
    is_signer: bool,
)
    requires
        community_withdrawal_outcome(game, round, com_wallet, wallet_owner, signer, is_signer)
            is Ok,
    ensures
        ({
            let withdrawal = community_withdrawal_outcome(
                game,
                round,
                com_wallet,
                wallet_owner,
                signer,
                is_signer,
            )->Ok_0;
            &&& withdrawal.round.withdrawn_com <= withdrawal.round.accum_community_share
            &&& withdrawal.round.withdrawn_com == round.withdrawn_com + withdrawal.paid
            &&& withdrawal.round == RoundState {
                withdrawn_com: withdrawal.round.withdrawn_com,
                ..round
            }
            &&& community_withdrawal_outcome(
                game,
                withdrawal.round,
                com_wallet,
                wallet_owner,
                signer,
                is_signer,
            ) == Ok::<CommunityWithdrawal, GameError>(
                CommunityWithdrawal { round: withdrawal.round, paid: 0 },
            )
        }),
{
}

} // verus!
