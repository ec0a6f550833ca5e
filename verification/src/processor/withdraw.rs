use vstd::prelude::*;
use crate::error::GameError;
use crate::math::common::{TryAdd, TryCast, TrySub};
use crate::processor::pda::{token_account, unpack_token_account};
use crate::processor::processor::Processor;
use crate::processor::util::{calculate_player_f3d_share, f3d_share, same_address};
use crate::state::{Address, GameState, PlayerRoundState, RoundState};

verus! {

// --------------------------------------- players

/// What a player is owed by a round, pool by pool.
#[derive(Clone, Copy, Debug, PartialEq, Eq)]
pub struct Owed {
    /// Of the winnings: airdrop prizes and grand prize.
    pub winnings: u128,
    /// Of the referrer's earnings.
    pub aff: u128,
    /// Of the key holders' dividends.
    pub f3d: u128,
}

impl Owed {
    /// All that is owed.
    pub open spec fn total(self) -> int {
        self.winnings + self.aff + self.f3d
    }
}

/// What `Processor::owed` returns: of each pool, what the player has
/// earned less what the player has withdrawn. The key holders' dividend is
/// the player's part of the pool as it stands now.
pub open spec fn owed_outcome(round: RoundState, player: PlayerRoundState) -> Result<
    Owed,
    GameError,
> {
    if player.accum_winnings < player.withdrawn_winnings || player.accum_aff < player.withdrawn_aff
        || round.accum_keys == 0 || player.accum_keys * round.accum_f3d_share > u128::MAX
        || f3d_share(
        player.accum_keys as int,
        round.accum_keys as int,
        round.accum_f3d_share as int,
    ) < player.withdrawn_f3d {
        Err(GameError::CalculationFailure)
    } else {
        Ok(
            Owed {
                winnings: (player.accum_winnings - player.withdrawn_winnings) as u128,
                aff: (player.accum_aff - player.withdrawn_aff) as u128,
                f3d: (f3d_share(
                    player.accum_keys as int,
                    round.accum_keys as int,
                    round.accum_f3d_share as int,
                ) - player.withdrawn_f3d) as u128,
            },
        )
    }
}

/// The key holders' dividend of a player as the pool stands now.
pub open spec fn dividend(round: RoundState, player: PlayerRoundState) -> int {
    f3d_share(player.accum_keys as int, round.accum_keys as int, round.accum_f3d_share as int)
}

/// All that a round owes a player: of winnings, referrer's earnings and
/// key holders' dividend, what was earned less what was withdrawn.
pub open spec fn amount_owed(round: RoundState, player: PlayerRoundState) -> int {
    (player.accum_winnings - player.withdrawn_winnings) + (player.accum_aff
        - player.withdrawn_aff) + (dividend(round, player) - player.withdrawn_f3d)
}

/// The player can be paid: the record is the player's record of this
/// round, the player has signed, keys were sold, nothing was withdrawn
/// beyond what was earned, and the numbers fit: the player's keys times
/// the pool in 128 bits, and what is owed in the 64 bits of a payment.
pub open spec fn withdrawal_due(
    round: RoundState,
    player: PlayerRoundState,
    player_is_signer: bool,
) -> bool {
    &&& player.round_id == round.round_id
    &&& player_is_signer
    &&& round.accum_keys > 0
    &&& player.within_earned()
    &&& player.withdrawn_f3d <= dividend(round, player)
    &&& player.accum_keys * round.accum_f3d_share <= u128::MAX
    &&& amount_owed(round, player) <= u64::MAX
}

/// What a withdrawal leaves behind.
#[derive(Clone, Copy, Debug, PartialEq, Eq)]
pub struct Withdrawal {
    pub player: PlayerRoundState,
    /// What the pot has to pay the player.
    pub paid: u64,
}

/// What `Processor::process_withdraw_sol` does: the player is paid all
/// that is owed, and the record shows it as withdrawn. If nothing is owed,
/// nothing changes.
pub open spec fn withdrawal_outcome(
    round: RoundState,
    player: PlayerRoundState,
    player_is_signer: bool,
) -> Result<Withdrawal, GameError> {
    if player.round_id != round.round_id {
        Err(GameError::WrongAccount)
    } else if !player_is_signer {
        Err(GameError::MissingSignature)
    } else {
        match owed_outcome(round, player) {
            Err(e) => Err(e),
            Ok(owed) => if owed.total() > u128::MAX {
                Err(GameError::CalculationFailure)
            } else if owed.total() == 0 {
                Ok(Withdrawal { player, paid: 0 })
            } else if owed.total() > u64::MAX {
                Err(GameError::ConversionFailure)
            } else {
                Ok(
                    Withdrawal {
                        player: PlayerRoundState {
                            withdrawn_winnings: (player.withdrawn_winnings + owed.winnings) as u128,
                            withdrawn_aff: (player.withdrawn_aff + owed.aff) as u128,
                            withdrawn_f3d: (player.withdrawn_f3d + owed.f3d) as u128,
                            ..player
                        },
                        paid: owed.total() as u64,
                    },
                )
            },
        }
    }
}

impl Processor {
    /// What `round_state` owes the player, pool by pool.
    pub fn owed(round_state: &RoundState, player_round_state: &PlayerRoundState) -> (res: Result<
        Owed,
        GameError,
    >)
        ensures
            res == owed_outcome(*round_state, *player_round_state),
    {
        let winnings: u128 = player_round_state.accum_winnings.try_sub(
            player_round_state.withdrawn_winnings,
        )?;
        let aff: u128 = player_round_state.accum_aff.try_sub(player_round_state.withdrawn_aff)?;
        let share: u128 = calculate_player_f3d_share(
            player_round_state.accum_keys,
            round_state.accum_keys,
            round_state.accum_f3d_share,
        )?;
        let f3d: u128 = share.try_sub(player_round_state.withdrawn_f3d)?;
        Ok(Owed { winnings, aff, f3d })
    }

    /// Pays a player what a round owes them: winnings, referrer's earnings
    /// and key holders' dividends.
    ///
    /// The player is paid whenever `withdrawal_due` holds, and then all
    /// that is owed: the result is what the pot has to pay, and the record
    /// then shows it as withdrawn. Nothing owed is no failure: the result
    /// is zero and the record stays as it is. The caller stores the record
    /// only once the payment has gone through.
    pub fn process_withdraw_sol(
        round_state: &RoundState,
        player_round_state: &mut PlayerRoundState,
        player_is_signer: bool,
    ) -> (res: Result<u64, GameError>)
        ensures
            match withdrawal_outcome(*round_state, *old(player_round_state), player_is_signer) {
                Ok(withdrawal) => {
                    &&& res == Ok::<u64, GameError>(withdrawal.paid)
                    &&& *final(player_round_state) == withdrawal.player
                },
                Err(e) => {
                    &&& res == Err::<u64, GameError>(e)
                    &&& *final(player_round_state) == *old(player_round_state)
                },
            },
            res is Ok <==> withdrawal_due(*round_state, *old(player_round_state), player_is_signer),
            res matches Ok(paid) ==> {
                &&& paid == amount_owed(*round_state, *old(player_round_state))
                &&& amount_owed(*round_state, *final(player_round_state)) == 0
                &&& final(player_round_state).within_earned()
                &&& final(player_round_state).withdrawn_f3d == dividend(
                    *round_state,
                    *old(player_round_state),
                )
            },
            res is Ok ==> owed_outcome(*round_state, *final(player_round_state)) == Ok::<
                Owed,
                GameError,
            >(Owed { winnings: 0, aff: 0, f3d: 0 }),
    {
        if player_round_state.round_id != round_state.round_id {
            return Err(GameError::WrongAccount);
        }
        if !player_is_signer {
            return Err(GameError::MissingSignature);
        }
        let owed = Self::owed(round_state, player_round_state)?;
        let partial: u128 = owed.winnings.try_add(owed.aff)?;
        let total_to_withdraw: u128 = partial.try_add(owed.f3d)?;
        if total_to_withdraw == 0 {
            return Ok(0);
        }
        let paid: u64 = total_to_withdraw.try_cast()?;
        let mut player = *player_round_state;
        player.withdrawn_aff = player.withdrawn_aff.try_add(owed.aff)?;
        player.withdrawn_winnings = player.withdrawn_winnings.try_add(owed.winnings)?;
        player.withdrawn_f3d = player.withdrawn_f3d.try_add(owed.f3d)?;
        *player_round_state = player;
        Ok(paid)
    }
}

// --------------------------------------- community

/// The owner of the token account that the bytes hold.
pub open spec fn token_owner(data: Seq<u8>) -> Option<Seq<u8>> {
    match token_account(data) {
        Some(account) => Some(account.1),
        None => None,
    }
}

/// What a withdrawal of the community leaves behind.
#[derive(Clone, Copy, Debug, PartialEq, Eq)]
pub struct CommunityWithdrawal {
    pub round: RoundState,
    /// What the pot has to pay the community wallet.
    pub paid: u64,
}

/// What `Processor::community_withdrawal` returns: the wallet must be the
/// game's community wallet and a token account, and its owner must be the
/// one who signed; the community is then paid what the round has set aside
/// for it and not yet paid out.
pub open spec fn community_withdrawal_outcome(
    game: GameState,
    round: RoundState,
    com_wallet: Address,
    wallet_owner: Option<Seq<u8>>,
    signer: Address,
    is_signer: bool,
) -> Result<CommunityWithdrawal, GameError> {
    if game.community_wallet@ != com_wallet@ {
        Err(GameError::WrongAccount)
    } else if wallet_owner is None {
        Err(GameError::UnpackingFailure)
    } else if wallet_owner != Some(signer@) {
        Err(GameError::InvalidOwner)
    } else if !is_signer {
        Err(GameError::MissingSignature)
    } else if round.accum_community_share < round.withdrawn_com {
        Err(GameError::CalculationFailure)
    } else if round.accum_community_share == round.withdrawn_com {
        Ok(CommunityWithdrawal { round, paid: 0 })
    } else if round.accum_community_share - round.withdrawn_com > u64::MAX {
        Err(GameError::ConversionFailure)
    } else {
        Ok(
            CommunityWithdrawal {
                round: RoundState { withdrawn_com: round.accum_community_share, ..round },
                paid: (round.accum_community_share - round.withdrawn_com) as u64,
            },
        )
    }
}

impl Processor {
    /// Pays the community what a round has set aside for it, given the
    /// owner of the wallet as its token account names it.
    pub fn community_withdrawal(
        game_state: &GameState,
        round_state: &RoundState,
        com_wallet: &Address,
        wallet_owner: &Option<Address>,
        signer: &Address,
        is_signer: bool,
    ) -> (res: Result<CommunityWithdrawal, GameError>)
        ensures
            res == community_withdrawal_outcome(
                *game_state,
                *round_state,
                *com_wallet,
                match wallet_owner {
                    Some(owner) => Some(owner@),
                    None => None,
                },
                *signer,
                is_signer,
            ),
            res matches Ok(withdrawal) ==> {
                &&& withdrawal.round.withdrawn_com == round_state.accum_community_share
                &&& withdrawal.round.conserved() == round_state.conserved()
            },
    {
        if !same_address(&game_state.community_wallet, com_wallet) {
            return Err(GameError::WrongAccount);
        }
        let owner = match wallet_owner {
            Some(owner) => owner,
            None => {
                return Err(GameError::UnpackingFailure);
            },
        };
        if !same_address(owner, signer) {
            return Err(GameError::InvalidOwner);
        }
        if !is_signer {
            return Err(GameError::MissingSignature);
        }
        let amount_to_withdraw: u128 = round_state.accum_community_share.try_sub(
            round_state.withdrawn_com,
        )?;
        if amount_to_withdraw == 0 {
            return Ok(CommunityWithdrawal { round: *round_state, paid: 0 });
        }
        let paid: u64 = amount_to_withdraw.try_cast()?;
        let mut round = *round_state;
        round.withdrawn_com = round.withdrawn_com.try_add(amount_to_withdraw)?;
        Ok(CommunityWithdrawal { round, paid })
    }

    /// Pays the community what a round has set aside for it.
    ///
    /// `com_wallet` is the address of the wallet to pay, `com_wallet_data`
    /// its token account, `signer` the address of the account that is said
    /// to own it. The result is what the pot has to pay; the round then
    /// shows it as withdrawn. Nothing owed is no failure: the result is
    /// zero and the round stays as it is.
    pub fn process_community_withdrawal(
        game_state: &GameState,
        round_state: &mut RoundState,
        com_wallet: &Address,
        com_wallet_data: &[u8],
        signer: &Address,
        is_signer: bool,
    ) -> (res: Result<u64, GameError>)
        ensures
            match community_withdrawal_outcome(
                *game_state,
                *old(round_state),
                *com_wallet,
                token_owner(com_wallet_data@),
                *signer,
                is_signer,
            ) {
                Ok(withdrawal) => {
                    &&& res == Ok::<u64, GameError>(withdrawal.paid)
                    &&& *final(round_state) == withdrawal.round
                },
                Err(e) => {
                    &&& res == Err::<u64, GameError>(e)
                    &&& *final(round_state) == *old(round_state)
                },
            },
    {
        let wallet_owner = match unpack_token_account(com_wallet_data) {
            Ok(wallet) => Some(wallet.owner),
            Err(_) => None,
        };
        let withdrawal = Self::community_withdrawal(
            game_state,
            round_state,
            com_wallet,
            &wallet_owner,
            signer,
            is_signer,
        )?;
        *round_state = withdrawal.round;
        Ok(withdrawal.paid)
    }
}

} // verus!
