use vstd::prelude::*;
use crate::error::GameError;

verus! {

/// What a caller can ask of the game.
#[derive(Clone, Copy, Debug, PartialEq, Eq)]
pub enum GameInstruction {
    /// Set up the game record of a version. Done once per version.
    InitiateGame(InitGameParams),
    /// Start the next round.
    InitiateRound,
    /// Buy keys in the current round.
    PurchaseKeys(PurchaseKeysParams),
    /// Pay a player what a round owes them.
    WithdrawSol(WithdrawParams),
    /// Settle the current round once its timer has run out.
    EndRound,
    /// Pay the community wallet what a round owes it.
    WithdrawCommunityRewards(WithdrawParams),
    /// Pay the dividend wallet what a round owes it.
    WithdrawP3DRewards(WithdrawParams),
}

#[derive(Clone, Copy, Debug, PartialEq, Eq)]
pub struct InitGameParams {
    pub version: u64,
    /// Seconds a new round runs before its first purchase extends it.
    pub round_init_time: i64,
    /// Seconds by which each key bought extends the round.
    pub round_inc_time_per_key: i64,
    /// Longest extension, in seconds, that the timer allows.
    pub round_max_time: i64,
}

impl InitGameParams {
    /// The version as the game record holds it, in one byte.
    pub fn game_version(&self) -> (version: Result<u8, GameError>)
        ensures
            version == if self.version <= u8::MAX {
                Ok::<u8, GameError>(self.version as u8)
            } else {
                Err(GameError::ConversionFailure)
            },
    {
        if self.version <= 255 {
            Ok(self.version as u8)
        } else {
            Err(GameError::ConversionFailure)
        }
    }
}

#[derive(Clone, Copy, Debug, PartialEq, Eq)]
pub struct PurchaseKeysParams {
    /// What the player wants to pay in, in the smallest unit.
    pub sol_to_be_added: u128,
    /// The team the player buys for; see `Team::from_code`.
    pub team: u8,
}

#[derive(Clone, Copy, Debug, PartialEq, Eq)]
pub struct WithdrawParams {
    /// The round to withdraw from.
    pub withdraw_for_round: u64,
}

} // verus!
