use vstd::prelude::*;
use crate::error::GameError;
use crate::math::common::TryAdd;
use crate::processor::util::{all_zero, is_zero};

verus! {

/// Seconds since the Unix epoch.
pub type UnixTimestamp = i64;

/// The 32 bytes that name a wallet, a record or a program.
pub type Address = [u8; 32];

/// The address of nobody: 32 zero bytes.
pub open spec fn no_address() -> Address {
    vstd::array::spec_array_fill_for_copy_type::<u8, 32>(0u8)
}

/// The address of nobody.
pub fn blank_address() -> (address: Address)
    ensures
        address == no_address(),
        all_zero(address@),
{
    broadcast use vstd::array::axiom_spec_array_fill_for_copy_type;
    let address: Address = [0u8; 32];
    address
}

/// The smallest units in one unit of the currency.
pub const LAMPORTS_PER_SOL: u128 = 1_000_000_000;

/// A reading of the host's clock.
#[derive(Clone, Copy, Debug, PartialEq, Eq)]
pub struct Clock {
    pub slot: u64,
    pub epoch_start_timestamp: UnixTimestamp,
    pub epoch: u64,
    pub leader_schedule_epoch: u64,
    /// The time that rounds are measured against.
    pub unix_timestamp: UnixTimestamp,
}

// --------------------------------------- game state

/// Bytes of a stored `GameState`.
pub const GAME_STATE_SIZE: usize = (8 * 4) + 1 + (32 * 4);

/// The one record of a game version: its round counter, its timer settings
/// and the wallets with a standing in it.
#[derive(Clone, Copy, Debug, PartialEq, Eq)]
pub struct GameState {
    /// Number of the current round, which is the number of rounds started.
    pub round_id: u64,
    /// Seconds a new round runs before its first purchase extends it.
    pub round_init_time: i64,
    /// Seconds by which a purchase extends the round.
    pub round_inc_time: i64,
    /// Longest extension, in seconds, that the timer allows.
    pub round_max_time: i64,
    pub version: u8,
    /// The currency the game is played in.
    pub mint: Address,
    pub game_creator: Address,
    pub community_wallet: Address,
    pub p3d_wallet: Address,
}

/// Seconds a new round runs before its first purchase extends it.
pub const ROUND_INIT_TIME: i64 = 2;

/// Seconds by which a purchase extends the round.
pub const ROUND_INC_TIME: i64 = 2;

/// Longest extension, in seconds, that the timer allows: a day.
pub const ROUND_MAX_TIME: i64 = 24 * 60 * 60;

// --------------------------------------- fees & teams

/// Bytes of a stored `FeeSplit`.
pub const FEE_SPLIT_SIZE: usize = 2;

/// Percentages of a purchase that go to the key holders (`f3d`) and to the
/// dividend wallet (`p3d`). Another 14 go to the community, the airdrop, the
/// next round and the referrer; what remains stays in play.
#[derive(Clone, Copy, Debug, PartialEq, Eq)]
pub struct FeeSplit {
    pub f3d: u8,
    pub p3d: u8,
}

/// Bytes of a stored `PotSplit`.
pub const POT_SPLIT_SIZE: usize = 2;

/// Percentages of the pot in play that go, when the round is settled, to the
/// key holders (`f3d`) and to the dividend wallet (`p3d`). The next round
/// gets what is missing to 50.
#[derive(Clone, Copy, Debug, PartialEq, Eq)]
pub struct PotSplit {
    pub f3d: u8,
    pub p3d: u8,
}

/// Bytes of a stored `Team`.
pub const TEAM_SIZE: usize = 1;

/// The team a player buys for. It selects how the purchase, and the pot if
/// that player wins, are split.
#[derive(Clone, Copy, Debug, PartialEq, Eq)]
pub enum Team {
    Whale,
    Bear,
    Snek,
    Bull,
}

impl Team {
    /// The team that a purchase names by `code`: 0 is the whales, 1 the
    /// bears, 3 the bulls, and every other number the sneks.
    pub open spec fn of_code(code: u8) -> Team {
        if code == 0 {
            Team::Whale
        } else if code == 1 {
            Team::Bear
        } else if code == 3 {
            Team::Bull
        } else {
            Team::Snek
        }
    }

    /// How the team splits a purchase.
    pub open spec fn fee_split_of(self) -> FeeSplit {
        match self {
            Team::Whale => FeeSplit { f3d: 30, p3d: 6 },
            Team::Bear => FeeSplit { f3d: 43, p3d: 0 },
            Team::Snek => FeeSplit { f3d: 56, p3d: 10 },
            Team::Bull => FeeSplit { f3d: 43, p3d: 8 },
        }
    }

    /// How the team splits the pot.
    pub open spec fn pot_split_of(self) -> PotSplit {
        match self {
            Team::Whale => PotSplit { f3d: 15, p3d: 10 },
            Team::Bear => PotSplit { f3d: 25, p3d: 0 },
            Team::Snek => PotSplit { f3d: 20, p3d: 20 },
            Team::Bull => PotSplit { f3d: 30, p3d: 10 },
        }
    }

    /// The team that a purchase names by `code`. A code that names no team
    /// stands for the sneks.
    pub fn from_code(code: u8) -> (team: Team)
        ensures
            team == Team::of_code(code),
    {
        match code {
            0 => Team::Whale,
            1 => Team::Bear,
            3 => Team::Bull,
            _ => Team::Snek,
        }
    }

    /// How the team splits a purchase.
    pub fn fee_split(&self) -> (split: FeeSplit)
        ensures
            split == self.fee_split_of(),
            split.f3d + split.p3d <= 86,
    {
        match self {
            Team::Whale => FeeSplit { f3d: 30, p3d: 6 },
            Team::Bear => FeeSplit { f3d: 43, p3d: 0 },
            Team::Snek => FeeSplit { f3d: 56, p3d: 10 },
            Team::Bull => FeeSplit { f3d: 43, p3d: 8 },
        }
    }

    /// How the team splits the pot.
    pub fn pot_split(&self) -> (split: PotSplit)
        ensures
            split == self.pot_split_of(),
            split.f3d + split.p3d <= 50,
    {
        match self {
            Team::Whale => PotSplit { f3d: 15, p3d: 10 },
            Team::Bear => PotSplit { f3d: 25, p3d: 0 },
            Team::Snek => PotSplit { f3d: 20, p3d: 20 },
            Team::Bull => PotSplit { f3d: 30, p3d: 10 },
        }
    }
}

/// Bytes of a stored `SolByTeam`.
pub const SOL_BY_TEAM_SIZE: usize = 16 * 4;

/// What each team has put into a round.
#[derive(Clone, Copy, Debug, PartialEq, Eq)]
pub struct SolByTeam {
    pub whale: u128,
    pub bear: u128,
    pub snek: u128,
    pub bull: u128,
}

impl SolByTeam {
    /// What `team` has put in.
    pub open spec fn of(self, team: Team) -> u128 {
        match team {
            Team::Whale => self.whale,
            Team::Bear => self.bear,
            Team::Snek => self.snek,
            Team::Bull => self.bull,
        }
    }

    /// The totals once `team` has put in `amount` more.
    pub open spec fn credited(self, team: Team, amount: u128) -> Result<SolByTeam, GameError> {
        if self.of(team) + amount > u128::MAX {
            Err(GameError::CalculationFailure)
        } else {
            let total = (self.of(team) + amount) as u128;
            Ok(
                match team {
                    Team::Whale => SolByTeam { whale: total, ..self },
                    Team::Bear => SolByTeam { bear: total, ..self },
                    Team::Snek => SolByTeam { snek: total, ..self },
                    Team::Bull => SolByTeam { bull: total, ..self },
                },
            )
        }
    }

    /// Adds `amount` to what `team` has put in.
    pub fn credit(&self, team: Team, amount: u128) -> (res: Result<SolByTeam, GameError>)
        ensures
            res == self.credited(team, amount),
    {
        let mut totals = *self;
        match team {
            Team::Whale => {
                totals.whale = self.whale.try_add(amount)?;
            },
            Team::Bear => {
                totals.bear = self.bear.try_add(amount)?;
            },
            Team::Snek => {
                totals.snek = self.snek.try_add(amount)?;
            },
            Team::Bull => {
                totals.bull = self.bull.try_add(amount)?;
            },
        }
        Ok(totals)
    }
}

// --------------------------------------- round

/// Bytes of a stored `RoundState`.
pub const ROUND_STATE_SIZE: usize = 8 + 32 + TEAM_SIZE + (8 * 2) + 1 + SOL_BY_TEAM_SIZE + (14 * 16)
    + 8;

/// The record of one round.
#[derive(Clone, Copy, Debug, PartialEq, Eq)]
pub struct RoundState {
    pub round_id: u64,
    /// The last buyer, who wins the grand prize if the timer runs out.
    pub lead_player_pk: Address,
    pub lead_player_team: Team,
    pub start_time: UnixTimestamp,
    pub end_time: UnixTimestamp,
    /// Set once, when the round is settled.
    pub ended: bool,
    /// Keys sold in the round.
    pub accum_keys: u128,
    /// Everything paid into the round.
    pub accum_sol_pot: u128,
    pub accum_sol_by_team: SolByTeam,
    pub accum_community_share: u128,
    /// All that was set aside for the airdrop, won or not.
    pub accum_airdrop_share: u128,
    pub accum_next_round_share: u128,
    pub accum_aff_share: u128,
    pub accum_p3d_share: u128,
    pub accum_f3d_share: u128,
    /// What the next winner plays for.
    pub still_in_play: u128,
    /// The grand prize, filled in when the round is settled.
    pub final_prize_share: u128,
    pub withdrawn_com: u128,
    pub withdrawn_next_round: u128,
    pub withdrawn_p3d: u128,
    /// What players have won of the airdrop pool; it is theirs to withdraw.
    pub awarded_airdrop: u128,
    /// Eligible purchases since the airdrop was last won.
    pub airdrop_tracker: u64,
}

impl RoundState {
    /// The seven pools of the round taken together: community, airdrop,
    /// next round, referrers, dividend wallet, key holders, and the prize,
    /// which is in play until the round ends and final after.
    pub open spec fn pools_total(self) -> int {
        self.accum_community_share + self.accum_airdrop_share + self.accum_next_round_share
            + self.accum_aff_share + self.accum_p3d_share + self.accum_f3d_share
            + self.still_in_play + self.final_prize_share
    }

    /// The pools account for the whole pot, no more and no less.
    pub open spec fn conserved(self) -> bool {
        self.pools_total() == self.accum_sol_pot
    }

    /// No more has been won of the airdrop pool than was set aside for it.
    pub open spec fn airdrop_covered(self) -> bool {
        self.awarded_airdrop <= self.accum_airdrop_share
    }

    /// The round ends within the longest extension of its start.
    pub open spec fn within_window(self) -> bool {
        self.end_time <= self.start_time + ROUND_MAX_TIME
    }
}

// --------------------------------------- player x round

/// Bytes of a stored `PlayerRoundState`.
pub const PLAYER_ROUND_STATE_SIZE: usize = 32 + 8 + 32 + (7 * 16);

/// The record of one player in one round.
#[derive(Clone, Copy, Debug, PartialEq, Eq)]
pub struct PlayerRoundState {
    pub player_pk: Address,
    pub round_id: u64,
    /// The last player to refer this one; all zero if there is none.
    pub last_affiliate_pk: Address,
    pub accum_keys: u128,
    /// What the player has paid into the round.
    pub accum_sol_added: u128,
    /// Won in the airdrop lottery and as grand prize.
    pub accum_winnings: u128,
    /// Earned by referring other players.
    pub accum_aff: u128,
    pub withdrawn_winnings: u128,
    pub withdrawn_aff: u128,
    pub withdrawn_f3d: u128,
}

impl PlayerRoundState {
    /// The record of a player who has done nothing yet in a round.
    pub open spec fn fresh(player_pk: Address, round_id: u64) -> PlayerRoundState {
        PlayerRoundState {
            player_pk,
            round_id,
            last_affiliate_pk: no_address(),
            accum_keys: 0,
            accum_sol_added: 0,
            accum_winnings: 0,
            accum_aff: 0,
            withdrawn_winnings: 0,
            withdrawn_aff: 0,
            withdrawn_f3d: 0,
        }
    }

    /// The record that a player gets on the first purchase or withdrawal
    /// in a round: no referrer, nothing bought, nothing earned.
    pub fn new(player_pk: Address, round_id: u64) -> (record: PlayerRoundState)
        ensures
            record == PlayerRoundState::fresh(player_pk, round_id),
            !record.referred(),
    {
        PlayerRoundState {
            player_pk,
            round_id,
            last_affiliate_pk: blank_address(),
            accum_keys: 0,
            accum_sol_added: 0,
            accum_winnings: 0,
            accum_aff: 0,
            withdrawn_winnings: 0,
            withdrawn_aff: 0,
            withdrawn_f3d: 0,
        }
    }

    /// The player has withdrawn no more of winnings and referrer's
    /// earnings than the player has earned.
    pub open spec fn within_earned(self) -> bool {
        &&& self.withdrawn_winnings <= self.accum_winnings
        &&& self.withdrawn_aff <= self.accum_aff
    }

    /// The record names a referrer.
    pub open spec fn referred(self) -> bool {
        !all_zero(self.last_affiliate_pk@)
    }

    /// Whether the record names a referrer.
    pub fn has_affiliate(&self) -> (referred: bool)
        ensures
            referred == self.referred(),
    {
        !is_zero(&self.last_affiliate_pk)
    }
}

} // verus!
