use vstd::prelude::*;
use crate::error::GameError;
use crate::state::{Address, GameState, ROUND_INC_TIME, ROUND_INIT_TIME, ROUND_MAX_TIME};

verus! {

/// The operations of the game, each on the records it touches: setting up
/// a game here, and in the modules beside this one starting and settling a
/// round, buying keys, and withdrawing.
pub struct Processor {}

/// The game record of a new version: no round yet, the timer settings of
/// the game, and the wallets as given.
pub open spec fn new_game(
    version: u8,
    mint: Address,
    game_creator: Address,
    community_wallet: Address,
    p3d_wallet: Address,
) -> GameState {
    GameState {
        round_id: 0,
        round_init_time: ROUND_INIT_TIME,
        round_inc_time: ROUND_INC_TIME,
        round_max_time: ROUND_MAX_TIME,
        version,
        mint,
        game_creator,
        community_wallet,
        p3d_wallet,
    }
}

impl Processor {
    /// Sets up the game record of a version, which is done once.
    pub fn process_initialize_game(
        already_initialized: bool,
        version: u8,
        mint: Address,
        game_creator: Address,
        community_wallet: Address,
        p3d_wallet: Address,
    ) -> (res: Result<GameState, GameError>)
        ensures
            res == if already_initialized {
                Err::<GameState, GameError>(GameError::AlreadyInitialized)
            } else {
                Ok(new_game(version, mint, game_creator, community_wallet, p3d_wallet))
            },
    {
        if already_initialized {
            return Err(GameError::AlreadyInitialized);
        }
        Ok(
            GameState {
                round_id: 0,
                round_init_time: ROUND_INIT_TIME,
                round_inc_time: ROUND_INC_TIME,
                round_max_time: ROUND_MAX_TIME,
                version,
                mint,
                game_creator,
                community_wallet,
                p3d_wallet,
            },
        )
    }
}

} // verus!
