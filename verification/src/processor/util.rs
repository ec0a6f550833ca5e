use vstd::prelude::*;
use crate::error::GameError;
use crate::math::common::{TryAdd, TryDiv, TryMul, TrySub};
use crate::processor::rng::{pseudo_rng, pseudo_rng_outcome};
use crate::state::{
    Address, Clock, GameState, RoundState, LAMPORTS_PER_SOL, ROUND_INC_TIME, ROUND_MAX_TIME,
};

verus! {

/// Every byte of `buf` is zero.
pub open spec fn all_zero(buf: Seq<u8>) -> bool {
    forall|i: int| 0 <= i < buf.len() ==> buf[i] == 0
}

/// Whether `buf` holds nothing but zero bytes.
pub fn is_zero(buf: &[u8]) -> (zero: bool)
    ensures
        zero == all_zero(buf@),
{
    let mut at: usize = 0;
    while at < buf.len()
        invariant
            at <= buf.len(),
            forall|i: int| 0 <= i < at ==> buf@[i] == 0,
        decreases buf.len() - at,
    {
        if buf[at] != 0 {
            return false;
        }
        at = at + 1;
    }
    true
}

/// Whether two addresses are the same.
pub fn same_address(left: &Address, right: &Address) -> (same: bool)
    ensures
        same == (*left == *right),
        same == (left@ == right@),
{
    let mut at: usize = 0;
    while at < 32
        invariant
            at <= 32,
            forall|i: int| 0 <= i < at ==> left@[i] == right@[i],
        decreases 32 - at,
    {
        if left[at] != right[at] {
            return false;
        }
        at = at + 1;
    }
    assert(*left =~= *right);
    true
}

/// Appends `bytes` to `buf`.
pub fn append_bytes(buf: &mut Vec<u8>, bytes: &[u8])
    ensures
        final(buf)@ == old(buf)@ + bytes@,
{
    let mut at: usize = 0;
    while at < bytes.len()
        invariant
            at <= bytes.len(),
            buf@ == old(buf)@ + bytes@.subrange(0, at as int),
        decreases bytes.len() - at,
    {
        buf.push(bytes[at]);
        at = at + 1;
        assert(buf@ =~= old(buf)@ + bytes@.subrange(0, at as int));
    }
    assert(bytes@.subrange(0, at as int) =~= bytes@);
}

/// A value that can be blank.
pub trait Empty {
    /// The value is blank.
    spec fn blank(&self) -> bool;

    fn is_empty(&self) -> (empty: bool)
        ensures
            empty == self.blank(),
    ;
}

impl Empty for Address {
    open spec fn blank(&self) -> bool {
        all_zero(self@)
    }

    fn is_empty(&self) -> (empty: bool) {
        is_zero(self)
    }
}

// --------------------------------------- dividends of the key holders

/// The part of the key holders' pool that belongs to a player: the pool
/// times the player's keys over all keys, rounded down.
pub open spec fn f3d_share(player_keys: int, total_keys: int, accum_f3d: int) -> int {
    player_keys * accum_f3d / total_keys
}

/// The part of the key holders' pool `accum_f3d` that belongs to the holder
/// of `player_keys` of the `total_keys` keys of a round.
///
/// Rounding down leaves dust in the pool: the parts of all players never
/// add up to more than the pool (`lemma_f3d_shares_fit`).
pub fn calculate_player_f3d_share(player_keys: u128, total_keys: u128, accum_f3d: u128) -> (res:
    Result<u128, GameError>)
    ensures
        res == if total_keys != 0 && player_keys * accum_f3d <= u128::MAX {
            Ok::<u128, GameError>(
                f3d_share(player_keys as int, total_keys as int, accum_f3d as int) as u128,
            )
        } else {
            Err(GameError::CalculationFailure)
        },
        res matches Ok(share) ==> share * total_keys <= player_keys * accum_f3d < (share + 1)
            * total_keys,
{
    let product: u128 = player_keys.try_mul(accum_f3d)?;
    match product.try_floor_div(total_keys) {
        Ok(share) => {
            proof {
                vstd::arithmetic::div_mod::lemma_fundamental_div_mod(
                    product as int,
                    total_keys as int,
                );
                assert(share * total_keys == total_keys * share && (share + 1) * total_keys
                    == total_keys * share + total_keys) by (nonlinear_arith);
            }
            Ok(share)
        },
        Err(e) => Err(e),
    }
}

/// Two players who hold `first_keys` and `second_keys` of the `total_keys`
/// keys of a round never get more than the pool between them; if they hold
/// all keys, they leave one unit of it at most.
pub proof fn lemma_f3d_shares_fit(first_keys: int, second_keys: int, total_keys: int, pool: int)
    requires
        0 <= first_keys,
        0 <= second_keys,
        first_keys + second_keys <= total_keys,
        0 < total_keys,
        0 <= pool,
    ensures
        f3d_share(first_keys, total_keys, pool) + f3d_share(second_keys, total_keys, pool) <= pool,
        0 <= f3d_share(first_keys, total_keys, pool) <= pool,
        first_keys + second_keys == total_keys ==> pool - 1 <= f3d_share(
            first_keys,
            total_keys,
            pool,
        ) + f3d_share(second_keys, total_keys, pool),
{
    let a = first_keys * pool;
    let b = second_keys * pool;
    let t = total_keys * pool;
    assert(0 <= a && 0 <= b && a + b <= t) by (nonlinear_arith)
        requires
            0 <= first_keys,
            0 <= second_keys,
            first_keys + second_keys <= total_keys,
            0 <= pool,
            a == first_keys * pool,
            b == second_keys * pool,
            t == total_keys * pool,
    ;
    let qa = a / total_keys;
    let qb = b / total_keys;
    vstd::arithmetic::div_mod::lemma_fundamental_div_mod(a, total_keys);
    vstd::arithmetic::div_mod::lemma_fundamental_div_mod(b, total_keys);
    vstd::arithmetic::div_mod::lemma_div_pos_is_pos(a, total_keys);
    vstd::arithmetic::div_mod::lemma_div_pos_is_pos(b, total_keys);
    assert(qa + qb <= pool) by (nonlinear_arith)
        requires
            0 < total_keys,
            total_keys * qa <= a,
            total_keys * qb <= b,
            a + b <= t,
            t == total_keys * pool,
    ;
    if first_keys + second_keys == total_keys {
        assert(a + b == t) by (nonlinear_arith)
            requires
                first_keys + second_keys == total_keys,
                a == first_keys * pool,
                b == second_keys * pool,
                t == total_keys * pool,
        ;
        assert(pool - 1 <= qa + qb) by (nonlinear_arith)
            requires
                0 < total_keys,
                a == total_keys * qa + a % total_keys,
                b == total_keys * qb + b % total_keys,
                0 <= a % total_keys < total_keys,
                0 <= b % total_keys < total_keys,
                a + b == total_keys * pool,
        ;
    }
}

// --------------------------------------- conservation

/// What `verify_round_state` returns.
pub open spec fn verify_outcome(round_state: RoundState) -> Result<(), GameError> {
    if round_state.pools_total() > u128::MAX {
        Err(GameError::CalculationFailure)
    } else if !round_state.conserved() {
        Err(GameError::InvariantViolation)
    } else {
        Ok(())
    }
}

/// Checks that the pools of a round add up to its pot.
pub fn verify_round_state(round_state: &RoundState) -> (res: Result<(), GameError>)
    ensures
        res == verify_outcome(*round_state),
        res is Ok <==> round_state.conserved(),
{
    let sum: u128 = round_state.accum_community_share.try_add(round_state.accum_airdrop_share)?;
    let sum: u128 = sum.try_add(round_state.accum_next_round_share)?;
    let sum: u128 = sum.try_add(round_state.accum_aff_share)?;
    let sum: u128 = sum.try_add(round_state.accum_p3d_share)?;
    let sum: u128 = sum.try_add(round_state.accum_f3d_share)?;
    let sum: u128 = sum.try_add(round_state.still_in_play)?;
    let sum: u128 = sum.try_add(round_state.final_prize_share)?;
    if sum != round_state.accum_sol_pot {
        return Err(GameError::InvariantViolation);
    }
    Ok(())
}

// --------------------------------------- airdrop lottery

/// A purchase of `amount` takes part in the airdrop lottery: it is above a
/// tenth of a unit of the currency.
pub open spec fn airdrop_eligible(amount: u128) -> bool {
    amount > LAMPORTS_PER_SOL / 10
}

/// The percentage of the airdrop pool that a winning purchase of `amount`
/// takes: 75 above ten units of the currency, 50 above one, 25 below.
pub open spec fn airdrop_percent(amount: u128) -> int {
    if amount > 10 * LAMPORTS_PER_SOL {
        75
    } else if amount > LAMPORTS_PER_SOL {
        50
    } else {
        25
    }
}

/// A ticket wins when it is below the count of eligible purchases since
/// the last win.
pub open spec fn winning(ticket: u128, airdrop_tracker: u64) -> bool {
    ticket < airdrop_tracker
}

/// Whether `ticket` wins at the count `airdrop_tracker`. Tickets are below
/// 1000, so from a count of 1000 on every ticket wins.
pub fn ticket_wins(ticket: u128, airdrop_tracker: u64) -> (wins: bool)
    ensures
        wins == winning(ticket, airdrop_tracker),
        ticket < 1000 && airdrop_tracker >= 1000 ==> wins,
        airdrop_tracker == 0 ==> !wins,
{
    ticket < airdrop_tracker as u128
}

/// Draws the player's ticket and says whether it wins.
pub fn airdrop_winner(player_pk: &Address, clock: &Clock, airdrop_tracker: u64) -> (res: Result<
    bool,
    GameError,
>)
    ensures
        res == match pseudo_rng_outcome(*player_pk, *clock) {
            Ok(ticket) => Ok::<bool, GameError>(winning(ticket, airdrop_tracker)),
            Err(e) => Err(e),
        },
        res is Ok && airdrop_tracker >= 1000 ==> res == Ok::<bool, GameError>(true),
{
    let lottery_ticket: u128 = pseudo_rng(player_pk, clock)?;
    Ok(ticket_wins(lottery_ticket, airdrop_tracker))
}

/// The prize of a winning purchase of `amount` where `unawarded` of the
/// airdrop pool is still to be won.
pub fn airdrop_prize(amount: u128, unawarded: u128) -> (res: Result<u128, GameError>)
    ensures
        res == if unawarded * airdrop_percent(amount) <= u128::MAX {
            Ok::<u128, GameError>((unawarded * airdrop_percent(amount) / 100) as u128)
        } else {
            Err(GameError::CalculationFailure)
        },
        res matches Ok(prize) ==> prize <= unawarded,
{
    let percent: u128 = if amount > 10 * LAMPORTS_PER_SOL {
        75
    } else if amount > LAMPORTS_PER_SOL {
        50
    } else {
        25
    };
    unawarded.try_mul(percent)?.try_floor_div(100)
}

/// How the lottery leaves a round after one purchase.
#[derive(Clone, Copy, Debug, PartialEq, Eq)]
pub struct Draw {
    /// What has been won of the airdrop pool, this draw included.
    pub awarded: u128,
    /// The count of eligible purchases after the draw.
    pub tracker: u64,
    /// What the buyer has won; zero if nothing.
    pub prize: u128,
}

/// What `play_airdrop` returns. A purchase that is not eligible changes
/// nothing. An eligible one raises the count by one; if its ticket is below
/// the new count, the buyer wins the prize, a percentage of what the pool
/// has been allotted and nobody has won yet, and the count starts again at
/// zero.
pub open spec fn draw_outcome(
    pool: u128,
    awarded: u128,
    tracker: u64,
    amount: u128,
    ticket: Result<u128, GameError>,
) -> Result<Draw, GameError> {
    if !airdrop_eligible(amount) {
        Ok(Draw { awarded, tracker, prize: 0 })
    } else if tracker == u64::MAX {
        Err(GameError::CalculationFailure)
    } else {
        match ticket {
            Err(e) => Err(e),
            Ok(ticket) => if !winning(ticket, (tracker + 1) as u64) {
                Ok(Draw { awarded, tracker: (tracker + 1) as u64, prize: 0 })
            } else if pool < awarded || (pool - awarded) * airdrop_percent(amount) > u128::MAX {
                Err(GameError::CalculationFailure)
            } else {
                let prize = ((pool - awarded) * airdrop_percent(amount) / 100) as u128;
                Ok(Draw { awarded: (awarded + prize) as u128, tracker: 0, prize })
            },
        }
    }
}

/// Plays the airdrop lottery for a purchase of `amount` with the ticket
/// that was drawn for it, in a round whose airdrop pool has been allotted
/// `pool`, of which `awarded` has been won, and which has seen `tracker`
/// eligible purchases since the last win.
pub fn play_airdrop(
    pool: u128,
    awarded: u128,
    tracker: u64,
    amount: u128,
    ticket: Result<u128, GameError>,
) -> (res: Result<Draw, GameError>)
    ensures
        res == draw_outcome(pool, awarded, tracker, amount, ticket),
        res matches Ok(draw) ==> {
            &&& draw.awarded == awarded + draw.prize
            &&& awarded <= pool ==> draw.awarded <= pool
            &&& draw.prize > 0 ==> draw.tracker == 0
        },
{
    if amount > LAMPORTS_PER_SOL / 10 {
        let count: u64 = match tracker.checked_add(1) {
            Some(count) => count,
            None => {
                return Err(GameError::CalculationFailure);
            },
        };
        let ticket: u128 = ticket?;
        if ticket_wins(ticket, count) {
            let unawarded: u128 = pool.try_sub(awarded)?;
            let prize: u128 = airdrop_prize(amount, unawarded)?;
            Ok(Draw { awarded: awarded.try_add(prize)?, tracker: 0, prize })
        } else {
            Ok(Draw { awarded, tracker: count, prize: 0 })
        }
    } else {
        Ok(Draw { awarded, tracker, prize: 0 })
    }
}

// --------------------------------------- accounts

/// The address that a base58 text stands for, as `Pubkey::from_str` of
/// `solana_program` reads it; `None` where it reads none.
pub uninterp spec fn base58_address(text: Seq<char>) -> Option<Seq<u8>>;

/// Calls `Pubkey::from_str` of `solana_program`, which decodes the text and
/// nothing else, and hands out the 32 bytes of the address. Its two errors
/// both come out as `None`.
#[verifier::external_body]
fn parse_address(addr: &str) -> (address: Option<Address>)
    ensures
        match address {
            Some(bytes) => base58_address(addr@) == Some(bytes@),
            None => base58_address(addr@) is None,
        },
{
    match addr.parse::<solana_program::pubkey::Pubkey>() {
        Ok(key) => Some(key.to_bytes()),
        Err(_) => None,
    }
}

/// The address that a parse has found, or the failure to report.
pub fn loaded_address(parsed: Option<Address>) -> (res: Result<Address, GameError>)
    ensures
        res == match parsed {
            Some(address) => Ok::<Address, GameError>(address),
            None => Err(GameError::WrongAccount),
        },
{
    match parsed {
        Some(address) => Ok(address),
        None => Err(GameError::WrongAccount),
    }
}

/// Reads an address from its base58 text.
pub fn load_pk(addr: &str) -> (res: Result<Address, GameError>)
    ensures
        match res {
            Ok(address) => base58_address(addr@) == Some(address@),
            Err(e) => e == GameError::WrongAccount && base58_address(addr@) is None,
        },
{
    loaded_address(parse_address(addr))
}

/// Whether an account with this balance and this much data exists.
pub fn account_exists(lamports: u64, data_len: usize) -> (exists: bool)
    ensures
        exists == (lamports != 0 && data_len != 0),
{
    let does_not_exist = lamports == 0 || data_len == 0;
    !does_not_exist
}

// --------------------------------------- timer

/// Whether the timer of the round has run out at `now`.
pub fn round_ended(round_state: &RoundState, now: i64) -> (ended: bool)
    ensures
        ended == (round_state.end_time < now),
{
    round_state.end_time < now
}

/// What `extended_end_time` returns: the end of the round moved by the
/// increment, but not beyond the longest extension of its start. A round
/// that ends beyond that already keeps its end.
pub open spec fn extension_outcome(start_time: i64, end_time: i64) -> Result<i64, GameError> {
    if end_time + ROUND_INC_TIME > i64::MAX || start_time + ROUND_MAX_TIME > i64::MAX {
        Err(GameError::CalculationFailure)
    } else if end_time + ROUND_INC_TIME <= start_time + ROUND_MAX_TIME {
        Ok((end_time + ROUND_INC_TIME) as i64)
    } else if end_time <= start_time + ROUND_MAX_TIME {
        Ok((start_time + ROUND_MAX_TIME) as i64)
    } else {
        Ok(end_time)
    }
}

/// The end, after a purchase, of a round that started at `start_time` and
/// was to end at `end_time`.
///
/// A purchase never shortens the round, extends it by the increment at
/// most, and keeps its end within the longest extension of its start.
pub fn extended_end_time(start_time: i64, end_time: i64) -> (res: Result<i64, GameError>)
    ensures
        res == extension_outcome(start_time, end_time),
        res matches Ok(later) ==> {
            &&& end_time <= later <= end_time + ROUND_INC_TIME
            &&& end_time <= start_time + ROUND_MAX_TIME ==> later <= start_time + ROUND_MAX_TIME
        },
{
    let by_increment: i64 = match end_time.checked_add(ROUND_INC_TIME) {
        Some(later) => later,
        None => {
            return Err(GameError::CalculationFailure);
        },
    };
    let limit: i64 = match start_time.checked_add(ROUND_MAX_TIME) {
        Some(limit) => limit,
        None => {
            return Err(GameError::CalculationFailure);
        },
    };
    if by_increment <= limit {
        Ok(by_increment)
    } else if end_time <= limit {
        Ok(limit)
    } else {
        Ok(end_time)
    }
}

/// The seconds that `new_keys` keys add to a round: the game's increment
/// for each key, and no more than its longest extension.
pub fn calc_new_delay(new_keys: u128, game_state: &GameState) -> (res: Result<u128, GameError>)
    ensures
        res == if game_state.round_inc_time < 0 || game_state.round_max_time < 0 {
            Err::<u128, GameError>(GameError::ConversionFailure)
        } else if new_keys * game_state.round_inc_time > u128::MAX {
            Err(GameError::CalculationFailure)
        } else if new_keys * game_state.round_inc_time <= game_state.round_max_time {
            Ok((new_keys * game_state.round_inc_time) as u128)
        } else {
            Ok(game_state.round_max_time as u128)
        },
{
    if game_state.round_inc_time < 0 || game_state.round_max_time < 0 {
        return Err(GameError::ConversionFailure);
    }
    let per_key: u128 = game_state.round_inc_time as u128;
    let longest: u128 = game_state.round_max_time as u128;
    let delay_based_on_keys: u128 = new_keys.try_mul(per_key)?;
    if delay_based_on_keys <= longest {
        Ok(delay_based_on_keys)
    } else {
        Ok(longest)
    }
}

// --------------------------------------- contribution cap

/// Below this pot a player's contributions to the round are capped.
pub open spec fn cap_applies(pot: u128) -> bool {
    pot < 100 * LAMPORTS_PER_SOL
}

/// What `allowed_contribution` returns.
pub open spec fn contribution_outcome(pot: u128, added_so_far: u128, requested: u128) -> Result<
    u128,
    GameError,
> {
    if cap_applies(pot) && added_so_far + requested > LAMPORTS_PER_SOL {
        if added_so_far <= LAMPORTS_PER_SOL {
            Ok((LAMPORTS_PER_SOL - added_so_far) as u128)
        } else {
            Err(GameError::CalculationFailure)
        }
    } else {
        Ok(requested)
    }
}

/// What a player who has paid in `added_so_far` may pay in of `requested`:
/// while the pot is below 100 units of the currency, only what is missing to
/// one unit.
pub fn allowed_contribution(pot: u128, added_so_far: u128, requested: u128) -> (res: Result<
    u128,
    GameError,
>)
    ensures
        res == contribution_outcome(pot, added_so_far, requested),
        res matches Ok(allowed) ==> {
            &&& allowed <= requested
            &&& cap_applies(pot) ==> added_so_far + allowed <= LAMPORTS_PER_SOL
        },
{
    let above_cap = match added_so_far.try_add(requested) {
        Ok(sum) => sum > LAMPORTS_PER_SOL,
        Err(_) => true,
    };
    if pot < 100 * LAMPORTS_PER_SOL && above_cap {
        LAMPORTS_PER_SOL.try_sub(added_so_far)
    } else {
        Ok(requested)
    }
}

} // verus!
