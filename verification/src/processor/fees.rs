use vstd::prelude::*;
use crate::error::GameError;
use crate::math::common::{TryAdd, TryDiv, TryMul, TrySub};
use crate::state::{FeeSplit, PotSplit};

verus! {

/// Percent of a purchase that is left once the community (2), the airdrop
/// (1), the next round (1) and the referrer (10) have had their part.
pub const FEE_PERCENT_TO_SPLIT: u8 = 86;

/// Percent of the pot in play that the key holders, the dividend wallet and
/// the next round share when a round is settled.
pub const POT_PERCENT_TO_SPLIT: u8 = 50;

/// Percent of the pot in play that the winner gets at the least.
pub const GRAND_PRIZE_PERCENT: u8 = 48;

/// How one purchase is divided among the pools of its round.
#[derive(Clone, Copy, Debug, PartialEq, Eq)]
pub struct FeeShares {
    pub community: u128,
    pub airdrop: u128,
    pub next_round: u128,
    /// The referrer's part; zero where the buyer has none.
    pub affiliate: u128,
    pub p3d: u128,
    pub f3d: u128,
    /// What is left for the prize.
    pub still_in_play: u128,
}

impl FeeShares {
    /// All the parts together.
    pub open spec fn total(self) -> int {
        self.community + self.airdrop + self.next_round + self.affiliate + self.p3d + self.f3d
            + self.still_in_play
    }
}

/// The division of `amount`: 2% to the community, 1% to the airdrop, 1% to
/// the next round, 10% to the referrer, the team's percentages to the
/// dividend wallet and to the key holders, each rounded down, and the rest
/// to the prize. Without a referrer the dividend wallet gets the 10% too.
pub open spec fn purchase_shares(amount: u128, split: FeeSplit, referred: bool) -> FeeShares {
    let tenth = amount / 10;
    let affiliate = if referred {
        tenth
    } else {
        0
    };
    let p3d = (amount * split.p3d / 100 + tenth - affiliate) as u128;
    let f3d = (amount * split.f3d / 100) as u128;
    FeeShares {
        community: amount / 50,
        airdrop: amount / 100,
        next_round: amount / 100,
        affiliate,
        p3d,
        f3d,
        still_in_play: (amount - amount / 50 - amount / 100 - amount / 100 - affiliate - p3d
            - f3d) as u128,
    }
}

/// The division can be computed: the team's percentages leave room for the
/// prize, and no product leaves the integer width.
pub open spec fn purchase_splits(amount: u128, split: FeeSplit) -> bool {
    &&& split.f3d + split.p3d <= FEE_PERCENT_TO_SPLIT
    &&& amount * split.f3d <= u128::MAX
    &&& amount * split.p3d <= u128::MAX
    &&& amount * (FEE_PERCENT_TO_SPLIT - split.f3d - split.p3d) <= u128::MAX
}

/// Divides a purchase of `amount` for a team with the percentages `split`.
/// `referred` says whether the buyer has a referrer.
///
/// The parts add up to `amount` exactly, and the part left for the prize is
/// no less than the percentage that the team leaves in play.
pub fn split_fees(amount: u128, split: FeeSplit, referred: bool) -> (res: Result<
    FeeShares,
    GameError,
>)
    ensures
        res == if purchase_splits(amount, split) {
            Ok::<FeeShares, GameError>(purchase_shares(amount, split, referred))
        } else {
            Err(GameError::CalculationFailure)
        },
        res matches Ok(shares) ==> {
            &&& shares.total() == amount
            &&& shares.still_in_play >= amount * (FEE_PERCENT_TO_SPLIT - split.f3d - split.p3d)
                / 100
        },
{
    if split.f3d > FEE_PERCENT_TO_SPLIT || split.p3d > FEE_PERCENT_TO_SPLIT - split.f3d {
        return Err(GameError::CalculationFailure);
    }
    let pot_percent: u8 = FEE_PERCENT_TO_SPLIT - split.f3d - split.p3d;
    let community: u128 = amount.try_floor_div(50)?;
    let airdrop: u128 = amount.try_floor_div(100)?;
    let next_round: u128 = amount.try_floor_div(100)?;
    let tenth: u128 = amount.try_floor_div(10)?;
    let affiliate: u128 = if referred {
        tenth
    } else {
        0
    };
    let p3d_part: u128 = amount.try_mul(split.p3d as u128)?.try_floor_div(100)?;
    let f3d: u128 = amount.try_mul(split.f3d as u128)?.try_floor_div(100)?;
    // the least that has to remain for the prize must be computable too
    amount.try_mul(pot_percent as u128)?.try_floor_div(100)?;
    proof {
        lemma_purchase_parts_fit(amount as int, split.f3d as int, split.p3d as int);
    }
    let p3d: u128 = p3d_part.try_add(tenth.try_sub(affiliate)?)?;
    let still_in_play: u128 = amount.try_sub(community)?.try_sub(airdrop)?.try_sub(
        next_round,
    )?.try_sub(affiliate)?.try_sub(p3d)?.try_sub(f3d)?;
    Ok(FeeShares { community, airdrop, next_round, affiliate, p3d, f3d, still_in_play })
}

/// The parts of a purchase leave at least the team's percentage for the
/// prize: rounding the parts down can only add to what remains.
pub proof fn lemma_purchase_parts_fit(amount: int, f3d: int, p3d: int)
    requires
        0 <= amount,
        0 <= f3d,
        0 <= p3d,
        f3d + p3d <= 86,
    ensures
        amount / 50 + amount / 100 + amount / 100 + amount / 10 + amount * p3d / 100 + amount
            * f3d / 100 + amount * (86 - f3d - p3d) / 100 <= amount,
        0 <= amount * p3d / 100,
        0 <= amount * f3d / 100,
        0 <= amount * (86 - f3d - p3d) / 100,
{
    let a = amount * p3d;
    let b = amount * f3d;
    let c = amount * (86 - f3d - p3d);
    assert(a >= 0 && b >= 0 && c >= 0 && a + b + c == amount * 86) by (nonlinear_arith)
        requires
            0 <= amount,
            0 <= f3d,
            0 <= p3d,
            f3d + p3d <= 86,
            a == amount * p3d,
            b == amount * f3d,
            c == amount * (86 - f3d - p3d),
    ;
    // Each quotient times its divisor stays below the dividend.
    assert(100 * (a / 100) <= a && 100 * (b / 100) <= b && 100 * (c / 100) <= c);
    assert(50 * (amount / 50) <= amount);
    assert(100 * (amount / 100) <= amount);
    assert(10 * (amount / 10) <= amount);
}

/// How the pot in play is divided when a round is settled.
#[derive(Clone, Copy, Debug, PartialEq, Eq)]
pub struct PotShares {
    pub community: u128,
    pub p3d: u128,
    pub f3d: u128,
    pub next_round: u128,
    /// What the winner gets.
    pub grand_prize: u128,
}

impl PotShares {
    /// All the parts together.
    pub open spec fn total(self) -> int {
        self.community + self.p3d + self.f3d + self.next_round + self.grand_prize
    }
}

/// The division of the pot in play: 2% to the community, the winning team's
/// percentages to the dividend wallet and to the key holders, what these two
/// leave of 50% to the next round, each rounded down, and the rest to the
/// winner.
pub open spec fn settlement_shares(pot: u128, split: PotSplit) -> PotShares {
    let p3d = (pot * split.p3d / 100) as u128;
    let f3d = (pot * split.f3d / 100) as u128;
    let next_round = (pot * (POT_PERCENT_TO_SPLIT - split.p3d - split.f3d) / 100) as u128;
    PotShares {
        community: pot / 50,
        p3d,
        f3d,
        next_round,
        grand_prize: (pot - pot / 50 - f3d - p3d - next_round) as u128,
    }
}

/// The division can be computed: the team's percentages stay within 50, and
/// no product leaves the integer width.
pub open spec fn settlement_splits(pot: u128, split: PotSplit) -> bool {
    &&& split.f3d + split.p3d <= POT_PERCENT_TO_SPLIT
    &&& pot * split.p3d <= u128::MAX
    &&& pot * split.f3d <= u128::MAX
    &&& pot * (POT_PERCENT_TO_SPLIT - split.p3d - split.f3d) <= u128::MAX
    &&& pot * GRAND_PRIZE_PERCENT <= u128::MAX
}

/// Divides the pot in play for a winning team with the percentages `split`.
///
/// The parts add up to `pot` exactly, and the winner gets no less than 48%
/// of it.
pub fn split_pot(pot: u128, split: PotSplit) -> (res: Result<PotShares, GameError>)
    ensures
        res == if settlement_splits(pot, split) {
            Ok::<PotShares, GameError>(settlement_shares(pot, split))
        } else {
            Err(GameError::CalculationFailure)
        },
        res matches Ok(shares) ==> {
            &&& shares.total() == pot
            &&& shares.grand_prize >= pot * GRAND_PRIZE_PERCENT / 100
        },
{
    if split.p3d > POT_PERCENT_TO_SPLIT || split.f3d > POT_PERCENT_TO_SPLIT - split.p3d {
        return Err(GameError::CalculationFailure);
    }
    let next_round_percent: u8 = POT_PERCENT_TO_SPLIT - split.p3d - split.f3d;
    let community: u128 = pot.try_floor_div(50)?;
    let p3d: u128 = pot.try_mul(split.p3d as u128)?.try_floor_div(100)?;
    let f3d: u128 = pot.try_mul(split.f3d as u128)?.try_floor_div(100)?;
    let next_round: u128 = pot.try_mul(next_round_percent as u128)?.try_floor_div(100)?;
    // the least that has to remain for the winner must be computable too
    pot.try_mul(GRAND_PRIZE_PERCENT as u128)?.try_floor_div(100)?;
    proof {
        lemma_settlement_parts_fit(pot as int, split.f3d as int, split.p3d as int);
    }
    let grand_prize: u128 = pot.try_sub(community)?.try_sub(f3d)?.try_sub(p3d)?.try_sub(
        next_round,
    )?;
    Ok(PotShares { community, p3d, f3d, next_round, grand_prize })
}

/// The parts of a settlement leave at least 48% for the winner: rounding
/// the parts down can only add to what remains.
pub proof fn lemma_settlement_parts_fit(pot: int, f3d: int, p3d: int)
    requires
        0 <= pot,
        0 <= f3d,
        0 <= p3d,
        f3d + p3d <= 50,
    ensures
        pot / 50 + pot * p3d / 100 + pot * f3d / 100 + pot * (50 - p3d - f3d) / 100 + pot * 48
            / 100 <= pot,
        0 <= pot * p3d / 100,
        0 <= pot * f3d / 100,
        0 <= pot * (50 - p3d - f3d) / 100,
{
    let a = pot * p3d;
    let b = pot * f3d;
    let c = pot * (50 - p3d - f3d);
    assert(a >= 0 && b >= 0 && c >= 0 && a + b + c == pot * 50) by (nonlinear_arith)
        requires
            0 <= pot,
            0 <= f3d,
            0 <= p3d,
            f3d + p3d <= 50,
            a == pot * p3d,
            b == pot * f3d,
            c == pot * (50 - p3d - f3d),
    ;
    assert(100 * (a / 100) <= a && 100 * (b / 100) <= b && 100 * (c / 100) <= c);
    assert(50 * (pot / 50) <= pot);
    assert(100 * (pot * 48 / 100) <= pot * 48);
}

} // verus!
