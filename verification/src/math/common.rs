use vstd::prelude::*;
use vstd::arithmetic::power::{pow, lemma_pow_increases};
use crate::error::GameError;

verus! {

/// Subtraction that fails rather than going below zero.
pub trait TrySub: Sized {
    /// What `try_sub` returns.
    spec fn sub_outcome(self, rhs: Self) -> Result<Self, GameError>;

    fn try_sub(self, rhs: Self) -> (out: Result<Self, GameError>)
        ensures
            out == self.sub_outcome(rhs),
    ;
}

/// Addition that fails rather than wrapping.
pub trait TryAdd: Sized {
    /// What `try_add` returns.
    spec fn add_outcome(self, rhs: Self) -> Result<Self, GameError>;

    fn try_add(self, rhs: Self) -> (out: Result<Self, GameError>)
        ensures
            out == self.add_outcome(rhs),
    ;
}

/// Division that fails on a zero divisor, rounding down or up.
pub trait TryDiv<RHS>: Sized {
    /// What `try_floor_div` returns.
    spec fn floor_div_outcome(self, rhs: RHS) -> Result<Self, GameError>;

    /// What `try_ceil_div` returns.
    spec fn ceil_div_outcome(self, rhs: RHS) -> Result<Self, GameError>;

    fn try_floor_div(self, rhs: RHS) -> (out: Result<Self, GameError>)
        ensures
            out == self.floor_div_outcome(rhs),
    ;

    fn try_ceil_div(self, rhs: RHS) -> (out: Result<Self, GameError>)
        ensures
            out == self.ceil_div_outcome(rhs),
    ;
}

/// Multiplication that fails rather than wrapping.
pub trait TryMul<RHS>: Sized {
    /// What `try_mul` returns.
    spec fn mul_outcome(self, rhs: RHS) -> Result<Self, GameError>;

    fn try_mul(self, rhs: RHS) -> (out: Result<Self, GameError>)
        ensures
            out == self.mul_outcome(rhs),
    ;
}

/// Exponentiation that fails rather than wrapping.
pub trait TryPow<RHS>: Sized {
    /// What `try_pow` returns.
    spec fn pow_outcome(self, rhs: RHS) -> Result<Self, GameError>;

    fn try_pow(self, rhs: RHS) -> (out: Result<Self, GameError>)
        ensures
            out == self.pow_outcome(rhs),
    ;
}

/// Integer square root, rounded down.
pub trait TrySqrt: Sized {
    /// What `try_sqrt` returns.
    spec fn sqrt_outcome(self) -> Result<Self, GameError>;

    fn try_sqrt(self) -> (out: Result<Self, GameError>)
        ensures
            out == self.sqrt_outcome(),
    ;
}

/// Conversion to a narrower integer that fails rather than truncating.
pub trait TryCast<Target>: Sized {
    /// What `try_cast` returns.
    spec fn cast_outcome(self) -> Result<Target, GameError>;

    fn try_cast(self) -> (out: Result<Target, GameError>)
        ensures
            out == self.cast_outcome(),
    ;
}

/// Remainder that fails on a zero divisor.
pub trait TryRem: Sized {
    /// What `try_rem` returns.
    spec fn rem_outcome(self, rhs: Self) -> Result<Self, GameError>;

    fn try_rem(self, rhs: Self) -> (out: Result<Self, GameError>)
        ensures
            out == self.rem_outcome(rhs),
    ;
}

/// The quotient of two non-negative integers, rounded up.
pub open spec fn ceil_div(dividend: int, divisor: int) -> int {
    (dividend + divisor - 1) / divisor
}

/// `root` is the square root of `radicand`, rounded down.
pub open spec fn is_floor_root(radicand: int, root: int) -> bool {
    0 <= root && root * root <= radicand < (root + 1) * (root + 1)
}

/// The square root of `radicand`, rounded down.
pub open spec fn floor_root(radicand: int) -> int {
    choose|root: int| is_floor_root(radicand, root)
}

/// What a candidate root is worth: it is accepted if it is the square root
/// of `radicand` rounded down, and refused otherwise.
pub open spec fn root_outcome(radicand: u128, candidate: Option<u128>) -> Result<u128, GameError> {
    match candidate {
        Some(root) => if is_floor_root(radicand as int, root as int) {
            Ok(root)
        } else {
            Err(GameError::CalculationFailure)
        },
        None => Err(GameError::CalculationFailure),
    }
}

/// What `spl_math::approximations::sqrt` returns for a `u128` radicand.
pub uninterp spec fn spl_sqrt(radicand: u128) -> Option<u128>;

/// Calls `spl_math::approximations::sqrt`, which works on the radicand alone.
/// Nothing is claimed here about the number it returns: `checked_root`
/// decides whether it is the root, and `try_sqrt` looks for the root itself
/// where it is not.
#[verifier::external_body]
fn approximate_sqrt(radicand: u128) -> (candidate: Option<u128>)
    ensures
        candidate == spl_sqrt(radicand),
{
    spl_math::approximations::sqrt(radicand)
}

/// Accepts `candidate` as the square root of `radicand` if it is the largest
/// integer whose square does not exceed `radicand`.
pub fn checked_root(radicand: u128, candidate: Option<u128>) -> (out: Result<u128, GameError>)
    ensures
        out == root_outcome(radicand, candidate),
{
    match candidate {
        None => Err(GameError::CalculationFailure),
        Some(root) => {
            if root > 0xffff_ffff_ffff_ffff {
                assert(root * root > radicand) by (nonlinear_arith)
                    requires
                        root > 0xffff_ffff_ffff_ffff,
                        radicand <= u128::MAX,
                ;
                return Err(GameError::CalculationFailure);
            }
            assert(root * root <= u128::MAX && (root + 1) * (root + 1) == root * root + 2 * root + 1)
                by (nonlinear_arith)
                requires
                    0 <= root <= 0xffff_ffff_ffff_ffff,
            ;
            let square: u128 = root * root;
            if square > radicand {
                return Err(GameError::CalculationFailure);
            }
            let gap: u128 = radicand - square;
            if gap > 2 * root {
                return Err(GameError::CalculationFailure);
            }
            Ok(root)
        },
    }
}

/// The square root of `radicand`, rounded down, found by halving the range
/// it lies in.
pub fn search_root(radicand: u128) -> (root: u128)
    ensures
        is_floor_root(radicand as int, root as int),
        root == floor_root(radicand as int),
{
    let mut low: u128 = 0;
    let mut high: u128 = 0x1_0000_0000_0000_0000;
    assert(low * low <= radicand < high * high) by (nonlinear_arith)
        requires
            low == 0,
            high == 0x1_0000_0000_0000_0000,
            0 <= radicand <= u128::MAX,
    ;
    while high - low > 1
        invariant
            low < high <= 0x1_0000_0000_0000_0000,
            low * low <= radicand < high * high,
        decreases high - low,
    {
        let middle: u128 = low + (high - low) / 2;
        assert(middle * middle <= u128::MAX) by (nonlinear_arith)
            requires
                0 <= middle < 0x1_0000_0000_0000_0000,
        ;
        if middle * middle <= radicand {
            low = middle;
        } else {
            high = middle;
        }
    }
    proof {
        lemma_floor_root_exists(radicand as int);
        lemma_floor_root_ordered(
            radicand as int,
            low as int,
            radicand as int,
            floor_root(radicand as int),
        );
    }
    low
}

impl TrySub for u128 {
    open spec fn sub_outcome(self, rhs: u128) -> Result<u128, GameError> {
        if self >= rhs {
            Ok((self - rhs) as u128)
        } else {
            Err(GameError::CalculationFailure)
        }
    }

    fn try_sub(self, rhs: u128) -> (out: Result<u128, GameError>) {
        match self.checked_sub(rhs) {
            Some(difference) => Ok(difference),
            None => Err(GameError::CalculationFailure),
        }
    }
}

impl TryAdd for u128 {
    open spec fn add_outcome(self, rhs: u128) -> Result<u128, GameError> {
        if self + rhs <= u128::MAX {
            Ok((self + rhs) as u128)
        } else {
            Err(GameError::CalculationFailure)
        }
    }

    fn try_add(self, rhs: u128) -> (out: Result<u128, GameError>) {
        match self.checked_add(rhs) {
            Some(sum) => Ok(sum),
            None => Err(GameError::CalculationFailure),
        }
    }
}

impl TryDiv<u128> for u128 {
    open spec fn floor_div_outcome(self, rhs: u128) -> Result<u128, GameError> {
        if rhs != 0 {
            Ok(self / rhs)
        } else {
            Err(GameError::CalculationFailure)
        }
    }

    open spec fn ceil_div_outcome(self, rhs: u128) -> Result<u128, GameError> {
        if rhs != 0 {
            Ok(ceil_div(self as int, rhs as int) as u128)
        } else {
            Err(GameError::CalculationFailure)
        }
    }

    fn try_floor_div(self, rhs: u128) -> (out: Result<u128, GameError>) {
        match self.checked_div(rhs) {
            Some(quotient) => Ok(quotient),
            None => Err(GameError::CalculationFailure),
        }
    }

    fn try_ceil_div(self, rhs: u128) -> (out: Result<u128, GameError>) {
        if rhs == 0 {
            return Err(GameError::CalculationFailure);
        }
        let quotient: u128 = self / rhs;
        let remainder: u128 = self % rhs;
        proof {
            lemma_ceil_div_by_parts(self as int, rhs as int);
        }
        if remainder > 0 {
            assert(quotient < u128::MAX) by (nonlinear_arith)
                requires
                    rhs * quotient + remainder == self,
                    0 < remainder < rhs,
                    0 <= quotient,
                    self <= u128::MAX,
            ;
            Ok(quotient + 1)
        } else {
            Ok(quotient)
        }
    }
}

impl TryMul<u128> for u128 {
    open spec fn mul_outcome(self, rhs: u128) -> Result<u128, GameError> {
        if self * rhs <= u128::MAX {
            Ok((self * rhs) as u128)
        } else {
            Err(GameError::CalculationFailure)
        }
    }

    fn try_mul(self, rhs: u128) -> (out: Result<u128, GameError>) {
        match self.checked_mul(rhs) {
            Some(product) => Ok(product),
            None => Err(GameError::CalculationFailure),
        }
    }
}

impl TryPow<u32> for u128 {
    open spec fn pow_outcome(self, rhs: u32) -> Result<u128, GameError> {
        if pow(self as int, rhs as nat) <= u128::MAX {
            Ok(pow(self as int, rhs as nat) as u128)
        } else {
            Err(GameError::CalculationFailure)
        }
    }

    fn try_pow(self, rhs: u32) -> (out: Result<u128, GameError>) {
        broadcast use vstd::arithmetic::power::lemma_pow0;
        if rhs == 0 {
            return Ok(1);
        }
        if self == 0 {
            proof {
                vstd::arithmetic::power::lemma0_pow(rhs as nat);
            }
            return Ok(0);
        }
        if self == 1 {
            proof {
                vstd::arithmetic::power::lemma1_pow(rhs as nat);
            }
            return Ok(1);
        }
        let mut power: u128 = 1;
        let mut done: u32 = 0;
        while done < rhs
            invariant
                done <= rhs,
                self >= 2,
                power == pow(self as int, done as nat),
            decreases rhs - done,
        {
            proof {
                reveal(pow);
                assert(pow(self as int, (done + 1) as nat) == self * pow(self as int, done as nat));
                assert(self * power == power * self) by (nonlinear_arith);
            }
            match power.checked_mul(self) {
                Some(next) => {
                    power = next;
                    done = done + 1;
                },
                None => {
                    proof {
                        lemma_pow_increases(self as nat, (done + 1) as nat, rhs as nat);
                    }
                    return Err(GameError::CalculationFailure);
                },
            }
        }
        Ok(power)
    }
}

impl TrySqrt for u128 {
    open spec fn sqrt_outcome(self) -> Result<u128, GameError> {
        Ok(floor_root(self as int) as u128)
    }

    fn try_sqrt(self) -> (out: Result<u128, GameError>)
        ensures
            out matches Ok(root) && is_floor_root(self as int, root as int),
    {
        match checked_root(self, approximate_sqrt(self)) {
            Ok(root) => {
                proof {
                    lemma_floor_root_exists(self as int);
                    lemma_floor_root_ordered(
                        self as int,
                        root as int,
                        self as int,
                        floor_root(self as int),
                    );
                }
                Ok(root)
            },
            Err(_) => Ok(search_root(self)),
        }
    }
}

impl TryCast<u64> for u128 {
    open spec fn cast_outcome(self) -> Result<u64, GameError> {
        if self <= u64::MAX {
            Ok(self as u64)
        } else {
            Err(GameError::ConversionFailure)
        }
    }

    fn try_cast(self) -> (out: Result<u64, GameError>) {
        if self <= 0xffff_ffff_ffff_ffff {
            Ok(self as u64)
        } else {
            Err(GameError::ConversionFailure)
        }
    }
}

impl TryRem for u128 {
    open spec fn rem_outcome(self, rhs: u128) -> Result<u128, GameError> {
        if rhs != 0 {
            Ok(self % rhs)
        } else {
            Err(GameError::CalculationFailure)
        }
    }

    fn try_rem(self, rhs: u128) -> (out: Result<u128, GameError>) {
        match self.checked_rem(rhs) {
            Some(remainder) => Ok(remainder),
            None => Err(GameError::CalculationFailure),
        }
    }
}

/// Rounding up agrees with rounding down: the two quotients are equal when
/// the division leaves no remainder, and differ by one when it leaves one.
pub proof fn lemma_ceil_div_by_parts(dividend: int, divisor: int)
    requires
        0 <= dividend,
        0 < divisor,
    ensures
        ceil_div(dividend, divisor) == dividend / divisor + if dividend % divisor > 0 {
            1int
        } else {
            0int
        },
        divisor * (dividend / divisor) + dividend % divisor == dividend,
        dividend <= divisor * ceil_div(dividend, divisor) < dividend + divisor,
{
    let q = dividend / divisor;
    let r = dividend % divisor;
    vstd::arithmetic::div_mod::lemma_fundamental_div_mod(dividend, divisor);
    assert(dividend == divisor * q + r);
    if r > 0 {
        assert(divisor * (q + 1) == divisor * q + divisor) by (nonlinear_arith);
        assert((q + 1) * divisor == divisor * (q + 1)) by (nonlinear_arith);
        vstd::arithmetic::div_mod::lemma_fundamental_div_mod_converse(
            dividend + divisor - 1,
            divisor,
            q + 1,
            r - 1,
        );
    } else {
        assert(q * divisor == divisor * q) by (nonlinear_arith);
        vstd::arithmetic::div_mod::lemma_fundamental_div_mod_converse(
            dividend + divisor - 1,
            divisor,
            q,
            divisor - 1,
        );
    }
}

/// Every number from zero on has a square root rounded down.
pub proof fn lemma_floor_root_exists(radicand: int)
    requires
        0 <= radicand,
    ensures
        is_floor_root(radicand, floor_root(radicand)),
    decreases radicand,
{
    if radicand == 0 {
        assert(is_floor_root(0, 0));
    } else {
        lemma_floor_root_exists(radicand - 1);
        let below = floor_root(radicand - 1);
        if (below + 1) * (below + 1) <= radicand {
            assert((below + 2) * (below + 2) > (below + 1) * (below + 1)) by (nonlinear_arith)
                requires
                    0 <= below,
            ;
            assert(is_floor_root(radicand, below + 1));
        } else {
            assert(is_floor_root(radicand, below));
        }
    }
}

/// A number has at most one square root rounded down, and a larger number
/// has no smaller root.
pub proof fn lemma_floor_root_ordered(small: int, small_root: int, large: int, large_root: int)
    requires
        is_floor_root(small, small_root),
        is_floor_root(large, large_root),
        small <= large,
    ensures
        small_root <= large_root,
        small == large ==> small_root == large_root,
{
    assert(small_root <= large_root) by (nonlinear_arith)
        requires
            0 <= small_root,
            0 <= large_root,
            small_root * small_root <= small,
            small <= large,
            large < (large_root + 1) * (large_root + 1),
    ;
    if small == large {
        assert(large_root <= small_root) by (nonlinear_arith)
            requires
                0 <= small_root,
                0 <= large_root,
                large_root * large_root <= large,
                large == small,
                small < (small_root + 1) * (small_root + 1),
        ;
    }
}

} // verus!
