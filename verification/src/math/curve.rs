use vstd::prelude::*;
use crate::error::GameError;
use crate::math::common::{
    floor_root, is_floor_root, lemma_floor_root_exists, lemma_floor_root_ordered, TryAdd, TryMul,
    TrySqrt, TrySub,
};

verus! {

/// Price of the first key, in sixty-fourths of the smallest unit, less the
/// five that each key adds to the next.
pub const BASE_PRICE: u128 = 4_799_995;

/// `BASE_PRICE` squared.
pub const BASE_PRICE_SQUARED: u128 = 23_039_952_000_025;

/// What `keys` keys cost, in sixty-fourths of the smallest unit: each key
/// costs ten sixty-fourths more than the one before it, and the first costs
/// 75,000 units.
pub open spec fn cost(keys: int) -> int {
    5 * keys * keys + BASE_PRICE * keys
}

/// A pot of `pot` pays for `keys` keys and not for one more.
pub open spec fn pays_for(pot: int, keys: int) -> bool {
    0 <= keys && cost(keys) <= 64 * pot < cost(keys + 1)
}

/// The keys that a pot of `pot` pays for.
pub open spec fn keys_of(pot: int) -> int {
    choose|keys: int| pays_for(pot, keys)
}

/// The number whose root gives the keys of a pot.
pub open spec fn radicand(pot: int) -> int {
    1280 * pot + BASE_PRICE_SQUARED
}

/// The keys of `pot` can be computed: the radicand fits the integer width.
pub open spec fn priced(pot: int) -> bool {
    0 <= pot && radicand(pot) <= u128::MAX
}

/// What `keys_received` returns: the keys of the pot after the purchase
/// less the keys of the pot before it.
pub open spec fn keys_received_outcome(pot: u128, added: u128) -> Result<u128, GameError> {
    if priced(pot as int) && priced(pot + added) {
        Ok((keys_of(pot + added) - keys_of(pot as int)) as u128)
    } else {
        Err(GameError::CalculationFailure)
    }
}

/// The keys that a root stands for.
pub fn keys_from_root(pot: u128, root: u128) -> (keys: u128)
    requires
        radicand(pot as int) <= u128::MAX,
        is_floor_root(radicand(pot as int), root as int),
    ensures
        pays_for(pot as int, keys as int),
        keys == keys_of(pot as int),
{
    proof {
        lemma_root_reaches_base(pot as int, root as int);
    }
    let keys: u128 = (root - BASE_PRICE) / 10;
    proof {
        lemma_root_gives_keys(pot as int, root as int, keys as int);
        lemma_keys_unique(pot as int, keys as int, keys_of(pot as int));
    }
    keys
}

/// The keys that a pot of `pot` pays for.
pub fn keys_for_pot(pot: u128) -> (res: Result<u128, GameError>)
    ensures
        res == if priced(pot as int) {
            Ok::<u128, GameError>(keys_of(pot as int) as u128)
        } else {
            Err(GameError::CalculationFailure)
        },
        res matches Ok(keys) ==> pays_for(pot as int, keys as int),
{
    let scaled: u128 = pot.try_mul(1280)?;
    let under_root: u128 = scaled.try_add(BASE_PRICE_SQUARED)?;
    let root: u128 = under_root.try_sqrt()?;
    Ok(keys_from_root(pot, root))
}

/// The keys that `added` buys in a round whose pot holds `pot`. They can
/// be computed for every pot that stays below `u128::MAX / 1280` less a
/// little with the purchase.
///
/// More money never buys fewer keys, and nothing buys nothing; see
/// `lemma_keys_received_monotonic` and `lemma_nothing_buys_nothing`.
pub fn keys_received(pot: u128, added: u128) -> (res: Result<u128, GameError>)
    ensures
        res == keys_received_outcome(pot, added),
{
    let before: u128 = keys_for_pot(pot)?;
    let total: u128 = pot.try_add(added)?;
    let after: u128 = keys_for_pot(total)?;
    proof {
        lemma_keys_monotonic(pot as int, before as int, total as int, after as int);
    }
    after.try_sub(before)
}

/// The root of a radicand is no smaller than the base price.
proof fn lemma_root_reaches_base(pot: int, root: int)
    requires
        0 <= pot,
        is_floor_root(radicand(pot), root),
    ensures
        root >= BASE_PRICE,
{
    assert(BASE_PRICE * BASE_PRICE == BASE_PRICE_SQUARED) by (nonlinear_arith);
    lemma_floor_root_ordered(BASE_PRICE_SQUARED as int, BASE_PRICE as int, radicand(pot), root);
}

/// The keys read off the root are the keys the pot pays for.
proof fn lemma_root_gives_keys(pot: int, root: int, keys: int)
    requires
        0 <= pot,
        is_floor_root(radicand(pot), root),
        root >= BASE_PRICE,
        keys == (root - BASE_PRICE) / 10,
    ensures
        pays_for(pot, keys),
{
    let b = BASE_PRICE as int;
    assert(b * b == BASE_PRICE_SQUARED) by (nonlinear_arith)
        requires
            b == 4_799_995,
    ;
    let low = 10 * keys + b;
    assert(low <= root < low + 10);
    // (10k + b)^2 = 20 * cost(k) + b^2
    assert(low * low == 20 * cost(keys) + b * b) by (nonlinear_arith)
        requires
            low == 10 * keys + b,
            cost(keys) == 5 * keys * keys + b * keys,
    ;
    assert((low + 10) * (low + 10) == 20 * cost(keys + 1) + b * b) by (nonlinear_arith)
        requires
            low == 10 * keys + b,
            cost(keys + 1) == 5 * (keys + 1) * (keys + 1) + b * (keys + 1),
    ;
    assert(low * low <= root * root) by (nonlinear_arith)
        requires
            0 <= low <= root,
    ;
    assert((root + 1) * (root + 1) <= (low + 10) * (low + 10)) by (nonlinear_arith)
        requires
            0 <= root,
            root + 1 <= low + 10,
    ;
}

/// A pot pays for one number of keys only, and a larger pot for no fewer.
pub proof fn lemma_keys_monotonic(small: int, small_keys: int, large: int, large_keys: int)
    requires
        pays_for(small, small_keys),
        pays_for(large, large_keys),
        small <= large,
    ensures
        small_keys <= large_keys,
{
    if small_keys > large_keys {
        lemma_cost_increases(large_keys + 1, small_keys);
    }
}

/// What keys cost grows with their number.
pub proof fn lemma_cost_increases(fewer: int, more: int)
    requires
        0 <= fewer <= more,
    ensures
        cost(fewer) <= cost(more),
{
    assert(5 * fewer * fewer + BASE_PRICE * fewer <= 5 * more * more + BASE_PRICE * more)
        by (nonlinear_arith)
        requires
            0 <= fewer <= more,
    ;
}

/// A pot pays for one number of keys only.
pub proof fn lemma_keys_unique(pot: int, keys: int, other: int)
    requires
        pays_for(pot, keys),
    ensures
        pays_for(pot, other) ==> other == keys,
        keys_of(pot) == keys,
{
    if pays_for(pot, other) {
        lemma_keys_monotonic(pot, keys, pot, other);
        lemma_keys_monotonic(pot, other, pot, keys);
    }
    let chosen = keys_of(pot);
    assert(pays_for(pot, chosen));
    lemma_keys_monotonic(pot, keys, pot, chosen);
    lemma_keys_monotonic(pot, chosen, pot, keys);
}

/// Whenever the keys of a pot can be computed, they are what the pot pays
/// for.
pub proof fn lemma_priced_pays(pot: int)
    requires
        priced(pot),
    ensures
        pays_for(pot, keys_of(pot)),
{
    lemma_floor_root_exists(radicand(pot));
    let root = floor_root(radicand(pot));
    lemma_root_reaches_base(pot, root);
    let keys = (root - BASE_PRICE) / 10;
    lemma_root_gives_keys(pot, root, keys);
    lemma_keys_unique(pot, keys, keys);
}

/// The curve is monotonic in what is paid: at the same pot, a larger
/// payment never buys fewer keys.
pub proof fn lemma_keys_received_monotonic(pot: u128, less: u128, more: u128)
    requires
        less <= more,
        keys_received_outcome(pot, less) is Ok,
        keys_received_outcome(pot, more) is Ok,
    ensures
        keys_received_outcome(pot, less)->Ok_0 <= keys_received_outcome(pot, more)->Ok_0,
{
    lemma_priced_pays(pot as int);
    lemma_priced_pays(pot + less);
    lemma_priced_pays(pot + more);
    lemma_keys_monotonic(pot as int, keys_of(pot as int), pot + less, keys_of(pot + less));
    lemma_keys_monotonic(pot + less, keys_of(pot + less), pot + more, keys_of(pot + more));
}

/// A payment of nothing buys no key.
pub proof fn lemma_nothing_buys_nothing(pot: u128)
    ensures
        keys_received_outcome(pot, 0) matches Ok(keys) ==> keys == 0,
{
}

/// Buying in two steps gives the keys of buying at once.
pub proof fn lemma_keys_received_adds_up(pot: u128, first: u128, second: u128)
    requires
        pot + first + second <= u128::MAX,
        keys_received_outcome(pot, first) is Ok,
        keys_received_outcome((pot + first) as u128, second) is Ok,
    ensures
        keys_received_outcome(pot, (first + second) as u128) == Ok::<u128, GameError>(
            (keys_received_outcome(pot, first)->Ok_0 + keys_received_outcome(
                (pot + first) as u128,
                second,
            )->Ok_0) as u128,
        ),
{
    lemma_priced_pays(pot as int);
    lemma_priced_pays(pot + first);
    lemma_priced_pays(pot + first + second);
    lemma_keys_monotonic(pot as int, keys_of(pot as int), pot + first, keys_of(pot + first));
    lemma_keys_monotonic(
        pot + first,
        keys_of(pot + first),
        pot + first + second,
        keys_of(pot + first + second),
    );
}

/// In an empty round the first key costs 75,000 units: less buys none, and
/// as much buys one.
pub proof fn lemma_first_key_price(added: u128)
    requires
        keys_received_outcome(0, added) is Ok,
    ensures
        added < 75_000 ==> keys_received_outcome(0, added)->Ok_0 == 0,
        added >= 75_000 ==> keys_received_outcome(0, added)->Ok_0 >= 1,
{
    lemma_priced_pays(0);
    lemma_priced_pays(added as int);
    assert(pays_for(0, 0));
    lemma_keys_unique(0, 0, 0);
    let keys = keys_of(added as int);
    if added < 75_000 {
        if keys >= 1 {
            lemma_cost_increases(1, keys);
        }
    } else {
        if keys < 1 {
            assert(cost(1) == 4_800_000);
        }
    }
}

/// Each key costs ten sixty-fourths of a unit more than the key before
/// it, and the first costs 75,000 units.
pub proof fn lemma_price_rises(keys: int)
    requires
        0 <= keys,
    ensures
        cost(keys + 1) - cost(keys) == 4_800_000 + 10 * keys,
        cost(keys + 2) - cost(keys + 1) == cost(keys + 1) - cost(keys) + 10,
{
    assert(cost(keys + 1) - cost(keys) == 4_800_000 + 10 * keys) by (nonlinear_arith)
        requires
            cost(keys + 1) == 5 * (keys + 1) * (keys + 1) + 4_799_995 * (keys + 1),
            cost(keys) == 5 * keys * keys + 4_799_995 * keys,
    ;
    assert(cost(keys + 2) - cost(keys + 1) == 4_800_000 + 10 * (keys + 1)) by (nonlinear_arith)
        requires
            cost(keys + 2) == 5 * (keys + 2) * (keys + 2) + 4_799_995 * (keys + 2),
            cost(keys + 1) == 5 * (keys + 1) * (keys + 1) + 4_799_995 * (keys + 1),
    ;
}

/// What `more` further keys cost once `held` are paid for.
proof fn lemma_cost_of_further_keys(held: int, more: int)
    ensures
        cost(held + more) - cost(held) == more * (10 * held + 5 * more + BASE_PRICE),
{
    assert(5 * (held + more) * (held + more) + 4_799_995 * (held + more) - (5 * held * held
        + 4_799_995 * held) == more * (10 * held + 5 * more + 4_799_995)) by (nonlinear_arith);
}

/// Keys get dearer as the pot grows: the same payment buys in a larger pot
/// at most one key more than in a smaller one, and that one only because
/// keys are whole.
pub proof fn lemma_keys_get_dearer(small_pot: u128, large_pot: u128, added: u128)
    requires
        small_pot <= large_pot,
        keys_received_outcome(small_pot, added) is Ok,
        keys_received_outcome(large_pot, added) is Ok,
    ensures
        keys_received_outcome(large_pot, added)->Ok_0 <= keys_received_outcome(
            small_pot,
            added,
        )->Ok_0 + 1,
{
    lemma_priced_pays(small_pot as int);
    lemma_priced_pays(small_pot + added);
    lemma_priced_pays(large_pot as int);
    lemma_priced_pays(large_pot + added);
    let k1 = keys_of(small_pot as int);
    let k1_after = keys_of(small_pot + added);
    let k2 = keys_of(large_pot as int);
    let k2_after = keys_of(large_pot + added);
    lemma_keys_monotonic(small_pot as int, k1, small_pot + added, k1_after);
    lemma_keys_monotonic(large_pot as int, k2, large_pot + added, k2_after);
    lemma_keys_monotonic(small_pot as int, k1, large_pot as int, k2);
    let n1 = k1_after - k1;
    let n2 = k2_after - k2;
    if n2 >= n1 + 2 {
        // The keys of the larger pot beyond the first cost less than the payment,
        // the keys of the smaller pot and one more cost more than it.
        assert(cost(k2_after) - cost(k2 + 1) < 64 * added);
        assert(cost(k1_after + 1) - cost(k1) > 64 * added);
        lemma_cost_increases(k2 + n1 + 2, k2_after);
        lemma_cost_of_further_keys(k2 + 1, n1 + 1);
        lemma_cost_of_further_keys(k1, n1 + 1);
        assert((n1 + 1) * (10 * (k2 + 1) + 5 * (n1 + 1) + BASE_PRICE) >= (n1 + 1) * (10 * k1 + 5
            * (n1 + 1) + BASE_PRICE)) by (nonlinear_arith)
            requires
                0 <= n1,
                0 <= k1 <= k2,
        ;
    }
}

} // verus!
