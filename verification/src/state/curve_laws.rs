use vstd::prelude::*;
use crate::state::curve_math::{
    buy_cost, effective_value, invariant_product, lemma_buy_cost_bounds, lemma_quotient_bounds,
    lemma_quotient_monotonic, lemma_quotient_unique, sell_return, trade_fee,
};
use crate::utils::constants::{BPS_DENOMINATOR, TRADE_FEE_BPS};

verus! {

/// Buying more tokens never costs less.
///
/// The cost is rounded down to whole units, so two amounts may cost the same.
/// The larger amount costs strictly more wherever the exact prices of the two
/// lie at least one unit apart, which is what the second condition says.
pub proof fn lemma_buy_cost_increases(real_value: int, tokens: int, fewer: int, more: int)
    requires
        0 <= real_value,
        0 <= fewer < more < tokens,
    ensures
        buy_cost(real_value, tokens, fewer) <= buy_cost(real_value, tokens, more),
        invariant_product(real_value, tokens) * (more - fewer) >= (tokens - fewer) * (tokens - more)
            ==> buy_cost(real_value, tokens, fewer) < buy_cost(real_value, tokens, more),
{
    let k = invariant_product(real_value, tokens);
    let n1 = tokens - fewer;
    let n2 = tokens - more;
    assert(0 <= k) by (nonlinear_arith)
        requires
            k == effective_value(real_value) * tokens,
            0 <= effective_value(real_value),
            0 <= tokens,
    ;
    lemma_quotient_monotonic(k, k, n1, n2);
    if k * (more - fewer) >= n1 * n2 {
        lemma_quotient_step(k, n1, n2);
    }
}

/// Selling more tokens never returns less.
///
/// The return is rounded to whole units, so two amounts may return the same.
/// The larger amount returns strictly more wherever the exact prices of the
/// two lie at least one unit apart, which is what the second condition says.
pub proof fn lemma_sell_return_increases(real_value: int, tokens: int, fewer: int, more: int)
    requires
        0 <= real_value,
        0 <= tokens,
        0 < fewer < more,
    ensures
        sell_return(real_value, tokens, fewer) <= sell_return(real_value, tokens, more),
        invariant_product(real_value, tokens) * (more - fewer) >= (tokens + fewer) * (tokens + more)
            ==> sell_return(real_value, tokens, fewer) < sell_return(real_value, tokens, more),
{
    let k = invariant_product(real_value, tokens);
    let n1 = tokens + more;
    let n2 = tokens + fewer;
    assert(0 <= k) by (nonlinear_arith)
        requires
            k == effective_value(real_value) * tokens,
            0 <= effective_value(real_value),
            0 <= tokens,
    ;
    lemma_quotient_monotonic(k, k, n1, n2);
    if k * (more - fewer) >= n2 * n1 {
        assert(n1 * n2 == n2 * n1) by (nonlinear_arith);
        lemma_quotient_step(k, n1, n2);
    }
}

/// Dividing by a smaller number gives strictly more, if the two exact
/// quotients lie at least one apart.
proof fn lemma_quotient_step(k: int, large: int, small: int)
    requires
        0 <= k,
        0 < small < large,
        k * (large - small) >= large * small,
    ensures
        k / large < k / small,
{
    let q = k / large;
    lemma_quotient_bounds(k, large);
    lemma_quotient_bounds(k, small);
    // k * large >= k * small + large * small >= (q + 1) * small * large
    assert((q + 1) * small <= k) by (nonlinear_arith)
        requires
            q * large <= k,
            0 < small < large,
            k * (large - small) >= large * small,
            0 <= k,
    {
        assert(k * large >= k * small + large * small);
        assert(k * small >= (q * large) * small);
        assert(k * large >= ((q + 1) * small) * large);
    }
    let p = k / small;
    if p <= q {
        assert(p * small + small <= (q + 1) * small) by (nonlinear_arith)
            requires
                p <= q,
                0 < small,
        ;
    }
}

/// A purchase never enlarges the product of effective value and tokens, and
/// takes less from it than there are tokens left: the product afterwards is
/// the largest multiple of the remaining tokens within the product before.
pub proof fn lemma_product_after_buy(real_value: int, tokens: int, amount: int)
    requires
        0 <= real_value,
        0 <= amount < tokens,
    ensures
        ({
            let before = invariant_product(real_value, tokens);
            let after = invariant_product(
                real_value + buy_cost(real_value, tokens, amount),
                tokens - amount,
            );
            &&& after == before - before % (tokens - amount)
            &&& before - (tokens - amount) < after <= before
        }),
{
    let before = invariant_product(real_value, tokens);
    lemma_quotient_bounds(before, tokens - amount);
}

/// A sale never enlarges the product of effective value and tokens, and
/// takes less from it than there are tokens afterwards: the product
/// afterwards is the largest multiple of the new token balance within the
/// product before.
pub proof fn lemma_product_after_sell(real_value: int, tokens: int, amount: int)
    requires
        0 <= real_value,
        0 <= tokens,
        0 < amount,
    ensures
        ({
            let before = invariant_product(real_value, tokens);
            let after = invariant_product(
                real_value - sell_return(real_value, tokens, amount),
                tokens + amount,
            );
            &&& after == before - before % (tokens + amount)
            &&& before - (tokens + amount) < after <= before
        }),
{
    let before = invariant_product(real_value, tokens);
    lemma_quotient_bounds(before, tokens + amount);
}

/// The price at which `amount` tokens are sold back right after they were
/// bought.
pub open spec fn resale_return(real_value: int, tokens: int, amount: int) -> int {
    sell_return(real_value + buy_cost(real_value, tokens, amount), tokens - amount, amount)
}

/// Selling tokens back right after buying them returns the price paid or one
/// unit more, never less; it returns the price paid exactly when the
/// remaining tokens divide the product.
pub proof fn lemma_resale_return(real_value: int, tokens: int, amount: int)
    requires
        0 <= real_value,
        0 < amount < tokens,
    ensures
        ({
            let cost = buy_cost(real_value, tokens, amount);
            let back = resale_return(real_value, tokens, amount);
            &&& 0 <= cost <= back <= cost + 1
            &&& back == cost <==> invariant_product(real_value, tokens) % (tokens - amount) == 0
        }),
{
    let e = effective_value(real_value);
    let k = invariant_product(real_value, tokens);
    let n = tokens - amount;
    let cost = buy_cost(real_value, tokens, amount);
    lemma_quotient_bounds(k, n);
    let raised = k / n;
    let rest = k % n;
    assert(effective_value(real_value + cost) == raised);
    let after = invariant_product(real_value + cost, n);
    assert(after == raised * n);
    assert(after == k - rest);
    assert(n + amount == tokens);
    // The price paid is not negative.
    assert(e * n <= k) by (nonlinear_arith)
        requires
            k == e * tokens,
            0 < n <= tokens,
            0 <= e,
    ;
    lemma_quotient_monotonic(e * n, k, n, n);
    lemma_quotient_unique(e * n, n, e);
    if rest == 0 {
        lemma_quotient_unique(after, tokens, e);
    } else {
        assert((e - 1) * tokens <= after < (e - 1) * tokens + tokens) by (nonlinear_arith)
            requires
                after == e * tokens - rest,
                0 < rest < tokens,
        ;
        lemma_quotient_unique(after, tokens, e - 1);
    }
}

/// What a buyer pays for `amount` tokens, fee included.
pub open spec fn round_trip_paid(real_value: int, tokens: int, amount: int, is_subscribed: bool) -> int {
    let cost = buy_cost(real_value, tokens, amount);
    cost + trade_fee(cost, is_subscribed)
}

/// What the buyer receives for selling the tokens back at once, fee taken
/// out.
pub open spec fn round_trip_received(real_value: int, tokens: int, amount: int, is_subscribed: bool) -> int {
    let back = resale_return(real_value, tokens, amount);
    back - trade_fee(back, is_subscribed)
}

/// Buying tokens and selling them back at once returns no more than was paid
/// exactly in two cases: the remaining tokens divide the product, so that
/// nothing was rounded; or fees are charged on a price of at least 99, so
/// that the fees make up for the unit that rounding gives away.
pub proof fn lemma_round_trip(real_value: int, tokens: int, amount: int, is_subscribed: bool)
    requires
        0 <= real_value,
        0 < amount < tokens,
    ensures
        round_trip_received(real_value, tokens, amount, is_subscribed) <= round_trip_paid(
            real_value,
            tokens,
            amount,
            is_subscribed,
        ) <==> (invariant_product(real_value, tokens) % (tokens - amount) == 0 || (!is_subscribed
            && buy_cost(real_value, tokens, amount) >= 99)),
{
    lemma_resale_return(real_value, tokens, amount);
    let cost = buy_cost(real_value, tokens, amount);
    let back = resale_return(real_value, tokens, amount);
    assert(cost * TRADE_FEE_BPS as int == cost * 100 && back * TRADE_FEE_BPS as int == back * 100)
        by (nonlinear_arith)
        requires
            TRADE_FEE_BPS == 100,
    ;
    assert(BPS_DENOMINATOR == 10000);
}

/// The reserves of a curve: the value that it holds, and the tokens in its
/// vault.
pub struct Reserves {
    pub real_value: int,
    pub tokens: int,
}

/// A trade of some tokens, before fees: fees go past the reserves.
pub enum Trade {
    Buy { amount: int },
    Sell { amount: int },
}

/// The reserves after a trade. A purchase adds its price to the value and
/// takes its tokens out of the vault; a sale does the reverse. A trade that
/// cannot take place leaves the reserves as they are: a trade of nothing, a
/// purchase of all the tokens or more, and a sale whose price the curve does
/// not hold.
pub open spec fn after_trade(reserves: Reserves, trade: Trade) -> Reserves {
    match trade {
        Trade::Buy { amount } => if 0 < amount < reserves.tokens {
            Reserves {
                real_value: reserves.real_value + buy_cost(reserves.real_value, reserves.tokens, amount),
                tokens: reserves.tokens - amount,
            }
        } else {
            reserves
        },
        Trade::Sell { amount } => if 0 < amount && sell_return(
            reserves.real_value,
            reserves.tokens,
            amount,
        ) <= reserves.real_value {
            Reserves {
                real_value: reserves.real_value - sell_return(reserves.real_value, reserves.tokens, amount),
                tokens: reserves.tokens + amount,
            }
        } else {
            reserves
        },
    }
}

/// The reserves after a sequence of trades, one after the other.
pub open spec fn after_trades(reserves: Reserves, trades: Seq<Trade>) -> Reserves
    decreases trades.len(),
{
    if trades.len() == 0 {
        reserves
    } else {
        after_trade(after_trades(reserves, trades.drop_last()), trades.last())
    }
}

/// Whatever is traded, in whatever order, the product of effective value and
/// tokens never grows, and the reserves never turn negative.
pub proof fn lemma_product_never_grows(reserves: Reserves, trades: Seq<Trade>)
    requires
        0 <= reserves.real_value,
        0 <= reserves.tokens,
    ensures
        ({
            let end = after_trades(reserves, trades);
            &&& 0 <= end.real_value
            &&& 0 <= end.tokens
            &&& invariant_product(end.real_value, end.tokens) <= invariant_product(
                reserves.real_value,
                reserves.tokens,
            )
        }),
    decreases trades.len(),
{
    if trades.len() > 0 {
        lemma_product_never_grows(reserves, trades.drop_last());
        let before = after_trades(reserves, trades.drop_last());
        match trades.last() {
            Trade::Buy { amount } => {
                if 0 < amount < before.tokens {
                    lemma_product_after_buy(before.real_value, before.tokens, amount);
                    lemma_buy_cost_bounds(before.real_value, before.tokens, amount);
                }
            },
            Trade::Sell { amount } => {
                if 0 < amount && sell_return(before.real_value, before.tokens, amount)
                    <= before.real_value {
                    lemma_product_after_sell(before.real_value, before.tokens, amount);
                }
            },
        }
    }
}

} // verus!
